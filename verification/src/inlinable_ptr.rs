use vstd::prelude::*;

verus! {

/// The storage of an inline-or-heap cell: either the value itself sits in
/// the cell, or the cell carries an owning pointer to a relocated copy. The
/// discriminant plays the role of the low tag bit of a hand-tagged slot.
enum Slot<T> {
    Inline(T),
    Heap(Box<T>),
}

/// The fitting test of the plain (sized) cell: the value's bytes go
/// directly into a pointer-sized slot when they are no larger and no more
/// aligned than the slot itself.
pub open spec fn fits_direct<T>() -> bool {
    &&& vstd::layout::size_of::<T>() <= vstd::layout::size_of::<usize>()
    &&& vstd::layout::align_of::<T>() <= vstd::layout::align_of::<usize>()
}

/// The fitting test of the dynamically-dispatched cell: its slot budget
/// leaves room for an inline tag, so the value's data may claim at most
/// half the pointer width in size and in alignment; anything larger always
/// takes the heap path.
pub open spec fn fits_tagged<T>() -> bool {
    &&& vstd::layout::size_of::<T>() <= vstd::layout::size_of::<usize>() / 2
    &&& vstd::layout::align_of::<T>() <= vstd::layout::align_of::<usize>() / 2
}

/// A small-object-optimized indirection over a plain value: the value is
/// stored inline in a pointer-sized slot when it fits, and behind a heap
/// pointer obtained from a caller-supplied allocation callback otherwise.
/// The representation is decided once, at construction, from the type's
/// size and alignment alone, and never changes afterward.
pub struct InlinablePtr<T> {
    slot: Slot<T>,
}

impl<T> View for InlinablePtr<T> {
    type V = T;

    closed spec fn view(&self) -> T {
        match self.slot {
            Slot::Inline(v) => v,
            Slot::Heap(b) => *b,
        }
    }
}

impl<T> InlinablePtr<T> {
    /// Whether the value sits inline in the slot (as opposed to behind the
    /// heap pointer).
    pub closed spec fn is_inline(&self) -> bool {
        self.slot is Inline
    }

    /// Construct the cell from a value and a heap-allocation callback. The
    /// callback is consulted only on the heap path, exactly once, with the
    /// value being stored; whatever box it returns becomes the cell's
    /// storage.
    pub fn new<F: FnOnce(T) -> Box<T>>(val: T, alloc: F) -> (r: Self)
        requires
            !fits_direct::<T>() ==> call_requires(alloc, (val,)),
        ensures
            r.is_inline() == fits_direct::<T>(),
            fits_direct::<T>() ==> r@ == val,
            !fits_direct::<T>() ==> exists|b: Box<T>| call_ensures(alloc, (val,), b) && r@ == *b,
    {
        let fits: bool = core::mem::size_of::<T>() <= core::mem::size_of::<usize>()
            && core::mem::align_of::<T>() <= core::mem::align_of::<usize>();
        if fits {
            InlinablePtr { slot: Slot::Inline(val) }
        } else {
            InlinablePtr { slot: Slot::Heap(alloc(val)) }
        }
    }

    /// Read the stored value, wherever it lives.
    pub fn as_ref(&self) -> (r: &T)
        ensures
            *r == self@,
    {
        match &self.slot {
            Slot::Inline(v) => v,
            Slot::Heap(b) => &**b,
        }
    }

    /// Get mutable access to the stored value, wherever it lives. The
    /// representation itself does not change.
    pub fn as_mut(&mut self) -> (r: &mut T)
        ensures
            *r == old(self)@,
            final(self)@ == *final(r),
            final(self).is_inline() == old(self).is_inline(),
    {
        match &mut self.slot {
            Slot::Inline(v) => v,
            Slot::Heap(b) => &mut **b,
        }
    }

    /// Whether the value was stored inline; the executable mirror of the
    /// representation tag.
    pub fn stored_inline(&self) -> (r: bool)
        ensures
            r == self.is_inline(),
    {
        match &self.slot {
            Slot::Inline(_) => true,
            Slot::Heap(_) => false,
        }
    }
}

/// The small-object-optimized indirection for values used only through a
/// dynamic-dispatch interface: alongside the inline-or-heap slot for the
/// value's data, the cell keeps the dispatch descriptor — the table of
/// operations needed to call through the interface — as an ordinary second
/// field, so it is preserved whichever path the data takes (the descriptor
/// itself is never inlined into the data slot).
pub struct InlinableDynPtr<T, D> {
    descr: D,
    slot: Slot<T>,
}

impl<T, D> View for InlinableDynPtr<T, D> {
    type V = T;

    closed spec fn view(&self) -> T {
        match self.slot {
            Slot::Inline(v) => v,
            Slot::Heap(b) => *b,
        }
    }
}

impl<T, D> InlinableDynPtr<T, D> {
    /// Whether the value's data sits inline in the slot.
    pub closed spec fn is_inline(&self) -> bool {
        self.slot is Inline
    }

    /// The stored dispatch descriptor.
    pub closed spec fn descriptor_spec(&self) -> D {
        self.descr
    }

    /// Construct the cell from a value, the descriptor of its interface,
    /// and a heap-allocation callback. The data goes inline exactly when it
    /// passes the halved fitting test; the callback is consulted only on
    /// the heap path, exactly once, with the value being stored. The
    /// descriptor is kept either way.
    pub fn new<F: FnOnce(T) -> Box<T>>(val: T, descr: D, alloc: F) -> (r: Self)
        requires
            !fits_tagged::<T>() ==> call_requires(alloc, (val,)),
        ensures
            r.is_inline() == fits_tagged::<T>(),
            r.descriptor_spec() == descr,
            fits_tagged::<T>() ==> r@ == val,
            !fits_tagged::<T>() ==> exists|b: Box<T>| call_ensures(alloc, (val,), b) && r@ == *b,
    {
        let fits: bool = core::mem::size_of::<T>() <= core::mem::size_of::<usize>() / 2
            && core::mem::align_of::<T>() <= core::mem::align_of::<usize>() / 2;
        if fits {
            InlinableDynPtr { descr, slot: Slot::Inline(val) }
        } else {
            InlinableDynPtr { descr, slot: Slot::Heap(alloc(val)) }
        }
    }

    /// Read the stored value's data, wherever it lives; together with
    /// `descriptor` this reconstitutes the interface reference.
    pub fn as_ref(&self) -> (r: &T)
        ensures
            *r == self@,
    {
        match &self.slot {
            Slot::Inline(v) => v,
            Slot::Heap(b) => &**b,
        }
    }

    /// Get mutable access to the stored value's data, wherever it lives.
    /// Neither the representation nor the descriptor changes.
    pub fn as_mut(&mut self) -> (r: &mut T)
        ensures
            *r == old(self)@,
            final(self)@ == *final(r),
            final(self).is_inline() == old(self).is_inline(),
            final(self).descriptor_spec() == old(self).descriptor_spec(),
    {
        match &mut self.slot {
            Slot::Inline(v) => v,
            Slot::Heap(b) => &mut **b,
        }
    }

    /// Read the stored dispatch descriptor.
    pub fn descriptor(&self) -> (r: &D)
        ensures
            *r == self.descriptor_spec(),
    {
        &self.descr
    }

    /// Whether the value's data was stored inline; the executable mirror of
    /// the representation tag.
    pub fn stored_inline(&self) -> (r: bool)
        ensures
            r == self.is_inline(),
    {
        match &self.slot {
            Slot::Inline(_) => true,
            Slot::Heap(_) => false,
        }
    }
}

/// Inline-or-heap round trip for the plain cell: whichever path
/// construction took, the value read back out of the cell is the value that
/// was stored, provided the allocation callback relocates its argument
/// unchanged. The hypotheses are exactly what `InlinablePtr::new` ensures.
pub proof fn lemma_cell_round_trip<T, F: FnOnce(T) -> Box<T>>(
    c: InlinablePtr<T>,
    val: T,
    alloc: F,
)
    requires
        fits_direct::<T>() ==> c@ == val,
        !fits_direct::<T>() ==> exists|b: Box<T>| call_ensures(alloc, (val,), b) && c@ == *b,
        forall|v: T, b: Box<T>| call_ensures(alloc, (v,), b) ==> *b == v,
    ensures
        c@ == val,
{
    if !fits_direct::<T>() {
        let b = choose|b: Box<T>| call_ensures(alloc, (val,), b) && c@ == *b;
        assert(*b == val);
    }
}

/// Inline-or-heap round trip for the dynamically-dispatched cell: as for
/// the plain cell, the data read back is the data stored, on either path,
/// provided the allocation callback relocates its argument unchanged.
pub proof fn lemma_dyn_cell_round_trip<T, D, F: FnOnce(T) -> Box<T>>(
    c: InlinableDynPtr<T, D>,
    val: T,
    alloc: F,
)
    requires
        fits_tagged::<T>() ==> c@ == val,
        !fits_tagged::<T>() ==> exists|b: Box<T>| call_ensures(alloc, (val,), b) && c@ == *b,
        forall|v: T, b: Box<T>| call_ensures(alloc, (v,), b) ==> *b == v,
    ensures
        c@ == val,
{
    if !fits_tagged::<T>() {
        let b = choose|b: Box<T>| call_ensures(alloc, (val,), b) && c@ == *b;
        assert(*b == val);
    }
}

/// Dynamic-dispatch round trip: any call made through the reconstituted
/// interface — the stored descriptor applied to the read-back data — gives
/// the same result as the same call made through the original descriptor
/// and value before storage.
pub proof fn lemma_dyn_dispatch_round_trip<T, D, R>(
    c: InlinableDynPtr<T, D>,
    val: T,
    descr: D,
    call: spec_fn(D, T) -> R,
)
    requires
        c@ == val,
        c.descriptor_spec() == descr,
    ensures
        call(c.descriptor_spec(), c@) == call(descr, val),
{
}

} // verus!
