use vstd::prelude::*;

verus! {

/// The three states of the lock word: the unlocked state itself carries one
/// bit of payload ("a value is present" / "the slot is logically empty"),
/// and `Locked` means a guard is outstanding.
#[derive(Clone, Copy, Debug, PartialEq, Eq, Structural)]
pub enum LockState {
    UnlockedFull,
    UnlockedEmpty,
    Locked,
}

/// What an acquisition attempt must do after observing the lock word: take
/// the lock, report that no value is present, or back off and observe again
/// because another holder has the lock.
#[derive(Clone, Copy, Debug, PartialEq, Eq, Structural)]
pub enum LockAttempt {
    Acquire,
    NoValue,
    Retry,
}

/// The decision at the heart of the acquisition protocol: from the full
/// state the lock is taken, the empty state is answered at once with "no
/// value" (a content check, not contention), and only an already-held lock
/// is retried after backoff. A driver loop running concurrently performs
/// the returned action with one atomic exchange and hands the next observed
/// state back in.
pub fn lock_step(observed: LockState) -> (r: LockAttempt)
    ensures
        (r is Acquire) <==> (observed is UnlockedFull),
        (r is NoValue) <==> (observed is UnlockedEmpty),
        (r is Retry) <==> (observed is Locked),
{
    match observed {
        LockState::UnlockedFull => LockAttempt::Acquire,
        LockState::UnlockedEmpty => LockAttempt::NoValue,
        LockState::Locked => LockAttempt::Retry,
    }
}

/// The state acquisition succeeds from: the unlocked state whose payload is
/// present.
pub open spec fn acquires_from(s: LockState) -> bool {
    s is UnlockedFull
}

/// The state acquisition answers "no value" from: the unlocked state whose
/// payload is logically absent.
pub open spec fn no_value_from(s: LockState) -> bool {
    s is UnlockedEmpty
}

/// The state that releasing a guard restores, by the guard's tag.
pub open spec fn released_state(full: bool) -> LockState {
    if full {
        LockState::UnlockedFull
    } else {
        LockState::UnlockedEmpty
    }
}

/// A mutual-exclusion primitive over a single value where the unlocked state
/// records whether the value is logically present. Acquisition fails (rather
/// than blocks) when the value is absent.
///
/// While the lock is held, the payload itself is owned by the guard, so a
/// second guard for the same hold is impossible by ownership alone.
pub struct Mutex<T> {
    state: LockState,
    slot: Option<T>,
}

/// A capability proving the lock is currently held, tagged at the type level
/// with whether release should restore the full or the empty state. It owns
/// the payload for the duration of the hold.
pub struct MutexGuard<T, const FULL: bool> {
    val: T,
}

impl<T, const FULL: bool> View for MutexGuard<T, FULL> {
    type V = T;

    closed spec fn view(&self) -> T {
        self.val
    }
}

impl<T> Mutex<T> {
    /// The current state of the lock word.
    pub closed spec fn lock_state(&self) -> LockState {
        self.state
    }

    /// The payload currently resting in the lock's slot; `None` while a
    /// guard holds it.
    pub closed spec fn slot_value(&self) -> Option<T> {
        self.slot
    }

    /// Well-formedness: the slot is vacated exactly while the lock is held
    /// (the payload then lives in the unique guard).
    pub open spec fn wf(&self) -> bool {
        (self.lock_state() is Locked) <==> (self.slot_value() is None)
    }

    /// Construct a lock whose value is logically present.
    pub fn new_full(val: T) -> (m: Self)
        ensures
            m.wf(),
            m.lock_state() is UnlockedFull,
            m.slot_value() == Some(val),
    {
        Mutex { state: LockState::UnlockedFull, slot: Some(val) }
    }

    /// Construct a lock whose value is logically absent. The slot still
    /// physically carries `val`; it is handed out only once the lock has
    /// been refilled through a guard.
    pub fn new_empty(val: T) -> (m: Self)
        ensures
            m.wf(),
            m.lock_state() is UnlockedEmpty,
            m.slot_value() == Some(val),
    {
        Mutex { state: LockState::UnlockedEmpty, slot: Some(val) }
    }

    /// Attempt to acquire the lock. From the full state this succeeds and
    /// the guard takes the payload; from the empty state it returns `None`
    /// (a content check, not an error). Exclusive access already rules out
    /// a concurrent holder here, so the lock word cannot read `Locked`; the
    /// contended retry-with-backoff path exists only in a concurrent driver
    /// built on `lock_step`.
    pub fn lock(&mut self) -> (r: Option<MutexGuard<T, true>>)
        requires
            old(self).wf(),
            !(old(self).lock_state() is Locked),
        ensures
            final(self).wf(),
            (r is Some) <==> acquires_from(old(self).lock_state()),
            (r is None) <==> no_value_from(old(self).lock_state()),
            r is Some ==> {
                &&& final(self).lock_state() is Locked
                &&& final(self).slot_value() is None
                &&& Some(r.unwrap()@) == old(self).slot_value()
            },
            r is None ==> *final(self) == *old(self),
    {
        match lock_step(self.state) {
            LockAttempt::Acquire => {
                self.state = LockState::Locked;
                let taken = self.slot.take();
                match taken {
                    Some(v) => Some(MutexGuard { val: v }),
                    None => {
                        proof {
                            assert(false);
                        }
                        None
                    }
                }
            }
            LockAttempt::NoValue => None,
            LockAttempt::Retry => {
                proof {
                    assert(false);
                }
                None
            }
        }
    }
}

impl<T> MutexGuard<T, true> {
    /// Consume this full-tagged guard and take over the hold with an
    /// empty-tagged guard for the same hold: release will then restore the
    /// empty state instead of the full one. The lock stays held throughout
    /// and the payload moves with the capability, so the hold is still
    /// released exactly once.
    pub fn empty(self) -> (r: MutexGuard<T, false>)
        ensures
            r@ == self@,
    {
        MutexGuard { val: self.val }
    }
}

impl<T> MutexGuard<T, false> {
    /// The mirror of `empty`: consume this empty-tagged guard and take over
    /// the hold with a full-tagged one.
    pub fn fill(self) -> (r: MutexGuard<T, true>)
        ensures
            r@ == self@,
    {
        MutexGuard { val: self.val }
    }
}

impl<T, const FULL: bool> MutexGuard<T, FULL> {
    /// Read the guarded value.
    pub fn borrow(&self) -> (r: &T)
        ensures
            *r == self@,
    {
        &self.val
    }

    /// Get mutable access to the guarded value.
    pub fn borrow_mut(&mut self) -> (r: &mut T)
        ensures
            *r == old(self)@,
            final(self)@ == *final(r),
    {
        &mut self.val
    }

    /// Release the hold on `m`: the payload returns to the slot and the
    /// lock word becomes the unlocked state the guard's tag names — full
    /// for a full-tagged guard, empty for an empty-tagged one, never
    /// anything else. Consuming the guard is the only way to release, so
    /// one hold is released exactly once.
    pub fn unlock(self, m: &mut Mutex<T>)
        requires
            old(m).lock_state() is Locked,
        ensures
            final(m).wf(),
            final(m).slot_value() == Some(self@),
            final(m).lock_state() == released_state(FULL),
    {
        m.slot = Some(self.val);
        m.state = if FULL {
            LockState::UnlockedFull
        } else {
            LockState::UnlockedEmpty
        };
    }
}

/// Mutual exclusion, stated over the model: while the lock is held the slot
/// is vacated, so the payload of one hold lives in exactly one guard, and
/// `lock` (whose contract hands out a guard only from the unlocked-full
/// state) can never produce a second guard for the same hold.
pub proof fn lemma_mutual_exclusion<T>(m: Mutex<T>)
    requires
        m.wf(),
        m.lock_state() is Locked,
    ensures
        m.slot_value() is None,
{
}

/// State fidelity: the state a full-tagged release restores is exactly the
/// state acquisition succeeds from, and the state an empty-tagged release
/// restores is exactly the state acquisition answers "no value" from — in
/// particular never, not even transiently, the full one (the model has no
/// state between a release and the one unlocked state it writes).
pub proof fn lemma_state_fidelity()
    ensures
        acquires_from(released_state(true)),
        !no_value_from(released_state(true)),
        no_value_from(released_state(false)),
        !acquires_from(released_state(false)),
{
}

} // verus!
