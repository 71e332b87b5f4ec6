use vstd::prelude::*;

verus! {

/// The phase of the life of an object.
#[derive(Clone, Copy, Debug, PartialEq, Eq, Structural)]
pub enum Phase {
    /// Nothing of the object exists yet.
    Uninitialized,
    /// The C++ side is being constructed and takes its values from the Rust side.
    Constructing,
    /// Construction is complete; calls from outside are dispatched.
    Initialized,
    /// The object is gone.
    Destroyed,
}

impl Phase {
    /// The phase that follows: each phase leads to the next one, and the last one stays.
    pub open spec fn spec_next(self) -> Phase {
        match self {
            Phase::Uninitialized => Phase::Constructing,
            Phase::Constructing => Phase::Initialized,
            Phase::Initialized => Phase::Destroyed,
            Phase::Destroyed => Phase::Destroyed,
        }
    }

    /// Whether a setter that changes a value notifies: only once the object is initialised.
    pub open spec fn spec_notifies(self) -> bool {
        self == Phase::Initialized
    }

    #[verifier::when_used_as_spec(spec_next)]
    pub fn next(self) -> (r: Phase)
        ensures
            r == self.spec_next(),
    {
        match self {
            Phase::Uninitialized => Phase::Constructing,
            Phase::Constructing => Phase::Initialized,
            Phase::Initialized => Phase::Destroyed,
            Phase::Destroyed => Phase::Destroyed,
        }
    }

    #[verifier::when_used_as_spec(spec_notifies)]
    pub fn notifies(self) -> (r: bool)
        ensures
            r == self.spec_notifies(),
    {
        match self {
            Phase::Initialized => true,
            _ => false,
        }
    }
}

/// What an accessor that moves ownership can refuse.
#[derive(Clone, Copy, Debug, PartialEq, Eq, Structural)]
pub enum TransferError {
    /// The pointer that was given is the one that the property holds already.
    SelfAssignment,
}

/// A property that is kept by value. The value is held as the integer that stands for it:
/// the setter only asks whether two values are equal.
#[derive(Clone, Copy, Debug, PartialEq, Eq, Structural)]
pub struct ValueProperty {
    pub value: i64,
}

impl ValueProperty {
    pub fn new(value: i64) -> (r: ValueProperty)
        ensures
            r.value == value,
    {
        ValueProperty { value }
    }

    pub fn get(&self) -> (r: i64)
        ensures
            r == self.value,
    {
        self.value
    }

    /// Stores a value and says whether the notify signal was queued. Until the object is
    /// initialised nothing is queued; afterwards the signal is queued exactly if the value
    /// differs from the one that was held.
    pub fn set(&mut self, phase: Phase, value: i64) -> (notified: bool)
        ensures
            final(self).value == value,
            notified == (phase == Phase::Initialized && value != old(self).value),
    {
        if !phase.notifies() {
            self.value = value;
            return false;
        }
        if value != self.value {
            self.value = value;
            return true;
        }
        false
    }
}

/// A property that is kept by pointer. A pointer is held as its address, `None` for the
/// null pointer. Beside the pointer itself the property knows whether it owns what the
/// pointer leads to: what it owns is always what its pointer leads to.
#[derive(Clone, Copy, Debug, PartialEq, Eq, Structural)]
pub struct PointerProperty {
    raw: Option<u64>,
    owned: Option<u64>,
}

impl PointerProperty {
    #[verifier::type_invariant]
    spec fn owns_what_it_points_to(&self) -> bool {
        self.owned is Some ==> self.raw == self.owned
    }

    /// The pointer that the getter returns.
    pub closed spec fn raw(&self) -> Option<u64> {
        self.raw
    }

    /// The pointer that the property owns.
    pub closed spec fn owned(&self) -> Option<u64> {
        self.owned
    }

    /// A property that is unset and owns nothing.
    pub fn new() -> (r: PointerProperty)
        ensures
            r.raw() is None,
            r.owned() is None,
    {
        PointerProperty { raw: None, owned: None }
    }

    pub fn get(&self) -> (r: Option<u64>)
        ensures
            r == self.raw(),
    {
        self.raw
    }

    /// Gives the pointer that the property owns, which stays owned.
    pub fn get_owned(&self) -> (r: Option<u64>)
        ensures
            r == self.owned(),
            r is Some ==> r == self.raw(),
    {
        proof {
            use_type_invariant(self);
        }
        self.owned
    }

    /// Stores a pointer and says whether the notify signal was queued. A pointer that is
    /// the one held changes nothing. Any other pointer is stored, and what the property
    /// owned is released; the signal is then queued exactly if the object is initialised.
    pub fn set(&mut self, phase: Phase, value: Option<u64>) -> (notified: bool)
        ensures
            final(self).raw() == value,
            final(self).owned() == if value == old(self).raw() {
                old(self).owned()
            } else {
                None
            },
            notified == (phase == Phase::Initialized && value != old(self).raw()),
    {
        if !same_pointer(value, self.raw) {
            *self = PointerProperty { raw: value, owned: None };
            return phase.notifies();
        }
        false
    }

    /// Takes what the property owns out of it and leaves the property unset, by a call of
    /// the setter with the null pointer. Gives what was owned and whether the notify
    /// signal was queued.
    pub fn take(&mut self, phase: Phase) -> (r: (Option<u64>, bool))
        ensures
            final(self).raw() is None,
            final(self).owned() is None,
            r.0 == old(self).owned(),
            r.1 == (phase == Phase::Initialized && old(self).raw() is Some),
    {
        let value = self.owned;
        *self = PointerProperty { raw: self.raw, owned: None };
        let notified = self.set(phase, None);
        (value, notified)
    }

    /// Gives the property a pointer to own and says whether the notify signal was queued.
    /// A pointer that is the one held already is refused, and nothing changes. Any other
    /// pointer is stored and owned, and the signal is queued, in whatever phase the object
    /// is.
    pub fn give(&mut self, value: Option<u64>) -> (r: Result<bool, TransferError>)
        ensures
            r is Err <==> value == old(self).raw(),
            r is Err ==> *final(self) == *old(self),
            r matches Ok(notified) ==> notified,
            r is Ok ==> final(self).raw() == value && final(self).owned() == value,
    {
        if same_pointer(value, self.raw) {
            return Err(TransferError::SelfAssignment);
        }
        *self = PointerProperty { raw: value, owned: value };
        Ok(true)
    }
}

/// Whether two pointers are the same.
pub fn same_pointer(a: Option<u64>, b: Option<u64>) -> (r: bool)
    ensures
        r == (a == b),
{
    match (a, b) {
        (Some(x), Some(y)) => x == y,
        (None, None) => true,
        _ => false,
    }
}

/// An object around its Rust state, with the phase of its life.
#[derive(Debug)]
pub struct QObject<T> {
    pub rust_obj: T,
    pub phase: Phase,
}

impl<T> QObject<T> {
    /// An object whose C++ side is being constructed around the given Rust state.
    pub fn new(rust_obj: T) -> (r: QObject<T>)
        ensures
            r.rust_obj == rust_obj,
            r.phase == Phase::Constructing,
    {
        QObject { rust_obj, phase: Phase::Constructing }
    }

    /// Ends the construction. This happens once: in any other phase nothing changes.
    /// Says whether the object became initialised by this call.
    pub fn initialise(&mut self) -> (r: bool)
        ensures
            r == (old(self).phase == Phase::Constructing),
            final(self).rust_obj == old(self).rust_obj,
            final(self).phase == if r {
                Phase::Initialized
            } else {
                old(self).phase
            },
    {
        match self.phase {
            Phase::Constructing => {
                self.phase = Phase::Initialized;
                true
            },
            _ => false,
        }
    }

    /// Ends the life of the object, from whatever phase.
    pub fn destroy(&mut self)
        ensures
            final(self).phase == Phase::Destroyed,
            final(self).rust_obj == old(self).rust_obj,
    {
        self.phase = Phase::Destroyed;
    }
}

/// The phases follow one another in one order, and the last one is never left.
pub proof fn lemma_phase_order(phase: Phase)
    ensures
        Phase::Uninitialized.spec_next() == Phase::Constructing,
        Phase::Constructing.spec_next() == Phase::Initialized,
        Phase::Initialized.spec_next() == Phase::Destroyed,
        Phase::Destroyed.spec_next() == Phase::Destroyed,
        phase.spec_next() == Phase::Initialized <==> phase == Phase::Constructing,
        phase.spec_notifies() <==> phase == Phase::Initialized,
{
}

} // verus!
