use vstd::prelude::*;

verus! {

/// Readiness interests of a registered connection: a combination of
/// readable and writable, never empty when built by the functions below.
#[derive(Clone, Copy, Debug, PartialEq, Eq, Structural)]
pub struct Interest {
    pub readable: bool,
    pub writable: bool,
}

impl Interest {
    /// An interest holds at least one readiness kind.
    pub open spec fn wf(self) -> bool {
        self.readable || self.writable
    }

    /// Interest in reading only.
    #[verifier::allow_in_spec]
    pub fn readable() -> Interest
        returns
            (Interest { readable: true, writable: false }),
    {
        Interest { readable: true, writable: false }
    }

    /// Interest in writing only.
    #[verifier::allow_in_spec]
    pub fn writable() -> Interest
        returns
            (Interest { readable: false, writable: true }),
    {
        Interest { readable: false, writable: true }
    }

    pub fn is_readable(&self) -> (r: bool)
        ensures
            r == self.readable,
    {
        self.readable
    }

    pub fn is_writable(&self) -> (r: bool)
        ensures
            r == self.writable,
    {
        self.writable
    }

    /// The union of two interests.
    #[verifier::allow_in_spec]
    pub fn add(self, other: Interest) -> Interest
        returns
            (Interest { readable: self.readable || other.readable, writable: self.writable || other.writable }),
    {
        Interest { readable: self.readable || other.readable, writable: self.writable || other.writable }
    }

    /// This interest without the kinds in `other`, or `None` when nothing
    /// would remain.
    #[verifier::allow_in_spec]
    pub fn remove(self, other: Interest) -> Option<Interest>
        returns
            (if (self.readable && !other.readable) || (self.writable && !other.writable) {
                Some(Interest { readable: self.readable && !other.readable, writable: self.writable && !other.writable })
            } else {
                None
            }),
    {
        let readable = self.readable && !other.readable;
        let writable = self.writable && !other.writable;
        if readable || writable {
            Some(Interest { readable, writable })
        } else {
            None
        }
    }
}

} // verus!
