//! The mode in which the backend runs.

use vstd::prelude::*;

verus! {

/// The mode in which the backend runs. A standalone backend is a local one that
/// needs no tokens.
#[derive(Clone, Copy, PartialEq, Eq, Debug, Structural)]
pub enum BackendMode {
    Official,
    Local,
    Standalone,
}

impl BackendMode {
    pub open spec fn official(self) -> bool {
        self == BackendMode::Official
    }

    pub open spec fn local(self) -> bool {
        self == BackendMode::Local || self == BackendMode::Standalone
    }

    pub open spec fn standalone(self) -> bool {
        self == BackendMode::Standalone
    }

    pub fn is_official(self) -> (r: bool)
        ensures
            r == self.official(),
    {
        self == BackendMode::Official
    }

    pub fn is_local(self) -> (r: bool)
        ensures
            r == self.local(),
    {
        self == BackendMode::Local || self == BackendMode::Standalone
    }

    pub fn is_standalone(self) -> (r: bool)
        ensures
            r == self.standalone(),
    {
        self == BackendMode::Standalone
    }
}

/// A backend is official or local, and never both; only a local one is standalone.
pub proof fn modes_are_told_apart(mode: BackendMode)
    ensures
        mode.official() != mode.local(),
        mode.standalone() ==> mode.local(),
        mode.official() == (mode is Official),
        mode.local() == (mode is Local || mode is Standalone),
        mode.standalone() == (mode is Standalone),
{
}

} // verus!
