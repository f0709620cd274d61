//! Loading a persona.

use crate::storage::{StorageFault, classify, fault_of};
use vstd::prelude::*;
use vstd::std_specs::convert::FromSpecImpl;

verus! {

/// Why a persona could not be loaded.
#[derive(Clone, Copy, Debug, PartialEq, Eq, Structural)]
pub enum FetchPersonaFail {
    Database,
    NotFound,
}

impl FetchPersonaFail {
    /// What a fetch reports for a storage fault: a missing row is
    /// `NotFound`, every other fault is `Database`.
    pub open spec fn of_fault(fault: StorageFault) -> FetchPersonaFail {
        match fault {
            StorageFault::NotFound => FetchPersonaFail::NotFound,
            StorageFault::Other => FetchPersonaFail::Database,
        }
    }
}

impl From<StorageFault> for FetchPersonaFail {
    fn from(fault: StorageFault) -> (fail: Self)
        ensures
            fail == FetchPersonaFail::of_fault(fault),
    {
        match fault {
            StorageFault::NotFound => FetchPersonaFail::NotFound,
            StorageFault::Other => FetchPersonaFail::Database,
        }
    }
}

impl FromSpecImpl<StorageFault> for FetchPersonaFail {
    open spec fn obeys_from_spec() -> bool {
        true
    }

    open spec fn from_spec(fault: StorageFault) -> Self {
        FetchPersonaFail::of_fault(fault)
    }
}

/// What a fetch reports for a storage error.
pub open spec fn fetch_fault(e: diesel::result::Error) -> FetchPersonaFail {
    FetchPersonaFail::of_fault(fault_of(e))
}

impl From<diesel::result::Error> for FetchPersonaFail {
    fn from(e: diesel::result::Error) -> (fail: Self)
        ensures
            fail == fetch_fault(e),
    {
        FetchPersonaFail::from(classify(&e))
    }
}

impl FromSpecImpl<diesel::result::Error> for FetchPersonaFail {
    open spec fn obeys_from_spec() -> bool {
        true
    }

    open spec fn from_spec(e: diesel::result::Error) -> Self {
        fetch_fault(e)
    }
}

} // verus!
