//! How a machine is to be made.

use crate::error::Error;
use crate::machine::memory::{layout, Region};
use vstd::prelude::*;

verus! {

/// `uuid::Uuid`: a unique identifier. This library carries it and never looks
/// inside.
#[verifier::external_type_specification]
#[verifier::external_body]
pub struct ExUuid(uuid::Uuid);

/// The configuration of one machine.
#[derive(Debug, Clone, PartialEq, Eq, Hash)]
pub struct MachineConfiguration {
    /// The machine's name.
    pub name: String,
    /// The machine's unique identifier, if it has one.
    pub uuid: Option<uuid::Uuid>,
    /// The number of virtual CPUs.
    pub cores: i32,
    /// The size of RAM in bytes.
    pub memory: u64,
}

impl MachineConfiguration {
    /// The numbers of the virtual CPUs that the configuration asks for: from zero
    /// up to, and without, their count. A count below zero asks for none.
    pub open spec fn core_ids(self) -> Seq<i32> {
        Seq::new(
            if self.cores > 0 {
                self.cores as nat
            } else {
                0
            },
            |i: int| i as i32,
        )
    }

    /// The numbers of the virtual CPUs to create, in the order of their
    /// creation.
    pub fn cores(&self) -> (ids: Vec<i32>)
        ensures
            ids@ == self.core_ids(),
    {
        let mut ids: Vec<i32> = Vec::new();
        let mut id: i32 = 0;
        while id < self.cores
            invariant
                0 <= id,
                id <= self.cores || id == 0,
                ids@.len() == id,
                forall|k: int| 0 <= k < id ==> ids@[k] == k,
            decreases self.cores - id,
        {
            ids.push(id);
            id += 1;
        }
        assert(ids@ =~= self.core_ids());
        ids
    }

    /// The memory regions to create for the machine's RAM, as `layout` gives them
    /// for the configured size.
    pub fn regions(&self) -> (regions: Result<Vec<Region>, Error>)
        ensures
            match regions {
                Ok(list) => crate::machine::memory::fits(self.memory) && list@
                    == crate::machine::memory::planned(self.memory),
                Err(error) => !crate::machine::memory::fits(self.memory) && error
                    == Error::MemoryMap,
            },
    {
        layout(self.memory)
    }
}

} // verus!
