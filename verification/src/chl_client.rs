use vstd::prelude::*;
use crate::error::Error;
use crate::generic_address::GenericAddress;
use crate::memory::Memory;
use crate::vftable::{read_virtual_function, VfTable};

verus! {

/// Layout-opaque marker for the foreign client-module class.
pub struct CCHLClient {}

/// Handle to one foreign client-module object.
pub struct CHLClient(GenericAddress);

/// Virtual-dispatch slot indices of the client module.
pub enum CHLClientIndices {
    FrameStageNotify,
}

impl CHLClientIndices {
    /// The slot number of the entry.
    pub open spec fn spec_slot(&self) -> usize {
        match self {
            CHLClientIndices::FrameStageNotify => 35,
        }
    }

    /// The slot number of the entry.
    pub fn slot(&self) -> (r: usize)
        ensures
            r == self.spec_slot(),
    {
        match self {
            CHLClientIndices::FrameStageNotify => 35,
        }
    }
}

impl CHLClient {
    /// Wrap the address of a foreign client-module object.
    pub fn new(instance: GenericAddress) -> (r: Self)
        ensures
            r.instance_addr() == instance.addr(),
    {
        CHLClient(instance)
    }
}

impl Default for CHLClient {
    /// A null handle.
    fn default() -> (r: Self)
        ensures
            r.instance_addr() == 0,
    {
        CHLClient(GenericAddress::new(0))
    }
}

impl CHLClient {
    /// The address of the object the handle stands for.
    pub fn instance(&self) -> (r: GenericAddress)
        ensures
            r.addr() == self.instance_addr(),
    {
        self.0
    }
}

impl VfTable for CHLClient {
    closed spec fn instance_addr(&self) -> usize {
        self.0.addr()
    }

    fn get_virtual_function(&self, mem: &Memory, index: usize) -> (r: Result<
        GenericAddress,
        Error,
    >) {
        read_virtual_function(mem, self.0, index)
    }
}

} // verus!
