use vstd::prelude::*;
use crate::error::Error;
use crate::generic_address::GenericAddress;
use crate::memory::Memory;
use crate::vftable::{read_virtual_function, vfunc_spec, VfTable};

verus! {

/// Layout-opaque marker for the foreign console-variable manager class.
pub struct CCvar {}

/// Handle to one foreign console-variable manager object.
pub struct Cvar(GenericAddress);

/// Virtual-dispatch slot indices of the console-variable manager.
pub enum CvarIndices {
    ConsolePrint,
}

impl CvarIndices {
    /// The slot number of the entry.
    pub open spec fn spec_slot(&self) -> usize {
        match self {
            CvarIndices::ConsolePrint => 24,
        }
    }

    /// The slot number of the entry.
    pub fn slot(&self) -> (r: usize)
        ensures
            r == self.spec_slot(),
    {
        match self {
            CvarIndices::ConsolePrint => 24,
        }
    }
}

impl Cvar {
    /// Wrap the address of a foreign console-variable manager object.
    pub fn new(instance: GenericAddress) -> (r: Self)
        ensures
            r.instance_addr() == instance.addr(),
    {
        Cvar(instance)
    }
}

impl Default for Cvar {
    /// A null handle.
    fn default() -> (r: Self)
        ensures
            r.instance_addr() == 0,
    {
        Cvar(GenericAddress::new(0))
    }
}

impl Cvar {
    /// The address of the object the handle stands for.
    pub fn instance(&self) -> (r: GenericAddress)
        ensures
            r.addr() == self.instance_addr(),
    {
        self.0
    }
}

impl VfTable for Cvar {
    closed spec fn instance_addr(&self) -> usize {
        self.0.addr()
    }

    fn get_virtual_function(&self, mem: &Memory, index: usize) -> (r: Result<
        GenericAddress,
        Error,
    >) {
        read_virtual_function(mem, self.0, index)
    }
}

} // verus!
