use vstd::prelude::*;
use crate::error::Error;
use crate::generic_address::GenericAddress;
use crate::memory::Memory;
use crate::vftable::{read_virtual_function, VfTable};

verus! {

/// Layout-opaque marker for the foreign surface-drawing class.
pub struct CMatSystemSurface {}

/// Handle to one foreign surface-drawing object.
pub struct MatSystemSurface(GenericAddress);

/// Virtual-dispatch slot indices of the surface-drawing object.
pub enum MatSystemSurfaceIndices {
    SetDrawColor,
    PaintTraverse,
}

impl MatSystemSurfaceIndices {
    /// The slot number of the entry.
    pub open spec fn spec_slot(&self) -> usize {
        match self {
            MatSystemSurfaceIndices::SetDrawColor => 11,
            MatSystemSurfaceIndices::PaintTraverse => 88,
        }
    }

    /// The slot number of the entry.
    pub fn slot(&self) -> (r: usize)
        ensures
            r == self.spec_slot(),
    {
        match self {
            MatSystemSurfaceIndices::SetDrawColor => 11,
            MatSystemSurfaceIndices::PaintTraverse => 88,
        }
    }
}

impl MatSystemSurface {
    /// Wrap the address of a foreign surface-drawing object.
    pub fn new(instance: GenericAddress) -> (r: Self)
        ensures
            r.instance_addr() == instance.addr(),
    {
        MatSystemSurface(instance)
    }
}

impl Default for MatSystemSurface {
    /// A null handle.
    fn default() -> (r: Self)
        ensures
            r.instance_addr() == 0,
    {
        MatSystemSurface(GenericAddress::new(0))
    }
}

impl MatSystemSurface {
    /// The address of the object the handle stands for.
    pub fn instance(&self) -> (r: GenericAddress)
        ensures
            r.addr() == self.instance_addr(),
    {
        self.0
    }
}

impl VfTable for MatSystemSurface {
    closed spec fn instance_addr(&self) -> usize {
        self.0.addr()
    }

    fn get_virtual_function(&self, mem: &Memory, index: usize) -> (r: Result<
        GenericAddress,
        Error,
    >) {
        read_virtual_function(mem, self.0, index)
    }
}

} // verus!
