use vstd::prelude::*;
use crate::error::Error;
use crate::generic_address::{deref1_spec, GenericAddress};
use crate::memory::Memory;

verus! {

/// What reading a virtual-dispatch slot yields: the first machine word at
/// the object's address is the table pointer; the word at
/// `table + 4 * index` is the function pointer stored in that slot.
pub open spec fn vfunc_spec(mem: Memory, obj: usize, index: int) -> Result<usize, Error> {
    match deref1_spec(mem, obj) {
        Err(e) => Err(e),
        Ok(table) => match mem.u32_at(table + 4 * index) {
            None => Err(Error::OutOfBounds),
            Some(w) => Ok(w as usize),
        },
    }
}

/// Read the function pointer stored at slot `index` of the
/// virtual-dispatch table of the object at `obj`.
pub fn read_virtual_function(mem: &Memory, obj: GenericAddress, index: usize) -> (r: Result<
    GenericAddress,
    Error,
>)
    requires
        mem.wf(),
    ensures
        r matches Ok(a) ==> vfunc_spec(*mem, obj.addr(), index as int) == Ok::<usize, Error>(
            a.addr(),
        ),
        r matches Err(e) ==> vfunc_spec(*mem, obj.addr(), index as int) == Err::<usize, Error>(e),
{
    if obj.exposed_addr() == 0 {
        return Err(Error::NullPointer);
    }
    let table = match mem.read_u32(obj.exposed_addr()) {
        None => {
            return Err(Error::OutOfBounds);
        },
        Some(w) => {
            if w == 0 {
                return Err(Error::NullPointer);
            }
            w as usize
        },
    };
    let slot = match index.checked_mul(4) {
        None => {
            proof {
                assert(!mem.covers(table as int + 4 * (index as int), 4));
            }
            return Err(Error::OutOfBounds);
        },
        Some(o) => match table.checked_add(o) {
            None => {
                proof {
                    assert(!mem.covers(table as int + 4 * (index as int), 4));
                }
                return Err(Error::OutOfBounds);
            },
            Some(s) => s,
        },
    };
    match mem.read_u32(slot) {
        None => Err(Error::OutOfBounds),
        Some(w) => Ok(GenericAddress::new(w as usize)),
    }
}

/// A handle whose first machine word points at a table of
/// function-pointer slots laid out by code outside this library.
pub trait VfTable {
    /// The address of the object the handle stands for.
    spec fn instance_addr(&self) -> usize;

    /// Read the function pointer currently stored at slot `index` of the
    /// object's virtual-dispatch table.
    fn get_virtual_function(&self, mem: &Memory, index: usize) -> (r: Result<
        GenericAddress,
        Error,
    >)
        requires
            mem.wf(),
        ensures
            r matches Ok(a) ==> vfunc_spec(*mem, self.instance_addr(), index as int) == Ok::<
                usize,
                Error,
            >(a.addr()),
            r matches Err(e) ==> vfunc_spec(*mem, self.instance_addr(), index as int) == Err::<
                usize,
                Error,
            >(e),
    ;
}

} // verus!
