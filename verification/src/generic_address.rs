use vstd::prelude::*;
use crate::error::Error;
use crate::memory::Memory;

verus! {

/// Generic address holder.  It carries one raw address of the introspected
/// image and offers the basic traversal operations: offsetting, chained
/// dereference, and bit-exact byte extraction.  It is a view of foreign
/// memory, never an owner: every read goes through an explicit `Memory`
/// snapshot and either succeeds or reports a typed failure.
#[derive(Clone, Copy, Debug, PartialEq, Eq, Structural)]
pub struct GenericAddress {
    resource: usize,
}

/// The address a `GenericAddress` value holds, at the specification level.
pub closed spec fn ga(resource: usize) -> GenericAddress {
    GenericAddress { resource }
}

/// What `offset` returns: the shifted address, unless the shift lands
/// exactly on zero, which is rejected as a null pointer.
pub open spec fn offset_spec(a: int, delta: int) -> Result<int, Error> {
    if a + delta == 0 {
        Err(Error::NullPointer)
    } else {
        Ok(a + delta)
    }
}

/// One dereference step: reject a null starting address, reject a read the
/// snapshot does not cover, reject a null word, and otherwise step to the
/// word read at `a`.
pub open spec fn deref1_spec(mem: Memory, a: usize) -> Result<usize, Error> {
    if a == 0 {
        Err(Error::NullPointer)
    } else {
        match mem.u32_at(a as int) {
            None => Err(Error::OutOfBounds),
            Some(w) => if w == 0 {
                Err(Error::NullPointer)
            } else {
                Ok(w as usize)
            },
        }
    }
}

/// `times` dereference steps, short-circuiting on the first failure.
pub open spec fn deref_spec(mem: Memory, a: usize, times: nat) -> Result<usize, Error>
    decreases times,
{
    if times == 0 {
        Ok(a)
    } else {
        match deref1_spec(mem, a) {
            Ok(b) => deref_spec(mem, b, (times - 1) as nat),
            Err(e) => Err(e),
        }
    }
}

/// What `copy_as` returns: the `count` bytes at the address, copied
/// bit-exactly out of the snapshot.
pub open spec fn copy_spec(mem: Memory, a: usize, count: int) -> Result<Seq<u8>, Error> {
    if a == 0 {
        Err(Error::NullPointer)
    } else if !mem.covers(a as int, count) {
        Err(Error::OutOfBounds)
    } else {
        Ok(mem.bytes_at(a as int, count))
    }
}

impl GenericAddress {
    /// The raw address this value holds.
    pub closed spec fn addr(&self) -> usize {
        self.resource
    }

    /// Wrap a raw address.  Never fails: validity is only checked by the
    /// dereferencing operations.
    pub fn new(resource: usize) -> (r: Self)
        ensures
            r.addr() == resource,
            r == ga(resource),
    {
        GenericAddress { resource }
    }

    /// The numeric form of the address, for comparisons and encoding.
    pub fn exposed_addr(&self) -> (r: usize)
        ensures
            r == self.addr(),
    {
        self.resource
    }

    /// The stored raw address itself.
    pub fn get_resource(&self) -> (r: usize)
        ensures
            r == self.addr(),
    {
        self.resource
    }

    /// Offset the address by `offset` bytes.  The shift must stay inside
    /// the address space; a shift that lands on zero is rejected as a null
    /// pointer.
    pub fn offset(self, offset: isize) -> (r: Result<Self, Error>)
        requires
            0 <= self.addr() + offset <= usize::MAX,
        ensures
            r matches Ok(b) ==> offset_spec(self.addr() as int, offset as int)
                == Ok::<int, Error>(b.addr() as int),
            r matches Err(e) ==> offset_spec(self.addr() as int, offset as int)
                == Err::<int, Error>(e),
    {
        let shifted: usize = if offset >= 0 {
            self.resource + (offset as usize)
        } else {
            let magnitude: usize = if offset == isize::MIN {
                (isize::MAX as usize) + 1
            } else {
                (-offset) as usize
            };
            self.resource - magnitude
        };
        if shifted == 0 {
            Err(Error::NullPointer)
        } else {
            Ok(GenericAddress { resource: shifted })
        }
    }

    /// Dereference the address `branches` times: each step reads one
    /// machine word from the current address and replaces the address with
    /// it, failing on the first null address, null word, or read the
    /// snapshot does not cover.
    pub fn deref(self, mem: &Memory, branches: usize) -> (r: Result<Self, Error>)
        requires
            mem.wf(),
        ensures
            r matches Ok(b) ==> deref_spec(*mem, self.addr(), branches as nat)
                == Ok::<usize, Error>(b.addr()),
            r matches Err(e) ==> deref_spec(*mem, self.addr(), branches as nat)
                == Err::<usize, Error>(e),
    {
        let mut current: usize = self.resource;
        let mut remaining: usize = branches;
        loop
            invariant
                mem.wf(),
                remaining <= branches,
                deref_spec(*mem, self.addr(), branches as nat)
                    == deref_spec(*mem, current, remaining as nat),
            decreases remaining,
        {
            if remaining == 0 {
                return Ok(GenericAddress { resource: current });
            }
            if current == 0 {
                return Err(Error::NullPointer);
            }
            match mem.read_u32(current) {
                None => {
                    return Err(Error::OutOfBounds);
                },
                Some(w) => {
                    if w == 0 {
                        return Err(Error::NullPointer);
                    }
                    current = w as usize;
                },
            }
            remaining = remaining - 1;
        }
    }

    /// Copy `count` bytes starting at the address, bit-exactly, out of the
    /// snapshot.  Fails on a null address and on a range the snapshot does
    /// not cover.
    pub fn copy_as(&self, mem: &Memory, count: usize) -> (r: Result<Vec<u8>, Error>)
        requires
            mem.wf(),
        ensures
            r matches Ok(v) ==> copy_spec(*mem, self.addr(), count as int)
                == Ok::<Seq<u8>, Error>(v@),
            r matches Err(e) ==> copy_spec(*mem, self.addr(), count as int)
                == Err::<Seq<u8>, Error>(e),
    {
        if self.resource == 0 {
            return Err(Error::NullPointer);
        }
        match mem.read_bytes(self.resource, count) {
            None => Err(Error::OutOfBounds),
            Some(v) => Ok(v),
        }
    }
}

/// `copy_as` round-trips exactly: for every non-null address and every
/// byte count the snapshot covers, the copied bytes are precisely the
/// `count` bytes held at the address, with no truncation or padding.
pub proof fn lemma_copy_as_round_trip(mem: Memory, a: usize, count: usize)
    requires
        a != 0,
        mem.covers(a as int, count as int),
    ensures
        copy_spec(mem, a, count as int) == Ok::<Seq<u8>, Error>(mem.bytes_at(a as int, count as int)),
        mem.bytes_at(a as int, count as int).len() == count,
{
}

/// Offsetting twice composes: `offset(d1)` followed by `offset(d2)` is
/// the single shift `offset(d1 + d2)`, whenever the intermediate result is
/// not null.
pub proof fn lemma_offset_compose(a: int, d1: int, d2: int)
    requires
        a + d1 != 0,
    ensures
        offset_spec(a, d1) == Ok::<int, Error>(a + d1),
        offset_spec(a + d1, d2) == offset_spec(a, d1 + d2),
{
}

/// Dereferencing zero times is the identity operation.
pub proof fn lemma_deref_zero_identity(mem: Memory, a: usize)
    ensures
        deref_spec(mem, a, 0) == Ok::<usize, Error>(a),
{
}

/// `times` sequential single dereference steps, each one a full
/// `dereference(1)` call, short-circuiting on the first failure.
pub open spec fn deref_singles_spec(mem: Memory, a: usize, times: nat) -> Result<usize, Error>
    decreases times,
{
    if times == 0 {
        Ok(a)
    } else {
        match deref_spec(mem, a, 1) {
            Ok(b) => deref_singles_spec(mem, b, (times - 1) as nat),
            Err(e) => Err(e),
        }
    }
}

/// Dereferencing `times` times at once is the same operation as `times`
/// sequential `dereference(1)` calls.
pub proof fn lemma_deref_composes(mem: Memory, a: usize, times: nat)
    ensures
        deref_spec(mem, a, times) == deref_singles_spec(mem, a, times),
    decreases times,
{
    if times > 0 {
        match deref1_spec(mem, a) {
            Ok(b) => {
                assert(deref_spec(mem, b, 0) == Ok::<usize, Error>(b));
                assert(deref_spec(mem, a, 1) == Ok::<usize, Error>(b));
                lemma_deref_composes(mem, b, (times - 1) as nat);
            },
            Err(e) => {
                assert(deref_spec(mem, a, 1) == Err::<usize, Error>(e));
            },
        }
    }
}

} // verus!
