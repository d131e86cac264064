use vstd::prelude::*;
use vstd::string::StringExecFns;
use crate::cstr_decoded;
use crate::generic_address::GenericAddress;
use crate::memory::Memory;
use crate::read_c_string;

verus! {

/// Map from export name to the address it resolves to, case-sensitive.
/// Built once when a module is constructed and immutable afterwards.
#[derive(Debug)]
pub struct Exports {
    entries: Vec<(String, GenericAddress)>,
}

/// The mapping the entry list denotes: a later entry with the same name
/// overrides an earlier one.
pub open spec fn map_of_entries(entries: Seq<(String, GenericAddress)>) -> Map<Seq<char>, usize>
    decreases entries.len(),
{
    if entries.len() == 0 {
        Map::empty()
    } else {
        map_of_entries(entries.drop_last()).insert(entries.last().0@, entries.last().1.addr())
    }
}

impl View for Exports {
    type V = Map<Seq<char>, usize>;

    closed spec fn view(&self) -> Map<Seq<char>, usize> {
        map_of_entries(self.entries@)
    }
}

impl Exports {
    /// An empty mapping.
    pub fn new() -> (r: Self)
        ensures
            r@ == Map::<Seq<char>, usize>::empty(),
    {
        Exports { entries: Vec::new() }
    }

    /// Add one entry, overriding any earlier entry of the same name.
    pub(crate) fn insert(&mut self, name: String, address: GenericAddress)
        ensures
            final(self)@ == old(self)@.insert(name@, address.addr()),
    {
        self.entries.push((name, address));
        proof {
            assert(self.entries@.drop_last() =~= old(self).entries@);
        }
    }

    /// Look the name up; `None` exactly when the mapping lacks it.
    pub fn get(&self, name: &str) -> (r: Option<GenericAddress>)
        ensures
            r is Some <==> self@.contains_key(name@),
            r matches Some(a) ==> self@.contains_key(name@) && a.addr() == self@[name@],
    {
        let key = String::from_str(name);
        let ghost k = name@;
        let mut i: usize = self.entries.len();
        proof {
            assert(self.entries@.subrange(0, i as int) =~= self.entries@);
        }
        while i > 0
            invariant
                i <= self.entries@.len(),
                k == name@,
                key@ == k,
                self@.contains_key(k) <==> map_of_entries(self.entries@.subrange(0, i as int)).contains_key(k),
                self@.contains_key(k) ==> map_of_entries(self.entries@.subrange(0, i as int)).contains_key(k)
                    && map_of_entries(self.entries@.subrange(0, i as int))[k] == self@[k],
            decreases i,
        {
            let e = &self.entries[i - 1];
            let ghost pre = self.entries@.subrange(0, i as int);
            proof {
                assert(pre.last() == self.entries@[i - 1]);
                assert(pre.drop_last() =~= self.entries@.subrange(0, i - 1));
            }
            if e.0 == key {
                proof {
                    assert(map_of_entries(pre).contains_key(k));
                    assert(map_of_entries(pre)[k] == e.1.addr());
                }
                return Some(e.1);
            }
            proof {
                assert(map_of_entries(pre)
                    == map_of_entries(self.entries@.subrange(0, i - 1)).insert(pre.last().0@, pre.last().1.addr()));
            }
            i = i - 1;
        }
        proof {
            assert(self.entries@.subrange(0, 0) =~= Seq::<(String, GenericAddress)>::empty());
            assert(!map_of_entries(self.entries@.subrange(0, 0)).contains_key(k));
        }
        None
    }
}

/// The address of the image's export directory, reached through the DOS
/// header's NT-header offset and the first data-directory entry of the
/// 32-bit optional header.
pub open spec fn export_dir_addr(mem: Memory, base: int) -> Option<int> {
    match mem.u32_at(base + 0x3C) {
        None => None,
        Some(lfanew) => match mem.u32_at(base + lfanew + 120) {
            None => None,
            Some(rva) => Some(base + rva),
        },
    }
}

/// The export directory's table locations and entry count: the name
/// table, the ordinal table, the function table, and the number of named
/// entries.
pub open spec fn export_tables(mem: Memory, base: int) -> Option<(int, int, int, u32)> {
    match export_dir_addr(mem, base) {
        None => None,
        Some(eat) => match (mem.u32_at(eat + 24), mem.u32_at(eat + 28), mem.u32_at(eat + 32), mem.u32_at(eat + 36)) {
            (Some(nn), Some(aof), Some(aon), Some(aoo)) => Some(
                ((base + aon) as int, (base + aoo) as int, (base + aof) as int, nn),
            ),
            _ => None,
        },
    }
}

/// One named entry of the export directory: its decoded name and the
/// absolute address its ordinal resolves to.  The entry is absent when a
/// read falls outside the view, the name does not decode, the resolved
/// address equals the module's own base (the self-referential, invalid
/// marker), or the address falls outside the module's range.
pub open spec fn export_entry(
    mem: Memory,
    base: int,
    end: int,
    nt: int,
    ot: int,
    ft: int,
    i: int,
) -> Option<(Seq<char>, usize)> {
    match mem.u32_at(nt + 4 * i) {
        None => None,
        Some(name_rva) => match cstr_decoded(mem, base + name_rva) {
            None => None,
            Some(name) => match mem.u16_at(ot + 2 * i) {
                None => None,
                Some(ord) => match mem.u32_at(ft + 4 * ord) {
                    None => None,
                    Some(fn_rva) => if base + fn_rva != base && base + fn_rva < end {
                        Some((name, (base + fn_rva) as usize))
                    } else {
                        None
                    },
                },
            },
        },
    }
}

/// The export mapping accumulated over the first `i` named entries; a
/// later duplicate name overrides an earlier one.
pub open spec fn exports_upto(
    mem: Memory,
    base: int,
    end: int,
    nt: int,
    ot: int,
    ft: int,
    i: nat,
) -> Map<Seq<char>, usize>
    decreases i,
{
    if i == 0 {
        Map::empty()
    } else {
        let m = exports_upto(mem, base, end, nt, ot, ft, (i - 1) as nat);
        match export_entry(mem, base, end, nt, ot, ft, i - 1) {
            None => m,
            Some(e) => m.insert(e.0, e.1),
        }
    }
}

/// The full export mapping of the image whose range is `[base, end)`.
pub open spec fn exports_spec(mem: Memory, base: int, end: int) -> Map<Seq<char>, usize> {
    match export_tables(mem, base) {
        None => Map::empty(),
        Some(t) => exports_upto(mem, base, end, t.0, t.1, t.2, t.3 as nat),
    }
}

/// Read the little-endian 32-bit value at `a + b + c`, if covered.
fn read_u32_sum(mem: &Memory, a: usize, b: usize, c: usize) -> (r: Option<u32>)
    requires
        mem.wf(),
    ensures
        r == mem.u32_at(a as int + b as int + c as int),
{
    match a.checked_add(b) {
        None => {
            proof {
                assert(!mem.covers(a as int + b as int + c as int, 4));
            }
            None
        },
        Some(x) => match x.checked_add(c) {
            None => {
                proof {
                    assert(!mem.covers(a as int + b as int + c as int, 4));
                }
                None
            },
            Some(y) => mem.read_u32(y),
        },
    }
}

/// Read one entry of a 32-bit table: the value at `b + rva + 4 * i`.
fn read_u32_table(mem: &Memory, b: usize, rva: u32, i: u32) -> (r: Option<u32>)
    requires
        mem.wf(),
    ensures
        r == mem.u32_at(b as int + rva as int + 4 * (i as int)),
{
    match (i as usize).checked_mul(4) {
        None => {
            proof {
                assert(!mem.covers(b as int + rva as int + 4 * (i as int), 4));
            }
            None
        },
        Some(o) => read_u32_sum(mem, b, rva as usize, o),
    }
}

/// Read one entry of a 16-bit table: the value at `b + rva + 2 * i`.
fn read_u16_table(mem: &Memory, b: usize, rva: u32, i: u32) -> (r: Option<u16>)
    requires
        mem.wf(),
    ensures
        r == mem.u16_at(b as int + rva as int + 2 * (i as int)),
{
    match (i as usize).checked_mul(2) {
        None => {
            proof {
                assert(!mem.covers(b as int + rva as int + 2 * (i as int), 2));
            }
            None
        },
        Some(o) => match b.checked_add(rva as usize) {
            None => {
                proof {
                    assert(!mem.covers(b as int + rva as int + 2 * (i as int), 2));
                }
                None
            },
            Some(x) => match x.checked_add(o) {
                None => {
                    proof {
                        assert(!mem.covers(b as int + rva as int + 2 * (i as int), 2));
                    }
                    None
                },
                Some(y) => mem.read_u16(y),
            },
        },
    }
}

/// Read one named export entry, as `export_entry` states it.
fn read_export_entry(
    mem: &Memory,
    start: usize,
    end: usize,
    aon: u32,
    aoo: u32,
    aof: u32,
    i: u32,
) -> (r: Option<(String, GenericAddress)>)
    requires
        mem.wf(),
        start <= end,
    ensures
        r is Some <==> export_entry(
            *mem,
            start as int,
            end as int,
            start as int + aon as int,
            start as int + aoo as int,
            start as int + aof as int,
            i as int,
        ) is Some,
        r matches Some(p) ==> export_entry(
            *mem,
            start as int,
            end as int,
            start as int + aon as int,
            start as int + aoo as int,
            start as int + aof as int,
            i as int,
        ) == Some((p.0@, p.1.addr())),
{
    let name_rva = match read_u32_table(mem, start, aon, i) {
        None => {
            return None;
        },
        Some(x) => x,
    };
    let name_addr = match start.checked_add(name_rva as usize) {
        None => {
            proof {
                assert(!mem.covers(start as int + name_rva as int, 1));
                assert(cstr_decoded(*mem, start as int + name_rva as int) is None);
            }
            return None;
        },
        Some(a) => a,
    };
    let name = match read_c_string(mem, name_addr) {
        None => {
            return None;
        },
        Some(s) => s,
    };
    let ord = match read_u16_table(mem, start, aoo, i) {
        None => {
            return None;
        },
        Some(x) => x,
    };
    let fn_rva = match read_u32_table(mem, start, aof, ord as u32) {
        None => {
            return None;
        },
        Some(x) => x,
    };
    let addr = match start.checked_add(fn_rva as usize) {
        None => {
            return None;
        },
        Some(a) => a,
    };
    if addr != start && addr < end {
        Some((name, GenericAddress::new(addr)))
    } else {
        None
    }
}

/// Walk the export directory of the image at `[start, end)` and build its
/// export mapping, skipping every entry whose resolved address equals the
/// image's own base or leaves the image's range.
pub(crate) fn get_module_exports(mem: &Memory, start: usize, end: usize) -> (r: Exports)
    requires
        mem.wf(),
        start <= end,
    ensures
        r@ == exports_spec(*mem, start as int, end as int),
{
    let lfanew = match read_u32_sum(mem, start, 0x3C, 0) {
        None => {
            return Exports::new();
        },
        Some(x) => x,
    };
    let rva = match read_u32_sum(mem, start, lfanew as usize, 120) {
        None => {
            return Exports::new();
        },
        Some(x) => x,
    };
    let nn = match read_u32_sum(mem, start, rva as usize, 24) {
        None => {
            return Exports::new();
        },
        Some(x) => x,
    };
    let aof = match read_u32_sum(mem, start, rva as usize, 28) {
        None => {
            return Exports::new();
        },
        Some(x) => x,
    };
    let aon = match read_u32_sum(mem, start, rva as usize, 32) {
        None => {
            return Exports::new();
        },
        Some(x) => x,
    };
    let aoo = match read_u32_sum(mem, start, rva as usize, 36) {
        None => {
            return Exports::new();
        },
        Some(x) => x,
    };
    let ghost nt = start as int + aon as int;
    let ghost ot = start as int + aoo as int;
    let ghost ft = start as int + aof as int;
    proof {
        assert(export_tables(*mem, start as int) == Some((nt, ot, ft, nn)));
    }
    let mut result = Exports::new();
    let mut i: u32 = 0;
    while i < nn
        invariant
            mem.wf(),
            start <= end,
            i <= nn,
            nt == start as int + aon as int,
            ot == start as int + aoo as int,
            ft == start as int + aof as int,
            export_tables(*mem, start as int) == Some((nt, ot, ft, nn)),
            result@ == exports_upto(*mem, start as int, end as int, nt, ot, ft, i as nat),
        decreases nn - i,
    {
        match read_export_entry(mem, start, end, aon, aoo, aof, i) {
            None => {},
            Some(p) => {
                let ghost gname = p.0@;
                let ghost gaddr = p.1.addr();
                result.insert(p.0, p.1);
                proof {
                    assert(result@ == exports_upto(*mem, start as int, end as int, nt, ot, ft, i as nat).insert(gname, gaddr));
                }
            },
        }
        i = i + 1;
    }
    result
}

} // verus!
