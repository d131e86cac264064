//! Runtime introspection of a loaded 32-bit native image, modeled over an
//! explicit memory snapshot: module bounds and export resolution, byte
//! signature scanning with wildcards, string cross-reference lookup, and
//! virtual-dispatch slot reads.

use vstd::prelude::*;

pub mod chl_client;
pub mod convar;
pub mod ctx;
pub mod error;
pub mod exports;
pub mod generic_address;
pub mod mat_system_surface;
pub mod memory;
pub mod module;
pub mod pattern;
pub mod vftable;

use crate::memory::Memory;
use vstd::utf8::{valid_utf8, decode_utf8};

verus! {

/// The length of the NUL-terminated byte string at address `a`: the
/// number of bytes strictly before the first NUL byte, provided the
/// string, NUL included, lies inside the covered range.
pub open spec fn cstr_len(mem: Memory, a: int) -> Option<nat>
    decreases mem.base + mem.bytes@.len() - a,
{
    if !mem.covers(a, 1) {
        None
    } else if mem.byte_at(a) == 0 {
        Some(0)
    } else {
        match cstr_len(mem, a + 1) {
            None => None,
            Some(k) => Some(k + 1),
        }
    }
}

/// The decoded text of the NUL-terminated string at `a`: present exactly
/// when the address is not null, the string is non-empty, its NUL lies
/// inside the covered range, and its bytes are valid UTF-8.
pub open spec fn cstr_decoded(mem: Memory, a: int) -> Option<Seq<char>> {
    if a == 0 {
        None
    } else {
        match cstr_len(mem, a) {
            None => None,
            Some(l) => if l == 0 {
                None
            } else if valid_utf8(mem.bytes_at(a, l as int)) {
                Some(decode_utf8(mem.bytes_at(a, l as int)))
            } else {
                None
            },
        }
    }
}

/// Relies on String::from_utf8: it succeeds exactly on valid UTF-8 input
/// and returns the string whose characters are the decoding of those
/// bytes.
#[verifier::external_body]
pub(crate) fn string_from_utf8(bytes: Vec<u8>) -> (r: Option<String>)
    ensures
        r is Some <==> valid_utf8(bytes@),
        r matches Some(s) ==> s@ == decode_utf8(bytes@),
{
    String::from_utf8(bytes).ok()
}

/// Read the NUL-terminated UTF-8 string held at address `raw` of the
/// memory view, if `raw` is not null, the string is non-empty, it lies
/// inside the view NUL included, and its bytes are valid UTF-8.
pub fn read_c_string(mem: &Memory, raw: usize) -> (r: Option<String>)
    requires
        mem.wf(),
    ensures
        r is Some <==> cstr_decoded(*mem, raw as int) is Some,
        r matches Some(s) ==> cstr_decoded(*mem, raw as int) == Some(s@),
{
    if raw == 0 {
        return None;
    }
    let mut l: usize = 0;
    loop
        invariant
            mem.wf(),
            raw != 0,
            l == 0 || mem.covers(raw as int, l as int),
            cstr_len(*mem, raw as int) == (match cstr_len(*mem, raw as int + l as int) {
                None => None::<nat>,
                Some(k) => Some((l + k) as nat),
            }),
        decreases mem.base + mem.bytes@.len() - raw - l,
    {
        let a = match raw.checked_add(l) {
            None => {
                proof {
                    assert(cstr_len(*mem, raw as int + l as int) is None);
                }
                return None;
            },
            Some(a) => a,
        };
        if !mem.check_covers(a, 1) {
            proof {
                assert(cstr_len(*mem, a as int) is None);
            }
            return None;
        }
        let b = mem.bytes[a - mem.base];
        proof {
            assert(mem.byte_at(a as int) == b);
        }
        if b == 0 {
            proof {
                assert(cstr_len(*mem, a as int) == Some(0nat));
                assert(cstr_len(*mem, raw as int) == Some(l as nat));
            }
            if l == 0 {
                return None;
            }
            let bytes = match mem.read_bytes(raw, l) {
                None => {
                    proof {
                        assert(false);
                    }
                    return None;
                },
                Some(v) => v,
            };
            return match string_from_utf8(bytes) {
                None => None,
                Some(s) => Some(s),
            };
        }
        proof {
            assert(cstr_len(*mem, a as int) == (match cstr_len(*mem, a as int + 1) {
                None => None::<nat>,
                Some(k) => Some((k + 1) as nat),
            }));
        }
        l = l + 1;
    }
}

} // verus!
