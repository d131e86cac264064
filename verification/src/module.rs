use vstd::prelude::*;
use vstd::bytes::*;
use vstd::string::StrSliceExecFns;
use crate::error::Error;
use crate::exports::{exports_spec, get_module_exports, Exports};
use crate::generic_address::GenericAddress;
use crate::memory::Memory;
use crate::pattern::{
    find_nth, lemma_find_nth_is_hit, parse_pattern, pattern_bytes_of, scan_nth, valid_pattern_str,
};

verus! {

/// One record of the process's loaded-image list: an image's registered
/// name and its placement.  The walk of the loader's own in-memory list
/// produces these records; resolution then matches against them.
#[derive(Clone, Debug)]
pub struct ImageRecord {
    /// The image's registered name (no terminator required).
    pub name: String,
    /// The image's base address.
    pub base: usize,
    /// The image's size in bytes.
    pub size: usize,
}

/// Module view: one loaded image's `[start, end)` byte range plus its
/// resolved export mapping.
#[derive(Debug)]
pub struct Module {
    start: usize,
    end: usize,
    exports: Exports,
}

/// The prefix of the text before its first NUL character.
pub open spec fn upto_nul(s: Seq<char>) -> Seq<char>
    decreases s.len(),
{
    if s.len() == 0 {
        Seq::empty()
    } else if s[0] == '\0' {
        Seq::empty()
    } else {
        seq![s[0]] + upto_nul(s.drop_first())
    }
}

proof fn lemma_upto_nul_prefix(s: Seq<char>, i: int)
    requires
        0 <= i <= s.len(),
        forall|j: int| 0 <= j < i ==> s[j] != '\0',
        i == s.len() || s[i] == '\0',
    ensures
        upto_nul(s) == s.subrange(0, i),
    decreases s.len(),
{
    if s.len() == 0 || i == 0 {
        assert(upto_nul(s) =~= s.subrange(0, i));
    } else {
        assert(s[0] != '\0');
        let t = s.drop_first();
        assert(forall|j: int| 0 <= j < i - 1 ==> #[trigger] t[j] == s[j + 1]);
        lemma_upto_nul_prefix(t, i - 1);
        assert(upto_nul(s) == seq![s[0]] + t.subrange(0, i - 1));
        assert(seq![s[0]] + t.subrange(0, i - 1) =~= s.subrange(0, i));
    }
}

/// Lower-case code of a character, folding only the ASCII letters.
pub open spec fn lower_code(c: char) -> int {
    if 0x41 <= c as int && c as int <= 0x5A {
        c as int + 0x20
    } else {
        c as int
    }
}

/// Case-insensitive equality of two texts, folding ASCII letters.
pub open spec fn names_ieq(a: Seq<char>, b: Seq<char>) -> bool {
    a.len() == b.len() && forall|i: int| 0 <= i < a.len() ==> lower_code(#[trigger] a[i]) == lower_code(b[i])
}

/// Whether a loaded-image record's registered name matches the sought
/// text, case-insensitively; each side is read up to its first NUL.
pub open spec fn record_matches(rec: ImageRecord, sought: Seq<char>) -> bool {
    names_ieq(upto_nul(rec.name@), sought)
}

/// A caller-supplied name carries its required trailing NUL sentinel.
pub open spec fn has_sentinel(s: Seq<char>) -> bool {
    s.len() > 0 && s[s.len() - 1] == '\0'
}

/// The index of the first matching record at position `i` or later.
pub open spec fn first_match_from(records: Seq<ImageRecord>, sought: Seq<char>, i: int) -> Option<
    int,
>
    decreases records.len() - i,
{
    if i < 0 || i >= records.len() {
        None
    } else if record_matches(records[i], sought) {
        Some(i)
    } else {
        first_match_from(records, sought, i + 1)
    }
}

/// The index of the first record whose name matches the sought text.
pub open spec fn first_match(records: Seq<ImageRecord>, sought: Seq<char>) -> Option<int> {
    first_match_from(records, sought, 0)
}

/// What resolving a named image against the record list yields: the
/// matched record's `[start, end)` range, or the error resolution stops
/// with.  A name without its sentinel is rejected before any record is
/// examined; a name no record matches is not found; a matched record
/// whose range would wrap past the end of the address space cannot be
/// viewed.
pub open spec fn resolve_spec(module: Seq<char>, records: Seq<ImageRecord>) -> Result<
    (int, int),
    Error,
> {
    if !has_sentinel(module) {
        Err(Error::NoSentinelCharacter)
    } else {
        match first_match(records, upto_nul(module)) {
            None => Err(Error::CantFind),
            Some(i) => if records[i].base + records[i].size <= usize::MAX {
                Ok((records[i].base as int, records[i].base + records[i].size))
            } else {
                Err(Error::OutOfBounds)
            },
        }
    }
}

/// What scanning the range `[start, end)` for the `goal`-th occurrence of
/// the byte pattern yields: the occurrence's absolute address; `CantFind`
/// when fewer occurrences exist; `OutOfBounds` when the view does not
/// cover the range.
pub open spec fn scan_spec(mem: Memory, start: int, end: int, pat: Seq<u8>, goal: nat) -> Result<
    usize,
    Error,
> {
    if !mem.covers(start, end - start) {
        Err(Error::OutOfBounds)
    } else {
        match find_nth(mem.bytes_at(start, end - start), pat, goal) {
            Some(i) => Ok((start + i) as usize),
            None => Err(Error::CantFind),
        }
    }
}

/// The byte pattern of a text: each character's low byte, followed by one
/// NUL terminator byte.
pub open spec fn string_pattern_of(s: Seq<char>) -> Seq<u8> {
    Seq::new(
        s.len() + 1,
        |i: int| if i < s.len() {
            (s[i] as int % 256) as u8
        } else {
            0u8
        },
    )
}

/// The low 32 bits of an address: the width of the introspected image's
/// own pointers.
pub open spec fn addr_low32(a: int) -> u32 {
    (a % 0x1_0000_0000) as u32
}

/// What the string cross-reference search yields: the first occurrence of
/// the text's bytes plus NUL gives the text's data address; the `goal`-th
/// occurrence of that address's little-endian 32-bit encoding is the
/// cross-reference.
pub open spec fn find_string_spec(mem: Memory, start: int, end: int, s: Seq<char>, goal: nat) -> Result<usize, Error> {
    match scan_spec(mem, start, end, string_pattern_of(s), 0) {
        Err(e) => Err(e),
        Ok(a) => scan_spec(mem, start, end, spec_u32_to_le_bytes(addr_low32(a as int)), goal),
    }
}

fn lower_exec(c: char) -> (r: u32)
    ensures
        r == lower_code(c),
{
    let x = c as u32;
    if x >= 0x41 && x <= 0x5A {
        x + 0x20
    } else {
        x
    }
}

/// The index of the text's first NUL character, or its length.
fn first_nul(s: &str) -> (e: usize)
    ensures
        e <= s@.len(),
        upto_nul(s@) == s@.subrange(0, e as int),
{
    let n = s.unicode_len();
    let mut i: usize = 0;
    while i < n
        invariant
            n == s@.len(),
            i <= n,
            forall|j: int| 0 <= j < i ==> s@[j] != '\0',
        decreases n - i,
    {
        if s.get_char(i) == '\0' {
            proof {
                lemma_upto_nul_prefix(s@, i as int);
            }
            return i;
        }
        i = i + 1;
    }
    proof {
        lemma_upto_nul_prefix(s@, n as int);
    }
    n
}

/// Whether the record's name matches the sought name, each read up to its
/// first NUL and compared with ASCII letters folded.
fn name_matches(rec: &ImageRecord, module: &str) -> (b: bool)
    ensures
        b == record_matches(*rec, upto_nul(module@)),
{
    let na: &str = rec.name.as_str();
    let ea = first_nul(na);
    let eb = first_nul(module);
    let ghost sa = upto_nul(rec.name@);
    let ghost sb = upto_nul(module@);
    if ea != eb {
        return false;
    }
    let mut i: usize = 0;
    while i < ea
        invariant
            i <= ea,
            ea == eb,
            ea <= na@.len(),
            eb <= module@.len(),
            na@ == rec.name@,
            sa == upto_nul(rec.name@),
            sb == upto_nul(module@),
            sa == na@.subrange(0, ea as int),
            sb == module@.subrange(0, eb as int),
            forall|j: int| 0 <= j < i ==> lower_code(#[trigger] na@[j]) == lower_code(module@[j]),
        decreases ea - i,
    {
        let ca = na.get_char(i);
        let cb = module.get_char(i);
        if lower_exec(ca) != lower_exec(cb) {
            proof {
                assert(sa[i as int] == na@[i as int] && sb[i as int] == module@[i as int]);
                assert(!names_ieq(sa, sb));
            }
            return false;
        }
        i = i + 1;
    }
    proof {
        assert forall|j: int| 0 <= j < sa.len() implies lower_code(#[trigger] sa[j]) == lower_code(
            sb[j],
        ) by {
            assert(sa[j] == na@[j] && sb[j] == module@[j]);
        }
        assert(names_ieq(sa, sb));
    }
    true
}

impl Module {
    /// The module's base address.
    pub closed spec fn spec_start(&self) -> usize {
        self.start
    }

    /// The module's end address.
    pub closed spec fn spec_end(&self) -> usize {
        self.end
    }

    /// The module's export mapping.
    pub closed spec fn spec_exports(&self) -> Map<Seq<char>, usize> {
        self.exports@
    }

    /// The range is ordered.
    pub open spec fn wf(&self) -> bool {
        self.spec_start() <= self.spec_end()
    }

    /// Resolve the image named `module` (the name must already carry its
    /// trailing NUL sentinel) against the supplied loaded-image records,
    /// capture its `[start, end)` range, and build its export mapping
    /// from the memory view.
    pub fn new(module: &str, records: &Vec<ImageRecord>, mem: &Memory) -> (r: Result<Self, Error>)
        requires
            mem.wf(),
        ensures
            r matches Ok(m) ==> {
                &&& m.wf()
                &&& resolve_spec(module@, records@) == Ok::<(int, int), Error>(
                    (m.spec_start() as int, m.spec_end() as int),
                )
                &&& m.spec_exports() == exports_spec(
                    *mem,
                    m.spec_start() as int,
                    m.spec_end() as int,
                )
            },
            r matches Err(e) ==> resolve_spec(module@, records@) == Err::<(int, int), Error>(e),
    {
        let n = module.unicode_len();
        if n == 0 || module.get_char(n - 1) != '\0' {
            return Err(Error::NoSentinelCharacter);
        }
        let ghost sought = upto_nul(module@);
        let mut i: usize = 0;
        while i < records.len()
            invariant
                mem.wf(),
                i <= records@.len(),
                has_sentinel(module@),
                sought == upto_nul(module@),
                first_match(records@, sought) == first_match_from(records@, sought, i as int),
            decreases records@.len() - i,
        {
            let rec = &records[i];
            if name_matches(rec, module) {
                let end = match rec.base.checked_add(rec.size) {
                    None => {
                        return Err(Error::OutOfBounds);
                    },
                    Some(e) => e,
                };
                let m = Module {
                    start: rec.base,
                    end,
                    exports: get_module_exports(mem, rec.base, end),
                };
                return Ok(m);
            }
            proof {
                assert(first_match_from(records@, sought, i as int) == first_match_from(
                    records@,
                    sought,
                    i as int + 1,
                ));
            }
            i = i + 1;
        }
        Err(Error::CantFind)
    }

    /// View a module whose range the caller guarantees to be
    /// `[start, end)` — used, for instance, to restart a scan past a
    /// previous match.  The export mapping is not recomputed: it is
    /// empty.
    pub fn new_with(start: usize, end: usize) -> (r: Self)
        requires
            start <= end,
        ensures
            r.wf(),
            r.spec_start() == start,
            r.spec_end() == end,
            r.spec_exports() == Map::<Seq<char>, usize>::empty(),
    {
        Module { start, end, exports: Exports::new() }
    }

    /// The module's base address.
    pub fn get_start(&self) -> (r: usize)
        ensures
            r == self.spec_start(),
    {
        self.start
    }

    /// The module's end address.
    pub fn get_end(&self) -> (r: usize)
        ensures
            r == self.spec_end(),
    {
        self.end
    }

    /// The module's size in bytes.
    pub fn get_size(&self) -> (r: usize)
        requires
            self.wf(),
        ensures
            r == self.spec_end() - self.spec_start(),
    {
        self.end - self.start
    }

    /// The module's export mapping.
    pub fn get_exports(&self) -> (r: &Exports)
        ensures
            r@ == self.spec_exports(),
    {
        &self.exports
    }

    /// Find the `goal_match`-th occurrence (0-indexed) of the byte
    /// pattern inside the module's range, the wildcard sentinel byte
    /// matching anything.
    pub fn find_nth_pattern_bytes(
        &self,
        mem: &Memory,
        pattern: &[u8],
        goal_match: usize,
    ) -> (r: Result<GenericAddress, Error>)
        requires
            mem.wf(),
            self.wf(),
            pattern@.len() >= 1,
        ensures
            r matches Ok(a) ==> scan_spec(
                *mem,
                self.spec_start() as int,
                self.spec_end() as int,
                pattern@,
                goal_match as nat,
            ) == Ok::<usize, Error>(a.addr()),
            r matches Err(e) ==> scan_spec(
                *mem,
                self.spec_start() as int,
                self.spec_end() as int,
                pattern@,
                goal_match as nat,
            ) == Err::<usize, Error>(e),
    {
        let size = self.end - self.start;
        if !mem.check_covers(self.start, size) {
            return Err(Error::OutOfBounds);
        }
        match scan_nth(mem, self.start, size, pattern, goal_match) {
            Some(off) => {
                proof {
                    lemma_find_nth_is_hit(
                        mem.bytes_at(self.start as int, size as int),
                        pattern@,
                        0,
                        goal_match as nat,
                    );
                }
                Ok(GenericAddress::new(self.start + off))
            },
            None => Err(Error::CantFind),
        }
    }

    /// Find the first occurrence of the byte pattern inside the module's
    /// range.
    pub fn find_pattern_bytes(&self, mem: &Memory, pattern: &[u8]) -> (r: Result<
        GenericAddress,
        Error,
    >)
        requires
            mem.wf(),
            self.wf(),
            pattern@.len() >= 1,
        ensures
            r matches Ok(a) ==> scan_spec(
                *mem,
                self.spec_start() as int,
                self.spec_end() as int,
                pattern@,
                0,
            ) == Ok::<usize, Error>(a.addr()),
            r matches Err(e) ==> scan_spec(
                *mem,
                self.spec_start() as int,
                self.spec_end() as int,
                pattern@,
                0,
            ) == Err::<usize, Error>(e),
    {
        self.find_nth_pattern_bytes(mem, pattern, 0)
    }

    /// Find the `goal_match`-th occurrence of the textual pattern:
    /// whitespace-separated two-digit hexadecimal tokens, a token with
    /// the wildcard marker matching any byte.
    pub fn find_nth_pattern(&self, mem: &Memory, pattern: &str, goal_match: usize) -> (r: Result<
        GenericAddress,
        Error,
    >)
        requires
            mem.wf(),
            self.wf(),
            valid_pattern_str(pattern@),
        ensures
            r matches Ok(a) ==> scan_spec(
                *mem,
                self.spec_start() as int,
                self.spec_end() as int,
                pattern_bytes_of(pattern@),
                goal_match as nat,
            ) == Ok::<usize, Error>(a.addr()),
            r matches Err(e) ==> scan_spec(
                *mem,
                self.spec_start() as int,
                self.spec_end() as int,
                pattern_bytes_of(pattern@),
                goal_match as nat,
            ) == Err::<usize, Error>(e),
    {
        let bytes = parse_pattern(pattern);
        self.find_nth_pattern_bytes(mem, bytes.as_slice(), goal_match)
    }

    /// Find the first occurrence of the textual pattern.
    pub fn find_pattern(&self, mem: &Memory, pattern: &str) -> (r: Result<GenericAddress, Error>)
        requires
            mem.wf(),
            self.wf(),
            valid_pattern_str(pattern@),
        ensures
            r matches Ok(a) ==> scan_spec(
                *mem,
                self.spec_start() as int,
                self.spec_end() as int,
                pattern_bytes_of(pattern@),
                0,
            ) == Ok::<usize, Error>(a.addr()),
            r matches Err(e) ==> scan_spec(
                *mem,
                self.spec_start() as int,
                self.spec_end() as int,
                pattern_bytes_of(pattern@),
                0,
            ) == Err::<usize, Error>(e),
    {
        self.find_nth_pattern(mem, pattern, 0)
    }

    /// Find the `goal_match`-th cross-reference to the text: first locate
    /// the text's bytes plus NUL terminator (the data location of the
    /// constant), then locate the `goal_match`-th occurrence of that
    /// address's little-endian 32-bit encoding.
    pub fn find_nth_string(&self, mem: &Memory, string: &str, goal_match: usize) -> (r: Result<
        GenericAddress,
        Error,
    >)
        requires
            mem.wf(),
            self.wf(),
        ensures
            r matches Ok(a) ==> find_string_spec(
                *mem,
                self.spec_start() as int,
                self.spec_end() as int,
                string@,
                goal_match as nat,
            ) == Ok::<usize, Error>(a.addr()),
            r matches Err(e) ==> find_string_spec(
                *mem,
                self.spec_start() as int,
                self.spec_end() as int,
                string@,
                goal_match as nat,
            ) == Err::<usize, Error>(e),
    {
        let ghost s = string@;
        let n = string.unicode_len();
        let mut pat: Vec<u8> = Vec::new();
        let mut i: usize = 0;
        while i < n
            invariant
                n == s.len(),
                s == string@,
                i <= n,
                pat@.len() == i,
                forall|j: int| 0 <= j < i ==> pat@[j] == (s[j] as int % 256) as u8,
            decreases n - i,
        {
            let c = string.get_char(i);
            let x = c as u32;
            let b = (x % 256) as u8;
            pat.push(b);
            i = i + 1;
        }
        pat.push(0u8);
        proof {
            assert(pat@ =~= string_pattern_of(s));
        }
        let data = match self.find_pattern_bytes(mem, pat.as_slice()) {
            Err(e) => {
                return Err(e);
            },
            Ok(a) => a,
        };
        let low = ((data.exposed_addr() as u64) % 0x1_0000_0000) as u32;
        let encoded = u32_to_le_bytes(low);
        proof {
            lemma_auto_spec_u32_to_from_le_bytes();
        }
        self.find_nth_pattern_bytes(mem, encoded.as_slice(), goal_match)
    }

    /// Find the first cross-reference to the text.
    pub fn find_string(&self, mem: &Memory, string: &str) -> (r: Result<GenericAddress, Error>)
        requires
            mem.wf(),
            self.wf(),
        ensures
            r matches Ok(a) ==> find_string_spec(
                *mem,
                self.spec_start() as int,
                self.spec_end() as int,
                string@,
                0,
            ) == Ok::<usize, Error>(a.addr()),
            r matches Err(e) ==> find_string_spec(
                *mem,
                self.spec_start() as int,
                self.spec_end() as int,
                string@,
                0,
            ) == Err::<usize, Error>(e),
    {
        self.find_nth_string(mem, string, 0)
    }
}

} // verus!
