use vstd::prelude::*;
use crate::chl_client::CHLClient;
use crate::convar::Cvar;
use crate::error::Error;
use crate::exports::exports_spec;
use crate::generic_address::{deref_spec, offset_spec};
use crate::mat_system_surface::MatSystemSurface;
use crate::memory::Memory;
use crate::module::{resolve_spec, scan_spec, ImageRecord, Module};
use crate::pattern::{lemma_bytes_of_tokens_len, lemma_find_nth_is_hit, pattern_bytes_of, token_end, token_valid, tokens_from, valid_pattern_str};
use crate::vftable::VfTable;

verus! {

/// Failure kinds of the shared-context layer.
#[derive(Clone, Copy, Debug, PartialEq, Eq, Structural)]
pub enum CtxError {
    /// The shared context was already constructed; a second construction
    /// is rejected and the first instance is kept.
    AlreadyInitialized,
    /// Resolving the context's modules and interface objects failed.
    Resolve(Error),
}

impl CtxError {
    /// Short description of the error kind.
    pub fn description(&self) -> (r: &'static str)
        ensures
            r@ == match self {
                CtxError::AlreadyInitialized => "already initialized"@,
                CtxError::Resolve(_) => "failed resolving the context"@,
            },
    {
        match self {
            CtxError::AlreadyInitialized => "already initialized",
            CtxError::Resolve(_) => "failed resolving the context",
        }
    }

    /// Full message of the error, as the diagnostic stream prints it.
    pub fn message(&self) -> (r: &'static str)
        ensures
            r@ == match self {
                CtxError::AlreadyInitialized => "Encountered call to an installer for an object that's already initialized (most often global context)"@,
                CtxError::Resolve(e) => e.spec_message(),
            },
    {
        match self {
            CtxError::AlreadyInitialized => "Encountered call to an installer for an object that's already initialized (most often global context)",
            CtxError::Resolve(e) => e.message(),
        }
    }
}

/// The textual signature that locates the client-module object inside
/// the engine image.
pub open spec fn spec_chl_client_pattern() -> Seq<char> {
    "8B 0D ? ? ? ? 8B 15 ? ? ? ? 8B"@
}

/// The textual signature that locates the client-module object inside
/// the engine image.
pub fn chl_client_pattern() -> (r: &'static str)
    ensures
        r@ == spec_chl_client_pattern(),
{
    "8B 0D ? ? ? ? 8B 15 ? ? ? ? 8B"
}

/// The textual signature that locates the surface-drawing object inside
/// the surface image.
pub open spec fn spec_mat_surface_pattern() -> Seq<char> {
    "A3 ? ? ? ? 83 3D ? ? ? ? ? 75 14 8B 04 B7 6A 00 68"@
}

/// The textual signature that locates the surface-drawing object inside
/// the surface image.
pub fn mat_surface_pattern() -> (r: &'static str)
    ensures
        r@ == spec_mat_surface_pattern(),
{
    "A3 ? ? ? ? 83 3D ? ? ? ? ? 75 14 8B 04 B7 6A 00 68"
}

proof fn lemma_chl_client_pattern_valid()
    ensures
        valid_pattern_str("8B 0D ? ? ? ? 8B 15 ? ? ? ? 8B"@),
        tokens_from("8B 0D ? ? ? ? 8B 15 ? ? ? ? 8B"@, 0).len() == 13,
{
    let s = "8B 0D ? ? ? ? 8B 15 ? ? ? ? 8B"@;
    reveal_strlit("8B 0D ? ? ? ? 8B 15 ? ? ? ? 8B");
    reveal_with_fuel(token_end, 5);
    reveal_with_fuel(tokens_from, 5);
    assert(tokens_from(s, 30) =~= Seq::<Seq<char>>::empty());
    assert(token_end(s, 28) == 30);
    assert(tokens_from(s, 28) =~= seq![s.subrange(28, 30)] + tokens_from(s, 30));
    assert(tokens_from(s, 27) =~= tokens_from(s, 28));
    assert(token_end(s, 26) == 27);
    assert(tokens_from(s, 26) =~= seq![s.subrange(26, 27)] + tokens_from(s, 27));
    assert(tokens_from(s, 25) =~= tokens_from(s, 26));
    assert(token_end(s, 24) == 25);
    assert(tokens_from(s, 24) =~= seq![s.subrange(24, 25)] + tokens_from(s, 25));
    assert(tokens_from(s, 23) =~= tokens_from(s, 24));
    assert(token_end(s, 22) == 23);
    assert(tokens_from(s, 22) =~= seq![s.subrange(22, 23)] + tokens_from(s, 23));
    assert(tokens_from(s, 21) =~= tokens_from(s, 22));
    assert(token_end(s, 20) == 21);
    assert(tokens_from(s, 20) =~= seq![s.subrange(20, 21)] + tokens_from(s, 21));
    assert(tokens_from(s, 19) =~= tokens_from(s, 20));
    assert(token_end(s, 17) == 19);
    assert(tokens_from(s, 17) =~= seq![s.subrange(17, 19)] + tokens_from(s, 19));
    assert(tokens_from(s, 16) =~= tokens_from(s, 17));
    assert(token_end(s, 14) == 16);
    assert(tokens_from(s, 14) =~= seq![s.subrange(14, 16)] + tokens_from(s, 16));
    assert(tokens_from(s, 13) =~= tokens_from(s, 14));
    assert(token_end(s, 12) == 13);
    assert(tokens_from(s, 12) =~= seq![s.subrange(12, 13)] + tokens_from(s, 13));
    assert(tokens_from(s, 11) =~= tokens_from(s, 12));
    assert(token_end(s, 10) == 11);
    assert(tokens_from(s, 10) =~= seq![s.subrange(10, 11)] + tokens_from(s, 11));
    assert(tokens_from(s, 9) =~= tokens_from(s, 10));
    assert(token_end(s, 8) == 9);
    assert(tokens_from(s, 8) =~= seq![s.subrange(8, 9)] + tokens_from(s, 9));
    assert(tokens_from(s, 7) =~= tokens_from(s, 8));
    assert(token_end(s, 6) == 7);
    assert(tokens_from(s, 6) =~= seq![s.subrange(6, 7)] + tokens_from(s, 7));
    assert(tokens_from(s, 5) =~= tokens_from(s, 6));
    assert(token_end(s, 3) == 5);
    assert(tokens_from(s, 3) =~= seq![s.subrange(3, 5)] + tokens_from(s, 5));
    assert(tokens_from(s, 2) =~= tokens_from(s, 3));
    assert(token_end(s, 0) == 2);
    assert(tokens_from(s, 0) =~= seq![s.subrange(0, 2)] + tokens_from(s, 2));
    assert(tokens_from(s, 0) =~= seq![s.subrange(0, 2), s.subrange(3, 5), s.subrange(6, 7), s.subrange(8, 9), s.subrange(10, 11), s.subrange(12, 13), s.subrange(14, 16), s.subrange(17, 19), s.subrange(20, 21), s.subrange(22, 23), s.subrange(24, 25), s.subrange(26, 27), s.subrange(28, 30)]);
    assert(token_valid(s.subrange(0, 2)));
    assert(token_valid(s.subrange(3, 5)));
    assert(s.subrange(6, 7)[0] == '?');
    assert(token_valid(s.subrange(6, 7)));
    assert(s.subrange(8, 9)[0] == '?');
    assert(token_valid(s.subrange(8, 9)));
    assert(s.subrange(10, 11)[0] == '?');
    assert(token_valid(s.subrange(10, 11)));
    assert(s.subrange(12, 13)[0] == '?');
    assert(token_valid(s.subrange(12, 13)));
    assert(token_valid(s.subrange(14, 16)));
    assert(token_valid(s.subrange(17, 19)));
    assert(s.subrange(20, 21)[0] == '?');
    assert(token_valid(s.subrange(20, 21)));
    assert(s.subrange(22, 23)[0] == '?');
    assert(token_valid(s.subrange(22, 23)));
    assert(s.subrange(24, 25)[0] == '?');
    assert(token_valid(s.subrange(24, 25)));
    assert(s.subrange(26, 27)[0] == '?');
    assert(token_valid(s.subrange(26, 27)));
    assert(token_valid(s.subrange(28, 30)));
    assert forall|i: int| 0 <= i < tokens_from(s, 0).len() implies token_valid(
        #[trigger] tokens_from(s, 0)[i],
    ) by {
        assert(tokens_from(s, 0) =~= seq![s.subrange(0, 2), s.subrange(3, 5), s.subrange(6, 7), s.subrange(8, 9), s.subrange(10, 11), s.subrange(12, 13), s.subrange(14, 16), s.subrange(17, 19), s.subrange(20, 21), s.subrange(22, 23), s.subrange(24, 25), s.subrange(26, 27), s.subrange(28, 30)]);
    }
}

proof fn lemma_mat_surface_pattern_valid()
    ensures
        valid_pattern_str("A3 ? ? ? ? 83 3D ? ? ? ? ? 75 14 8B 04 B7 6A 00 68"@),
        tokens_from("A3 ? ? ? ? 83 3D ? ? ? ? ? 75 14 8B 04 B7 6A 00 68"@, 0).len() == 20,
{
    let s = "A3 ? ? ? ? 83 3D ? ? ? ? ? 75 14 8B 04 B7 6A 00 68"@;
    reveal_strlit("A3 ? ? ? ? 83 3D ? ? ? ? ? 75 14 8B 04 B7 6A 00 68");
    reveal_with_fuel(token_end, 5);
    reveal_with_fuel(tokens_from, 5);
    assert(tokens_from(s, 50) =~= Seq::<Seq<char>>::empty());
    assert(token_end(s, 48) == 50);
    assert(tokens_from(s, 48) =~= seq![s.subrange(48, 50)] + tokens_from(s, 50));
    assert(tokens_from(s, 47) =~= tokens_from(s, 48));
    assert(token_end(s, 45) == 47);
    assert(tokens_from(s, 45) =~= seq![s.subrange(45, 47)] + tokens_from(s, 47));
    assert(tokens_from(s, 44) =~= tokens_from(s, 45));
    assert(token_end(s, 42) == 44);
    assert(tokens_from(s, 42) =~= seq![s.subrange(42, 44)] + tokens_from(s, 44));
    assert(tokens_from(s, 41) =~= tokens_from(s, 42));
    assert(token_end(s, 39) == 41);
    assert(tokens_from(s, 39) =~= seq![s.subrange(39, 41)] + tokens_from(s, 41));
    assert(tokens_from(s, 38) =~= tokens_from(s, 39));
    assert(token_end(s, 36) == 38);
    assert(tokens_from(s, 36) =~= seq![s.subrange(36, 38)] + tokens_from(s, 38));
    assert(tokens_from(s, 35) =~= tokens_from(s, 36));
    assert(token_end(s, 33) == 35);
    assert(tokens_from(s, 33) =~= seq![s.subrange(33, 35)] + tokens_from(s, 35));
    assert(tokens_from(s, 32) =~= tokens_from(s, 33));
    assert(token_end(s, 30) == 32);
    assert(tokens_from(s, 30) =~= seq![s.subrange(30, 32)] + tokens_from(s, 32));
    assert(tokens_from(s, 29) =~= tokens_from(s, 30));
    assert(token_end(s, 27) == 29);
    assert(tokens_from(s, 27) =~= seq![s.subrange(27, 29)] + tokens_from(s, 29));
    assert(tokens_from(s, 26) =~= tokens_from(s, 27));
    assert(token_end(s, 25) == 26);
    assert(tokens_from(s, 25) =~= seq![s.subrange(25, 26)] + tokens_from(s, 26));
    assert(tokens_from(s, 24) =~= tokens_from(s, 25));
    assert(token_end(s, 23) == 24);
    assert(tokens_from(s, 23) =~= seq![s.subrange(23, 24)] + tokens_from(s, 24));
    assert(tokens_from(s, 22) =~= tokens_from(s, 23));
    assert(token_end(s, 21) == 22);
    assert(tokens_from(s, 21) =~= seq![s.subrange(21, 22)] + tokens_from(s, 22));
    assert(tokens_from(s, 20) =~= tokens_from(s, 21));
    assert(token_end(s, 19) == 20);
    assert(tokens_from(s, 19) =~= seq![s.subrange(19, 20)] + tokens_from(s, 20));
    assert(tokens_from(s, 18) =~= tokens_from(s, 19));
    assert(token_end(s, 17) == 18);
    assert(tokens_from(s, 17) =~= seq![s.subrange(17, 18)] + tokens_from(s, 18));
    assert(tokens_from(s, 16) =~= tokens_from(s, 17));
    assert(token_end(s, 14) == 16);
    assert(tokens_from(s, 14) =~= seq![s.subrange(14, 16)] + tokens_from(s, 16));
    assert(tokens_from(s, 13) =~= tokens_from(s, 14));
    assert(token_end(s, 11) == 13);
    assert(tokens_from(s, 11) =~= seq![s.subrange(11, 13)] + tokens_from(s, 13));
    assert(tokens_from(s, 10) =~= tokens_from(s, 11));
    assert(token_end(s, 9) == 10);
    assert(tokens_from(s, 9) =~= seq![s.subrange(9, 10)] + tokens_from(s, 10));
    assert(tokens_from(s, 8) =~= tokens_from(s, 9));
    assert(token_end(s, 7) == 8);
    assert(tokens_from(s, 7) =~= seq![s.subrange(7, 8)] + tokens_from(s, 8));
    assert(tokens_from(s, 6) =~= tokens_from(s, 7));
    assert(token_end(s, 5) == 6);
    assert(tokens_from(s, 5) =~= seq![s.subrange(5, 6)] + tokens_from(s, 6));
    assert(tokens_from(s, 4) =~= tokens_from(s, 5));
    assert(token_end(s, 3) == 4);
    assert(tokens_from(s, 3) =~= seq![s.subrange(3, 4)] + tokens_from(s, 4));
    assert(tokens_from(s, 2) =~= tokens_from(s, 3));
    assert(token_end(s, 0) == 2);
    assert(tokens_from(s, 0) =~= seq![s.subrange(0, 2)] + tokens_from(s, 2));
    assert(tokens_from(s, 0) =~= seq![s.subrange(0, 2), s.subrange(3, 4), s.subrange(5, 6), s.subrange(7, 8), s.subrange(9, 10), s.subrange(11, 13), s.subrange(14, 16), s.subrange(17, 18), s.subrange(19, 20), s.subrange(21, 22), s.subrange(23, 24), s.subrange(25, 26), s.subrange(27, 29), s.subrange(30, 32), s.subrange(33, 35), s.subrange(36, 38), s.subrange(39, 41), s.subrange(42, 44), s.subrange(45, 47), s.subrange(48, 50)]);
    assert(token_valid(s.subrange(0, 2)));
    assert(s.subrange(3, 4)[0] == '?');
    assert(token_valid(s.subrange(3, 4)));
    assert(s.subrange(5, 6)[0] == '?');
    assert(token_valid(s.subrange(5, 6)));
    assert(s.subrange(7, 8)[0] == '?');
    assert(token_valid(s.subrange(7, 8)));
    assert(s.subrange(9, 10)[0] == '?');
    assert(token_valid(s.subrange(9, 10)));
    assert(token_valid(s.subrange(11, 13)));
    assert(token_valid(s.subrange(14, 16)));
    assert(s.subrange(17, 18)[0] == '?');
    assert(token_valid(s.subrange(17, 18)));
    assert(s.subrange(19, 20)[0] == '?');
    assert(token_valid(s.subrange(19, 20)));
    assert(s.subrange(21, 22)[0] == '?');
    assert(token_valid(s.subrange(21, 22)));
    assert(s.subrange(23, 24)[0] == '?');
    assert(token_valid(s.subrange(23, 24)));
    assert(s.subrange(25, 26)[0] == '?');
    assert(token_valid(s.subrange(25, 26)));
    assert(token_valid(s.subrange(27, 29)));
    assert(token_valid(s.subrange(30, 32)));
    assert(token_valid(s.subrange(33, 35)));
    assert(token_valid(s.subrange(36, 38)));
    assert(token_valid(s.subrange(39, 41)));
    assert(token_valid(s.subrange(42, 44)));
    assert(token_valid(s.subrange(45, 47)));
    assert(token_valid(s.subrange(48, 50)));
    assert forall|i: int| 0 <= i < tokens_from(s, 0).len() implies token_valid(
        #[trigger] tokens_from(s, 0)[i],
    ) by {
        assert(tokens_from(s, 0) =~= seq![s.subrange(0, 2), s.subrange(3, 4), s.subrange(5, 6), s.subrange(7, 8), s.subrange(9, 10), s.subrange(11, 13), s.subrange(14, 16), s.subrange(17, 18), s.subrange(19, 20), s.subrange(21, 22), s.subrange(23, 24), s.subrange(25, 26), s.subrange(27, 29), s.subrange(30, 32), s.subrange(33, 35), s.subrange(36, 38), s.subrange(39, 41), s.subrange(42, 44), s.subrange(45, 47), s.subrange(48, 50)]);
    }
}


/// What resolving the console-variable manager yields: the engine's
/// `cvar` export, dereferenced once.
pub open spec fn cvar_step(mem: Memory, er: (int, int)) -> Result<usize, Error> {
    let exp = exports_spec(mem, er.0, er.1);
    if !exp.contains_key("cvar"@) {
        Err(Error::CantFind)
    } else {
        deref_spec(mem, exp["cvar"@], 1)
    }
}

/// What resolving the client-module object yields: the engine scanned for
/// its signature, the match offset by 2, dereferenced twice.
pub open spec fn chl_client_step(mem: Memory, er: (int, int)) -> Result<usize, Error> {
    match scan_spec(mem, er.0, er.1, pattern_bytes_of(spec_chl_client_pattern()), 0) {
        Err(e) => Err(e),
        Ok(a) => match offset_spec(a as int, 2) {
            Err(e) => Err(e),
            Ok(b) => deref_spec(mem, b as usize, 2),
        },
    }
}

/// What resolving the surface-drawing object yields: the surface image
/// scanned for its signature, the match offset by 1, dereferenced twice.
pub open spec fn mat_surface_step(mem: Memory, vr: (int, int)) -> Result<usize, Error> {
    match scan_spec(mem, vr.0, vr.1, pattern_bytes_of(spec_mat_surface_pattern()), 0) {
        Err(e) => Err(e),
        Ok(a) => match offset_spec(a as int, 1) {
            Err(e) => Err(e),
            Ok(b) => deref_spec(mem, b as usize, 2),
        },
    }
}

/// Everything the context pipeline resolves, as plain values: the three
/// module ranges and the three interface object addresses.
pub ghost struct ContextParts {
    pub client: (int, int),
    pub engine: (int, int),
    pub vguimatsurface: (int, int),
    pub cvar: usize,
    pub chl_client: usize,
    pub mat_system_surface: usize,
}

/// The whole pipeline, short-circuiting on the first failure: resolve the
/// three images, then the console-variable manager, the client-module
/// object, and the surface-drawing object.
pub open spec fn context_steps(mem: Memory, records: Seq<ImageRecord>) -> Result<
    ContextParts,
    Error,
> {
    match resolve_spec("client.dll\0"@, records) {
        Err(e) => Err(e),
        Ok(cr) => match resolve_spec("engine.dll\0"@, records) {
            Err(e) => Err(e),
            Ok(er) => match resolve_spec("vguimatsurface.dll\0"@, records) {
                Err(e) => Err(e),
                Ok(vr) => match cvar_step(mem, er) {
                    Err(e) => Err(e),
                    Ok(cv) => match chl_client_step(mem, er) {
                        Err(e) => Err(e),
                        Ok(ch) => match mat_surface_step(mem, vr) {
                            Err(e) => Err(e),
                            Ok(ms) => Ok(
                                ContextParts {
                                    client: cr,
                                    engine: er,
                                    vguimatsurface: vr,
                                    cvar: cv,
                                    chl_client: ch,
                                    mat_system_surface: ms,
                                },
                            ),
                        },
                    },
                },
            },
        },
    }
}

/// The resolved interface objects and module views of one process.
pub struct Context {
    module: usize,
    client: Module,
    engine: Module,
    vguimatsurface: Module,
    cvar: Cvar,
    chl_client: CHLClient,
    mat_system_surface: MatSystemSurface,
}

/// The context agrees with the pipeline's outcome: the pipeline succeeds
/// and every field of the context holds the value the pipeline resolved.
pub open spec fn ctx_matches(c: Context, module: usize, mem: Memory, records: Seq<ImageRecord>) -> bool {
    match context_steps(mem, records) {
        Err(_) => false,
        Ok(p) => {
            &&& c.spec_module() == module
            &&& c.spec_client().spec_start() == p.client.0
            &&& c.spec_client().spec_end() == p.client.1
            &&& c.spec_client().spec_exports() == exports_spec(mem, p.client.0, p.client.1)
            &&& c.spec_engine().spec_start() == p.engine.0
            &&& c.spec_engine().spec_end() == p.engine.1
            &&& c.spec_engine().spec_exports() == exports_spec(mem, p.engine.0, p.engine.1)
            &&& c.spec_vguimatsurface().spec_start() == p.vguimatsurface.0
            &&& c.spec_vguimatsurface().spec_end() == p.vguimatsurface.1
            &&& c.spec_vguimatsurface().spec_exports() == exports_spec(
                mem,
                p.vguimatsurface.0,
                p.vguimatsurface.1,
            )
            &&& c.spec_cvar().instance_addr() == p.cvar
            &&& c.spec_chl_client().instance_addr() == p.chl_client
            &&& c.spec_mat_system_surface().instance_addr() == p.mat_system_surface
        },
    }
}

impl Context {
    /// The handle of the hosting image the context was tagged with.
    pub closed spec fn spec_module(&self) -> usize {
        self.module
    }

    /// The client image's view.
    pub closed spec fn spec_client(&self) -> Module {
        self.client
    }

    /// The engine image's view.
    pub closed spec fn spec_engine(&self) -> Module {
        self.engine
    }

    /// The surface image's view.
    pub closed spec fn spec_vguimatsurface(&self) -> Module {
        self.vguimatsurface
    }

    /// The console-variable manager handle.
    pub closed spec fn spec_cvar(&self) -> Cvar {
        self.cvar
    }

    /// The client-module handle.
    pub closed spec fn spec_chl_client(&self) -> CHLClient {
        self.chl_client
    }

    /// The surface-drawing handle.
    pub closed spec fn spec_mat_system_surface(&self) -> MatSystemSurface {
        self.mat_system_surface
    }

    /// Resolve the whole context against the loaded-image records and the
    /// memory view: the three images, the engine's exported
    /// console-variable manager, and the two signature-located objects.
    pub fn new(module: usize, records: &Vec<ImageRecord>, mem: &Memory) -> (r: Result<
        Context,
        Error,
    >)
        requires
            mem.wf(),
        ensures
            r matches Ok(c) ==> ctx_matches(c, module, *mem, records@),
            r matches Err(e) ==> context_steps(*mem, records@) == Err::<ContextParts, Error>(e),
    {
        let client = match Module::new("client.dll\0", records, mem) {
            Err(e) => {
                return Err(e);
            },
            Ok(m) => m,
        };
        let engine = match Module::new("engine.dll\0", records, mem) {
            Err(e) => {
                return Err(e);
            },
            Ok(m) => m,
        };
        let vguimatsurface = match Module::new("vguimatsurface.dll\0", records, mem) {
            Err(e) => {
                return Err(e);
            },
            Ok(m) => m,
        };
        let ghost er = (engine.spec_start() as int, engine.spec_end() as int);
        let ghost vr = (vguimatsurface.spec_start() as int, vguimatsurface.spec_end() as int);

        // the console-variable manager: the engine's `cvar` export,
        // dereferenced once
        let cvar_export = match engine.get_exports().get("cvar") {
            None => {
                return Err(Error::CantFind);
            },
            Some(a) => a,
        };
        let cvar_obj = match cvar_export.deref(mem, 1) {
            Err(e) => {
                return Err(e);
            },
            Ok(a) => a,
        };
        let cvar = Cvar::new(cvar_obj);

        // the client-module object: signature scan in the engine, offset
        // by 2, dereferenced twice
        proof {
            lemma_chl_client_pattern_valid();
        }
        let p1 = match engine.find_pattern(mem, chl_client_pattern()) {
            Err(e) => {
                return Err(e);
            },
            Ok(a) => a,
        };
        proof {
            let hay = mem.bytes_at(er.0, er.1 - er.0);
            lemma_bytes_of_tokens_len(tokens_from(spec_chl_client_pattern(), 0));
            lemma_find_nth_is_hit(hay, pattern_bytes_of(spec_chl_client_pattern()), 0, 0);
        }
        let p2 = match p1.offset(2) {
            Err(e) => {
                return Err(e);
            },
            Ok(a) => a,
        };
        let chl_obj = match p2.deref(mem, 2) {
            Err(e) => {
                return Err(e);
            },
            Ok(a) => a,
        };
        let chl_client = CHLClient::new(chl_obj);

        // the surface-drawing object: signature scan in the surface
        // image, offset by 1, dereferenced twice
        proof {
            lemma_mat_surface_pattern_valid();
        }
        let q1 = match vguimatsurface.find_pattern(mem, mat_surface_pattern()) {
            Err(e) => {
                return Err(e);
            },
            Ok(a) => a,
        };
        proof {
            let hay = mem.bytes_at(vr.0, vr.1 - vr.0);
            lemma_bytes_of_tokens_len(tokens_from(spec_mat_surface_pattern(), 0));
            lemma_find_nth_is_hit(hay, pattern_bytes_of(spec_mat_surface_pattern()), 0, 0);
        }
        let q2 = match q1.offset(1) {
            Err(e) => {
                return Err(e);
            },
            Ok(a) => a,
        };
        let mat_obj = match q2.deref(mem, 2) {
            Err(e) => {
                return Err(e);
            },
            Ok(a) => a,
        };
        let mat_system_surface = MatSystemSurface::new(mat_obj);

        Ok(
            Context {
                module,
                client,
                engine,
                vguimatsurface,
                cvar,
                chl_client,
                mat_system_surface,
            },
        )
    }

    /// The handle of the hosting image.
    pub fn get_module(&self) -> (r: usize)
        ensures
            r == self.spec_module(),
    {
        self.module
    }

    /// The client image's view.
    pub fn get_client(&self) -> (r: &Module)
        ensures
            *r == self.spec_client(),
    {
        &self.client
    }

    /// The engine image's view.
    pub fn get_engine(&self) -> (r: &Module)
        ensures
            *r == self.spec_engine(),
    {
        &self.engine
    }

    /// The surface image's view.
    pub fn get_vguimatsurface(&self) -> (r: &Module)
        ensures
            *r == self.spec_vguimatsurface(),
    {
        &self.vguimatsurface
    }

    /// The console-variable manager handle.
    pub fn get_cvar(&self) -> (r: &Cvar)
        ensures
            *r == self.spec_cvar(),
    {
        &self.cvar
    }

    /// The console-variable manager handle, writable.
    pub fn get_cvar_mut(&mut self) -> (r: &mut Cvar)
        ensures
            *r == old(self).spec_cvar(),
    {
        &mut self.cvar
    }

    /// The client-module handle.
    pub fn get_chl_client(&self) -> (r: &CHLClient)
        ensures
            *r == self.spec_chl_client(),
    {
        &self.chl_client
    }

    /// The client-module handle, writable.
    pub fn get_chl_client_mut(&mut self) -> (r: &mut CHLClient)
        ensures
            *r == old(self).spec_chl_client(),
    {
        &mut self.chl_client
    }

    /// The surface-drawing handle.
    pub fn get_mat_system_surface(&self) -> (r: &MatSystemSurface)
        ensures
            *r == self.spec_mat_system_surface(),
    {
        &self.mat_system_surface
    }

    /// The surface-drawing handle, writable.
    pub fn get_mat_system_surface_mut(&mut self) -> (r: &mut MatSystemSurface)
        ensures
            *r == old(self).spec_mat_system_surface(),
    {
        &mut self.mat_system_surface
    }
}

/// The one slot that owns the process-wide context.  Construction happens
/// exactly once: a second installation attempt is rejected and leaves the
/// first instance untouched.
pub struct ContextSlot {
    inner: Option<Context>,
}

impl ContextSlot {
    /// The installed context, if any.
    pub closed spec fn spec_inner(&self) -> Option<Context> {
        self.inner
    }

    /// Whether a context has been installed.
    pub open spec fn is_initialized(&self) -> bool {
        self.spec_inner() is Some
    }

    /// An empty slot.
    pub fn new() -> (r: Self)
        ensures
            !r.is_initialized(),
    {
        ContextSlot { inner: None }
    }

    /// Install the context, constructing it from the records and the
    /// memory view.  A slot that already holds a context rejects the
    /// attempt and keeps its first instance unaltered.
    pub fn install(&mut self, module: usize, records: &Vec<ImageRecord>, mem: &Memory) -> (r:
        Result<(), CtxError>)
        requires
            mem.wf(),
        ensures
            old(self).is_initialized() ==> r == Err::<(), CtxError>(CtxError::AlreadyInitialized)
                && final(self).spec_inner() == old(self).spec_inner(),
            !old(self).is_initialized() ==> match context_steps(*mem, records@) {
                Ok(_) => r is Ok && (final(self).spec_inner() matches Some(c)
                    && ctx_matches(c, module, *mem, records@)),
                Err(e) => r == Err::<(), CtxError>(CtxError::Resolve(e))
                    && !final(self).is_initialized(),
            },
    {
        if self.inner.is_some() {
            return Err(CtxError::AlreadyInitialized);
        }
        match Context::new(module, records, mem) {
            Err(e) => Err(CtxError::Resolve(e)),
            Ok(c) => {
                self.inner = Some(c);
                Ok(())
            },
        }
    }

    /// Whether a context has been installed.
    pub fn initialized(&self) -> (r: bool)
        ensures
            r == self.is_initialized(),
    {
        self.inner.is_some()
    }

    /// The installed context.  Callers must have installed one.
    pub fn get_ctx(&self) -> (r: &Context)
        requires
            self.is_initialized(),
        ensures
            self.spec_inner() == Some(*r),
    {
        match &self.inner {
            Some(c) => c,
            None => vstd::pervasive::unreached(),
        }
    }
}

} // verus!
