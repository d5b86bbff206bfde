//! The runtime: configuration, the module-load state machine, entrypoint
//! discovery and the host-visible call decisions.
//!
//! A driver owning the engine walks a [`LoadSession`] module by module:
//! it asks which module comes next, has the engine register and evaluate
//! it, and reports back. Side modules come strictly before the main module,
//! in the given order; any failure abandons the session, and what was
//! already evaluated stays registered inside the engine — partial loads are
//! not rolled back.

use vstd::prelude::*;
use vstd::string::*;
use crate::bridge::FunctionTable;
use crate::bridge::JsFunction;
use crate::cache::ModuleCacheProvider;
use crate::error::Error;
use crate::loader::Capabilities;
use crate::loader::RustyLoader;
use crate::module::Module;

verus! {

/// The timeout value meaning "unbounded": no deadline is enforced.
pub const TIMEOUT_UNBOUNDED_MS: u64 = 0xffff_ffff_ffff_ffff;

/// The set of options accepted by the runtime constructor.
pub struct RuntimeOptions {
    /// Names of host-defined capability sets the driver injects into the
    /// engine.
    pub extensions: Vec<String>,
    /// The export to use as entrypoint when the module registers none.
    pub default_entrypoint: Option<String>,
    /// Milliseconds a suspendable task may run before it is abandoned.
    pub timeout_ms: u64,
    /// The import capabilities granted to this runtime's loader.
    pub capabilities: Capabilities,
    /// Distinguishes this runtime instance: stored-function handles are
    /// valid only against the instance whose key they carry, so every live
    /// runtime should get its own key.
    pub instance_key: u64,
}

impl Default for RuntimeOptions {
    /// No extensions, no default entrypoint, no deadline, no capabilities.
    fn default() -> (r: Self)
        ensures
            r.extensions@.len() == 0,
            r.default_entrypoint is None,
            r.timeout_ms == TIMEOUT_UNBOUNDED_MS,
            !r.capabilities.url_import,
            !r.capabilities.fs_import,
            r.instance_key == 0,
    {
        RuntimeOptions {
            extensions: Vec::new(),
            default_entrypoint: None,
            timeout_ms: TIMEOUT_UNBOUNDED_MS,
            capabilities: Capabilities { url_import: false, fs_import: false },
            instance_key: 0,
        }
    }
}

/// What a successful load hands the host: the module, the engine's id for
/// it, and its entrypoint if one was found. Immutable once created.
#[derive(Debug)]
pub struct ModuleHandle {
    module: Module,
    module_id: usize,
    entrypoint: Option<JsFunction>,
}

impl ModuleHandle {
    /// The handle's module.
    pub closed spec fn spec_module(&self) -> Module {
        self.module
    }

    /// The engine-internal id of the handle's module.
    pub closed spec fn spec_id(&self) -> usize {
        self.module_id
    }

    /// The handle's entrypoint, if one was found.
    pub closed spec fn spec_entrypoint(&self) -> Option<JsFunction> {
        self.entrypoint
    }

    /// Create a handle.
    pub fn new(module: &Module, module_id: usize, entrypoint: Option<JsFunction>) -> (r: Self)
        ensures
            r.spec_module() == *module,
            r.spec_id() == module_id,
            r.spec_entrypoint() == entrypoint,
    {
        ModuleHandle { module: module.clone(), module_id, entrypoint }
    }

    /// The handle's module.
    pub fn module(&self) -> (r: &Module)
        ensures
            *r == self.spec_module(),
    {
        &self.module
    }

    /// The engine-internal id of the handle's module.
    pub fn id(&self) -> (r: usize)
        ensures
            r == self.spec_id(),
    {
        self.module_id
    }

    /// The handle's entrypoint, if one was found.
    pub fn entrypoint(&self) -> (r: &Option<JsFunction>)
        ensures
            *r == self.spec_entrypoint(),
    {
        &self.entrypoint
    }
}

/// A configured runtime: its options, its loader (whitelist, capabilities
/// and cache), its table of stored callables, and the entrypoint
/// registration slot that script code fills through the host-exposed
/// registration call.
pub struct Runtime<C: ModuleCacheProvider> {
    /// The options this runtime was created with.
    pub options: RuntimeOptions,
    /// The loader backing this runtime's imports.
    pub loader: RustyLoader<C>,
    /// The stored-callable table of this runtime instance.
    pub functions: FunctionTable,
    /// The entrypoint registration slot; fill and empty it through
    /// [`Runtime::register_entrypoint`] and [`Runtime::take_registered`].
    pub registered_entrypoint: Option<JsFunction>,
}

impl<C: ModuleCacheProvider> Runtime<C> {
    /// The content of the entrypoint registration slot.
    pub open spec fn registered(&self) -> Option<JsFunction> {
        self.registered_entrypoint
    }

    /// A fresh runtime from options and a cache provider: empty whitelist,
    /// no stored callables, empty registration slot.
    pub fn new(options: RuntimeOptions, module_cache: C) -> (r: Self)
        ensures
            r.options == options,
            r.loader.whitelist() == Set::<Seq<char>>::empty(),
            r.loader.capabilities() == options.capabilities,
            r.loader.cache_view() == module_cache.cache_view(),
            r.loader.caching() == module_cache.caching(),
            r.functions.instance_id() == options.instance_key,
            r.functions.stored_count() == 0,
            r.registered() is None,
    {
        let capabilities = options.capabilities;
        let instance_key = options.instance_key;
        Runtime {
            options,
            loader: RustyLoader::new(module_cache, capabilities),
            functions: FunctionTable::new(instance_key),
            registered_entrypoint: None,
        }
    }

    /// Honor a registration made by script code during evaluation: the
    /// slot holds the latest registration only — a second call overwrites
    /// the first.
    pub fn register_entrypoint(&mut self, f: JsFunction)
        ensures
            final(self).registered() == Some(f),
            final(self).options == old(self).options,
            final(self).loader == old(self).loader,
            final(self).functions == old(self).functions,
    {
        self.registered_entrypoint = Some(f);
    }

    /// Empty the registration slot and hand out what it held.
    pub fn take_registered(&mut self) -> (r: Option<JsFunction>)
        ensures
            r == old(self).registered(),
            final(self).registered() is None,
            final(self).options == old(self).options,
            final(self).loader == old(self).loader,
            final(self).functions == old(self).functions,
    {
        let r = self.registered_entrypoint;
        self.registered_entrypoint = None;
        r
    }

    /// After evaluation, the name to look up as a fallback entrypoint:
    /// only when script code registered nothing and a default name is
    /// configured is the default consulted.
    pub fn default_lookup_name(&self, registered: &Option<JsFunction>) -> (r: Option<&String>)
        ensures
            registered is Some ==> r is None,
            registered is None && self.options.default_entrypoint is None ==> r is None,
            registered is None ==> (self.options.default_entrypoint matches Some(name) ==> (
            r matches Some(rn) && rn@ == name@)),
    {
        match registered {
            Some(_) => None,
            None => match &self.options.default_entrypoint {
                Some(name) => Some(name),
                None => None,
            },
        }
    }
}

/// The entrypoint a handle carries: an explicit registration wins; only in
/// its absence does the looked-up default count.
pub fn resolve_entrypoint(registered: Option<JsFunction>, looked_up: Option<JsFunction>) -> (r:
    Option<JsFunction>)
    ensures
        registered is Some ==> r == registered,
        registered is None ==> r == looked_up,
{
    match registered {
        Some(f) => Some(f),
        None => looked_up,
    }
}

/// The entrypoint to call for a handle, or [`Error::MissingEntrypoint`]
/// naming the handle's module when none was ever found.
pub fn entrypoint_of(handle: &ModuleHandle) -> (r: Result<JsFunction, Error>)
    ensures
        (handle.spec_entrypoint() matches Some(f) ==> r == Ok::<JsFunction, Error>(f)),
        handle.spec_entrypoint() is None ==> (r matches Err(e) && e matches Error::MissingEntrypoint(
            m,
        ) && m == handle.spec_module()),
{
    match handle.entrypoint() {
        Some(f) => Ok(*f),
        None => Err(Error::MissingEntrypoint(handle.module().clone())),
    }
}

/// One load of a set of modules: the side modules strictly first, in the
/// caller's order, then the main module. The driver evaluates them one at
/// a time and records each success; the handle of the most recently
/// evaluated module becomes the session's result, so it is the main
/// module's handle when a main module is given, else the last side
/// module's.
#[derive(Debug)]
pub struct LoadSession {
    modules: Vec<Module>,
    has_main: bool,
    next: usize,
    last_handle: Option<ModuleHandle>,
}

impl LoadSession {
    /// The modules to evaluate, in evaluation order (main last).
    pub closed spec fn spec_modules(&self) -> Seq<Module> {
        self.modules@
    }

    /// Whether the last module of the session is a main module.
    pub closed spec fn spec_has_main(&self) -> bool {
        self.has_main
    }

    /// How many modules have been evaluated.
    pub closed spec fn spec_next(&self) -> nat {
        self.next as nat
    }

    /// The handle of the most recently evaluated module.
    pub closed spec fn spec_last(&self) -> Option<ModuleHandle> {
        self.last_handle
    }

    /// Begin a load. Loading nothing at all is refused up front,
    /// synchronously.
    pub fn new(main_module: Option<&Module>, side_modules: &Vec<Module>) -> (r: Result<
        LoadSession,
        Error,
    >)
        ensures
            (main_module is None && side_modules@.len() == 0) <==> r is Err,
            r matches Err(e) ==> (e matches Error::Runtime(m) && m@
                == "Internal error: attempt to load no modules"@),
            r matches Ok(s) ==> ({
                &&& s.spec_has_main() == (main_module is Some)
                &&& s.spec_next() == 0
                &&& s.spec_last() is None
                &&& s.spec_modules().len() == side_modules@.len() + (
                if main_module is Some {
                    1int
                } else {
                    0int
                })
                &&& forall|i: int|
                    0 <= i < side_modules@.len() ==> s.spec_modules()[i] == side_modules@[i]
                &&& (main_module matches Some(m) ==> s.spec_modules().last() == *m)
            }),
    {
        if main_module.is_none() && side_modules.len() == 0 {
            return Err(
                Error::Runtime(String::from_str("Internal error: attempt to load no modules")),
            );
        }
        let n = side_modules.len();
        let mut modules: Vec<Module> = Vec::new();
        let mut i: usize = 0;
        while i < n
            invariant
                n == side_modules@.len(),
                i <= n,
                modules@ == side_modules@.take(i as int),
            decreases n - i,
        {
            modules.push(side_modules[i].clone());
            proof {
                assert(side_modules@.take(i + 1) =~= side_modules@.take(i as int).push(
                    side_modules@[i as int],
                ));
            }
            i = i + 1;
        }
        proof {
            assert(side_modules@.take(n as int) =~= side_modules@);
        }
        let has_main = match main_module {
            Some(m) => {
                modules.push(m.clone());
                true
            },
            None => false,
        };
        Ok(LoadSession { modules, has_main, next: 0, last_handle: None })
    }

    /// The next module to evaluate, if any is left.
    pub fn next_module(&self) -> (r: Option<&Module>)
        ensures
            self.spec_next() < self.spec_modules().len() ==> (r matches Some(m) && *m
                == self.spec_modules()[self.spec_next() as int]),
            self.spec_next() >= self.spec_modules().len() ==> r is None,
    {
        if self.next < self.modules.len() {
            Some(&self.modules[self.next])
        } else {
            None
        }
    }

    /// Whether the module to evaluate next is the session's main module:
    /// the driver registers it with the engine as such.
    pub fn loading_main(&self) -> (r: bool)
        ensures
            r == (self.spec_has_main() && self.spec_next() + 1 == self.spec_modules().len()),
    {
        let len = self.modules.len();
        self.has_main && len > 0 && self.next == len - 1
    }

    /// Record that the engine evaluated the next module, under this engine
    /// id: the module's handle becomes the session's most recent.
    pub fn record_evaluated(&mut self, module_id: usize)
        requires
            old(self).spec_next() < old(self).spec_modules().len(),
        ensures
            final(self).spec_modules() == old(self).spec_modules(),
            final(self).spec_has_main() == old(self).spec_has_main(),
            final(self).spec_next() == old(self).spec_next() + 1,
            final(self).spec_last() matches Some(h) && h.spec_module() == old(
                self,
            ).spec_modules()[old(self).spec_next() as int] && h.spec_id() == module_id
                && h.spec_entrypoint() is None,
    {
        let len = self.modules.len();
        let handle = ModuleHandle::new(&self.modules[self.next], module_id, None);
        self.last_handle = Some(handle);
        proof {
            assert(self.next < len);
        }
        self.next = self.next + 1;
    }

    /// Whether every module of the session has been evaluated.
    pub fn complete(&self) -> (r: bool)
        ensures
            r == (self.spec_next() == self.spec_modules().len()),
    {
        self.next == self.modules.len()
    }

    /// Close a completed session: the host's handle is the most recently
    /// evaluated module's — the main module's when one was given — now
    /// carrying the entrypoint that was resolved for it.
    pub fn finish(self, entrypoint: Option<JsFunction>) -> (r: ModuleHandle)
        requires
            self.spec_next() == self.spec_modules().len(),
            self.spec_last() is Some,
        ensures
            ({
                let h = self.spec_last()->0;
                &&& r.spec_module() == h.spec_module()
                &&& r.spec_id() == h.spec_id()
                &&& r.spec_entrypoint() == entrypoint
            }),
    {
        let h = self.last_handle.unwrap();
        ModuleHandle::new(&h.module, h.module_id, entrypoint)
    }
}

/// The outcome module validation reports for a load result: evaluation
/// failures (uncaught exceptions, and what the engine refused to parse)
/// mean the text is invalid; any other failure is the host's problem and
/// passes through.
pub fn validation_outcome(r: Result<ModuleHandle, Error>) -> (v: Result<bool, Error>)
    ensures
        r is Ok ==> (v matches Ok(b) && b),
        r matches Err(e) ==> ({
            &&& e is Runtime ==> (v matches Ok(b) && !b)
            &&& !(e is Runtime) ==> v == Err::<bool, Error>(e)
        }),
{
    match r {
        Ok(_) => Ok(true),
        Err(e) => match e {
            Error::Runtime(_) => Ok(false),
            other => Err(other),
        },
    }
}

} // verus!
