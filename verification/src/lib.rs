//! Host-side orchestration for an embedded ECMAScript-module engine.
//!
//! The library mediates every interaction between host code and script code:
//! representing and caching module sources, resolving import specifiers under
//! a security policy, sequencing module evaluation under a deadline, locating
//! a module's entrypoint, and marshaling values (including callable handles)
//! across the host/script boundary.
//!
//! The engine itself — parsing and executing script, managing its heap — is an
//! external collaborator. Every decision this layer makes is a function from
//! plain values (module sources, specifiers, lookup outcomes, call outcomes)
//! to plain values, stated in contracts and verified. A driver owning a real
//! engine performs the opaque steps (evaluation, lookups, invocations) and
//! feeds their outcomes back into these functions.

pub mod bridge;
pub mod cache;
pub mod error;
pub mod loader;
pub mod module;
pub mod runtime;
pub mod specifier;
pub mod text;

pub use bridge::CallResult;
pub use bridge::ExceptionDetail;
pub use bridge::FunctionTable;
pub use bridge::JsFunction;
pub use bridge::ScopeValue;
pub use bridge::TaskOutcome;
pub use cache::MemoryModuleCacheProvider;
pub use cache::ModuleCacheProvider;
pub use cache::ModuleSource;
pub use cache::ModuleType;
pub use error::Error;
pub use loader::Capabilities;
pub use loader::LoadStep;
pub use loader::RustyLoader;
pub use module::Module;
pub use module::StaticModule;
pub use runtime::LoadSession;
pub use runtime::ModuleHandle;
pub use runtime::Runtime;
pub use runtime::RuntimeOptions;
