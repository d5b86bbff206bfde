//! The value bridge: every decision made while marshaling values and
//! callables between the host and the engine.
//!
//! The engine's own lookups and invocations are opaque; a driver performs
//! them and reports their outcomes ([`ScopeValue`], [`CallResult`],
//! [`TaskOutcome`]). The functions here turn those outcomes into the results
//! the host observes, and their contracts pin that mapping down exactly.

use vstd::prelude::*;
use vstd::string::*;
use crate::error::Error;
use crate::text::dec_digits;
use crate::text::u32_to_string;

verus! {

/// What a lookup of one name in one scope (global scope or a module's export
/// namespace) produced.
pub enum ScopeValue<V> {
    /// The name is not declared in this scope.
    Missing,
    /// The name is bound to `null`.
    Null,
    /// The name is bound to `undefined`.
    Undefined,
    /// The name is bound to a proper value.
    Defined(V),
}

/// The value a name denotes, given both scopes' lookups: the global scope
/// is preferred, and a scope contributes only a proper value — one that is
/// declared and neither `null` nor `undefined`.
pub open spec fn selected_value<V>(global: ScopeValue<V>, exported: ScopeValue<V>) -> Option<V> {
    match global {
        ScopeValue::Defined(v) => Some(v),
        _ => match exported {
            ScopeValue::Defined(v) => Some(v),
            _ => None,
        },
    }
}

/// Law: for a name bound to proper values in both the global scope and the
/// module's export namespace, value extraction selects the global binding.
pub proof fn lemma_global_scope_precedence<V>(g: V, e: V)
    ensures
        selected_value(ScopeValue::Defined(g), ScopeValue::Defined(e)) == Some(g),
{
}

/// Law: a name bound to `null` or `undefined`, or not declared at all, in
/// both the global scope and the export namespace denotes no value, so its
/// extraction fails.
pub proof fn lemma_null_undefined_not_found<V>(global: ScopeValue<V>, exported: ScopeValue<V>)
    requires
        global !is Defined,
        exported !is Defined,
    ensures
        selected_value(global, exported) is None,
{
}

/// Select the value a name denotes, given the outcome of looking it up in
/// the global scope and in the module's export namespace.
///
/// The global scope is preferred; the export namespace is consulted only
/// when the global lookup yielded no proper value. A name bound to `null` or
/// `undefined`, or not declared at all, in both scopes fails with
/// [`Error::ValueNotFound`].
pub fn select_value_ref<V>(name: &str, global: ScopeValue<V>, exported: ScopeValue<V>) -> (r:
    Result<V, Error>)
    ensures
        (selected_value(global, exported) matches Some(v) ==> (r matches Ok(rv) && rv == v)),
        selected_value(global, exported) is None ==> (r matches Err(e) && e matches
            Error::ValueNotFound(n) && n@ == name@),
{
    match global {
        ScopeValue::Defined(v) => Ok(v),
        _ => match exported {
            ScopeValue::Defined(v) => Ok(v),
            _ => Err(Error::ValueNotFound(String::from_str(name))),
        },
    }
}

/// Admit a value as callable, or reject it.
///
/// The engine alone can tell whether a value is callable; the driver reports
/// that verdict as `is_callable`, and this function turns it into the result
/// the host observes: the value itself, or [`Error::ValueNotCallable`]
/// naming what was asked for.
pub fn require_callable<V>(name: &str, value: V, is_callable: bool) -> (r: Result<V, Error>)
    ensures
        is_callable ==> (r matches Ok(rv) && rv == value),
        !is_callable ==> (r matches Err(e) && e matches Error::ValueNotCallable(n) && n@
            == name@),
{
    if is_callable {
        Ok(value)
    } else {
        Err(Error::ValueNotCallable(String::from_str(name)))
    }
}

/// How a race between a suspendable task and the configured deadline ended.
pub enum TaskOutcome<T> {
    /// The task finished first, with this result.
    Completed(T),
    /// The timer fired first; the task was abandoned.
    TimedOut,
}

/// The result the host observes from a deadline-raced task.
///
/// A timeout always takes precedence: whatever the abandoned task would have
/// produced, the host sees [`Error::Timeout`]. A task that finished first
/// hands its own result through unchanged.
pub fn race_result<T>(outcome: TaskOutcome<Result<T, Error>>) -> (r: Result<T, Error>)
    ensures
        outcome matches TaskOutcome::Completed(res) ==> r == res,
        outcome is TimedOut ==> (r matches Err(e) && e matches Error::Timeout(m) && m@
            == "Task timed out"@),
{
    match outcome {
        TaskOutcome::Completed(res) => res,
        TaskOutcome::TimedOut => Err(Error::Timeout(String::from_str("Task timed out"))),
    }
}

/// What the engine reported about an uncaught exception: the script resource
/// that raised it (if location metadata was available), the line number
/// (zero when unavailable), and the exception's message.
pub struct ExceptionDetail {
    pub resource_name: Option<String>,
    pub line: u32,
    pub message: String,
}

/// How the engine's invocation of a function ended.
pub enum CallResult<V> {
    /// The call returned this value.
    Returned(V),
    /// The call threw, and the engine caught these details.
    Threw(ExceptionDetail),
    /// The call produced neither a value nor a caught exception.
    Failed,
}

/// The filename an exception is reported against: the script resource the
/// engine named, or the module's own filename when it named none.
pub open spec fn exception_filename(module_filename: Seq<char>, resource: Option<String>) -> Seq<
    char,
> {
    match resource {
        Some(r) => r@,
        None => module_filename,
    }
}

/// The text of a runtime error: `<file>:<line>: <message>`.
pub open spec fn exception_text(filename: Seq<char>, line: u32, message: Seq<char>) -> Seq<char> {
    filename + ":"@ + dec_digits(line as nat) + ": "@ + message
}

/// Format an uncaught exception as `<file>:<line>: <message>`, falling back
/// to the module's filename when the engine reported no script resource.
pub fn format_exception(module_filename: &str, detail: &ExceptionDetail) -> (s: String)
    ensures
        s@ == exception_text(
            exception_filename(module_filename@, detail.resource_name),
            detail.line,
            detail.message@,
        ),
{
    let mut s = String::new();
    match &detail.resource_name {
        Some(r) => s.append(r.as_str()),
        None => s.append(module_filename),
    }
    s.append(":");
    let line = u32_to_string(detail.line);
    s.append(line.as_str());
    s.append(": ");
    s.append(detail.message.as_str());
    proof {
        assert(s@ =~= exception_text(
            exception_filename(module_filename@, detail.resource_name),
            detail.line,
            detail.message@,
        ));
    }
    s
}

/// The result the host observes from one function invocation, given how the
/// engine's call ended.
///
/// A returned value passes through unchanged; an uncaught exception becomes
/// [`Error::Runtime`] with the formatted file, line and message; a call that
/// failed without a caught exception becomes [`Error::Runtime`] with a
/// generic message.
pub fn call_outcome<V>(module_filename: &str, outcome: CallResult<V>) -> (r: Result<V, Error>)
    ensures
        outcome matches CallResult::Returned(v) ==> (r matches Ok(rv) && rv == v),
        outcome matches CallResult::Threw(d) ==> (r matches Err(e) && e matches
            Error::Runtime(m) && m@ == exception_text(
            exception_filename(module_filename@, d.resource_name),
            d.line,
            d.message@,
        )),
        outcome is Failed ==> (r matches Err(e) && e matches Error::Runtime(m) && m@
            == "Unknown error during function execution"@),
{
    match outcome {
        CallResult::Returned(v) => Ok(v),
        CallResult::Threw(detail) => Err(Error::Runtime(format_exception(module_filename, &detail))),
        CallResult::Failed => Err(
            Error::Runtime(String::from_str("Unknown error during function execution")),
        ),
    }
}

/// An opaque, non-owning reference to a callable engine value: the runtime
/// instance it belongs to and its slot in that runtime's table of stored
/// callables. Valid only against the runtime that produced it.
#[derive(Clone, Copy, PartialEq, Eq, Structural, Debug)]
pub struct JsFunction {
    instance: u64,
    slot: usize,
}

impl JsFunction {
    /// The key of the runtime instance this handle belongs to.
    pub closed spec fn instance_id(&self) -> u64 {
        self.instance
    }

    /// The handle's slot in its runtime's table of stored callables.
    pub closed spec fn slot_index(&self) -> nat {
        self.slot as nat
    }

    /// The handle's slot, for a driver indexing its own table of engine
    /// values.
    pub fn slot(&self) -> (r: usize)
        ensures
            r as nat == self.slot_index(),
    {
        self.slot
    }
}

/// The runtime-owned table of stored callables: callable engine values are
/// kept by the driver, indexed by slot; the table tracks how many slots have
/// been handed out and for which runtime instance, so a handle can be
/// checked at call time instead of trusted.
pub struct FunctionTable {
    instance: u64,
    count: usize,
}

impl FunctionTable {
    /// The key of the runtime instance this table belongs to.
    pub closed spec fn instance_id(&self) -> u64 {
        self.instance
    }

    /// How many handles this table has handed out.
    pub closed spec fn stored_count(&self) -> nat {
        self.count as nat
    }

    /// An empty table for the runtime instance with the given key.
    pub fn new(instance_key: u64) -> (t: Self)
        ensures
            t.instance_id() == instance_key,
            t.stored_count() == 0,
    {
        FunctionTable { instance: instance_key, count: 0 }
    }

    /// Hand out the next slot: the driver stores the callable engine value
    /// under the returned handle's slot.
    pub fn store(&mut self) -> (f: JsFunction)
        requires
            old(self).stored_count() < usize::MAX,
        ensures
            final(self).instance_id() == old(self).instance_id(),
            final(self).stored_count() == old(self).stored_count() + 1,
            f.instance_id() == old(self).instance_id(),
            f.slot_index() == old(self).stored_count(),
    {
        let f = JsFunction { instance: self.instance, slot: self.count };
        self.count = self.count + 1;
        f
    }

    /// Check a handle against this table: its slot is returned exactly when
    /// the handle was produced by this runtime instance and names a slot
    /// that was handed out.
    pub fn check(&self, f: &JsFunction) -> (r: Result<usize, Error>)
        ensures
            r is Ok <==> (f.instance_id() == self.instance_id() && f.slot_index()
                < self.stored_count()),
            r matches Ok(s) ==> s as nat == f.slot_index(),
            r is Err ==> (r matches Err(e) && e is InvalidFunctionHandle),
    {
        if f.instance == self.instance && f.slot < self.count {
            Ok(f.slot)
        } else {
            Err(Error::InvalidFunctionHandle)
        }
    }
}

} // verus!
