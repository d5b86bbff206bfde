use rustyscript::CallResult;
use rustyscript::Error;
use rustyscript::LoadSession;
use rustyscript::Module;
use rustyscript::Runtime;
use rustyscript::RuntimeOptions;
use rustyscript::ScopeValue;
use rustyscript::TaskOutcome;
use rustyscript::bridge::call_outcome;
use rustyscript::bridge::race_result;
use rustyscript::bridge::require_callable;
use rustyscript::bridge::select_value_ref;
use rustyscript::runtime::entrypoint_of;
use rustyscript::runtime::resolve_entrypoint;
use rustyscript::runtime::validation_outcome;

#[test]
fn test_new() {
    let _ = Runtime::new(RuntimeOptions::default(), ());

    let mut options = RuntimeOptions::default();
    options.extensions = vec![String::from("test_extension")];
    let runtime = Runtime::new(options, ());
    assert_eq!(runtime.options.extensions, vec![String::from("test_extension")]);
}

#[test]
fn test_load_modules() {
    // Side modules evaluate strictly before the main module, in order, and
    // the session's handle is the main module's.
    let main_module = Module::new(
        "test.js",
        "
            import { value } from './importme.js';
            rustyscript.register_entrypoint(() => value);
        ",
    );
    let side = vec![
        Module::new("importme.js", "export const value = 2;"),
        Module::new("other.js", "export const other = 3;"),
    ];
    let mut session =
        LoadSession::new(Some(&main_module), &side).expect("Could not load modules");

    assert_eq!(session.next_module().unwrap().filename(), "importme.js");
    assert!(!session.loading_main());
    session.record_evaluated(1);

    assert_eq!(session.next_module().unwrap().filename(), "other.js");
    assert!(!session.loading_main());
    session.record_evaluated(2);

    assert_eq!(session.next_module().unwrap().filename(), "test.js");
    assert!(session.loading_main());
    session.record_evaluated(3);

    assert!(session.complete());
    assert!(session.next_module().is_none());
    let handle = session.finish(None);
    assert_eq!(handle.id(), 3);
    assert_eq!(handle.module().filename(), "test.js");
}

#[test]
fn test_load_side_modules_only() {
    // With no main module, the handle is the last side module's.
    let side = vec![
        Module::new("a.js", "export const a = 1;"),
        Module::new("b.js", "export const b = 2;"),
    ];
    let mut session = LoadSession::new(None, &side).expect("Could not load modules");
    session.record_evaluated(10);
    assert!(!session.loading_main());
    session.record_evaluated(11);
    assert!(session.complete());
    let handle = session.finish(None);
    assert_eq!(handle.id(), 11);
    assert_eq!(handle.module().filename(), "b.js");
}

#[test]
fn test_load_nothing_is_refused() {
    let side: Vec<Module> = Vec::new();
    let e = LoadSession::new(None, &side).expect_err("loading nothing must fail");
    assert!(matches!(e, Error::Runtime(m) if m == "Internal error: attempt to load no modules"));
}

#[test]
fn test_call_entrypoint() {
    // A module that registers an entrypoint during evaluation:
    //     rustyscript.register_entrypoint(() => 2);
    let mut runtime = Runtime::new(RuntimeOptions::default(), ());
    let module = Module::new("test.js", "rustyscript.register_entrypoint(() => 2);");
    let side: Vec<Module> = Vec::new();
    let mut session = LoadSession::new(Some(&module), &side).expect("Could not load module");
    // During evaluation the registration op fires: the driver stores the
    // callable and fills the slot.
    let registered_fn = runtime.functions.store();
    runtime.register_entrypoint(registered_fn);
    session.record_evaluated(1);

    let registered = runtime.take_registered();
    assert!(runtime.default_lookup_name(&registered).is_none());
    let entrypoint = resolve_entrypoint(registered, None);
    let handle = session.finish(entrypoint);

    let f = entrypoint_of(&handle).expect("Could not call registered fn");
    let slot = runtime.functions.check(&f).expect("handle must be valid here");
    assert_eq!(slot, 0);
    // The engine runs `() => 2`.
    let value: i64 = call_outcome("test.js", CallResult::Returned(2)).unwrap();
    assert_eq!(2, value);
}

#[test]
fn test_default_entrypoint() {
    // No registration, but a configured default name that the module
    // exports:
    //     export const load = () => 2;
    let mut options = RuntimeOptions::default();
    options.default_entrypoint = Some(String::from("load"));
    let mut runtime = Runtime::new(options, ());
    let module = Module::new("test.js", "export const load = () => 2;");
    let side: Vec<Module> = Vec::new();
    let mut session = LoadSession::new(Some(&module), &side).expect("Could not load module");
    session.record_evaluated(1);

    let registered = runtime.take_registered();
    assert!(registered.is_none());
    let name = runtime.default_lookup_name(&registered).expect("default must be consulted");
    assert_eq!(name, "load");

    // The driver looks the name up in the evaluated module and checks that
    // it is callable, then stores the callable.
    let token = select_value_ref(name.as_str(), ScopeValue::Missing, ScopeValue::Defined(()))
        .expect("Could not find export");
    require_callable(name.as_str(), token, true).expect("export must be callable");
    let looked_up = runtime.functions.store();

    let entrypoint = resolve_entrypoint(registered, Some(looked_up));
    let handle = session.finish(entrypoint);
    let f = entrypoint_of(&handle).expect("Could not call exported fn");
    runtime.functions.check(&f).expect("handle must be valid here");
    let value: i64 = call_outcome("test.js", CallResult::Returned(2)).unwrap();
    assert_eq!(2, value);
}

#[test]
fn test_missing_entrypoint() {
    // export const load = () => 2; — but no default configured and nothing
    // registered.
    let module = Module::new("test.js", "export const load = () => 2;");
    let side: Vec<Module> = Vec::new();
    let mut session = LoadSession::new(Some(&module), &side).expect("Could not load module");
    session.record_evaluated(1);
    let handle = session.finish(resolve_entrypoint(None, None));
    let e = entrypoint_of(&handle).expect_err("Did not detect no entrypoint");
    match e {
        Error::MissingEntrypoint(m) => assert_eq!(m.filename(), "test.js"),
        _ => panic!("expected a missing-entrypoint error"),
    }
}

#[test]
fn test_registration_overwrites() {
    // Calling the registration op twice honors only the second call.
    let mut runtime = Runtime::new(RuntimeOptions::default(), ());
    let first = runtime.functions.store();
    let second = runtime.functions.store();
    runtime.register_entrypoint(first);
    runtime.register_entrypoint(second);
    let registered = runtime.take_registered().unwrap();
    assert_eq!(registered.slot(), second.slot());
    // The slot is emptied by the take.
    assert!(runtime.take_registered().is_none());
}

#[test]
fn test_timeout_interrupts_load() {
    // The deadline fired while the engine was still evaluating:
    //     await new Promise(r => setTimeout(r, 2000));
    let r: Result<rustyscript::ModuleHandle, Error> = race_result(TaskOutcome::TimedOut);
    let e = r.expect_err("Did not interupt after timeout");
    assert!(matches!(e, Error::Timeout(_)));
}

#[test]
fn test_validate() {
    let module = Module::new("rustyscript_eval.js", "3 + 2");
    let side: Vec<Module> = Vec::new();
    let mut session = LoadSession::new(Some(&module), &side).unwrap();
    session.record_evaluated(1);
    let ok = session.finish(None);
    assert!(validation_outcome(Ok(ok)).expect("invalid expression"));

    // 5;+- — the engine refuses to evaluate it.
    let refused = Err(Error::Runtime(String::from("rustyscript_eval.js:1: SyntaxError")));
    assert!(!validation_outcome(refused).expect("invalid expression"));

    // Anything else is the host's problem and passes through.
    let timeout = Err(Error::Timeout(String::from("Task timed out")));
    assert!(matches!(validation_outcome(timeout), Err(Error::Timeout(_))));
}

#[derive(Clone, Copy, PartialEq, Eq, Debug)]
enum BookExport {
    AddBook,
    ListBooks,
}

struct BookEngine {
    books: Vec<String>,
}

impl BookEngine {
    // What evaluating the book module left in its export namespace.
    fn export(&self, name: &str) -> ScopeValue<BookExport> {
        match name {
            "addBook" => ScopeValue::Defined(BookExport::AddBook),
            "listBooks" => ScopeValue::Defined(BookExport::ListBooks),
            _ => ScopeValue::Missing,
        }
    }

    fn invoke(&mut self, f: BookExport, arg: Option<&str>) -> CallResult<Option<Vec<String>>> {
        match f {
            BookExport::AddBook => {
                self.books.push(String::from(arg.expect("addBook takes a title")));
                CallResult::Returned(None)
            }
            BookExport::ListBooks => CallResult::Returned(Some(self.books.clone())),
        }
    }
}

#[test]
fn test_book_module_end_to_end() {
    // A module exporting addBook/listBooks/MY_FAVOURITE_FOOD: calling
    // addBook("X") twice and then listBooks() lists "X" twice, in call
    // order.
    let module = Module::new(
        "books.js",
        "
            export const MY_FAVOURITE_FOOD = 'pizza';
            const books = [];
            export function addBook(title) { books.push(title); }
            export function listBooks() { return books; }
        ",
    );
    let side: Vec<Module> = Vec::new();
    let mut session = LoadSession::new(Some(&module), &side).expect("Could not load module");
    session.record_evaluated(1);
    let handle = session.finish(None);
    let mut engine = BookEngine { books: Vec::new() };

    for _ in 0..2 {
        let token = select_value_ref("addBook", ScopeValue::Missing, engine.export("addBook"))
            .expect("Could not find export");
        let token = require_callable("addBook", token, true).expect("Could not call export");
        let r = call_outcome(handle.module().filename(), engine.invoke(token, Some("X")));
        assert!(r.unwrap().is_none());
    }

    let token = select_value_ref("listBooks", ScopeValue::Missing, engine.export("listBooks"))
        .expect("Could not find export");
    let token = require_callable("listBooks", token, true).expect("Could not call export");
    let r = call_outcome(handle.module().filename(), engine.invoke(token, None));
    let books = r.unwrap().expect("listBooks returns the list");
    assert_eq!(books, vec![String::from("X"), String::from("X")]);

    // And the plain export is readable.
    let food = select_value_ref("MY_FAVOURITE_FOOD", ScopeValue::Missing, ScopeValue::Defined("pizza"))
        .expect("Could not find export");
    assert_eq!(food, "pizza");
}
