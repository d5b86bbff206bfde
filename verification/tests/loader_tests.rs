use rustyscript::Capabilities;
use rustyscript::Error;
use rustyscript::LoadStep;
use rustyscript::MemoryModuleCacheProvider;
use rustyscript::RustyLoader;

fn locked_down() -> Capabilities {
    Capabilities { url_import: false, fs_import: false }
}

#[test]
fn test_loader() {
    // A fetched-and-committed source is served from the cache on the next
    // load, byte for byte, with no second fetch.
    let mut loader = RustyLoader::new(MemoryModuleCacheProvider::new(), locked_down());
    match loader.load_step("file:///test.ts").unwrap() {
        LoadStep::FetchFile => {}
        _ => panic!("Unexpected response"),
    }
    let committed = loader.load_commit("file:///test.ts", String::from("console.log('Hello, World!')"));
    assert_eq!(committed.code(), "console.log('Hello, World!')");
    match loader.load_step("file:///test.ts").unwrap() {
        LoadStep::Cached(source) => assert_eq!(source.code(), "console.log('Hello, World!')"),
        _ => panic!("Expected to get cached source"),
    }
}

#[test]
fn test_null_cache_loader_always_fetches() {
    let mut loader = RustyLoader::new((), locked_down());
    loader.load_commit("file:///test.ts", String::from("1"));
    match loader.load_step("file:///test.ts").unwrap() {
        LoadStep::FetchFile => {}
        _ => panic!("null provider must never serve from cache"),
    }
}

#[test]
fn test_load_step_remote() {
    let caps = Capabilities { url_import: true, fs_import: false };
    let loader = RustyLoader::new(MemoryModuleCacheProvider::new(), caps);
    match loader.load_step("https://example.com/mod.js").unwrap() {
        LoadStep::FetchRemote => {}
        _ => panic!("Unexpected response"),
    }
}

#[test]
fn test_load_step_refusals() {
    let loader = RustyLoader::new(MemoryModuleCacheProvider::new(), locked_down());
    let e = loader.load_step("https://example.com/mod.js").unwrap_err();
    assert!(matches!(e, Error::UnsupportedSchemeLoad(s) if s == "https://example.com/mod.js"));
    let e = loader.load_step("ext:rustyscript/rustyscript.js").unwrap_err();
    assert!(matches!(e, Error::UnsupportedSchemeLoad(_)));
}

#[test]
fn test_load_commit_module_types() {
    let mut loader = RustyLoader::new(MemoryModuleCacheProvider::new(), locked_down());
    let js = loader.load_commit("file:///a.js", String::from("export const x = 1;"));
    assert_eq!(js.module_type(), rustyscript::ModuleType::JavaScript);
    let json = loader.load_commit("file:///d.json", String::from("{}"));
    assert_eq!(json.module_type(), rustyscript::ModuleType::Json);
}

#[test]
fn test_resolve_whitelists_top_level() {
    let mut loader = RustyLoader::new((), locked_down());
    let url = loader.resolve("file:///test.js", ".").expect("top-level file load must pass");
    assert_eq!(url, "file:///test.js");
    assert!(loader.whitelist_has("file:///test.js"));
}

#[test]
fn test_dynamic_fs_import_denied_until_whitelisted() {
    let mut loader = RustyLoader::new((), locked_down());
    loader.resolve("file:///test.js", ".").unwrap();

    // Never reached from a load root: refused.
    let e = loader.resolve("./importme.js", "file:///test.js").unwrap_err();
    assert!(matches!(e, Error::ModuleNotLoaded(s) if s == "./importme.js"));

    // Part of the top-level module graph: permitted.
    loader.resolve("file:///importme.js", ".").unwrap();
    let url = loader.resolve("./importme.js", "file:///test.js").unwrap();
    assert_eq!(url, "file:///importme.js");
}

#[test]
fn test_fs_import_capability_bypasses_whitelist() {
    let caps = Capabilities { url_import: false, fs_import: true };
    let mut loader = RustyLoader::new((), caps);
    let url = loader.resolve("./anywhere.js", "file:///test.js").unwrap();
    assert_eq!(url, "file:///anywhere.js");
}

#[test]
fn test_web_imports_disabled() {
    let mut loader = RustyLoader::new((), locked_down());
    let e = loader.resolve("https://example.com/mod.js", "file:///test.js").unwrap_err();
    assert!(matches!(e, Error::WebImportsDisabled(s) if s == "https://example.com/mod.js"));

    let caps = Capabilities { url_import: true, fs_import: false };
    let mut loader = RustyLoader::new((), caps);
    let url = loader.resolve("https://example.com/mod.js", "file:///test.js").unwrap();
    assert_eq!(url, "https://example.com/mod.js");
}

#[test]
fn test_extension_imports_always_pass() {
    let mut loader = RustyLoader::new((), locked_down());
    let url = loader.resolve("ext:rustyscript/rustyscript.js", ".").unwrap();
    assert_eq!(url, "ext:rustyscript/rustyscript.js");
}

#[test]
fn test_unrecognized_scheme() {
    let mut loader = RustyLoader::new((), locked_down());
    let e = loader.resolve("gopher://host/x", "file:///test.js").unwrap_err();
    assert!(matches!(e, Error::UnrecognizedScheme(s) if s == "gopher://host/x"));
}

#[test]
fn test_whitelist_is_per_loader() {
    let mut a = RustyLoader::new((), locked_down());
    a.resolve("file:///test.js", ".").unwrap();
    let b = RustyLoader::new((), locked_down());
    assert!(a.whitelist_has("file:///test.js"));
    assert!(!b.whitelist_has("file:///test.js"));
}
