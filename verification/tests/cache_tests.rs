use rustyscript::MemoryModuleCacheProvider;
use rustyscript::ModuleCacheProvider;
use rustyscript::ModuleSource;
use rustyscript::ModuleType;

#[test]
fn test_memory_cache_roundtrip() {
    let mut cache = MemoryModuleCacheProvider::new();
    let source = ModuleSource::new(
        ModuleType::JavaScript,
        String::from("console.log('Hello, World!')"),
        None,
    );
    cache.set("file:///test.ts", source.clone());
    let cached_source = cache.get("file:///test.ts").expect("Expected to get cached source");
    assert_eq!(cached_source.code(), "console.log('Hello, World!')");
    assert_eq!(cached_source.module_type(), ModuleType::JavaScript);
}

#[test]
fn test_memory_cache_miss() {
    let cache = MemoryModuleCacheProvider::new();
    assert!(cache.get("file:///absent.js").is_none());
}

#[test]
fn test_memory_cache_replaces_wholesale() {
    let mut cache = MemoryModuleCacheProvider::new();
    cache.set("file:///m.js", ModuleSource::new(ModuleType::JavaScript, String::from("1"), None));
    cache.set("file:///m.js", ModuleSource::new(ModuleType::JavaScript, String::from("2"), None));
    cache.set("file:///n.js", ModuleSource::new(ModuleType::JavaScript, String::from("3"), None));
    assert_eq!(cache.get("file:///m.js").unwrap().code(), "2");
    assert_eq!(cache.get("file:///n.js").unwrap().code(), "3");
}

#[test]
fn test_null_cache_never_stores() {
    let mut cache: () = ();
    cache.set("file:///m.js", ModuleSource::new(ModuleType::JavaScript, String::from("1"), None));
    assert!(cache.get("file:///m.js").is_none());
}

#[test]
fn test_clone_source_is_independent() {
    let source = ModuleSource::new(ModuleType::Json, String::from("{}"), Some(vec![1, 2, 3]));
    let copy = source.clone();
    drop(source);
    assert_eq!(copy.code(), "{}");
    assert_eq!(copy.module_type(), ModuleType::Json);
}
