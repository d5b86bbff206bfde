use rustyscript::Module;
use rustyscript::StaticModule;
use rustyscript::module::is_loadable_filename;

#[test]
fn test_new_module() {
    let module = Module::new("module.js", "console.log('Hello, World!');");
    assert_eq!(module.filename(), "module.js");
    assert_eq!(module.contents(), "console.log('Hello, World!');");
}

#[test]
fn test_static_module() {
    let stat = StaticModule::new("filename.js", "export const myValue = 42;");
    let module = stat.to_module();
    assert_eq!(module.filename(), "filename.js");
    assert_eq!(module.contents(), "export const myValue = 42;");
}

#[test]
fn test_module_equality_and_clone() {
    let a = Module::new("m.js", "export const x = 1;");
    let b = a.clone();
    assert!(a == b);
    let c = Module::new("m.js", "export const x = 2;");
    assert!(a != c);
    let d = Module::new("n.js", "export const x = 1;");
    assert!(a != d);
}

#[test]
fn test_loadable_filenames() {
    assert!(is_loadable_filename("mod.js"));
    assert!(is_loadable_filename("mod.ts"));
    assert!(is_loadable_filename("a.test.js"));
    assert!(!is_loadable_filename("mod.rs"));
    assert!(!is_loadable_filename("mod.json"));
    assert!(!is_loadable_filename(".js"));
    assert!(!is_loadable_filename("js"));
    assert!(!is_loadable_filename(""));
}
