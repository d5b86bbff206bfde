//! Module values: named units of ECMAScript-module source text.

use vstd::prelude::*;
use vstd::string::*;
use vstd::seq_lib::*;
use crate::text::str_ends_with;

verus! {

/// Whether a directory entry is loaded when a whole directory of modules is
/// read: only script files, named `<stem>.js` or `<stem>.ts` with a
/// nonempty stem, are.
pub open spec fn spec_loadable_filename(name: Seq<char>) -> bool {
    name.len() > 3 && (".js"@.is_suffix_of(name) || ".ts"@.is_suffix_of(name))
}

/// Whether a directory entry is loaded when a whole directory of modules is
/// read.
pub fn is_loadable_filename(name: &str) -> (r: bool)
    ensures
        r == spec_loadable_filename(name@),
{
    let n = name.unicode_len();
    if n <= 3 {
        return false;
    }
    str_ends_with(name, ".js") || str_ends_with(name, ".ts")
}

/// Mathematical content of a [`Module`]: filename and source text as
/// character sequences.
pub struct ModuleView {
    pub filename: Seq<char>,
    pub contents: Seq<char>,
}

/// A static representation of a module.
/// Use [`StaticModule::to_module`] to get an instance usable with a runtime.
pub struct StaticModule(&'static str, &'static str);

impl View for StaticModule {
    type V = ModuleView;

    closed spec fn view(&self) -> ModuleView {
        ModuleView { filename: self.0@, contents: self.1@ }
    }
}

impl StaticModule {
    /// Create a new `StaticModule` from a filename and source text.
    pub fn new(filename: &'static str, contents: &'static str) -> (r: Self)
        ensures
            r@.filename == filename@,
            r@.contents == contents@,
    {
        StaticModule(filename, contents)
    }

    /// Get an instance of this `StaticModule` that can be used with a runtime.
    pub fn to_module(&self) -> (r: Module)
        ensures
            r@.filename == self@.filename,
            r@.contents == self@.contents,
    {
        Module::new(self.0, self.1)
    }
}

/// Represents a piece of javascript for execution.
/// Must be ESM formatted.
#[derive(Debug)]
pub struct Module {
    filename: String,
    contents: String,
}

impl View for Module {
    type V = ModuleView;

    closed spec fn view(&self) -> ModuleView {
        ModuleView { filename: self.filename@, contents: self.contents@ }
    }
}

impl Module {
    /// Creates a new `Module` instance with the given filename and contents.
    /// If the filename is relative it is resolved to an absolute locator at
    /// load time.
    pub fn new(filename: &str, contents: &str) -> (r: Self)
        ensures
            r@.filename == filename@,
            r@.contents == contents@,
    {
        Module { filename: String::from_str(filename), contents: String::from_str(contents) }
    }

    /// Returns the filename of the module.
    pub fn filename(&self) -> (r: &str)
        ensures
            r@ == self@.filename,
    {
        self.filename.as_str()
    }

    /// Returns the contents of the module.
    pub fn contents(&self) -> (r: &str)
        ensures
            r@ == self@.contents,
    {
        self.contents.as_str()
    }
}

impl Clone for Module {
    fn clone(&self) -> (r: Self)
        ensures
            r == *self,
    {
        Module { filename: self.filename.clone(), contents: self.contents.clone() }
    }
}

impl PartialEq for Module {
    /// Equality of modules is structural: same filename, same contents.
    fn eq(&self, other: &Self) -> (r: bool) {
        self.filename == other.filename && self.contents == other.contents
    }
}

impl vstd::std_specs::cmp::PartialEqSpecImpl for Module {
    open spec fn obeys_eq_spec() -> bool {
        true
    }

    open spec fn eq_spec(&self, other: &Self) -> bool {
        self@.filename == other@.filename && self@.contents == other@.contents
    }
}

} // verus!
