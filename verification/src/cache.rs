//! Module sources and the pluggable cache of fetched/transpiled sources,
//! keyed by resolved specifier.

use vstd::prelude::*;
use vstd::string::*;
use crate::text::str_eq;

verus! {

/// How the engine should treat a fetched payload.
#[derive(Clone, Copy, PartialEq, Eq, Structural, Debug)]
pub enum ModuleType {
    JavaScript,
    Json,
}

/// Mathematical content of a [`ModuleSource`].
pub struct ModuleSourceView {
    pub module_type: ModuleType,
    pub code: Seq<char>,
    pub cache_metadata: Option<Seq<u8>>,
}

/// The fetched and transpiled payload associated with one resolved
/// specifier: its kind, its source text, and optional engine-produced cache
/// metadata.
#[derive(Debug)]
pub struct ModuleSource {
    module_type: ModuleType,
    code: String,
    cache_metadata: Option<Vec<u8>>,
}

impl View for ModuleSource {
    type V = ModuleSourceView;

    closed spec fn view(&self) -> ModuleSourceView {
        ModuleSourceView {
            module_type: self.module_type,
            code: self.code@,
            cache_metadata: match self.cache_metadata {
                Some(m) => Some(m@),
                None => None,
            },
        }
    }
}

impl ModuleSource {
    /// Wrap a payload for one specifier.
    pub fn new(module_type: ModuleType, code: String, cache_metadata: Option<Vec<u8>>) -> (r: Self)
        ensures
            r@.module_type == module_type,
            r@.code == code@,
            (cache_metadata matches Some(m) ==> (r@.cache_metadata matches Some(vm) && vm == m@)),
            cache_metadata is None ==> r@.cache_metadata is None,
    {
        ModuleSource { module_type, code, cache_metadata }
    }

    /// The payload's kind.
    pub fn module_type(&self) -> (r: ModuleType)
        ensures
            r == self@.module_type,
    {
        self.module_type
    }

    /// The payload's source text.
    pub fn code(&self) -> (r: &str)
        ensures
            r@ == self@.code,
    {
        self.code.as_str()
    }
}

impl Clone for ModuleSource {
    /// An independent copy: equal content, no shared storage.
    fn clone(&self) -> (r: Self)
        ensures
            r@ == self@,
    {
        ModuleSource {
            module_type: self.module_type,
            code: self.code.clone(),
            cache_metadata: match &self.cache_metadata {
                Some(m) => Some(m.clone()),
                None => None,
            },
        }
    }
}

/// The map a sequence of cache entries denotes: later entries shadow
/// earlier ones (the providers below never let two entries share a key).
pub open spec fn entries_map(s: Seq<(String, ModuleSource)>) -> Map<Seq<char>, ModuleSourceView>
    decreases s.len(),
{
    if s.len() == 0 {
        Map::empty()
    } else {
        entries_map(s.drop_last()).insert(s.last().0@, s.last().1@)
    }
}

/// A capability interface over a module-source cache. The loader consults it
/// before fetching and stores an independent copy after fetching.
///
/// Implement this trait to provide a custom cache; reads must hand out
/// independent copies, never aliases into cached storage.
pub trait ModuleCacheProvider {
    /// The cache's contents, as a map from specifier to stored payload.
    spec fn cache_view(&self) -> Map<Seq<char>, ModuleSourceView>;

    /// Whether `set` actually stores: the null provider never does.
    spec fn caching(&self) -> bool;

    /// Associate a payload with a specifier, replacing any previous payload
    /// wholesale.
    fn set(&mut self, specifier: &str, source: ModuleSource)
        ensures
            final(self).caching() == old(self).caching(),
            old(self).caching() ==> final(self).cache_view() == old(self).cache_view().insert(
                specifier@,
                source@,
            ),
            !old(self).caching() ==> final(self).cache_view() == old(self).cache_view(),
    ;

    /// Look up the payload stored for a specifier; a hit returns an
    /// independent copy of the stored payload.
    fn get(&self, specifier: &str) -> (r: Option<ModuleSource>)
        ensures
            r is Some <==> self.cache_view().contains_key(specifier@),
            (r matches Some(s) ==> s@ == self.cache_view()[specifier@]),
    ;

    /// Clone a module source: an independent copy with equal content.
    fn clone_source(&self, source: &ModuleSource) -> (r: ModuleSource)
        ensures
            r@ == source@,
    {
        source.clone()
    }
}

/// The cache that never stores: every read is a miss. This is the default
/// provider.
impl ModuleCacheProvider for () {
    closed spec fn cache_view(&self) -> Map<Seq<char>, ModuleSourceView> {
        Map::empty()
    }

    closed spec fn caching(&self) -> bool {
        false
    }

    fn set(&mut self, specifier: &str, source: ModuleSource) {
    }

    fn get(&self, specifier: &str) -> (r: Option<ModuleSource>) {
        proof {
            assert(!Map::<Seq<char>, ModuleSourceView>::empty().contains_key(specifier@));
        }
        None
    }
}

/// The default in-memory module cache provider.
pub struct MemoryModuleCacheProvider {
    entries: Vec<(String, ModuleSource)>,
}

impl MemoryModuleCacheProvider {
    #[verifier::type_invariant]
    closed spec fn wf(&self) -> bool {
        forall|a: int, b: int|
            0 <= a < b < self.entries@.len() ==> self.entries@[a].0@ != self.entries@[b].0@
    }

    /// An empty cache.
    pub fn new() -> (r: Self)
        ensures
            r.cache_view() == Map::<Seq<char>, ModuleSourceView>::empty(),
            r.caching(),
    {
        MemoryModuleCacheProvider { entries: Vec::new() }
    }
}

impl Default for MemoryModuleCacheProvider {
    fn default() -> (r: Self)
        ensures
            r.cache_view() == Map::<Seq<char>, ModuleSourceView>::empty(),
            r.caching(),
    {
        MemoryModuleCacheProvider::new()
    }
}

/// No key occurs twice in `s`.
spec fn unique_keys(s: Seq<(String, ModuleSource)>) -> bool {
    forall|a: int, b: int| 0 <= a < b < s.len() ==> s[a].0@ != s[b].0@
}

/// A key under which no entry is stored is not in the denoted map.
proof fn lemma_entries_map_absent(s: Seq<(String, ModuleSource)>, key: Seq<char>)
    requires
        forall|i: int| 0 <= i < s.len() ==> s[i].0@ != key,
    ensures
        !entries_map(s).contains_key(key),
    decreases s.len(),
{
    if s.len() > 0 {
        lemma_entries_map_absent(s.drop_last(), key);
    }
}

/// The entry at position `i` is what the denoted map stores under its key.
proof fn lemma_entries_map_at(s: Seq<(String, ModuleSource)>, i: int)
    requires
        unique_keys(s),
        0 <= i < s.len(),
    ensures
        entries_map(s).contains_key(s[i].0@),
        entries_map(s)[s[i].0@] == s[i].1@,
    decreases s.len(),
{
    if i < s.len() - 1 {
        lemma_entries_map_at(s.drop_last(), i);
        assert(s[s.len() - 1].0@ != s[i].0@);
    }
}

/// Removing the entry at position `i` removes exactly its key from the
/// denoted map.
proof fn lemma_entries_map_remove(s: Seq<(String, ModuleSource)>, i: int)
    requires
        unique_keys(s),
        0 <= i < s.len(),
    ensures
        entries_map(s.remove(i)) == entries_map(s).remove(s[i].0@),
    decreases s.len(),
{
    let key = s[i].0@;
    if i == s.len() - 1 {
        assert(s.remove(i) =~= s.drop_last());
        lemma_entries_map_absent(s.drop_last(), key);
        assert(entries_map(s.drop_last()).insert(key, s[i].1@).remove(key) =~= entries_map(
            s.drop_last(),
        ));
    } else {
        let dl = s.drop_last();
        lemma_entries_map_remove(dl, i);
        assert(s.remove(i).drop_last() =~= dl.remove(i));
        assert(s.remove(i).last() == s.last());
        assert(s.last().0@ != key);
        assert(entries_map(dl).remove(key).insert(s.last().0@, s.last().1@) =~= entries_map(
            dl,
        ).insert(s.last().0@, s.last().1@).remove(key));
    }
}

impl ModuleCacheProvider for MemoryModuleCacheProvider {
    closed spec fn cache_view(&self) -> Map<Seq<char>, ModuleSourceView> {
        entries_map(self.entries@)
    }

    closed spec fn caching(&self) -> bool {
        true
    }

    fn set(&mut self, specifier: &str, source: ModuleSource) {
        proof {
            use_type_invariant(&*self);
        }
        let mut entries: Vec<(String, ModuleSource)> = Vec::new();
        core::mem::swap(&mut entries, &mut self.entries);
        let ghost old_entries = entries@;
        let n = entries.len();
        let mut i: usize = 0;
        while i < n
            invariant
                n == entries@.len(),
                i <= n,
                entries@ == old_entries,
                unique_keys(old_entries),
                entries_map(old_entries) == old(self).cache_view(),
                old(self).caching(),
                forall|j: int| 0 <= j < i ==> entries@[j].0@ != specifier@,
            decreases n - i,
        {
            if str_eq(entries[i].0.as_str(), specifier) {
                proof {
                    lemma_entries_map_remove(old_entries, i as int);
                }
                entries.remove(i);
                proof {
                    lemma_entries_map_absent(entries@, specifier@);
                }
                entries.push((String::from_str(specifier), source));
                proof {
                    assert(entries@.drop_last() =~= old_entries.remove(i as int));
                    assert(entries_map(entries@) =~= entries_map(old_entries).insert(
                        specifier@,
                        source@,
                    ));
                }
                let ghost updated = entries@;
                core::mem::swap(&mut entries, &mut self.entries);
                proof {
                    assert(self.entries@ == updated);
                    assert(self.cache_view() == old(self).cache_view().insert(
                        specifier@,
                        source@,
                    ));
                }
                return ;
            }
            i = i + 1;
        }
        proof {
            lemma_entries_map_absent(entries@, specifier@);
        }
        entries.push((String::from_str(specifier), source));
        proof {
            assert(entries@.drop_last() =~= old_entries);
            assert(entries_map(entries@) =~= entries_map(old_entries).insert(specifier@, source@));
        }
        let ghost updated = entries@;
        core::mem::swap(&mut entries, &mut self.entries);
        proof {
            assert(self.entries@ == updated);
            assert(self.cache_view() =~= entries_map(old_entries).insert(specifier@, source@));
        }
    }

    fn get(&self, specifier: &str) -> (r: Option<ModuleSource>) {
        proof {
            use_type_invariant(self);
        }
        let n = self.entries.len();
        let mut i: usize = 0;
        while i < n
            invariant
                n == self.entries@.len(),
                i <= n,
                unique_keys(self.entries@),
                entries_map(self.entries@) == self.cache_view(),
                forall|j: int| 0 <= j < i ==> self.entries@[j].0@ != specifier@,
            decreases n - i,
        {
            if str_eq(self.entries[i].0.as_str(), specifier) {
                proof {
                    lemma_entries_map_at(self.entries@, i as int);
                }
                return Some(self.entries[i].1.clone());
            }
            i = i + 1;
        }
        proof {
            lemma_entries_map_absent(self.entries@, specifier@);
        }
        None
    }
}

} // verus!
