//! The loader: resolution of import specifiers under a scheme-based
//! permission policy, the per-loader whitelist of dynamically importable
//! locators, and cache-backed loading of module sources.

use vstd::prelude::*;
use vstd::string::*;
use vstd::seq_lib::*;
use crate::cache::ModuleCacheProvider;
use crate::cache::ModuleSource;
use crate::cache::ModuleSourceView;
use crate::cache::ModuleType;
use crate::error::Error;
use crate::specifier::find_scheme_end;
use crate::specifier::has_scheme;
use crate::specifier::is_hierarchical;
use crate::specifier::relative_prefixed;
use crate::specifier::resolve_import;
use crate::specifier::scheme_of;
use crate::specifier::spec_canonical;
use crate::specifier::spec_join;
use crate::specifier::views_of;
use crate::text::str_ends_with;
use crate::text::str_eq;
use crate::text::str_starts_with;

verus! {

/// The import capabilities a loader is constructed with. Both default to
/// off: remote imports and blanket dynamic filesystem imports are
/// deny-by-default.
#[derive(Clone, Copy, PartialEq, Eq, Structural, Debug)]
pub struct Capabilities {
    /// Permit `http:`/`https:` imports.
    pub url_import: bool,
    /// Permit `file:` imports unconditionally, instead of only for
    /// whitelisted locators.
    pub fs_import: bool,
}

impl Default for Capabilities {
    /// Everything off: least privilege.
    fn default() -> (r: Self)
        ensures
            !r.url_import,
            !r.fs_import,
    {
        Capabilities { url_import: false, fs_import: false }
    }
}

/// The three scheme names the policy distinguishes are distinct texts.
proof fn lemma_scheme_literals_distinct()
    ensures
        "file"@ != "https"@,
        "file"@ != "http"@,
        "https"@ != "http"@,
{
    reveal_strlit("file");
    reveal_strlit("https");
    reveal_strlit("http");
    assert("file"@.len() == 4);
    assert("https"@.len() == 5);
    assert("http"@.len() == 4);
    assert("file"@[0] == 'f');
    assert("http"@[0] == 'h');
}

/// An absolute locator's scheme is exactly `name`.
pub open spec fn scheme_is(u: Seq<char>, name: Seq<char>) -> bool {
    has_scheme(u) && scheme_of(u) == name
}

/// A remote-fetch locator.
pub open spec fn is_web_scheme(u: Seq<char>) -> bool {
    scheme_is(u, "https"@) || scheme_is(u, "http"@)
}

/// A filesystem locator.
pub open spec fn is_file_scheme(u: Seq<char>) -> bool {
    scheme_is(u, "file"@)
}

/// Whether resolution of `specifier` against `referrer` succeeds at all.
pub open spec fn spec_resolve_ok(specifier: Seq<char>, referrer: Seq<char>) -> bool {
    has_scheme(specifier) || (relative_prefixed(specifier) && is_hierarchical(referrer))
}

/// The canonical locator that resolution produces, when it succeeds.
pub open spec fn spec_resolved(specifier: Seq<char>, referrer: Seq<char>) -> Seq<char>
    recommends
        spec_resolve_ok(specifier, referrer),
{
    if has_scheme(specifier) {
        spec_canonical(specifier)
    } else {
        spec_join(referrer, specifier)
    }
}

/// The security policy, decided on the resolved locator: remote imports
/// need the remote capability; filesystem imports need the filesystem
/// capability or a whitelisted locator; engine-extension imports (an `ext:`
/// specifier) are always permitted; everything else is refused.
pub open spec fn policy_allows(
    u: Seq<char>,
    specifier: Seq<char>,
    caps: Capabilities,
    whitelist: Set<Seq<char>>,
) -> bool {
    if is_web_scheme(u) {
        caps.url_import
    } else if is_file_scheme(u) {
        caps.fs_import || whitelist.contains(u)
    } else {
        "ext:"@.is_prefix_of(specifier)
    }
}

/// How one `resolve` call changes the whitelist: a successful top-level
/// resolution (synthetic root referrer `.`) adds its locator; nothing else
/// changes it, and nothing ever shrinks it.
pub open spec fn spec_whitelist_after(
    wl: Set<Seq<char>>,
    specifier: Seq<char>,
    referrer: Seq<char>,
) -> Set<Seq<char>> {
    if spec_resolve_ok(specifier, referrer) && referrer == "."@ {
        wl.insert(spec_resolved(specifier, referrer))
    } else {
        wl
    }
}

/// The payload kind a specifier's source is registered as.
pub open spec fn module_type_for(specifier: Seq<char>) -> ModuleType {
    if ".json"@.is_suffix_of(specifier) {
        ModuleType::Json
    } else {
        ModuleType::JavaScript
    }
}

/// What one load of a specifier requires next: the cached payload, or a
/// fetch through one of the two fetch strategies.
#[derive(Debug)]
pub enum LoadStep {
    /// The cache held this payload; no fetch happens.
    Cached(ModuleSource),
    /// The driver must fetch the locator's text over the network.
    FetchRemote,
    /// The driver must read the locator's text from the filesystem.
    FetchFile,
}

/// The loader of one runtime instance: its whitelist, its capabilities and
/// its cache provider.
pub struct RustyLoader<C: ModuleCacheProvider> {
    fs_whlist: Vec<String>,
    capabilities: Capabilities,
    cache_provider: C,
}

impl<C: ModuleCacheProvider> RustyLoader<C> {
    /// The locators permitted for dynamic filesystem import.
    pub closed spec fn whitelist(&self) -> Set<Seq<char>> {
        views_of(self.fs_whlist@).to_set()
    }

    /// The capabilities this loader was constructed with.
    pub closed spec fn capabilities(&self) -> Capabilities {
        self.capabilities
    }

    /// The contents of this loader's cache.
    pub closed spec fn cache_view(&self) -> Map<Seq<char>, ModuleSourceView> {
        self.cache_provider.cache_view()
    }

    /// Whether this loader's cache stores at all.
    pub closed spec fn caching(&self) -> bool {
        self.cache_provider.caching()
    }

    /// A fresh loader: empty whitelist, the given cache and capabilities.
    pub fn new(cache_provider: C, capabilities: Capabilities) -> (r: Self)
        ensures
            r.whitelist() == Set::<Seq<char>>::empty(),
            r.capabilities() == capabilities,
            r.cache_view() == cache_provider.cache_view(),
            r.caching() == cache_provider.caching(),
    {
        let loader = RustyLoader { fs_whlist: Vec::new(), capabilities, cache_provider };
        proof {
            assert(loader.whitelist() =~= Set::<Seq<char>>::empty());
        }
        loader
    }

    /// Add a locator to the whitelist.
    pub fn whitelist_add(&mut self, specifier: &str)
        ensures
            final(self).whitelist() == old(self).whitelist().insert(specifier@),
            final(self).capabilities() == old(self).capabilities(),
            final(self).cache_view() == old(self).cache_view(),
            final(self).caching() == old(self).caching(),
    {
        self.fs_whlist.push(String::from_str(specifier));
        proof {
            assert forall|x: Seq<char>| #[trigger] views_of(self.fs_whlist@).contains(x)
                <==> (views_of(old(self).fs_whlist@).contains(x) || x == specifier@) by {
                let vs = views_of(self.fs_whlist@);
                let old_vs = views_of(old(self).fs_whlist@);
                if vs.contains(x) {
                    let i = choose|i: int| 0 <= i < vs.len() && vs[i] == x;
                    if i < old_vs.len() {
                        assert(old_vs[i] == x);
                    }
                }
                if old_vs.contains(x) {
                    let i = choose|i: int| 0 <= i < old_vs.len() && old_vs[i] == x;
                    assert(vs[i] == x);
                }
                if x == specifier@ {
                    assert(vs[vs.len() - 1] == x);
                }
            }
            assert(self.whitelist() =~= old(self).whitelist().insert(specifier@));
        }
    }

    /// Is a locator whitelisted?
    pub fn whitelist_has(&self, specifier: &str) -> (r: bool)
        ensures
            r == self.whitelist().contains(specifier@),
    {
        let n = self.fs_whlist.len();
        let mut i: usize = 0;
        while i < n
            invariant
                n == self.fs_whlist@.len(),
                i <= n,
                forall|j: int| 0 <= j < i ==> self.fs_whlist@[j]@ != specifier@,
            decreases n - i,
        {
            if str_eq(self.fs_whlist[i].as_str(), specifier) {
                proof {
                    assert(views_of(self.fs_whlist@)[i as int] == specifier@);
                }
                return true;
            }
            i = i + 1;
        }
        proof {
            let vs = views_of(self.fs_whlist@);
            assert forall|j: int| 0 <= j < vs.len() implies vs[j] != specifier@ by {
                assert(vs[j] == self.fs_whlist@[j]@);
            }
            assert(!vs.contains(specifier@));
        }
        false
    }

    /// Resolve an import specifier against its referrer and decide, by the
    /// security policy, whether the import may proceed.
    ///
    /// A top-level resolution (synthetic root referrer `.`) first adds its
    /// locator to the whitelist — that is what lets the host's own entry
    /// modules and their siblings load without a blanket filesystem grant —
    /// and the policy is decided on the whitelist so extended. The whitelist
    /// never shrinks.
    pub fn resolve(&mut self, specifier: &str, referrer: &str) -> (r: Result<String, Error>)
        ensures
            final(self).capabilities() == old(self).capabilities(),
            final(self).cache_view() == old(self).cache_view(),
            final(self).caching() == old(self).caching(),
            final(self).whitelist() == spec_whitelist_after(
                old(self).whitelist(),
                specifier@,
                referrer@,
            ),
            !has_scheme(specifier@) && !relative_prefixed(specifier@) ==> (r matches Err(e)
                && e matches Error::ImportPrefixMissing(m) && m@ == specifier@),
            !has_scheme(specifier@) && relative_prefixed(specifier@) && !is_hierarchical(referrer@)
                ==> (r matches Err(e) && e matches Error::InvalidBase(m) && m@ == referrer@),
            spec_resolve_ok(specifier@, referrer@) ==> ({
                let u = spec_resolved(specifier@, referrer@);
                let wl = spec_whitelist_after(old(self).whitelist(), specifier@, referrer@);
                &&& policy_allows(u, specifier@, old(self).capabilities(), wl) ==> (
                r matches Ok(ru) && ru@ == u)
                &&& is_web_scheme(u) && !old(self).capabilities().url_import ==> (r matches Err(e)
                    && e matches Error::WebImportsDisabled(m) && m@ == specifier@)
                &&& is_file_scheme(u) && !old(self).capabilities().fs_import && !wl.contains(u)
                    ==> (r matches Err(e) && e matches Error::ModuleNotLoaded(m) && m@
                    == specifier@)
                &&& !is_web_scheme(u) && !is_file_scheme(u) && !"ext:"@.is_prefix_of(specifier@)
                    ==> (r matches Err(e) && e matches Error::UnrecognizedScheme(m) && m@
                    == specifier@)
            }),
    {
        let url = match resolve_import(specifier, referrer) {
            Ok(u) => u,
            Err(e) => {
                return Err(e);
            },
        };
        if str_eq(referrer, ".") {
            self.whitelist_add(url.as_str());
        }
        proof {
            lemma_scheme_literals_distinct();
        }
        match find_scheme_end(url.as_str()) {
            Some(i) => {
                let scheme = url.as_str().substring_char(0, i);
                proof {
                    assert(scheme@ =~= scheme_of(url@));
                }
                if str_eq(scheme, "https") || str_eq(scheme, "http") {
                    if !self.capabilities.url_import {
                        return Err(Error::WebImportsDisabled(String::from_str(specifier)));
                    }
                } else if str_eq(scheme, "file") {
                    if !self.capabilities.fs_import {
                        if !self.whitelist_has(url.as_str()) {
                            return Err(Error::ModuleNotLoaded(String::from_str(specifier)));
                        }
                    }
                } else if str_starts_with(specifier, "ext:") {
                } else {
                    return Err(Error::UnrecognizedScheme(String::from_str(specifier)));
                }
            },
            None => {
                if str_starts_with(specifier, "ext:") {
                } else {
                    return Err(Error::UnrecognizedScheme(String::from_str(specifier)));
                }
            },
        }
        Ok(url)
    }

    /// Decide how a load of a resolved locator proceeds: an unsupported
    /// scheme is refused, a cached payload is served without any fetch, and
    /// otherwise the locator's fetch strategy is named.
    pub fn load_step(&self, specifier: &str) -> (r: Result<LoadStep, Error>)
        ensures
            is_web_scheme(specifier@) && !self.capabilities().url_import ==> (r matches Err(e)
                && e matches Error::UnsupportedSchemeLoad(m) && m@ == specifier@),
            !is_web_scheme(specifier@) && !is_file_scheme(specifier@) ==> (r matches Err(e)
                && e matches Error::UnsupportedSchemeLoad(m) && m@ == specifier@),
            (is_web_scheme(specifier@) && self.capabilities().url_import) || is_file_scheme(
                specifier@,
            ) ==> ({
                &&& self.cache_view().contains_key(specifier@) ==> (r matches Ok(step)
                    && step matches LoadStep::Cached(s) && s@ == self.cache_view()[specifier@])
                &&& !self.cache_view().contains_key(specifier@) && is_web_scheme(specifier@) ==> (
                r matches Ok(step) && step is FetchRemote)
                &&& !self.cache_view().contains_key(specifier@) && is_file_scheme(specifier@) ==> (
                r matches Ok(step) && step is FetchFile)
            }),
    {
        proof {
            lemma_scheme_literals_distinct();
        }
        match find_scheme_end(specifier) {
            Some(i) => {
                let scheme = specifier.substring_char(0, i);
                proof {
                    assert(scheme@ =~= scheme_of(specifier@));
                }
                let web = str_eq(scheme, "https") || str_eq(scheme, "http");
                let file = str_eq(scheme, "file");
                if (web && self.capabilities.url_import) || file {
                    match self.cache_provider.get(specifier) {
                        Some(source) => Ok(LoadStep::Cached(source)),
                        None => if web {
                            Ok(LoadStep::FetchRemote)
                        } else {
                            Ok(LoadStep::FetchFile)
                        },
                    }
                } else {
                    Err(Error::UnsupportedSchemeLoad(String::from_str(specifier)))
                }
            },
            None => Err(Error::UnsupportedSchemeLoad(String::from_str(specifier))),
        }
    }

    /// Wrap freshly fetched, already transpiled text as the locator's
    /// payload and store an independent copy of it in the cache.
    ///
    /// The payload kind comes from the locator: a `.json` locator holds
    /// JSON, anything else an ECMAScript module.
    pub fn load_commit(&mut self, specifier: &str, transpiled: String) -> (r: ModuleSource)
        ensures
            r@.module_type == module_type_for(specifier@),
            r@.code == transpiled@,
            r@.cache_metadata is None,
            final(self).whitelist() == old(self).whitelist(),
            final(self).capabilities() == old(self).capabilities(),
            final(self).caching() == old(self).caching(),
            old(self).caching() ==> final(self).cache_view() == old(self).cache_view().insert(
                specifier@,
                r@,
            ),
            !old(self).caching() ==> final(self).cache_view() == old(self).cache_view(),
    {
        let module_type = if str_ends_with(specifier, ".json") {
            ModuleType::Json
        } else {
            ModuleType::JavaScript
        };
        let source = ModuleSource::new(module_type, transpiled, None);
        let copy = source.clone();
        self.cache_provider.set(specifier, copy);
        source
    }
}

/// Law: through a cache-backed loader, a specifier is fetched at most once.
/// Once a fetched payload is committed for a specifier, the cache holds
/// exactly that payload under that specifier, so the next load of it is
/// served from the cache — `load_step` answers `Cached` without naming a
/// fetch strategy — and the served text is identical to what was committed.
pub proof fn lemma_fetch_at_most_once<C: ModuleCacheProvider>(
    before: RustyLoader<C>,
    after: RustyLoader<C>,
    specifier: Seq<char>,
    committed: ModuleSourceView,
)
    requires
        after.cache_view() == before.cache_view().insert(specifier, committed),
    ensures
        after.cache_view().contains_key(specifier),
        after.cache_view()[specifier] == committed,
{
}

/// Law: a `file:` locator that was never reached from a load root, with the
/// dynamic-filesystem-import capability disabled, is refused by the policy.
pub proof fn lemma_dynamic_fs_denied(
    u: Seq<char>,
    specifier: Seq<char>,
    caps: Capabilities,
    whitelist: Set<Seq<char>>,
)
    requires
        is_file_scheme(u),
        !caps.fs_import,
        !whitelist.contains(u),
    ensures
        !policy_allows(u, specifier, caps, whitelist),
{
    lemma_scheme_literals_distinct();
}

/// Law: a `file:` locator that is whitelisted — reached from a load root —
/// is permitted by the policy even with every capability disabled.
pub proof fn lemma_whitelisted_fs_allowed(
    u: Seq<char>,
    specifier: Seq<char>,
    caps: Capabilities,
    whitelist: Set<Seq<char>>,
)
    requires
        is_file_scheme(u),
        whitelist.contains(u),
    ensures
        policy_allows(u, specifier, caps, whitelist),
{
    lemma_scheme_literals_distinct();
}

/// Law: the whitelist is monotonic — no resolution ever removes a locator
/// from it.
pub proof fn lemma_whitelist_monotonic(
    wl: Set<Seq<char>>,
    specifier: Seq<char>,
    referrer: Seq<char>,
)
    ensures
        wl.subset_of(spec_whitelist_after(wl, specifier, referrer)),
{
}

} // verus!
