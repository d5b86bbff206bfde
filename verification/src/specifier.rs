//! Canonical module locators and their derivation.
//!
//! A canonical locator is `scheme ':' rest`. A *hierarchical* locator is one
//! whose rest begins with `//`: `scheme "://" authority "/" segment ...`
//! (the authority may be empty, as in `file:///a/b.js`). Its path is kept in
//! a canonical form: `.` segments are dropped and `..` segments pop their
//! predecessor, never climbing above the root. A locator whose rest does not
//! begin with `//` (such as an engine-extension locator) is opaque: it is
//! kept exactly as given and nothing can be resolved against it.

use vstd::prelude::*;
use vstd::string::*;
use vstd::seq_lib::*;
use crate::error::Error;
use crate::text::find_char;
use crate::text::str_eq;
use crate::text::str_starts_with;

verus! {

/// ASCII letters, the only characters a scheme may start with.
pub open spec fn is_alpha(c: char) -> bool {
    (97 <= c as u32 && c as u32 <= 122) || (65 <= c as u32 && c as u32 <= 90)
}

/// The characters a scheme may continue with: letters, digits, `+`, `-`, `.`.
pub open spec fn is_scheme_char(c: char) -> bool {
    is_alpha(c) || (48 <= c as u32 && c as u32 <= 57) || c == '+' || c == '-' || c == '.'
}

/// `s` begins with a scheme whose terminating `:` stands at position `i`.
pub open spec fn valid_scheme_prefix(s: Seq<char>, i: int) -> bool {
    &&& 1 <= i < s.len()
    &&& s[i] == ':'
    &&& is_alpha(s[0])
    &&& forall|j: int| 1 <= j < i ==> is_scheme_char(s[j])
}

/// `s` is an absolute locator: it begins with a scheme.
pub open spec fn has_scheme(s: Seq<char>) -> bool {
    exists|i: int| valid_scheme_prefix(s, i)
}

/// The position of the `:` ending the scheme of an absolute locator.
pub open spec fn scheme_split_at(s: Seq<char>) -> int {
    choose|i: int| valid_scheme_prefix(s, i)
}

/// The scheme of an absolute locator.
pub open spec fn scheme_of(s: Seq<char>) -> Seq<char> {
    s.take(scheme_split_at(s))
}

/// A scheme ends at one position only: `:` is not a scheme character, so the
/// first `:` is the only candidate.
pub proof fn lemma_scheme_split_unique(s: Seq<char>, i: int, j: int)
    requires
        valid_scheme_prefix(s, i),
        valid_scheme_prefix(s, j),
    ensures
        i == j,
{
    if i < j {
        assert(is_scheme_char(s[i]));
    }
    if j < i {
        assert(is_scheme_char(s[j]));
    }
}

fn is_alpha_exec(c: char) -> (r: bool)
    ensures
        r == is_alpha(c),
{
    let u = c as u32;
    (97 <= u && u <= 122) || (65 <= u && u <= 90)
}

fn is_scheme_char_exec(c: char) -> (r: bool)
    ensures
        r == is_scheme_char(c),
{
    let u = c as u32;
    is_alpha_exec(c) || (48 <= u && u <= 57) || c == '+' || c == '-' || c == '.'
}

/// Find the `:` that ends the scheme, if `s` is an absolute locator.
pub fn find_scheme_end(s: &str) -> (r: Option<usize>)
    ensures
        (r matches Some(i) ==> has_scheme(s@) && valid_scheme_prefix(s@, i as int)
            && scheme_split_at(s@) == i as int),
        r is None ==> !has_scheme(s@),
{
    let n = s.unicode_len();
    if n == 0 {
        return None;
    }
    if !is_alpha_exec(s.get_char(0)) {
        return None;
    }
    let mut i: usize = 1;
    while i < n
        invariant
            n == s@.len(),
            1 <= i <= n,
            is_alpha(s@[0]),
            forall|j: int| 1 <= j < i ==> is_scheme_char(s@[j]),
        decreases n - i,
    {
        let c = s.get_char(i);
        if c == ':' {
            proof {
                assert(valid_scheme_prefix(s@, i as int));
                let k = scheme_split_at(s@);
                lemma_scheme_split_unique(s@, k, i as int);
            }
            return Some(i);
        }
        if !is_scheme_char_exec(c) {
            proof {
                assert forall|k: int| !valid_scheme_prefix(s@, k) by {
                    if 1 <= k < i {
                        assert(is_scheme_char(s@[k]));
                        assert(s@[k] != ':');
                    }
                    if k == i {
                        assert(s@[k] != ':');
                    }
                    if i < k < s@.len() {
                        assert(!is_scheme_char(s@[i as int]));
                    }
                }
            }
            return None;
        }
        i = i + 1;
    }
    proof {
        assert forall|k: int| !valid_scheme_prefix(s@, k) by {
            if 1 <= k < s@.len() {
                assert(is_scheme_char(s@[k]));
                assert(s@[k] != ':');
            }
        }
    }
    None
}

/// The views of a sequence of owned segments.
pub open spec fn views_of(parts: Seq<String>) -> Seq<Seq<char>> {
    parts.map_values(|p: String| p@)
}

/// Split on `/`: the segments between the separators, empty segments
/// included. The empty text has one (empty) segment.
pub open spec fn split_slash(s: Seq<char>) -> Seq<Seq<char>>
    decreases s.len(),
    via split_slash_decreases
{
    match s.index_of_first('/') {
        Some(i) => seq![s.take(i)] + split_slash(s.skip(i + 1)),
        None => seq![s],
    }
}

#[via_fn]
proof fn split_slash_decreases(s: Seq<char>) {
    s.index_of_first_ensures('/');
}

/// Resolve `.` and `..` segments: `.` disappears, `..` pops the segment
/// before it (never climbing above the root), anything else stays, in order.
pub open spec fn normalize_stack(segs: Seq<Seq<char>>) -> Seq<Seq<char>>
    decreases segs.len(),
{
    if segs.len() == 0 {
        Seq::empty()
    } else {
        let st = normalize_stack(segs.drop_last());
        let last = segs.last();
        if last == "."@ {
            st
        } else if last == ".."@ {
            if st.len() > 0 {
                st.drop_last()
            } else {
                st
            }
        } else {
            st.push(last)
        }
    }
}

/// Write segments back as a path: each segment prefixed by `/`. No segments
/// give the empty text.
pub open spec fn join_segments(segs: Seq<Seq<char>>) -> Seq<char>
    decreases segs.len(),
{
    if segs.len() == 0 {
        Seq::empty()
    } else {
        join_segments(segs.drop_last()) + "/"@ + segs.last()
    }
}

/// Split a text on `/`.
pub fn split_slash_exec(s: &str) -> (r: Vec<String>)
    ensures
        views_of(r@) == split_slash(s@),
{
    let mut parts: Vec<String> = Vec::new();
    let mut rest: &str = s;
    loop
        invariant
            split_slash(s@) == views_of(parts@) + split_slash(rest@),
        decreases rest@.len(),
    {
        proof {
            rest@.index_of_first_ensures('/');
        }
        match find_char(rest, '/') {
            Some(i) => {
                let ghost old_parts = parts@;
                let ghost old_rest = rest@;
                let n = rest.unicode_len();
                let seg = rest.substring_char(0, i);
                parts.push(String::from_str(seg));
                rest = rest.substring_char(i + 1, n);
                proof {
                    assert(seg@ =~= old_rest.take(i as int));
                    assert(rest@ =~= old_rest.skip(i + 1));
                    assert(views_of(parts@) =~= views_of(old_parts).push(seg@));
                    assert(views_of(old_parts) + split_slash(old_rest) =~= views_of(parts@)
                        + split_slash(rest@));
                }
            },
            None => {
                let ghost old_parts = parts@;
                parts.push(String::from_str(rest));
                proof {
                    assert(views_of(parts@) =~= views_of(old_parts).push(rest@));
                    assert(views_of(parts@) =~= views_of(old_parts) + split_slash(rest@));
                    assert(views_of(parts@) =~= split_slash(s@));
                }
                return parts;
            },
        }
    }
}

/// Resolve `.` and `..` segments.
pub fn normalize_segments(parts: Vec<String>) -> (r: Vec<String>)
    ensures
        views_of(r@) == normalize_stack(views_of(parts@)),
{
    let n = parts.len();
    let mut out: Vec<String> = Vec::new();
    let mut i: usize = 0;
    while i < n
        invariant
            n == parts@.len(),
            i <= n,
            views_of(out@) == normalize_stack(views_of(parts@).take(i as int)),
        decreases n - i,
    {
        let ghost old_out = out@;
        let seg = &parts[i];
        if str_eq(seg.as_str(), ".") {
        } else if str_eq(seg.as_str(), "..") {
            if out.len() > 0 {
                out.pop();
            }
        } else {
            out.push(seg.clone());
        }
        proof {
            let pv = views_of(parts@);
            assert(pv.take(i + 1).drop_last() =~= pv.take(i as int));
            assert(pv.take(i + 1).last() == seg@);
            if seg@ == "."@ {
                assert(views_of(out@) == normalize_stack(pv.take(i + 1)));
            } else if seg@ == ".."@ {
                if old_out.len() > 0 {
                    assert(views_of(out@) =~= views_of(old_out).drop_last());
                } else {
                    assert(views_of(out@) =~= views_of(old_out));
                }
            } else {
                assert(views_of(out@) =~= views_of(old_out).push(seg@));
            }
        }
        i = i + 1;
    }
    proof {
        assert(views_of(parts@).take(n as int) =~= views_of(parts@));
    }
    out
}

/// The rest of an absolute locator, after the `:` that ends its scheme.
pub open spec fn rest_of(s: Seq<char>) -> Seq<char> {
    s.skip(scheme_split_at(s) + 1)
}

/// An absolute locator is hierarchical when its rest begins with `//`.
pub open spec fn is_hierarchical(s: Seq<char>) -> bool {
    has_scheme(s) && rest_of(s).len() >= 2 && rest_of(s)[0] == '/' && rest_of(s)[1] == '/'
}

/// The authority of a hierarchical locator: what stands between `//` and the
/// first `/` of the path (or the whole rest, when there is no path).
pub open spec fn authority_of(s: Seq<char>) -> Seq<char> {
    let r2 = rest_of(s).skip(2);
    match r2.index_of_first('/') {
        Some(k) => r2.take(k),
        None => r2,
    }
}

/// The path of a hierarchical locator: from the first `/` after the
/// authority on; empty when there is none.
pub open spec fn path_of(s: Seq<char>) -> Seq<char> {
    let r2 = rest_of(s).skip(2);
    match r2.index_of_first('/') {
        Some(k) => r2.skip(k),
        None => Seq::empty(),
    }
}

/// The segments of a path: a nonempty path starts with `/`, whose removal
/// leaves the `/`-separated segments; the empty path has none.
pub open spec fn path_segments(path: Seq<char>) -> Seq<Seq<char>> {
    if path.len() == 0 {
        Seq::empty()
    } else {
        split_slash(path.skip(1))
    }
}

/// A hierarchical locator written out: its canonical path is `/` when it has
/// no segments.
pub open spec fn render_hier(scheme: Seq<char>, authority: Seq<char>, segs: Seq<Seq<char>>) -> Seq<
    char,
> {
    scheme + "://"@ + authority + (if segs.len() == 0 {
        "/"@
    } else {
        join_segments(segs)
    })
}

/// The canonical form of an absolute locator: a hierarchical locator gets
/// its path segments normalized; an opaque one is kept exactly as given.
pub open spec fn spec_canonical(s: Seq<char>) -> Seq<char>
    recommends
        has_scheme(s),
{
    if is_hierarchical(s) {
        render_hier(scheme_of(s), authority_of(s), normalize_stack(path_segments(path_of(s))))
    } else {
        s
    }
}

/// All but the last segment; nothing when there are no segments.
pub open spec fn seg_drop_last(segs: Seq<Seq<char>>) -> Seq<Seq<char>> {
    if segs.len() == 0 {
        segs
    } else {
        segs.drop_last()
    }
}

/// A relative specifier joined against the parts of a hierarchical base: a
/// root-relative specifier (leading `/`) replaces the base's path; any other
/// is resolved against the base path's directory. The joined segments are
/// normalized.
pub open spec fn join_parts(
    scheme: Seq<char>,
    authority: Seq<char>,
    base_path: Seq<char>,
    rel: Seq<char>,
) -> Seq<char> {
    let base_dir = if rel.len() > 0 && rel[0] == '/' {
        Seq::<Seq<char>>::empty()
    } else {
        seg_drop_last(path_segments(base_path))
    };
    let rel_segs = split_slash(
        if rel.len() > 0 && rel[0] == '/' {
            rel.skip(1)
        } else {
            rel
        },
    );
    render_hier(scheme, authority, normalize_stack(base_dir + rel_segs))
}

/// A relative specifier joined against a hierarchical base locator.
pub open spec fn spec_join(base: Seq<char>, rel: Seq<char>) -> Seq<char>
    recommends
        is_hierarchical(base),
{
    join_parts(scheme_of(base), authority_of(base), path_of(base), rel)
}

/// A specifier that may be resolved against a referrer: it is relative and
/// announces so, starting with `/`, `./` or `../`.
pub open spec fn relative_prefixed(s: Seq<char>) -> bool {
    (s.len() > 0 && s[0] == '/') || "./"@.is_prefix_of(s) || "../"@.is_prefix_of(s)
}

/// The canonical locator `resolve_path` derives: an absolute path is taken
/// as a locator; anything else becomes a `file:` locator rooted at the
/// synthetic filesystem root.
pub open spec fn spec_resolve_path(p: Seq<char>) -> Seq<char> {
    if has_scheme(p) {
        spec_canonical(p)
    } else {
        join_parts("file"@, Seq::empty(), Seq::empty(), p)
    }
}

/// Write segments back as a path.
pub fn join_segments_exec(parts: &Vec<String>) -> (r: String)
    ensures
        r@ == join_segments(views_of(parts@)),
{
    let n = parts.len();
    let mut s = String::new();
    let mut i: usize = 0;
    while i < n
        invariant
            n == parts@.len(),
            i <= n,
            s@ == join_segments(views_of(parts@).take(i as int)),
        decreases n - i,
    {
        s.append("/");
        s.append(parts[i].as_str());
        proof {
            let pv = views_of(parts@);
            assert(pv.take(i + 1).drop_last() =~= pv.take(i as int));
            assert(pv.take(i + 1).last() == pv[i as int]);
            assert(s@ =~= join_segments(pv.take(i + 1)));
        }
        i = i + 1;
    }
    proof {
        assert(views_of(parts@).take(n as int) =~= views_of(parts@));
    }
    s
}

/// Parse an absolute hierarchical locator into scheme, authority and path.
fn parse_hierarchical(s: &str) -> (r: Option<(&str, &str, &str)>)
    ensures
        (r matches Some(t) ==> is_hierarchical(s@) && t.0@ == scheme_of(s@) && t.1@
            == authority_of(s@) && t.2@ == path_of(s@)),
        r is None ==> !is_hierarchical(s@),
{
    let n = s.unicode_len();
    match find_scheme_end(s) {
        None => None,
        Some(i) => {
            let scheme = s.substring_char(0, i);
            let rest = s.substring_char(i + 1, n);
            proof {
                assert(scheme@ =~= scheme_of(s@));
                assert(rest@ =~= rest_of(s@));
            }
            let rn = rest.unicode_len();
            if rn < 2 {
                return None;
            }
            if !(rest.get_char(0) == '/' && rest.get_char(1) == '/') {
                return None;
            }
            let r2 = rest.substring_char(2, rn);
            let r2n = r2.unicode_len();
            proof {
                assert(r2@ =~= rest_of(s@).skip(2));
                r2@.index_of_first_ensures('/');
            }
            match find_char(r2, '/') {
                Some(k) => {
                    let authority = r2.substring_char(0, k);
                    let path = r2.substring_char(k, r2n);
                    proof {
                        assert(authority@ =~= authority_of(s@));
                        assert(path@ =~= path_of(s@));
                    }
                    Some((scheme, authority, path))
                },
                None => {
                    let path = r2.substring_char(r2n, r2n);
                    proof {
                        assert(r2@ =~= authority_of(s@));
                        assert(path@ =~= path_of(s@));
                    }
                    Some((scheme, r2, path))
                },
            }
        },
    }
}

/// Write a hierarchical locator from its parts.
fn render_hier_exec(scheme: &str, authority: &str, segs: &Vec<String>) -> (r: String)
    ensures
        r@ == render_hier(scheme@, authority@, views_of(segs@)),
{
    let mut out = String::new();
    out.append(scheme);
    out.append("://");
    out.append(authority);
    if segs.len() == 0 {
        out.append("/");
    } else {
        let joined = join_segments_exec(segs);
        out.append(joined.as_str());
    }
    proof {
        assert(out@ =~= render_hier(scheme@, authority@, views_of(segs@)));
    }
    out
}

/// The canonical form of an absolute locator.
pub fn canonical_absolute(s: &str) -> (r: String)
    requires
        has_scheme(s@),
    ensures
        r@ == spec_canonical(s@),
{
    match parse_hierarchical(s) {
        Some((scheme, authority, path)) => {
            let pn = path.unicode_len();
            let raw: Vec<String> = if pn == 0 {
                Vec::new()
            } else {
                split_slash_exec(path.substring_char(1, pn))
            };
            proof {
                if pn == 0 {
                    assert(views_of(raw@) =~= path_segments(path@));
                } else {
                    assert(path@.subrange(1, pn as int) =~= path@.skip(1));
                }
            }
            let segs = normalize_segments(raw);
            render_hier_exec(scheme, authority, &segs)
        },
        None => String::from_str(s),
    }
}

/// Push clones of all of `src` onto `dst`.
fn append_all(dst: &mut Vec<String>, src: &Vec<String>)
    ensures
        final(dst)@ == old(dst)@ + src@,
{
    let n = src.len();
    let mut i: usize = 0;
    while i < n
        invariant
            n == src@.len(),
            i <= n,
            dst@ == old(dst)@ + src@.take(i as int),
        decreases n - i,
    {
        dst.push(src[i].clone());
        proof {
            assert(old(dst)@ + src@.take(i + 1) =~= (old(dst)@ + src@.take(i as int)).push(
                src@[i as int],
            ));
        }
        i = i + 1;
    }
    proof {
        assert(src@.take(n as int) =~= src@);
    }
}

/// Join a relative specifier against the parts of a hierarchical base.
pub fn join_parts_exec(scheme: &str, authority: &str, base_path: &str, rel: &str) -> (r: String)
    ensures
        r@ == join_parts(scheme@, authority@, base_path@, rel@),
{
    let rn = rel.unicode_len();
    let root_rel = rn > 0 && rel.get_char(0) == '/';
    let mut segs: Vec<String>;
    if root_rel {
        segs = split_slash_exec(rel.substring_char(1, rn));
        proof {
            assert(rel@.subrange(1, rn as int) =~= rel@.skip(1));
            assert(views_of(segs@) =~= Seq::<Seq<char>>::empty() + split_slash(rel@.skip(1)));
        }
    } else {
        let bn = base_path.unicode_len();
        segs = if bn == 0 {
            Vec::new()
        } else {
            split_slash_exec(base_path.substring_char(1, bn))
        };
        proof {
            if bn == 0 {
                assert(views_of(segs@) =~= path_segments(base_path@));
            } else {
                assert(base_path@.subrange(1, bn as int) =~= base_path@.skip(1));
            }
        }
        let ghost base_segs = views_of(segs@);
        if segs.len() > 0 {
            segs.pop();
            proof {
                assert(views_of(segs@) =~= base_segs.drop_last());
            }
        }
        proof {
            assert(views_of(segs@) =~= seg_drop_last(path_segments(base_path@)));
        }
        let ghost base_dir = views_of(segs@);
        let rel_segs = split_slash_exec(rel);
        append_all(&mut segs, &rel_segs);
        proof {
            assert(views_of(segs@) =~= base_dir + split_slash(rel@));
        }
    }
    let segs = normalize_segments(segs);
    render_hier_exec(scheme, authority, &segs)
}

/// Does a relative specifier announce itself as such, with a `/`, `./` or
/// `../` prefix?
pub fn relative_prefixed_exec(s: &str) -> (r: bool)
    ensures
        r == relative_prefixed(s@),
{
    let n = s.unicode_len();
    if n > 0 && s.get_char(0) == '/' {
        return true;
    }
    if str_starts_with(s, "./") {
        return true;
    }
    if str_starts_with(s, "../") {
        return true;
    }
    false
}

/// Resolve an import specifier against its referrer into a canonical
/// locator.
///
/// An absolute specifier resolves to its own canonical form, whatever the
/// referrer. A relative one must start with `/`, `./` or `../` — else
/// [`Error::ImportPrefixMissing`] — and is joined against the referrer,
/// which must be a hierarchical locator — else [`Error::InvalidBase`].
pub fn resolve_import(specifier: &str, referrer: &str) -> (r: Result<String, Error>)
    ensures
        has_scheme(specifier@) ==> (r matches Ok(u) && u@ == spec_canonical(specifier@)),
        !has_scheme(specifier@) && !relative_prefixed(specifier@) ==> (r matches Err(e)
            && e matches Error::ImportPrefixMissing(m) && m@ == specifier@),
        !has_scheme(specifier@) && relative_prefixed(specifier@) && !is_hierarchical(referrer@)
            ==> (r matches Err(e) && e matches Error::InvalidBase(m) && m@ == referrer@),
        !has_scheme(specifier@) && relative_prefixed(specifier@) && is_hierarchical(referrer@)
            ==> (r matches Ok(u) && u@ == spec_join(referrer@, specifier@)),
{
    match find_scheme_end(specifier) {
        Some(_) => Ok(canonical_absolute(specifier)),
        None => {
            if !relative_prefixed_exec(specifier) {
                Err(Error::ImportPrefixMissing(String::from_str(specifier)))
            } else {
                match parse_hierarchical(referrer) {
                    Some((scheme, authority, path)) => Ok(
                        join_parts_exec(scheme, authority, path, specifier),
                    ),
                    None => Err(Error::InvalidBase(String::from_str(referrer))),
                }
            }
        },
    }
}

/// Resolve a path to a canonical locator.
///
/// An absolute locator is canonicalized; any other path becomes a `file:`
/// locator rooted at the synthetic filesystem root (verified code has no
/// working directory to consult).
pub fn resolve_path(path: &str) -> (r: Result<String, Error>)
    ensures
        (r matches Ok(u) && u@ == spec_resolve_path(path@)),
{
    match find_scheme_end(path) {
        Some(_) => Ok(canonical_absolute(path)),
        None => {
            proof {
                reveal_strlit("");
                assert(""@ =~= Seq::<char>::empty());
            }
            let joined = join_parts_exec("file", "", "", path);
            Ok(joined)
        },
    }
}

} // verus!
