//! Target resolution: the local path a download is written to.
//!
//! An explicit destination is used verbatim. Without one the name is taken
//! from the URL: what follows its last `/`, or, where nothing follows it or
//! the URL holds no `/` at all, the URL with every `/` removed. The result is
//! not checked for being a legal file name; creating the file will tell.

use vstd::prelude::*;

verus! {

/// The index of the last `/` in `u`, or -1 where `u` holds none.
pub open spec fn last_slash(u: Seq<char>) -> int
    decreases u.len(),
{
    if u.len() == 0 {
        -1
    } else if u.last() == '/' {
        u.len() - 1
    } else {
        last_slash(u.drop_last())
    }
}

/// What follows the last `/` of `u`; all of `u` where it holds no `/`.
pub open spec fn last_segment(u: Seq<char>) -> Seq<char> {
    u.subrange(last_slash(u) + 1, u.len() as int)
}

/// `u` with every `/` removed.
pub open spec fn without_slashes(u: Seq<char>) -> Seq<char> {
    u.filter(|c: char| c != '/')
}

/// The file name derived from the URL `u`.
pub open spec fn derived_filename(u: Seq<char>) -> Seq<char> {
    if !u.contains('/') || last_segment(u).len() == 0 {
        without_slashes(u)
    } else {
        last_segment(u)
    }
}

/// The destination for the URL `u` and an optional explicit path.
pub open spec fn resolved_target(u: Seq<char>, explicit: Option<Seq<char>>) -> Seq<char> {
    match explicit {
        Some(path) => path,
        None => derived_filename(u),
    }
}

/// The characters of an optional string slice.
pub open spec fn optional_text(s: Option<&str>) -> Option<Seq<char>> {
    match s {
        Some(t) => Some(t@),
        None => None,
    }
}

/// `last_slash` finds a `/`, and no `/` comes after it; it is -1 exactly when
/// the text holds no `/`.
pub proof fn lemma_last_slash(u: Seq<char>)
    ensures
        -1 <= last_slash(u) < u.len(),
        last_slash(u) >= 0 ==> u[last_slash(u)] == '/',
        forall|j: int| last_slash(u) < j < u.len() ==> u[j] != '/',
        last_slash(u) == -1 <==> !u.contains('/'),
    decreases u.len(),
{
    if u.len() > 0 && u.last() != '/' {
        let v = u.drop_last();
        lemma_last_slash(v);
        assert forall|j: int| last_slash(u) < j < u.len() implies u[j] != '/' by {
            if j < v.len() {
                assert(u[j] == v[j]);
            }
        }
        if v.contains('/') {
            let k = choose|k: int| 0 <= k < v.len() && v[k] == '/';
            assert(u[k] == '/');
        }
        if u.contains('/') {
            let k = choose|k: int| 0 <= k < u.len() && u[k] == '/';
            assert(v[k] == '/');
        }
    } else if u.len() > 0 {
        assert(u[u.len() - 1] == '/');
    }
}

/// Appending a character restarts the last segment after a `/` and extends it
/// otherwise.
pub proof fn lemma_last_segment_push(u: Seq<char>, c: char)
    ensures
        last_segment(u.push(c)) == if c == '/' {
            Seq::<char>::empty()
        } else {
            last_segment(u).push(c)
        },
{
    let w = u.push(c);
    assert(w.drop_last() == u);
    lemma_last_slash(u);
    if c != '/' {
        assert(last_slash(w) == last_slash(u));
        assert(w.subrange(last_slash(u) + 1, w.len() as int) == u.subrange(
            last_slash(u) + 1,
            u.len() as int,
        ).push(c));
    }
}

/// Appending a character appends it to the text without slashes unless it is
/// a `/`.
pub proof fn lemma_without_slashes_push(u: Seq<char>, c: char)
    ensures
        without_slashes(u.push(c)) == if c == '/' {
            without_slashes(u)
        } else {
            without_slashes(u).push(c)
        },
{
    reveal(Seq::filter);
    assert(u.push(c).drop_last() == u);
}

/// What removing the slashes leaves: no `/`, nothing at all exactly when the
/// text holds nothing but `/`, and the text itself when it holds no `/`.
pub proof fn lemma_without_slashes(u: Seq<char>)
    ensures
        !without_slashes(u).contains('/'),
        without_slashes(u).len() == 0 <==> forall|k: int| 0 <= k < u.len() ==> u[k] == '/',
        !u.contains('/') ==> without_slashes(u) == u,
    decreases u.len(),
{
    if u.len() == 0 {
        reveal(Seq::filter);
    } else {
        let v = u.drop_last();
        let c = u.last();
        assert(u == v.push(c));
        lemma_without_slashes(v);
        lemma_without_slashes_push(v, c);
        let w = without_slashes(u);
        if w.contains('/') {
            let k = choose|k: int| 0 <= k < w.len() && w[k] == '/';
            if k < without_slashes(v).len() {
                assert(without_slashes(v)[k] == '/');
            }
        }
        if w.len() == 0 {
            assert forall|k: int| 0 <= k < u.len() implies u[k] == '/' by {
                if k < v.len() {
                    assert(v[k] == u[k]);
                }
            }
        }
        if forall|k: int| 0 <= k < u.len() ==> u[k] == '/' {
            assert(u[u.len() - 1] == '/');
            assert forall|k: int| 0 <= k < v.len() implies v[k] == '/' by {
                assert(v[k] == u[k]);
            }
        }
        if !u.contains('/') {
            assert(u[u.len() - 1] != '/');
            if v.contains('/') {
                let k = choose|k: int| 0 <= k < v.len() && v[k] == '/';
                assert(u[k] == '/');
            }
        }
    }
}

/// Whether `i` is the place of the last `/` in `u`.
pub open spec fn is_last_slash(u: Seq<char>, i: int) -> bool {
    &&& 0 <= i < u.len()
    &&& u[i] == '/'
    &&& forall|j: int| i < j < u.len() ==> u[j] != '/'
}

/// The derived file name is what follows the last `/` of the URL. Where
/// nothing follows it, the name is the URL with every `/` removed, and where
/// the URL holds no `/`, the name is the URL.
pub proof fn law_derived_filename(u: Seq<char>)
    ensures
        !u.contains('/') ==> derived_filename(u) == u,
        forall|i: int|
            is_last_slash(u, i) ==> derived_filename(u) == if i + 1 < u.len() {
                u.skip(i + 1)
            } else {
                without_slashes(u)
            },
{
    lemma_last_slash(u);
    lemma_without_slashes(u);
    assert forall|i: int| is_last_slash(u, i) implies derived_filename(u) == if i + 1 < u.len() {
        u.skip(i + 1)
    } else {
        without_slashes(u)
    } by {
        assert(u.contains('/'));
        assert(i == last_slash(u));
        assert(u.subrange(i + 1, u.len() as int) == u.skip(i + 1));
    }
}

/// The derived file name never holds a `/`.
pub proof fn law_derived_filename_has_no_slash(u: Seq<char>)
    ensures
        !derived_filename(u).contains('/'),
{
    lemma_last_slash(u);
    lemma_without_slashes(u);
    let name = derived_filename(u);
    if name.contains('/') {
        let k = choose|k: int| 0 <= k < name.len() && name[k] == '/';
        assert(name == last_segment(u));
        assert(u[last_slash(u) + 1 + k] == '/');
    }
}

/// The derived file name is empty exactly when the URL holds nothing but `/`,
/// the empty URL included.
pub proof fn law_derived_filename_is_empty(u: Seq<char>)
    ensures
        derived_filename(u).len() == 0 <==> forall|k: int| 0 <= k < u.len() ==> u[k] == '/',
{
    lemma_last_slash(u);
    lemma_without_slashes(u);
    if derived_filename(u) == last_segment(u) && last_segment(u).len() > 0 {
        assert(u[u.len() - 1] != '/');
    }
}

/// Derives the file name from a URL: what follows its last `/`; where nothing
/// follows it, or the URL holds no `/`, the URL with every `/` removed.
pub fn derive_filename(url: &str) -> (name: String)
    ensures
        name@ == derived_filename(url@),
{
    let mut segment = String::new();
    let mut stripped = String::new();
    let mut seen_slash = false;
    let chars = url.chars();
    for c in it: chars
        invariant
            it.seq() == url@,
            segment@ == last_segment(url@.take(it.index())),
            stripped@ == without_slashes(url@.take(it.index())),
            seen_slash == url@.take(it.index()).contains('/'),
    {
        let ghost before = url@.take(it.index());
        proof {
            assert(url@.take(it.index() + 1) == before.push(c));
            lemma_last_segment_push(before, c);
            lemma_without_slashes_push(before, c);
            lemma_last_slash(before);
            lemma_last_slash(before.push(c));
            if c == '/' {
                assert(before.push(c)[before.len() as int] == '/');
            }
        }
        if c == '/' {
            segment = String::new();
            seen_slash = true;
        } else {
            segment.push(c);
            stripped.push(c);
        }
    }
    assert(url@.take(url@.len() as int) == url@);
    if !seen_slash || segment.as_str().is_empty() {
        stripped
    } else {
        segment
    }
}

/// Resolves the destination path: the explicit path verbatim where one is
/// given, the name derived from the URL otherwise.
pub fn resolve_target(url: &str, explicit: Option<&str>) -> (path: String)
    ensures
        path@ == resolved_target(url@, optional_text(explicit)),
{
    match explicit {
        Some(path) => path.to_owned(),
        None => derive_filename(url),
    }
}

} // verus!
