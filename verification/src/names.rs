//! Destination-name logic: the base name of a source path, the `.webp`
//! file name derived from it, and joining it onto the destination directory.
//!
//! Paths are plain strings here. The base name is the part after the last
//! `/`; when that part is empty, `.` or `..` the name cannot serve as a file
//! name, and the fixed placeholder `default` takes its place.

use vstd::prelude::*;
use vstd::string::*;

verus! {

/// The suffix of `s` after its last `/`, or all of `s` when it has none.
pub open spec fn after_last_slash(s: Seq<char>) -> Seq<char>
    decreases s.len(),
{
    if s.len() == 0 {
        s
    } else if s.last() == '/' {
        Seq::empty()
    } else {
        after_last_slash(s.drop_last()).push(s.last())
    }
}

/// A candidate base name that cannot name a file: empty, `.` or `..`.
pub open spec fn is_unresolvable(b: Seq<char>) -> bool {
    b.len() == 0
    || (b.len() == 1 && b[0] == '.')
    || (b.len() == 2 && b[0] == '.' && b[1] == '.')
}

/// The base name of a source path, falling back to the placeholder.
pub open spec fn spec_base_name(s: Seq<char>) -> Seq<char> {
    if is_unresolvable(after_last_slash(s)) {
        "default"@
    } else {
        after_last_slash(s)
    }
}

/// The index of the last `.` of `s` that stands after the first character,
/// or `-1` when there is none. A leading `.` marks a hidden file, not an
/// extension, so index `0` never counts.
pub open spec fn last_dot_index(s: Seq<char>) -> int
    decreases s.len(),
{
    if s.len() <= 1 {
        -1
    } else if s[s.len() - 1] == '.' {
        s.len() - 1
    } else {
        last_dot_index(s.drop_last())
    }
}

/// `s` with its extension (the part from the last counted `.`) removed.
pub open spec fn spec_stem(s: Seq<char>) -> Seq<char> {
    if last_dot_index(s) >= 1 {
        s.subrange(0, last_dot_index(s))
    } else {
        s
    }
}

/// The file name with the extension replaced by `.webp`.
pub open spec fn spec_webp_name(s: Seq<char>) -> Seq<char> {
    spec_stem(s) + ".webp"@
}

/// `dir` and `name` joined with a single `/` between them.
pub open spec fn spec_join(dir: Seq<char>, name: Seq<char>) -> Seq<char> {
    if dir.len() == 0 {
        name
    } else if dir.last() == '/' {
        dir + name
    } else {
        dir + "/"@ + name
    }
}

/// The full destination path for a source file converted into `dir`.
pub open spec fn spec_output_path(source: Seq<char>, dir: Seq<char>) -> Seq<char> {
    spec_join(dir, spec_webp_name(spec_base_name(source)))
}

proof fn lemma_after_last_slash_is_suffix(s: Seq<char>, cut: int)
    requires
        0 <= cut <= s.len(),
        cut > 0 ==> s[cut - 1] == '/',
        forall|j: int| cut <= j < s.len() ==> s[j] != '/',
    ensures
        after_last_slash(s) == s.subrange(cut, s.len() as int),
    decreases s.len(),
{
    if s.len() == 0 {
        assert(s.subrange(0, 0) =~= s);
    } else if cut == s.len() {
        assert(s.last() == '/');
        assert(s.subrange(cut, s.len() as int) =~= Seq::<char>::empty());
    } else {
        assert(s.last() != '/');
        lemma_after_last_slash_is_suffix(s.drop_last(), cut);
        assert(s.subrange(cut, s.len() as int) =~= s.drop_last().subrange(
            cut,
            s.len() - 1,
        ).push(s.last()));
    }
}

proof fn lemma_last_dot_index_from_scan(s: Seq<char>, d: int)
    requires
        d == -1 ==> forall|j: int| 1 <= j < s.len() ==> s[j] != '.',
        d != -1 ==> 1 <= d < s.len() && s[d] == '.' && (forall|j: int|
            d < j < s.len() ==> s[j] != '.'),
    ensures
        last_dot_index(s) == d,
    decreases s.len(),
{
    if s.len() <= 1 {
        assert(d == -1);
    } else if s[s.len() - 1] == '.' {
        assert(d != -1);
        assert(d == s.len() - 1);
    } else {
        if d == -1 {
            lemma_last_dot_index_from_scan(s.drop_last(), -1);
        } else {
            assert(d < s.len() - 1);
            lemma_last_dot_index_from_scan(s.drop_last(), d);
        }
    }
}

/// The base name of `path`: what follows the last `/`, or `default` when
/// that is empty, `.` or `..`.
pub fn base_name(path: &str) -> (r: String)
    ensures
        r@ == spec_base_name(path@),
{
    let n: usize = path.unicode_len();
    let mut cut: usize = 0;
    let mut i: usize = 0;
    while i < n
        invariant
            i <= n,
            n == path@.len(),
            cut <= i,
            cut > 0 ==> path@[cut - 1] == '/',
            forall|j: int| cut <= j < i ==> path@[j] != '/',
        decreases n - i,
    {
        if path.get_char(i) == '/' {
            cut = i + 1;
        }
        i += 1;
    }
    proof {
        lemma_after_last_slash_is_suffix(path@, cut as int);
    }
    let blen: usize = n - cut;
    let unresolvable: bool = blen == 0 || (blen == 1 && path.get_char(cut) == '.') || (blen == 2
        && path.get_char(cut) == '.' && path.get_char(cut + 1) == '.');
    if unresolvable {
        String::from_str("default")
    } else {
        let candidate = path.substring_char(cut, n);
        candidate.to_owned()
    }
}

/// `name` with its extension replaced by `.webp`; a name without an
/// extension just gains `.webp`.
pub fn webp_file_name(name: &str) -> (r: String)
    ensures
        r@ == spec_webp_name(name@),
{
    let n: usize = name.unicode_len();
    let mut dot: usize = 0;
    let mut i: usize = 0;
    while i < n
        invariant
            i <= n,
            n == name@.len(),
            dot == 0 ==> forall|j: int| 1 <= j < i ==> name@[j] != '.',
            dot >= 1 ==> dot < i && name@[dot as int] == '.' && (forall|j: int|
                dot < j < i ==> name@[j] != '.'),
        decreases n - i,
    {
        if i >= 1 && name.get_char(i) == '.' {
            dot = i;
        }
        i += 1;
    }
    proof {
        if dot == 0 {
            lemma_last_dot_index_from_scan(name@, -1);
        } else {
            lemma_last_dot_index_from_scan(name@, dot as int);
        }
    }
    if dot >= 1 {
        let stem = name.substring_char(0, dot);
        stem.to_owned().concat(".webp")
    } else {
        name.to_owned().concat(".webp")
    }
}

/// `dir` and `name` joined with a single `/`; an empty `dir` yields `name`
/// alone, and a `dir` that already ends in `/` gains no second one.
pub fn join_path(dir: &str, name: &str) -> (r: String)
    ensures
        r@ == spec_join(dir@, name@),
{
    let n: usize = dir.unicode_len();
    if n == 0 {
        name.to_owned()
    } else if dir.get_char(n - 1) == '/' {
        dir.to_owned().concat(name)
    } else {
        dir.to_owned().concat("/").concat(name)
    }
}

/// The destination path for `source` converted into `dest_dir`: the source's
/// base name with its extension replaced by `.webp`, joined onto `dest_dir`.
pub fn output_path_for(source: &str, dest_dir: &str) -> (r: String)
    ensures
        r@ == spec_output_path(source@, dest_dir@),
{
    let base = base_name(source);
    let file_name = webp_file_name(base.as_str());
    join_path(dest_dir, file_name.as_str())
}

/// A source whose base name cannot be resolved falls back to the fixed
/// placeholder, so its destination path always names `default.webp`.
pub proof fn lemma_unresolvable_uses_placeholder(source: Seq<char>, dir: Seq<char>)
    requires
        is_unresolvable(after_last_slash(source)),
    ensures
        spec_output_path(source, dir) == spec_join(dir, "default"@ + ".webp"@),
{
    reveal_strlit("default");
    lemma_last_dot_index_from_scan("default"@, -1);
}

} // verus!
