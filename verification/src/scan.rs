//! Directory-scan filtering: which of a directory's immediate entries make
//! it into a batch. An entry survives when it is a plain file and its bytes
//! decode as an image; subdirectories and undecodable files are dropped,
//! and the surviving paths keep their enumeration order.

use vstd::prelude::*;

verus! {

/// One immediate entry of the scanned directory, as the caller listed it:
/// its path and whether it is a plain file.
pub struct ScanEntry {
    pub path: String,
    pub is_file: bool,
}

/// The mathematical value of a `ScanEntry`.
#[verifier::ext_equal]
pub struct ScanEntryView {
    pub path: Seq<char>,
    pub is_file: bool,
}

impl View for ScanEntry {
    type V = ScanEntryView;

    open spec fn view(&self) -> ScanEntryView {
        ScanEntryView { path: self.path@, is_file: self.is_file }
    }
}

/// A scanned entry together with the result of its decode probe.
pub struct ProbedEntry {
    pub path: String,
    pub is_file: bool,
    pub is_image: bool,
}

/// The mathematical value of a `ProbedEntry`.
#[verifier::ext_equal]
pub struct ProbedEntryView {
    pub path: Seq<char>,
    pub is_file: bool,
    pub is_image: bool,
}

impl View for ProbedEntry {
    type V = ProbedEntryView;

    open spec fn view(&self) -> ProbedEntryView {
        ProbedEntryView { path: self.path@, is_file: self.is_file, is_image: self.is_image }
    }
}

/// The views of a sequence of scanned entries.
pub open spec fn scan_views(s: Seq<ScanEntry>) -> Seq<ScanEntryView> {
    s.map_values(|e: ScanEntry| e@)
}

/// The views of a sequence of probed entries.
pub open spec fn probed_views(s: Seq<ProbedEntry>) -> Seq<ProbedEntryView> {
    s.map_values(|e: ProbedEntry| e@)
}

/// The views of a sequence of paths.
pub open spec fn path_views(s: Seq<String>) -> Seq<Seq<char>> {
    s.map_values(|p: String| p@)
}

/// The paths of exactly those probed entries that are plain files and
/// decoded as images, in order.
pub open spec fn decodable_paths(s: Seq<ProbedEntryView>) -> Seq<Seq<char>>
    decreases s.len(),
{
    if s.len() == 0 {
        Seq::empty()
    } else {
        let rest = decodable_paths(s.drop_last());
        if s.last().is_file && s.last().is_image {
            rest.push(s.last().path)
        } else {
            rest
        }
    }
}

/// The paths of the plain-file entries, in order.
pub open spec fn file_paths(s: Seq<ScanEntryView>) -> Seq<Seq<char>>
    decreases s.len(),
{
    if s.len() == 0 {
        Seq::empty()
    } else {
        let rest = file_paths(s.drop_last());
        if s.last().is_file {
            rest.push(s.last().path)
        } else {
            rest
        }
    }
}

/// `a` is a subsequence of `b`: all of `a`'s elements occur in `b`, in
/// `a`'s order.
pub open spec fn is_subseq(a: Seq<Seq<char>>, b: Seq<Seq<char>>) -> bool
    decreases a.len() + b.len(),
{
    if a.len() == 0 {
        true
    } else if b.len() == 0 {
        false
    } else {
        (a.last() == b.last() && is_subseq(a.drop_last(), b.drop_last())) || is_subseq(
            a,
            b.drop_last(),
        )
    }
}

/// A subsequence of `b` stays one when `b` grows at the end.
pub proof fn lemma_subseq_grow(a: Seq<Seq<char>>, b: Seq<Seq<char>>, x: Seq<char>)
    requires
        is_subseq(a, b),
    ensures
        is_subseq(a, b.push(x)),
{
    if a.len() > 0 {
        assert(b.push(x).drop_last() =~= b);
    }
}

/// A subsequence relation survives pushing the same element onto both.
pub proof fn lemma_subseq_push_both(a: Seq<Seq<char>>, b: Seq<Seq<char>>, x: Seq<char>)
    requires
        is_subseq(a, b),
    ensures
        is_subseq(a.push(x), b.push(x)),
{
    assert(a.push(x).drop_last() =~= a);
    assert(b.push(x).drop_last() =~= b);
    assert(a.push(x).last() == b.push(x).last());
}

/// Keep the paths of exactly those entries whose probe found a decodable
/// image in a plain file, in enumeration order: the scan's filtering rule.
pub fn filter_decodable(entries: &Vec<ProbedEntry>) -> (r: Vec<String>)
    ensures
        path_views(r@) == decodable_paths(probed_views(entries@)),
{
    let ghost all = probed_views(entries@);
    let mut r: Vec<String> = Vec::new();
    let mut i: usize = 0;
    while i < entries.len()
        invariant
            i <= entries@.len(),
            all == probed_views(entries@),
            all.len() == entries@.len(),
            path_views(r@) == decodable_paths(all.take(i as int)),
        decreases entries@.len() - i,
    {
        proof {
            assert(all.take(i + 1).drop_last() =~= all.take(i as int));
            assert(all.take(i + 1).last() == entries@[i as int]@);
        }
        let e = &entries[i];
        if e.is_file && e.is_image {
            r.push(e.path.as_str().to_owned());
            proof {
                assert(path_views(r@) =~= path_views(r@.drop_last()).push(r@.last()@));
            }
        }
        i += 1;
    }
    proof {
        assert(all.take(entries@.len() as int) =~= all);
    }
    r
}

} // verus!
