//! The converter's front: probing and decoding source files through the
//! outside image decoder, and scanning a directory listing down to the
//! decodable image files.
//!
//! Decoding reads the filesystem, so nothing is promised of any single
//! probe or decode; what the library does with each possible answer is
//! verified downstream (`scan::filter_decodable`, `outcome`, `batch`).

use vstd::prelude::*;
use vstd::string::*;
use crate::outcome::ErrorKind;
use crate::scan::{
    ProbedEntry, ScanEntry, decodable_paths, file_paths, filter_decodable, is_subseq,
    lemma_subseq_grow, lemma_subseq_push_both, path_views, probed_views, scan_views,
};

verus! {

/// Declares `image::DynamicImage`, the decoder's in-memory image. It is
/// opaque here: decoded images are only carried through to the encoder.
#[verifier::external_type_specification]
#[verifier::external_body]
pub struct ExDynamicImage(image::DynamicImage);

/// Declares `image::ImageError`, the decoder's error. It is opaque here:
/// any decoder error becomes the library's decode failure.
#[verifier::external_type_specification]
#[verifier::external_body]
pub struct ExImageError(image::ImageError);

/// Relies on `image::open`: reads the file at `path` and tries to decode it
/// as an image. The result depends on what is on disk, so nothing is
/// promised of it; callers state what holds of every outcome.
#[verifier::external_body]
fn open_image(path: &str) -> Result<image::DynamicImage, image::ImageError> {
    image::open(path)
}

/// The batch converter: probes, scans and decodes through the outside
/// image decoder, and computes destination paths and batch results.
pub struct WebpConverter;

impl WebpConverter {
    /// Whether the file at `path` decodes as an image: the scan's probe.
    /// The answer depends on what is on disk, so nothing is promised of it.
    pub fn is_image_file(path: &str) -> bool {
        open_image(path).is_ok()
    }

    /// Decode the source file, mapping any decoder error to the library's
    /// decode failure; the image itself is handed on for encoding.
    pub fn decode_source(path: &str) -> (r: Result<image::DynamicImage, ErrorKind>)
        ensures
            r matches Err(k) ==> k == ErrorKind::Decode,
    {
        match open_image(path) {
            Ok(img) => Ok(img),
            Err(_) => Err(ErrorKind::Decode),
        }
    }

    /// Probe each listed entry: a plain file is probed by decoding it, and
    /// anything else is no image. Paths and file flags carry over entry by
    /// entry; only the probe bits come from the filesystem.
    pub fn probe_entries(entries: &Vec<ScanEntry>) -> (r: Vec<ProbedEntry>)
        ensures
            r@.len() == entries@.len(),
            forall|i: int|
                0 <= i < entries@.len() ==> {
                    &&& r@[i]@.path == entries@[i]@.path
                    &&& r@[i]@.is_file == entries@[i]@.is_file
                    &&& !entries@[i]@.is_file ==> !r@[i]@.is_image
                },
    {
        let mut r: Vec<ProbedEntry> = Vec::new();
        let mut i: usize = 0;
        while i < entries.len()
            invariant
                i <= entries@.len(),
                r@.len() == i,
                forall|k: int|
                    0 <= k < i ==> {
                        &&& r@[k]@.path == entries@[k]@.path
                        &&& r@[k]@.is_file == entries@[k]@.is_file
                        &&& !entries@[k]@.is_file ==> !r@[k]@.is_image
                    },
            decreases entries@.len() - i,
        {
            let e = &entries[i];
            let is_image = e.is_file && Self::is_image_file(e.path.as_str());
            r.push(
                ProbedEntry {
                    path: e.path.as_str().to_owned(),
                    is_file: e.is_file,
                    is_image,
                },
            );
            i += 1;
        }
        r
    }

    /// Scan a directory listing: keep exactly those entries that are plain
    /// files and decode as images, in enumeration order. Which files decode
    /// depends on the disk, so what is promised of every outcome is that
    /// the result is a subsequence of the listed plain-file paths.
    pub fn scan(entries: &Vec<ScanEntry>) -> (r: Vec<String>)
        ensures
            is_subseq(path_views(r@), file_paths(scan_views(entries@))),
    {
        let probed = Self::probe_entries(entries);
        let r = filter_decodable(&probed);
        proof {
            lemma_scan_filter_is_subseq(probed_views(probed@), scan_views(entries@));
        }
        r
    }
}

/// The decodable paths of a probed listing are a subsequence of the
/// listing's plain-file paths, entry for entry.
proof fn lemma_scan_filter_is_subseq(p: Seq<crate::scan::ProbedEntryView>, s: Seq<crate::scan::ScanEntryView>)
    requires
        p.len() == s.len(),
        forall|i: int|
            0 <= i < s.len() ==> {
                &&& p[i].path == s[i].path
                &&& p[i].is_file == s[i].is_file
                &&& !s[i].is_file ==> !p[i].is_image
            },
    ensures
        is_subseq(decodable_paths(p), file_paths(s)),
    decreases p.len(),
{
    if p.len() > 0 {
        lemma_scan_filter_is_subseq(p.drop_last(), s.drop_last());
        if p.last().is_file && p.last().is_image {
            lemma_subseq_push_both(
                decodable_paths(p.drop_last()),
                file_paths(s.drop_last()),
                p.last().path,
            );
        } else if s.last().is_file {
            lemma_subseq_grow(
                decodable_paths(p.drop_last()),
                file_paths(s.drop_last()),
                s.last().path,
            );
        }
    }
}

} // verus!
