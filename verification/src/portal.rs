//! What the file picker hands back, turned into paths; and the filters a
//! picker can be given.

use vstd::prelude::*;
use crate::text::{text_of, views_of};

verus! {

/// What percent-decoding and reading the result as UTF-8 gives for `input`:
/// the decoded text, or nothing where the decoded bytes are not UTF-8.
pub uninterp spec fn percent_decoded(input: Seq<char>) -> Option<Seq<char>>;

/// Calls `percent_encoding::percent_decode` on the bytes of `input` and
/// `PercentDecode::decode_utf8` on what it returns. The result is the
/// decoded text, or nothing where `decode_utf8` reports an error; nothing
/// more is claimed of it than that it depends on `input` alone.
#[verifier::external_body]
fn percent_decode_utf8(input: &str) -> (r: Option<String>)
    ensures
        text_of(r) == percent_decoded(input@),
{
    match percent_encoding::percent_decode(input.as_bytes()).decode_utf8() {
        Ok(text) => Some(text.into_owned()),
        Err(_) => None,
    }
}

/// The path for a decoded URI path: the text, or the empty path where
/// decoding failed.
pub open spec fn path_or_empty(decoded: Option<Seq<char>>) -> Seq<char> {
    match decoded {
        Some(text) => text,
        None => Seq::empty(),
    }
}

/// The path for what decoding gave.
pub fn path_of(decoded: Option<String>) -> (r: String)
    ensures
        r@ == path_or_empty(text_of(decoded)),
{
    match decoded {
        Some(text) => text,
        None => String::new(),
    }
}

/// The path that the percent-encoded path of a URI stands for.
pub fn decode_path(uri_path: &str) -> (r: String)
    ensures
        r@ == path_or_empty(percent_decoded(uri_path@)),
{
    path_of(percent_decode_utf8(uri_path))
}

/// The paths that are not empty.
pub open spec fn nonempty_paths(paths: Seq<Seq<char>>) -> Seq<Seq<char>> {
    paths.filter(|p: Seq<char>| p.len() > 0)
}

/// Drops the empty paths and keeps the others in order.
pub fn keep_nonempty(paths: Vec<String>) -> (r: Vec<String>)
    ensures
        views_of(r@) == nonempty_paths(views_of(paths@)),
{
    let ghost all = views_of(paths@);
    let mut out: Vec<String> = Vec::new();
    let n = paths.len();
    let mut i: usize = 0;
    proof {
        reveal(Seq::filter);
        assert(all.take(0) =~= Seq::<Seq<char>>::empty());
        assert(views_of(out@) =~= Seq::<Seq<char>>::empty());
    }
    while i < n
        invariant
            i <= n,
            n == paths.len(),
            all == views_of(paths@),
            views_of(out@) == nonempty_paths(all.take(i as int)),
        decreases n - i,
    {
        let ghost before = views_of(out@);
        proof {
            reveal(Seq::filter);
            assert(all.take(i + 1).drop_last() =~= all.take(i as int));
            assert(all.take(i + 1).last() == paths@[i as int]@);
        }
        if paths[i].as_str().unicode_len() > 0 {
            out.push(paths[i].clone());
            proof {
                assert(views_of(out@) =~= before.push(paths@[i as int]@));
            }
        }
        i += 1;
    }
    proof {
        assert(all.take(n as int) =~= all);
    }
    out
}

/// The decoded paths of the URI paths, in order.
pub open spec fn decoded_paths(uri_paths: Seq<Seq<char>>) -> Seq<Seq<char>> {
    uri_paths.map_values(|u: Seq<char>| path_or_empty(percent_decoded(u)))
}

/// The files that the user picked: the paths of the URIs that the picker
/// returned, decoded, without those that decode to nothing.
pub fn pick_files(uri_paths: &Vec<String>) -> (r: Vec<String>)
    ensures
        views_of(r@) == nonempty_paths(decoded_paths(views_of(uri_paths@))),
{
    let mut decoded: Vec<String> = Vec::new();
    let n = uri_paths.len();
    let mut i: usize = 0;
    while i < n
        invariant
            i <= n,
            n == uri_paths.len(),
            decoded.len() == i,
            forall|k: int|
                0 <= k < i ==> (#[trigger] decoded@[k])@ == path_or_empty(
                    percent_decoded(uri_paths@[k]@),
                ),
        decreases n - i,
    {
        decoded.push(decode_path(uri_paths[i].as_str()));
        i += 1;
    }
    proof {
        assert(views_of(decoded@) =~= decoded_paths(views_of(uri_paths@)));
    }
    keep_nonempty(decoded)
}

/// The folder that the user picked: the decoded path of the first URI that
/// the picker returned, unless it decodes to nothing.
pub fn pick_folder(uri_paths: &Vec<String>) -> (r: Option<String>)
    ensures
        text_of(r) == if uri_paths.len() > 0 && path_or_empty(percent_decoded(uri_paths@[0]@)).len()
            > 0 {
            Some(path_or_empty(percent_decoded(uri_paths@[0]@)))
        } else {
            None
        },
{
    if uri_paths.len() == 0 {
        return None;
    }
    let path = decode_path(uri_paths[0].as_str());
    if path.as_str().unicode_len() > 0 {
        Some(path)
    } else {
        None
    }
}

/// File filter for the file picker.
pub struct FileFilter {
    pub name: String,
    pub patterns: Vec<String>,
}

/// What a `FileFilter` holds, as mathematical values.
pub ghost struct FileFilterView {
    pub name: Seq<char>,
    pub patterns: Seq<Seq<char>>,
}

impl View for FileFilter {
    type V = FileFilterView;

    open spec fn view(&self) -> FileFilterView {
        FileFilterView { name: self.name@, patterns: views_of(self.patterns@) }
    }
}

impl FileFilter {
    /// A filter of the given name without patterns.
    pub fn new(name: &str) -> (r: Self)
        ensures
            r@ == (FileFilterView { name: name@, patterns: Seq::empty() }),
    {
        let r = FileFilter { name: String::from_str(name), patterns: Vec::new() };
        proof {
            assert(views_of(r.patterns@) =~= Seq::<Seq<char>>::empty());
        }
        r
    }

    /// The filter with one more pattern.
    pub fn pattern(self, pattern: &str) -> (r: Self)
        ensures
            r@ == (FileFilterView { name: self@.name, patterns: self@.patterns.push(pattern@) }),
    {
        let mut patterns = self.patterns;
        let ghost before = views_of(patterns@);
        patterns.push(String::from_str(pattern));
        proof {
            assert(views_of(patterns@) =~= before.push(pattern@));
        }
        FileFilter { name: self.name, patterns }
    }

    /// The filter with the given patterns in place of its own.
    pub fn patterns(self, patterns: Vec<String>) -> (r: Self)
        ensures
            r@ == (FileFilterView { name: self@.name, patterns: views_of(patterns@) }),
    {
        FileFilter { name: self.name, patterns }
    }
}

} // verus!
