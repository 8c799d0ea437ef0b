//! Font files: which names are served, as what, and from where.

use vstd::prelude::*;
use crate::text::{chars_of, contains_run, ends_with, find_run, has_suffix, lemma_run_of_one};

verus! {

/// The font formats that are served.
#[derive(Clone, Copy, Debug, PartialEq, Eq, Structural)]
pub enum FontKind {
    Woff2,
    Woff,
    Ttf,
}

/// Why a font request is refused.
#[derive(Clone, Copy, Debug, PartialEq, Eq, Structural)]
pub enum FontError {
    /// The name could leave the font directory, or is no font file's name.
    BadName,
    /// No file of that name can be resolved.
    NotFound,
    /// The file resolves to a place outside the font directory.
    Forbidden,
    /// The font directory cannot be resolved, or the file cannot be read.
    Io,
}

/// A name that could lead out of the directory it is joined to: it holds two
/// dots in a row, a slash or a backslash.
pub open spec fn has_traversal(name: Seq<char>) -> bool {
    ||| contains_run(name, ".."@)
    ||| contains_run(name, "/"@)
    ||| contains_run(name, "\\"@)
}

/// The font format that a name's ending announces.
pub open spec fn kind_by_ending(name: Seq<char>) -> Option<FontKind> {
    if ends_with(name, ".woff2"@) {
        Some(FontKind::Woff2)
    } else if ends_with(name, ".woff"@) {
        Some(FontKind::Woff)
    } else if ends_with(name, ".ttf"@) {
        Some(FontKind::Ttf)
    } else {
        None
    }
}

/// The verdict on a requested name: its format, or the refusal.
pub open spec fn name_verdict(name: Seq<char>) -> Result<FontKind, FontError> {
    if has_traversal(name) {
        Err(FontError::BadName)
    } else {
        match kind_by_ending(name) {
            Some(kind) => Ok(kind),
            None => Err(FontError::BadName),
        }
    }
}

/// A name that is accepted is a plain file name: it holds no slash, no
/// backslash and no two dots in a row, and it is longer than its ending.
/// Joined to a directory it names an entry of that very directory.
pub proof fn law_accepted_name_is_plain(name: Seq<char>)
    requires
        name_verdict(name) is Ok,
    ensures
        !name.contains('/'),
        !name.contains('\\'),
        !contains_run(name, seq!['.', '.']),
        name.len() >= 4,
{
    reveal_strlit("..");
    reveal_strlit("/");
    reveal_strlit("\\");
    reveal_strlit(".woff2");
    reveal_strlit(".woff");
    reveal_strlit(".ttf");
    assert(".."@ =~= seq!['.', '.']);
    assert("/"@ =~= seq!['/']);
    assert("\\"@ =~= seq!['\\']);
    lemma_run_of_one(name, '/');
    lemma_run_of_one(name, '\\');
}

impl FontKind {
    /// The media type of the format.
    pub open spec fn media_type(self) -> Seq<char> {
        match self {
            FontKind::Woff2 => "font/woff2"@,
            FontKind::Woff => "font/woff"@,
            FontKind::Ttf => "font/ttf"@,
        }
    }

    /// The value of the `Content-Type` header for a font of this format.
    pub fn content_type(&self) -> (text: &'static str)
        ensures
            text@ == self.media_type(),
    {
        match self {
            FontKind::Woff2 => "font/woff2",
            FontKind::Woff => "font/woff",
            FontKind::Ttf => "font/ttf",
        }
    }
}

impl FontError {
    /// The HTTP status that answers a request refused for this reason.
    pub open spec fn status_code(self) -> u16 {
        match self {
            FontError::BadName => 400,
            FontError::NotFound => 404,
            FontError::Forbidden => 403,
            FontError::Io => 500,
        }
    }

    /// The HTTP status that answers a request refused for this reason.
    pub fn status(&self) -> (code: u16)
        ensures
            code == self.status_code(),
    {
        match self {
            FontError::BadName => 400,
            FontError::NotFound => 404,
            FontError::Forbidden => 403,
            FontError::Io => 500,
        }
    }
}

/// The directory that holds the font files, relative to where the service runs.
pub fn font_dir() -> (dir: &'static str)
    ensures
        dir@ == "src/font"@,
{
    "src/font"
}

/// The value of the `Cache-Control` header of every font that is served: a
/// year in a public cache.
pub fn cache_control() -> (text: &'static str)
    ensures
        text@ == "public, max-age=31536000"@,
{
    "public, max-age=31536000"
}

/// Whether the name holds two dots in a row, a slash or a backslash.
pub fn name_has_traversal(name: &Vec<char>) -> (found: bool)
    ensures
        found == has_traversal(name@),
{
    let dots = chars_of("..");
    let slash = chars_of("/");
    let backslash = chars_of("\\");
    find_run(name, &dots) || find_run(name, &slash) || find_run(name, &backslash)
}

/// The font format that the name's ending announces, if it is one that is served.
pub fn kind_of_name(name: &Vec<char>) -> (kind: Option<FontKind>)
    ensures
        kind == kind_by_ending(name@),
{
    let woff2 = chars_of(".woff2");
    let woff = chars_of(".woff");
    let ttf = chars_of(".ttf");
    if has_suffix(name, &woff2) {
        Some(FontKind::Woff2)
    } else if has_suffix(name, &woff) {
        Some(FontKind::Woff)
    } else if has_suffix(name, &ttf) {
        Some(FontKind::Ttf)
    } else {
        None
    }
}

/// Judges a requested file name before anything on disk is touched.
///
/// The name is refused as `BadName` if it holds two dots in a row, a slash
/// or a backslash, or if it ends in none of `.woff2`, `.woff`, `.ttf`;
/// otherwise its format is returned.
pub fn validate_name(name: &str) -> (verdict: Result<FontKind, FontError>)
    ensures
        verdict == name_verdict(name@),
{
    let chars = chars_of(name);
    if name_has_traversal(&chars) {
        return Err(FontError::BadName);
    }
    match kind_of_name(&chars) {
        Some(kind) => Ok(kind),
        None => Err(FontError::BadName),
    }
}

/// A canonical path, as the sequence of its components from the root down,
/// each component given by its bytes.
#[derive(Clone, Debug, PartialEq, Eq)]
pub struct ResolvedPath {
    pub components: Vec<Vec<u8>>,
}

impl View for ResolvedPath {
    type V = Seq<Seq<u8>>;

    open spec fn view(&self) -> Seq<Seq<u8>> {
        Seq::new(self.components@.len(), |i: int| self.components@[i]@)
    }
}

/// Whether two byte strings are the same.
fn same_bytes(a: &Vec<u8>, b: &Vec<u8>) -> (same: bool)
    ensures
        same == (a@ == b@),
{
    if a.len() != b.len() {
        return false;
    }
    let mut k: usize = 0;
    while k < a.len()
        invariant
            k <= a.len(),
            a.len() == b.len(),
            forall|j: int| 0 <= j < k ==> a@[j] == b@[j],
        decreases a.len() - k,
    {
        if a[k] != b[k] {
            return false;
        }
        k += 1;
    }
    assert(a@ =~= b@);
    true
}

impl ResolvedPath {
    /// Whether this path lies at or below `base`: the components of `base`
    /// are the first components of this path, whole component by whole
    /// component.
    pub fn starts_with(&self, base: &ResolvedPath) -> (within: bool)
        ensures
            within == base@.is_prefix_of(self@),
    {
        if base.components.len() > self.components.len() {
            return false;
        }
        let mut k: usize = 0;
        while k < base.components.len()
            invariant
                k <= base.components.len(),
                base.components.len() <= self.components.len(),
                forall|j: int| 0 <= j < k ==> self@[j] == base@[j],
            decreases base.components.len() - k,
        {
            if !same_bytes(&self.components[k], &base.components[k]) {
                assert(self@.subrange(0, base@.len() as int)[k as int] == self@[k as int]);
                return false;
            }
            k += 1;
        }
        true
    }
}

} // verus!
