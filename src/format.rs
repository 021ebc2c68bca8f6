use vstd::prelude::*;

verus! {

/// The image formats this library recompresses.
#[derive(Clone, Copy, Debug, PartialEq, Eq, Structural)]
pub enum ImageKind {
    Jpeg,
    Png,
    Bmp,
}

/// How a file of a given format is recompressed.
#[derive(Clone, Copy, Debug, PartialEq, Eq, Structural)]
pub enum Strategy {
    /// Decode and re-encode in the file's own format (JPEG, BMP).
    StructuralReencode,
    /// Decode, re-encode as PNG, then run the lossless PNG optimizer.
    SpecializedRecompress,
}

/// Why one file could not be compressed.
#[derive(Clone, Copy, Debug, PartialEq, Eq, Structural)]
pub enum CompressError {
    /// The path has no extension, or one this library does not handle
    /// (GIF is deliberately not handled).
    UnsupportedFormat,
    /// The input could not be read or decoded as an image of its format.
    UnreadableInput,
    /// Re-encoding the decoded image failed.
    EncodeFailure,
    /// The PNG optimizer rejected the re-encoded data.
    OptimizeFailure,
    /// The output file could not be created or written.
    WriteFailure,
    /// The input file's size could not be read.
    MetadataReadFailure,
}

/// `i` is the position of the dot that starts the extension of the last path
/// component of `s`: no `.` or `/` follows it, and it is not the first
/// character of that component (a leading dot marks a hidden file, not an
/// extension).
pub open spec fn is_extension_dot(s: Seq<char>, i: int) -> bool {
    &&& 0 < i < s.len()
    &&& s[i] == '.'
    &&& s[i - 1] != '/'
    &&& forall|j: int| i < j < s.len() ==> s[j] != '.' && s[j] != '/'
}

pub open spec fn has_extension(s: Seq<char>) -> bool {
    exists|i: int| is_extension_dot(s, i)
}

/// The extension of path `s`, without its dot.
pub open spec fn extension_spec(s: Seq<char>) -> Seq<char>
    recommends
        has_extension(s),
{
    let i = choose|i: int| is_extension_dot(s, i);
    s.subrange(i + 1, s.len() as int)
}

pub open spec fn kind_of_extension(e: Seq<char>) -> Option<ImageKind> {
    if e == seq!['j', 'p', 'g'] || e == seq!['j', 'p', 'e', 'g'] {
        Some(ImageKind::Jpeg)
    } else if e == seq!['p', 'n', 'g'] {
        Some(ImageKind::Png)
    } else if e == seq!['b', 'm', 'p'] {
        Some(ImageKind::Bmp)
    } else {
        None
    }
}

/// The format of the file at path `s`, decided by its extension alone
/// (case-sensitive).
pub open spec fn kind_of_path(s: Seq<char>) -> Option<ImageKind> {
    if has_extension(s) {
        kind_of_extension(extension_spec(s))
    } else {
        None
    }
}

pub open spec fn strategy_spec(k: ImageKind) -> Strategy {
    match k {
        ImageKind::Png => Strategy::SpecializedRecompress,
        _ => Strategy::StructuralReencode,
    }
}

pub open spec fn classify_spec(s: Seq<char>) -> Result<Strategy, CompressError> {
    match kind_of_path(s) {
        Some(k) => Ok(strategy_spec(k)),
        None => Err(CompressError::UnsupportedFormat),
    }
}

/// The tag inserted before the extension of an output path.
pub open spec fn tag_spec() -> Seq<char> {
    seq!['.', 'c', 'o', 'm', 'p', 'r', 'e', 's', 's', 'e', 'd']
}

/// `name.ext` becomes `name.compressed.ext` in the same directory.
pub open spec fn output_path_spec(s: Seq<char>) -> Option<Seq<char>> {
    if has_extension(s) {
        let i = choose|i: int| is_extension_dot(s, i);
        Some(s.subrange(0, i) + tag_spec() + s.subrange(i, s.len() as int))
    } else {
        None
    }
}

/// At most one position starts the extension.
pub proof fn lemma_extension_dot_unique(s: Seq<char>, i: int, k: int)
    requires
        is_extension_dot(s, i),
        is_extension_dot(s, k),
    ensures
        i == k,
{
    if i < k {
        assert(s[k] != '.');
    } else if k < i {
        assert(s[i] != '.');
    }
}

/// Finds the dot that starts the extension of `path`, if there is one.
pub fn extension_dot(path: &str) -> (r: Option<usize>)
    ensures
        match r {
            Some(i) => is_extension_dot(path@, i as int),
            None => !has_extension(path@),
        },
{
    let n = path.unicode_len();
    let mut i: usize = n;
    while i > 0
        invariant
            i <= n,
            n == path@.len(),
            forall|j: int| i <= j < n ==> path@[j] != '.' && path@[j] != '/',
        decreases i,
    {
        let c = path.get_char(i - 1);
        if c == '/' {
            assert forall|k: int| !is_extension_dot(path@, k) by {
                if is_extension_dot(path@, k) {
                    if k < i - 1 {
                        assert(path@[i - 1] != '/');
                    }
                }
            }
            return None;
        }
        if c == '.' {
            let d = i - 1;
            if d > 0 && path.get_char(d - 1) != '/' {
                return Some(d);
            }
            assert forall|k: int| !is_extension_dot(path@, k) by {
                if is_extension_dot(path@, k) && k != d {
                    if k < d {
                        assert(path@[d as int] != '.');
                    }
                }
            }
            return None;
        }
        i = i - 1;
    }
    None
}

/// The format of the file at `path`, from its extension.
pub fn image_kind(path: &str) -> (r: Option<ImageKind>)
    ensures
        r == kind_of_path(path@),
{
    match extension_dot(path) {
        None => None,
        Some(d) => {
            proof {
                assert forall|k: int| is_extension_dot(path@, k) implies k == d by {
                    lemma_extension_dot_unique(path@, k, d as int);
                }
            }
            let n = path.unicode_len();
            let e = path.substring_char(d + 1, n);
            assert(e@ == extension_spec(path@));
            let m = e.unicode_len();
            if m == 3 {
                let a = e.get_char(0);
                let b = e.get_char(1);
                let c = e.get_char(2);
                if a == 'j' && b == 'p' && c == 'g' {
                    assert(e@ =~= seq!['j', 'p', 'g']);
                    Some(ImageKind::Jpeg)
                } else if a == 'p' && b == 'n' && c == 'g' {
                    assert(e@ =~= seq!['p', 'n', 'g']);
                    Some(ImageKind::Png)
                } else if a == 'b' && b == 'm' && c == 'p' {
                    assert(e@ =~= seq!['b', 'm', 'p']);
                    Some(ImageKind::Bmp)
                } else {
                    assert(e@ != seq!['j', 'p', 'g'] && e@ != seq!['p', 'n', 'g'] && e@ != seq![
                        'b',
                        'm',
                        'p',
                    ]) by {
                        if e@ == seq!['j', 'p', 'g'] {
                            assert(e@[0] == 'j');
                        }
                        if e@ == seq!['p', 'n', 'g'] {
                            assert(e@[0] == 'p');
                        }
                        if e@ == seq!['b', 'm', 'p'] {
                            assert(e@[0] == 'b');
                        }
                    }
                    None
                }
            } else if m == 4 && e.get_char(0) == 'j' && e.get_char(1) == 'p' && e.get_char(2)
                == 'e' && e.get_char(3) == 'g' {
                assert(e@ =~= seq!['j', 'p', 'e', 'g']);
                Some(ImageKind::Jpeg)
            } else {
                assert(e@ != seq!['j', 'p', 'e', 'g']) by {
                    if e@ == seq!['j', 'p', 'e', 'g'] {
                        assert(e@[0] == 'j' && e@[1] == 'p' && e@[2] == 'e' && e@[3] == 'g');
                    }
                }
                None
            }
        },
    }
}

/// The recompression strategy for a format.
pub fn strategy_of(kind: ImageKind) -> (r: Strategy)
    ensures
        r == strategy_spec(kind),
{
    match kind {
        ImageKind::Png => Strategy::SpecializedRecompress,
        _ => Strategy::StructuralReencode,
    }
}

/// Chooses the strategy for the file at `path` from its extension alone; it
/// never touches the filesystem.
pub fn classify(path: &str) -> (r: Result<Strategy, CompressError>)
    ensures
        r == classify_spec(path@),
{
    match image_kind(path) {
        Some(k) => Ok(strategy_of(k)),
        None => Err(CompressError::UnsupportedFormat),
    }
}

/// The path a compressed copy of `path` is written to: `.compressed` inserted
/// before the extension. `None` where the path has no extension.
pub fn output_path(path: &str) -> (r: Option<String>)
    ensures
        match r {
            Some(o) => output_path_spec(path@) == Some(o@),
            None => output_path_spec(path@) is None,
        },
        r matches Some(o) ==> o@ != path@,
        r matches Some(o) ==> kind_of_path(o@) == kind_of_path(path@),
{
    match extension_dot(path) {
        None => None,
        Some(d) => {
            proof {
                assert forall|k: int| is_extension_dot(path@, k) implies k == d by {
                    lemma_extension_dot_unique(path@, k, d as int);
                }
            }
            let n = path.unicode_len();
            let mut o = String::from_str(path.substring_char(0, d));
            let tag = ".compressed";
            proof {
                reveal_strlit(".compressed");
            }
            assert(tag@ =~= tag_spec());
            o.append(tag);
            o.append(path.substring_char(d, n));
            assert(o@ == path@.subrange(0, d as int) + tag_spec() + path@.subrange(
                d as int,
                n as int,
            ));
            assert(o@.len() != path@.len());
            proof {
                let od = d + 11;
                assert(o@[od as int] == path@[d as int]);
                assert(o@[od - 1] == 'd');
                assert forall|j: int| od < j < o@.len() implies o@[j] != '.' && o@[j] != '/' by {
                    assert(o@[j] == path@[j - 11]);
                }
                assert(is_extension_dot(o@, od as int));
                assert forall|k: int| is_extension_dot(o@, k) implies k == od by {
                    lemma_extension_dot_unique(o@, k, od as int);
                }
                assert(extension_spec(o@) =~= extension_spec(path@));
            }
            Some(o)
        },
    }
}

} // verus!
