//! Recognising the splat file formats the viewer loads from a file name,
//! a path or a bare extension.
use vstd::prelude::*;
use crate::text::{ascii_lowercase, last_index_of, lemma_last_index_of_absent, str_to_chars, eq_ignore_ascii_case, find_last};

verus! {

/// The splat container formats the viewer understands.
#[derive(Debug, Clone, Copy, PartialEq, Eq, Structural)]
pub enum FileFormat {
    /// A 3DGS point cloud stored as a PLY file.
    Ply,
    /// A SOG bundle: a zip archive of quantised WebP images and a JSON header.
    Sog,
}

/// The format named by an extension: `ply` or `sog`, in any ASCII case.
pub open spec fn spec_format_of_extension(ext: Seq<char>) -> Option<FileFormat> {
    let lower = ascii_lowercase(ext);
    if lower == seq!['p', 'l', 'y'] {
        Some(FileFormat::Ply)
    } else if lower == seq!['s', 'o', 'g'] {
        Some(FileFormat::Sog)
    } else {
        None
    }
}

/// The format of a file name: the text after its last `.` read as an
/// extension; a name without any `.` has no format.
pub open spec fn spec_format_of_file_name(name: Seq<char>) -> Option<FileFormat> {
    match last_index_of(name, '.') {
        Some(i) => spec_format_of_extension(name.subrange(i + 1, name.len() as int)),
        None => None,
    }
}

/// What `Path::extension` followed by `OsStr::to_str` gives for a path:
/// `None` when its file name has no extension (no `.` after the first
/// character) or the extension is not valid UTF-8, else the text after the
/// last `.` of the file name.
pub uninterp spec fn path_extension_text(path: &std::path::PathBuf) -> Option<Seq<char>>;

#[verifier::external_type_specification]
#[verifier::external_body]
pub struct ExPathBuf(std::path::PathBuf);

/// Calls `Path::extension` (through `PathBuf`'s deref) and turns the result
/// into UTF-8 text with `OsStr::to_str`. The contract only names the
/// outcome (`path_extension_text`), which std computes from the path alone;
/// std's rules for what counts as an extension are not restated.
#[verifier::external_body]
fn path_extension_str(path: &std::path::PathBuf) -> (r: Option<&str>)
    ensures
        match r {
            Some(e) => path_extension_text(path) == Some(e@),
            None => path_extension_text(path) is None,
        },
{
    match path.extension() {
        Some(ext) => ext.to_str(),
        None => None,
    }
}

fn format_of_chars(ext: &[char]) -> (r: Option<FileFormat>)
    ensures
        r == spec_format_of_extension(ext@),
{
    let ply: [char; 3] = ['p', 'l', 'y'];
    let sog: [char; 3] = ['s', 'o', 'g'];
    proof {
        assert(ply@ =~= seq!['p', 'l', 'y']);
        assert(sog@ =~= seq!['s', 'o', 'g']);
    }
    if eq_ignore_ascii_case(ext, &ply) {
        Some(FileFormat::Ply)
    } else if eq_ignore_ascii_case(ext, &sog) {
        Some(FileFormat::Sog)
    } else {
        None
    }
}

impl FileFormat {
    /// The format of the file a path names, judged by its extension.
    pub fn from_path(path: &std::path::PathBuf) -> (r: Option<FileFormat>)
        ensures
            r == match path_extension_text(path) {
                Some(ext) => spec_format_of_extension(ext),
                None => None,
            },
    {
        match path_extension_str(path) {
            Some(ext) => Self::from_extension(ext),
            None => None,
        }
    }

    /// The format of a bare file name, judged by the text after its last `.`.
    pub fn from_file_name(file_name: &str) -> (r: Option<FileFormat>)
        ensures
            r == spec_format_of_file_name(file_name@),
    {
        let chars = str_to_chars(file_name);
        match find_last(chars.as_slice(), '.') {
            Some(i) => {
                let mut ext: Vec<char> = Vec::new();
                let mut j: usize = i + 1;
                while j < chars.len()
                    invariant
                        i < chars.len(),
                        i + 1 <= j <= chars.len(),
                        ext@ == chars@.subrange(i + 1, j as int),
                    decreases chars.len() - j,
                {
                    ext.push(chars[j]);
                    j = j + 1;
                }
                format_of_chars(ext.as_slice())
            },
            None => None,
        }
    }

    /// The format an extension names: `ply` or `sog`, in any ASCII case.
    pub fn from_extension(ext: &str) -> (r: Option<FileFormat>)
        ensures
            r == spec_format_of_extension(ext@),
    {
        let chars = str_to_chars(ext);
        format_of_chars(chars.as_slice())
    }
}

/// Two extensions that agree once ASCII letters are lower-cased name the same format.
pub proof fn lemma_extension_case_insensitive(a: Seq<char>, b: Seq<char>)
    requires
        ascii_lowercase(a) == ascii_lowercase(b),
    ensures
        spec_format_of_extension(a) == spec_format_of_extension(b),
{
}

proof fn lemma_last_index_of_suffix(stem: Seq<char>, ext: Seq<char>)
    requires
        !ext.contains('.'),
    ensures
        last_index_of(stem + seq!['.'] + ext, '.') == Some(stem.len() as int),
    decreases ext.len(),
{
    let s = stem + seq!['.'] + ext;
    if ext.len() == 0 {
        assert(s.last() == '.');
    } else {
        assert(ext.last() == ext[ext.len() - 1]);
        assert(s.last() != '.');
        assert(!ext.drop_last().contains('.')) by {
            if ext.drop_last().contains('.') {
                let k = choose|k: int| 0 <= k < ext.drop_last().len() && ext.drop_last()[k] == '.';
                assert(ext[k] == '.');
            }
        }
        lemma_last_index_of_suffix(stem, ext.drop_last());
        assert(s.drop_last() =~= stem + seq!['.'] + ext.drop_last());
    }
}

/// A file named `stem.ext`, where `ext` holds no `.`, has the format its
/// extension names, whatever the stem (which may itself hold dots).
pub proof fn lemma_file_name_uses_last_extension(stem: Seq<char>, ext: Seq<char>)
    requires
        !ext.contains('.'),
    ensures
        spec_format_of_file_name(stem + seq!['.'] + ext) == spec_format_of_extension(ext),
{
    lemma_last_index_of_suffix(stem, ext);
    let s = stem + seq!['.'] + ext;
    assert(s.subrange(stem.len() as int + 1, s.len() as int) =~= ext);
}

/// A file name without any `.` is never recognised.
pub proof fn lemma_file_name_without_dot(name: Seq<char>)
    requires
        !name.contains('.'),
    ensures
        spec_format_of_file_name(name) is None,
{
    lemma_last_index_of_absent(name, '.');
}

/// Only `ply` and `sog`, in any ASCII case, name a format: `ply` names PLY,
/// `sog` names SOG, and every other extension names none. A file name has a
/// format only when the text after its last `.` is one of them.
pub proof fn lemma_only_ply_and_sog(ext: Seq<char>, name: Seq<char>)
    ensures
        spec_format_of_extension(ext) == Some(FileFormat::Ply) <==> ascii_lowercase(ext) =~= seq!['p', 'l', 'y'],
        spec_format_of_extension(ext) == Some(FileFormat::Sog) <==> ascii_lowercase(ext) =~= seq!['s', 'o', 'g'],
        spec_format_of_extension(ext) is None <==> !(ascii_lowercase(ext) =~= seq!['p', 'l', 'y'])
            && !(ascii_lowercase(ext) =~= seq!['s', 'o', 'g']),
        spec_format_of_file_name(name) is Some ==> (last_index_of(name, '.') matches Some(i)
            && spec_format_of_file_name(name) == spec_format_of_extension(name.subrange(i + 1, name.len() as int))),
{
}

} // verus!
