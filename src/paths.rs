//! Which files are eligible for processing.
use vstd::prelude::*;
use crate::text::{opt_view, same_text};

verus! {

/// The extensions, in lower case, of the formats the metadata tool can rewrite.
pub open spec fn supported_extensions() -> Seq<Seq<char>> {
    seq![
        "3g2"@, "3gp2"@, "3gp"@, "3gpp"@, "aax"@, "ai"@, "ait"@, "arq"@, "arw"@, "avif"@,
        "cr2"@, "cr3"@, "crm"@, "crw"@, "ciff"@, "cs1"@, "dcp"@, "dng"@, "dr4"@, "dvb"@,
        "eps"@, "epsf"@, "ps"@, "erf"@, "exv"@, "f4a"@, "f4b"@, "f4p"@, "f4v"@, "fff"@,
        "flif"@, "gif"@, "gpr"@, "hdp"@, "wdp"@, "jxr"@, "heic"@, "heif"@, "iiq"@, "ind"@,
        "indd"@, "indt"@, "insp"@, "jp2"@, "jpf"@, "jpm"@, "jpx"@, "jpeg"@, "jpg"@, "jpe"@,
        "lrv"@, "m4a"@, "m4b"@, "m4p"@, "m4v"@, "mef"@, "mie"@, "mos"@, "mov"@, "qt"@,
        "mp4"@, "mpo"@, "mqv"@, "nef"@, "nrw"@, "orf"@, "pdf"@, "pef"@, "png"@, "jng"@,
        "mng"@, "ppm"@, "pbm"@, "pgm"@, "psd"@, "psb"@, "psdt"@, "qtif"@, "qti"@, "qif"@,
        "raf"@, "raw"@, "rw2"@, "rwl"@, "sr2"@, "srw"@, "thm"@, "tiff"@, "tif"@, "x3f"@,
        "webp"@
    ]
}

fn extension_table() -> (r: Vec<&'static str>)
    ensures
        r@.len() == supported_extensions().len(),
        forall|i: int| 0 <= i < r@.len() ==> #[trigger] r@[i]@ == supported_extensions()[i],
{
    let r = vec![
        "3g2", "3gp2", "3gp", "3gpp", "aax", "ai", "ait", "arq", "arw", "avif",
        "cr2", "cr3", "crm", "crw", "ciff", "cs1", "dcp", "dng", "dr4", "dvb",
        "eps", "epsf", "ps", "erf", "exv", "f4a", "f4b", "f4p", "f4v", "fff",
        "flif", "gif", "gpr", "hdp", "wdp", "jxr", "heic", "heif", "iiq", "ind",
        "indd", "indt", "insp", "jp2", "jpf", "jpm", "jpx", "jpeg", "jpg", "jpe",
        "lrv", "m4a", "m4b", "m4p", "m4v", "mef", "mie", "mos", "mov", "qt",
        "mp4", "mpo", "mqv", "nef", "nrw", "orf", "pdf", "pef", "png", "jng",
        "mng", "ppm", "pbm", "pgm", "psd", "psb", "psdt", "qtif", "qti", "qif",
        "raf", "raw", "rw2", "rwl", "sr2", "srw", "thm", "tiff", "tif", "x3f",
        "webp",
    ];
    r
}

/// Whether an already lower-cased extension is on the allow-list.
pub fn is_supported_extension(ext: &str) -> (r: bool)
    ensures
        r == supported_extensions().contains(ext@),
{
    let table = extension_table();
    let mut i: usize = 0;
    while i < table.len()
        invariant
            table@.len() == supported_extensions().len(),
            forall|k: int| 0 <= k < table@.len() ==> #[trigger] table@[k]@ == supported_extensions()[k],
            i <= table.len(),
            forall|k: int| 0 <= k < i ==> supported_extensions()[k] != ext@,
        decreases table.len() - i,
    {
        if same_text(ext, table[i]) {
            assert(supported_extensions()[i as int] == ext@);
            return true;
        }
        i = i + 1;
    }
    false
}

/// What `Path::extension` yields for a path, as text.
pub uninterp spec fn extension_of(p: Seq<char>) -> Option<Seq<char>>;

/// What `Path::file_stem` yields for a path, as text.
pub uninterp spec fn stem_of(p: Seq<char>) -> Option<Seq<char>>;

/// What `Path::parent` yields for a path, as text.
pub uninterp spec fn parent_of(p: Seq<char>) -> Option<Seq<char>>;

/// What `Path::join` yields for a base directory and a name, as text.
pub uninterp spec fn joined_of(base: Seq<char>, name: Seq<char>) -> Option<Seq<char>>;

/// What `Path::file_name` yields for a path, as text (empty where there is none).
pub uninterp spec fn file_name_of(p: Seq<char>) -> Seq<char>;

/// What `str::to_lowercase` yields.
pub uninterp spec fn lower_of(s: Seq<char>) -> Seq<char>;

/// Relies on `std::path::Path::extension`: the text after the last dot of the
/// final component, a function of the path text alone.
#[verifier::external_body]
pub(crate) fn path_extension(p: &str) -> (r: Option<String>)
    ensures
        opt_view(r) == extension_of(p@),
{
    std::path::Path::new(p).extension().and_then(|e| e.to_str()).map(|e| e.to_string())
}

/// Relies on `std::path::Path::file_stem`: the final component without its
/// extension, a function of the path text alone.
#[verifier::external_body]
fn path_file_stem(p: &str) -> (r: Option<String>)
    ensures
        opt_view(r) == stem_of(p@),
{
    std::path::Path::new(p).file_stem().and_then(|e| e.to_str()).map(|e| e.to_string())
}

/// Relies on `std::path::Path::parent`: the path without its final component,
/// a function of the path text alone.
#[verifier::external_body]
fn path_parent(p: &str) -> (r: Option<String>)
    ensures
        opt_view(r) == parent_of(p@),
{
    std::path::Path::new(p).parent().and_then(|e| e.to_str()).map(|e| e.to_string())
}

/// Relies on `std::path::Path::join`: a name appended to a base directory, a
/// function of the two texts alone.
#[verifier::external_body]
pub(crate) fn path_join(base: &str, name: &str) -> (r: Option<String>)
    ensures
        opt_view(r) == joined_of(base@, name@),
{
    std::path::Path::new(base).join(name).to_str().map(|e| e.to_string())
}

/// Relies on `std::path::Path::file_name`: the final component, read lossily,
/// empty where the path has none; a function of the path text alone.
#[verifier::external_body]
pub(crate) fn path_file_name(p: &str) -> (r: String)
    ensures
        r@ == file_name_of(p@),
{
    std::path::Path::new(p).file_name().unwrap_or_default().to_string_lossy().to_string()
}

/// Relies on `str::to_lowercase`: the result depends on the characters alone.
#[verifier::external_body]
pub(crate) fn lowercase(s: &str) -> (r: String)
    ensures
        r@ == lower_of(s@),
{
    s.to_lowercase()
}

/// A path is eligible when its extension, case-folded, is on the allow-list.
pub open spec fn supported_path(p: Seq<char>) -> bool {
    match extension_of(p) {
        Some(e) => supported_extensions().contains(lower_of(e)),
        None => false,
    }
}

/// Whether a file at `path` is one the metadata tool is asked to handle.
pub fn is_supported_file(path: &str) -> (r: bool)
    ensures
        r == supported_path(path@),
{
    match path_extension(path) {
        Some(ext) => {
            let lower = lowercase(ext.as_str());
            is_supported_extension(lower.as_str())
        },
        None => false,
    }
}

/// The name of the cleaned copy of a file: `<stem>_cleaned.<ext>`, or
/// `<stem>_cleaned` when the extension is empty.
pub open spec fn cleaned_name(stem: Seq<char>, ext: Seq<char>) -> Seq<char> {
    if ext.len() == 0 {
        stem + "_cleaned"@
    } else {
        stem + "_cleaned."@ + ext
    }
}

/// Builds the name of the cleaned copy from a stem and an extension.
pub fn cleaned_file_name(stem: &str, ext: &str) -> (r: String)
    ensures
        r@ == cleaned_name(stem@, ext@),
{
    let mut name = String::from_str(stem);
    if ext.unicode_len() == 0 {
        name.append("_cleaned");
    } else {
        name.append("_cleaned.");
        name.append(ext);
    }
    proof { reveal_strlit("_cleaned"); reveal_strlit("_cleaned."); }
    name
}

/// Why no output path could be derived for a file.
#[derive(Debug, Clone, Copy, PartialEq, Eq, Structural)]
pub enum PathProblem {
    /// The path has no final component with a stem.
    NoFileName,
    /// The path has no parent directory.
    NoParent,
    /// The joined path is not valid text.
    NotText,
}

/// Where the cleaned copy of `p` is written: beside `p`, under the cleaned name.
pub open spec fn cleaned_path(p: Seq<char>) -> Result<Seq<char>, PathProblem> {
    match stem_of(p) {
        None => Err(PathProblem::NoFileName),
        Some(stem) => match parent_of(p) {
            None => Err(PathProblem::NoParent),
            Some(parent) => {
                let ext = match extension_of(p) {
                    Some(e) => e,
                    None => Seq::empty(),
                };
                match joined_of(parent, cleaned_name(stem, ext)) {
                    Some(out) => Ok(out),
                    None => Err(PathProblem::NotText),
                }
            },
        },
    }
}

/// The output path of a clean: the file itself in backup mode (the tool
/// rewrites in place and keeps its own backup), else the cleaned copy.
pub open spec fn output_path_spec(p: Seq<char>, backup: bool) -> Result<Seq<char>, PathProblem> {
    if backup {
        Ok(p)
    } else {
        cleaned_path(p)
    }
}

/// Derives where a clean of `file_path` writes its result.
pub fn output_path_for(file_path: &str, backup: bool) -> (r: Result<String, PathProblem>)
    ensures
        match (r, output_path_spec(file_path@, backup)) {
            (Ok(s), Ok(t)) => s@ == t,
            (Err(a), Err(b)) => a == b,
            _ => false,
        },
{
    if backup {
        return Ok(String::from_str(file_path));
    }
    let stem = match path_file_stem(file_path) {
        Some(s) => s,
        None => return Err(PathProblem::NoFileName),
    };
    let parent = match path_parent(file_path) {
        Some(s) => s,
        None => return Err(PathProblem::NoParent),
    };
    let ext = match path_extension(file_path) {
        Some(e) => e,
        None => String::new(),
    };
    let name = cleaned_file_name(stem.as_str(), ext.as_str());
    match path_join(parent.as_str(), name.as_str()) {
        Some(out) => Ok(out),
        None => Err(PathProblem::NotText),
    }
}

} // verus!
