//! The adapter around the external metadata tool: what it is asked to do for
//! each intent, and what its answers become.
use vstd::prelude::*;
use crate::paths::{extension_of, joined_of, lower_of, output_path_for, output_path_spec, path_join, PathProblem};
use crate::text::{decimal, decimal_text, push_text, same_text, texts};

verus! {

/// Why an operation on one file, or the adapter itself, failed.
#[derive(Debug, Clone, PartialEq, Eq)]
pub enum ToolError {
    /// The target file does not exist.
    NotFound(String),
    /// No output path could be derived for the target file.
    InvalidPath(PathProblem),
    /// The file's own size could not be read.
    FileInfo(String),
    /// The tool process could not be started.
    Invocation(String),
    /// The tool ran and exited with failure; its diagnostic text.
    Execution(String),
    /// The tool's structured output could not be decoded.
    Parse(String),
    /// No tool binary is known for this operating system and architecture.
    UnsupportedPlatform,
    /// The tool binary is not where it is expected.
    BinaryMissing(String),
}

/// The text shown to a user for an error.
pub open spec fn error_text(e: ToolError) -> Seq<char> {
    match e {
        ToolError::NotFound(p) => "File not found: "@ + p@,
        ToolError::InvalidPath(PathProblem::NoFileName) => "Invalid file name"@,
        ToolError::InvalidPath(PathProblem::NoParent) => "Invalid file path"@,
        ToolError::InvalidPath(PathProblem::NotText) => "Failed to create output path"@,
        ToolError::FileInfo(d) => "Failed to read file metadata: "@ + d@,
        ToolError::Invocation(d) => "Failed to execute exiftool: "@ + d@,
        ToolError::Execution(d) => "ExifTool error: "@ + d@,
        ToolError::Parse(d) => "Failed to parse ExifTool output: "@ + d@,
        ToolError::UnsupportedPlatform => "Unsupported platform"@,
        ToolError::BinaryMissing(p) => "ExifTool binary not found at: "@ + p@,
    }
}

fn prefixed(prefix: &str, detail: &String) -> (r: String)
    ensures
        r@ == prefix@ + detail@,
{
    let mut s = String::from_str(prefix);
    s.append(detail.as_str());
    s
}

impl ToolError {
    /// The text shown to a user for this error.
    pub fn message(&self) -> (r: String)
        ensures
            r@ == error_text(*self),
    {
        match self {
            ToolError::NotFound(p) => prefixed("File not found: ", p),
            ToolError::InvalidPath(PathProblem::NoFileName) => String::from_str("Invalid file name"),
            ToolError::InvalidPath(PathProblem::NoParent) => String::from_str("Invalid file path"),
            ToolError::InvalidPath(PathProblem::NotText) => String::from_str("Failed to create output path"),
            ToolError::FileInfo(d) => prefixed("Failed to read file metadata: ", d),
            ToolError::Invocation(d) => prefixed("Failed to execute exiftool: ", d),
            ToolError::Execution(d) => prefixed("ExifTool error: ", d),
            ToolError::Parse(d) => prefixed("Failed to parse ExifTool output: ", d),
            ToolError::UnsupportedPlatform => String::from_str("Unsupported platform"),
            ToolError::BinaryMissing(p) => prefixed("ExifTool binary not found at: ", p),
        }
    }
}

/// The outcome of one clean request.
#[derive(Debug, Clone)]
pub struct CleanResult {
    pub success: bool,
    pub file_path: String,
    pub output_path: String,
    pub message: String,
}

/// What to run for one clean: the tool's arguments and where the result lands.
#[derive(Debug, Clone)]
pub struct CleanPlan {
    pub output_path: String,
    pub args: Vec<String>,
}

/// The arguments of a structured read of one file: JSON output, all tags,
/// short tag names.
pub open spec fn read_args(p: Seq<char>) -> Seq<Seq<char>> {
    seq!["-json"@, "-a"@, "-s"@, p]
}

/// Whether a path names a TIFF file, whose primary image directory the
/// generic wipe does not reach.
pub open spec fn is_tiff(p: Seq<char>) -> bool {
    match extension_of(p) {
        Some(e) => lower_of(e) == "tif"@ || lower_of(e) == "tiff"@,
        None => false,
    }
}

/// The single preserve-from-self directive set: the tags copied back from the
/// original file onto the cleaned one.
pub open spec fn preserve_args(orientation: bool, color_profile: bool) -> Seq<Seq<char>> {
    if orientation || color_profile {
        seq!["-tagsfromfile"@, "@"@]
            + (if orientation { seq!["-Orientation"@] } else { Seq::empty() })
            + (if color_profile { seq!["-ColorSpaceTags"@, "-ICCProfile"@] } else { Seq::empty() })
    } else {
        Seq::empty()
    }
}

/// The arguments that close every write request: keep the timestamp if asked,
/// write a copy unless in backup mode, then the target itself.
pub open spec fn write_tail(p: Seq<char>, out: Seq<char>, backup: bool, keep_date: bool) -> Seq<Seq<char>> {
    (if keep_date { seq!["-P"@] } else { Seq::empty() })
        + (if !backup { seq!["-o"@, out] } else { Seq::empty() })
        + seq![p]
}

/// The arguments of a full wipe of `p`, writing to `out`.
pub open spec fn clean_args(
    p: Seq<char>,
    out: Seq<char>,
    backup: bool,
    orientation: bool,
    color_profile: bool,
    keep_date: bool,
) -> Seq<Seq<char>> {
    seq!["-all="@]
        + (if is_tiff(p) { seq!["-CommonIFD0="@] } else { Seq::empty() })
        + preserve_args(orientation, color_profile)
        + write_tail(p, out, backup, keep_date)
}

/// One deletion directive per tag name, in the given order.
pub open spec fn tag_directives(tags: Seq<Seq<char>>) -> Seq<Seq<char>>
    decreases tags.len(),
{
    if tags.len() == 0 {
        Seq::empty()
    } else {
        tag_directives(tags.drop_last()).push("-"@ + tags.last() + "="@)
    }
}

/// The arguments of a selective wipe of `p`, writing to `out`.
pub open spec fn selective_args(
    p: Seq<char>,
    out: Seq<char>,
    tags: Seq<Seq<char>>,
    backup: bool,
    keep_date: bool,
) -> Seq<Seq<char>> {
    tag_directives(tags) + write_tail(p, out, backup, keep_date)
}

/// The plan a write request is owed: `NotFound` for a missing file, the
/// output-path error where one arises, else the output path and `args(out)`.
pub open spec fn plan_matches(
    r: Result<CleanPlan, ToolError>,
    p: Seq<char>,
    exists: bool,
    backup: bool,
    args: spec_fn(Seq<char>) -> Seq<Seq<char>>,
) -> bool {
    if !exists {
        r matches Err(ToolError::NotFound(q)) && q@ == p
    } else {
        match output_path_spec(p, backup) {
            Err(e) => r == Err::<CleanPlan, ToolError>(ToolError::InvalidPath(e)),
            Ok(out) => match r {
                Ok(plan) => plan.output_path@ == out && texts(plan.args@) == args(out),
                Err(_) => false,
            },
        }
    }
}

/// The arguments of a read of `file_path`, or `NotFound` when the file does
/// not exist; no tool is run for a missing file.
pub fn read_arguments(file_path: &str, exists: bool) -> (r: Result<Vec<String>, ToolError>)
    ensures
        !exists ==> (r matches Err(ToolError::NotFound(q)) && q@ == file_path@),
        exists ==> (r matches Ok(a) && texts(a@) == read_args(file_path@)),
{
    if !exists {
        return Err(ToolError::NotFound(String::from_str(file_path)));
    }
    let mut args: Vec<String> = Vec::new();
    push_text(&mut args, "-json");
    push_text(&mut args, "-a");
    push_text(&mut args, "-s");
    push_text(&mut args, file_path);
    assert(texts(args@) =~= read_args(file_path@));
    Ok(args)
}

fn tiff_target(file_path: &str) -> (r: bool)
    ensures
        r == is_tiff(file_path@),
{
    match crate::paths::path_extension(file_path) {
        Some(ext) => {
            let lower = crate::paths::lowercase(ext.as_str());
            same_text(lower.as_str(), "tif") || same_text(lower.as_str(), "tiff")
        },
        None => false,
    }
}

fn push_write_tail(args: &mut Vec<String>, file_path: &str, out: &String, backup: bool, keep_date: bool)
    ensures
        texts(final(args)@) == texts(old(args)@) + write_tail(file_path@, out@, backup, keep_date),
{
    let ghost start = texts(args@);
    if keep_date {
        push_text(args, "-P");
    }
    assert(texts(args@) =~= start + (if keep_date { seq!["-P"@] } else { Seq::<Seq<char>>::empty() }));
    let ghost mid = texts(args@);
    if !backup {
        push_text(args, "-o");
        push_text(args, out.as_str());
    }
    assert(texts(args@) =~= mid + (if !backup { seq!["-o"@, out@] } else { Seq::<Seq<char>>::empty() }));
    push_text(args, file_path);
    assert(texts(args@) =~= start + write_tail(file_path@, out@, backup, keep_date));
}

fn output_or_error(file_path: &str, backup: bool) -> (r: Result<String, ToolError>)
    ensures
        match output_path_spec(file_path@, backup) {
            Ok(out) => r matches Ok(s) && s@ == out,
            Err(e) => r == Err::<String, ToolError>(ToolError::InvalidPath(e)),
        },
{
    match output_path_for(file_path, backup) {
        Ok(s) => Ok(s),
        Err(e) => Err(ToolError::InvalidPath(e)),
    }
}

/// Plans a full wipe of `file_path`: every tag cleared, the TIFF primary
/// directory too for TIFF files, the requested tags copied back in a single
/// directive set, the timestamp kept if asked, and a copy written beside the
/// file unless in backup mode.
pub fn clean_arguments(
    file_path: &str,
    exists: bool,
    backup: bool,
    preserve_orientation: bool,
    preserve_color_profile: bool,
    preserve_modification_date: bool,
) -> (r: Result<CleanPlan, ToolError>)
    ensures
        plan_matches(r, file_path@, exists, backup,
            |out: Seq<char>| clean_args(file_path@, out, backup, preserve_orientation,
                preserve_color_profile, preserve_modification_date)),
{
    if !exists {
        return Err(ToolError::NotFound(String::from_str(file_path)));
    }
    let output_path = match output_or_error(file_path, backup) {
        Ok(s) => s,
        Err(e) => return Err(e),
    };
    let mut args: Vec<String> = Vec::new();
    push_text(&mut args, "-all=");
    if tiff_target(file_path) {
        push_text(&mut args, "-CommonIFD0=");
    }
    let ghost head = texts(args@);
    if preserve_orientation || preserve_color_profile {
        push_text(&mut args, "-tagsfromfile");
        push_text(&mut args, "@");
        if preserve_orientation {
            push_text(&mut args, "-Orientation");
        }
        if preserve_color_profile {
            push_text(&mut args, "-ColorSpaceTags");
            push_text(&mut args, "-ICCProfile");
        }
    }
    assert(texts(args@) =~= head + preserve_args(preserve_orientation, preserve_color_profile));
    push_write_tail(&mut args, file_path, &output_path, backup, preserve_modification_date);
    assert(texts(args@) =~= clean_args(file_path@, output_path@, backup, preserve_orientation,
        preserve_color_profile, preserve_modification_date));
    Ok(CleanPlan { output_path, args })
}

/// Plans a selective wipe of `file_path`: one deletion directive per tag
/// name, the timestamp kept if asked, and a copy written beside the file
/// unless in backup mode.
pub fn selective_arguments(
    file_path: &str,
    exists: bool,
    tags: &Vec<String>,
    backup: bool,
    preserve_modification_date: bool,
) -> (r: Result<CleanPlan, ToolError>)
    ensures
        plan_matches(r, file_path@, exists, backup,
            |out: Seq<char>| selective_args(file_path@, out, texts(tags@), backup,
                preserve_modification_date)),
{
    if !exists {
        return Err(ToolError::NotFound(String::from_str(file_path)));
    }
    let output_path = match output_or_error(file_path, backup) {
        Ok(s) => s,
        Err(e) => return Err(e),
    };
    let mut args: Vec<String> = Vec::new();
    let mut i: usize = 0;
    while i < tags.len()
        invariant
            i <= tags@.len(),
            texts(args@) == tag_directives(texts(tags@).take(i as int)),
        decreases tags.len() - i,
    {
        let mut d = String::from_str("-");
        d.append(tags[i].as_str());
        d.append("=");
        args.push(d);
        proof {
            assert(texts(tags@).take(i + 1).drop_last() =~= texts(tags@).take(i as int));
        }
        assert(texts(args@) =~= tag_directives(texts(tags@).take(i + 1)));
        i = i + 1;
    }
    assert(texts(tags@).take(i as int) =~= texts(tags@));
    push_write_tail(&mut args, file_path, &output_path, backup, preserve_modification_date);
    Ok(CleanPlan { output_path, args })
}

/// The message of a successful full wipe.
pub open spec fn cleaned_message() -> Seq<char> {
    "Metadata cleaned successfully"@
}

/// The message of a successful selective wipe: the number of tags targeted.
pub open spec fn removed_message(count: nat) -> Seq<char> {
    "Removed "@ + decimal(count) + " metadata tags"@
}

/// The outcome of a tool run: success follows the exit status; on failure the
/// message is the tool's diagnostic text, else `success_message`.
pub open spec fn outcome_matches(
    r: CleanResult,
    file_path: Seq<char>,
    output_path: Seq<char>,
    exit_ok: bool,
    diagnostic: Seq<char>,
    success_message: Seq<char>,
) -> bool {
    &&& r.success == exit_ok
    &&& r.file_path@ == file_path
    &&& r.output_path@ == output_path
    &&& r.message@ == (if exit_ok { success_message } else { diagnostic })
}

/// The outcome of a full wipe whose tool run ended with `exit_ok`.
pub fn clean_outcome(file_path: &str, plan: CleanPlan, exit_ok: bool, diagnostic: String) -> (r: CleanResult)
    ensures
        outcome_matches(r, file_path@, plan.output_path@, exit_ok, diagnostic@, cleaned_message()),
{
    let message = if exit_ok { String::from_str("Metadata cleaned successfully") } else { diagnostic };
    CleanResult { success: exit_ok, file_path: String::from_str(file_path), output_path: plan.output_path, message }
}

/// The outcome of a selective wipe of `tag_count` tags whose tool run ended
/// with `exit_ok`. The count is of tags targeted: the tool does not report
/// which were present.
pub fn selective_outcome(
    file_path: &str,
    plan: CleanPlan,
    tag_count: usize,
    exit_ok: bool,
    diagnostic: String,
) -> (r: CleanResult)
    ensures
        outcome_matches(r, file_path@, plan.output_path@, exit_ok, diagnostic@,
            removed_message(tag_count as nat)),
{
    let message = if exit_ok {
        let mut m = String::from_str("Removed ");
        let n = decimal_text(tag_count);
        m.append(n.as_str());
        m.append(" metadata tags");
        m
    } else {
        diagnostic
    };
    CleanResult { success: exit_ok, file_path: String::from_str(file_path), output_path: plan.output_path, message }
}

/// The name of the bundled tool binary for an operating system and an
/// architecture, as the platform reports them; `None` for every pair that
/// has no bundled binary.
pub open spec fn binary_name(os: Seq<char>, arch: Seq<char>) -> Option<Seq<char>> {
    let arm = arch == "aarch64"@;
    if !(arm || arch == "x86_64"@) {
        None
    } else if os == "macos"@ {
        Some(if arm { "exiftool-aarch64-apple-darwin"@ } else { "exiftool-x86_64-apple-darwin"@ })
    } else if os == "linux"@ {
        Some(if arm { "exiftool-aarch64-unknown-linux-gnu"@ } else { "exiftool-x86_64-unknown-linux-gnu"@ })
    } else if os == "windows"@ {
        Some(if arm { "exiftool-aarch64-pc-windows-msvc.exe"@ } else { "exiftool-x86_64-pc-windows-msvc.exe"@ })
    } else {
        None
    }
}

/// Looks up the bundled tool binary for a platform.
pub fn tool_binary_name(os: &str, arch: &str) -> (r: Option<String>)
    ensures
        match (r, binary_name(os@, arch@)) {
            (Some(s), Some(t)) => s@ == t,
            (None, None) => true,
            _ => false,
        },
{
    let arm = same_text(arch, "aarch64");
    if !(arm || same_text(arch, "x86_64")) {
        None
    } else if same_text(os, "macos") {
        Some(String::from_str(if arm { "exiftool-aarch64-apple-darwin" } else { "exiftool-x86_64-apple-darwin" }))
    } else if same_text(os, "linux") {
        Some(String::from_str(if arm { "exiftool-aarch64-unknown-linux-gnu" } else { "exiftool-x86_64-unknown-linux-gnu" }))
    } else if same_text(os, "windows") {
        Some(String::from_str(if arm { "exiftool-aarch64-pc-windows-msvc.exe" } else { "exiftool-x86_64-pc-windows-msvc.exe" }))
    } else {
        None
    }
}

/// Where the tool binary of a platform lies under the resource directory.
pub open spec fn binary_location_spec(dir: Seq<char>, os: Seq<char>, arch: Seq<char>) -> Result<Seq<char>, ToolError> {
    match binary_name(os, arch) {
        None => Err(ToolError::UnsupportedPlatform),
        Some(name) => match joined_of(dir, "binaries"@) {
            None => Err(ToolError::InvalidPath(PathProblem::NotText)),
            Some(bin) => match joined_of(bin, name) {
                None => Err(ToolError::InvalidPath(PathProblem::NotText)),
                Some(p) => Ok(p),
            },
        },
    }
}

/// The located tool binary, resolved once and shared by every invocation.
#[derive(Debug, Clone)]
pub struct ExifToolWrapper {
    exiftool_path: String,
}

impl View for ExifToolWrapper {
    type V = Seq<char>;

    closed spec fn view(&self) -> Seq<char> {
        self.exiftool_path@
    }
}

impl ExifToolWrapper {
    /// Where the tool binary of a platform lies under `resource_dir`:
    /// `binaries/<name>`, or `UnsupportedPlatform`.
    pub fn binary_location(resource_dir: &str, os: &str, arch: &str) -> (r: Result<String, ToolError>)
        ensures
            match (r, binary_location_spec(resource_dir@, os@, arch@)) {
                (Ok(s), Ok(t)) => s@ == t,
                (Err(a), Err(b)) => a == b,
                _ => false,
            },
    {
        let name = match tool_binary_name(os, arch) {
            Some(n) => n,
            None => return Err(ToolError::UnsupportedPlatform),
        };
        let bin = match path_join(resource_dir, "binaries") {
            Some(b) => b,
            None => return Err(ToolError::InvalidPath(PathProblem::NotText)),
        };
        match path_join(bin.as_str(), name.as_str()) {
            Some(p) => Ok(p),
            None => Err(ToolError::InvalidPath(PathProblem::NotText)),
        }
    }

    /// A handle on the binary at `exiftool_path`, which must exist.
    pub fn new(exiftool_path: String, exists: bool) -> (r: Result<Self, ToolError>)
        ensures
            exists ==> (r matches Ok(w) && w@ == exiftool_path@),
            !exists ==> r == Err::<Self, ToolError>(ToolError::BinaryMissing(exiftool_path)),
    {
        if exists {
            Ok(ExifToolWrapper { exiftool_path })
        } else {
            Err(ToolError::BinaryMissing(exiftool_path))
        }
    }

    /// The location of the tool binary.
    pub fn exiftool_path(&self) -> (r: &str)
        ensures
            r@ == self@,
    {
        self.exiftool_path.as_str()
    }
}

} // verus!
