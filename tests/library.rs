use metadata_zero::batch::{collect_clean_results, collect_records, expand_paths, PathEntry};
use metadata_zero::exiftool::{
    clean_arguments, clean_outcome, read_arguments, selective_arguments, selective_outcome,
    tool_binary_name, CleanResult, ExifToolWrapper, ToolError,
};
use metadata_zero::paths::{is_supported_extension, is_supported_file, output_path_for, PathProblem};
use metadata_zero::record::{
    metadata_record, read_outcome, record_from_decoded, render_tag_value, MetadataInfo, TagValue,
};

fn strings(v: &[&str]) -> Vec<String> {
    v.iter().map(|s| s.to_string()).collect()
}

fn tag<'a>(info: &'a MetadataInfo, key: &str) -> Option<&'a str> {
    info.metadata.iter().find(|(k, _)| k == key).map(|(_, v)| v.as_str())
}

#[test]
fn extension_check_ignores_case() {
    assert!(is_supported_file("/a/photo.jpg"));
    assert!(is_supported_file("/a/photo.JPG"));
    assert!(is_supported_file("/a/RAW.Nef"));
    assert!(!is_supported_file("/a/notes.txt"));
    assert!(!is_supported_file("/a/noextension"));
    assert!(!is_supported_file("/a/.jpg"));
}

#[test]
fn allow_list_is_lower_case() {
    assert!(is_supported_extension("jpg"));
    assert!(is_supported_extension("3g2"));
    assert!(is_supported_extension("webp"));
    assert!(!is_supported_extension("JPG"));
    assert!(!is_supported_extension("txt"));
    assert!(!is_supported_extension(""));
}

#[test]
fn expansion_filters_files_and_walks() {
    let entries = vec![
        PathEntry::File("/a/photo.JPG".to_string()),
        PathEntry::File("/a/readme.txt".to_string()),
        PathEntry::Directory(strings(&["/d/x.png", "/d/y.doc", "/d/sub/z.NEF"])),
        PathEntry::Other,
    ];
    let out = expand_paths(&entries);
    assert_eq!(out, strings(&["/a/photo.JPG", "/d/x.png", "/d/sub/z.NEF"]));
}

#[test]
fn expansion_is_idempotent() {
    let entries = vec![
        PathEntry::Directory(strings(&["/d/a.jpg", "/d/b.mp3", "/d/c.Tiff"])),
        PathEntry::File("/e/f.pdf".to_string()),
    ];
    let first = expand_paths(&entries);
    let again: Vec<PathEntry> = first.iter().map(|p| PathEntry::File(p.clone())).collect();
    assert_eq!(expand_paths(&again), first);
}

#[test]
fn expansion_of_nothing_is_empty() {
    assert!(expand_paths(&Vec::new()).is_empty());
    assert!(expand_paths(&vec![PathEntry::Other, PathEntry::Directory(Vec::new())]).is_empty());
}

#[test]
fn output_path_copy_and_backup() {
    assert_eq!(output_path_for("/a/photo.jpg", false), Ok("/a/photo_cleaned.jpg".to_string()));
    assert_eq!(output_path_for("/a/photo.jpg", true), Ok("/a/photo.jpg".to_string()));
    assert_eq!(output_path_for("/a/README", false), Ok("/a/README_cleaned".to_string()));
    assert_eq!(output_path_for("photo.png", false), Ok("photo_cleaned.png".to_string()));
    assert_eq!(output_path_for("/", false), Err(PathProblem::NoFileName));
}

#[test]
fn clean_plan_copy_mode() {
    let plan = clean_arguments("/a/photo.jpg", true, false, false, false, false).unwrap();
    assert_eq!(plan.output_path, "/a/photo_cleaned.jpg");
    assert_eq!(plan.args, strings(&["-all=", "-o", "/a/photo_cleaned.jpg", "/a/photo.jpg"]));
}

#[test]
fn clean_plan_backup_mode() {
    let plan = clean_arguments("/a/photo.jpg", true, true, false, false, true).unwrap();
    assert_eq!(plan.output_path, "/a/photo.jpg");
    assert_eq!(plan.args, strings(&["-all=", "-P", "/a/photo.jpg"]));
}

#[test]
fn clean_plan_keeps_orientation_only() {
    let plan = clean_arguments("/a/photo.jpg", true, true, true, false, false).unwrap();
    assert_eq!(plan.args, strings(&["-all=", "-tagsfromfile", "@", "-Orientation", "/a/photo.jpg"]));
    assert_eq!(plan.args.iter().filter(|a| *a == "-tagsfromfile").count(), 1);
}

#[test]
fn clean_plan_keeps_orientation_and_color() {
    let plan = clean_arguments("/a/photo.jpg", true, true, true, true, false).unwrap();
    assert_eq!(
        plan.args,
        strings(&["-all=", "-tagsfromfile", "@", "-Orientation", "-ColorSpaceTags", "-ICCProfile", "/a/photo.jpg"])
    );
}

#[test]
fn clean_plan_color_only() {
    let plan = clean_arguments("/a/photo.jpg", true, true, false, true, false).unwrap();
    assert_eq!(
        plan.args,
        strings(&["-all=", "-tagsfromfile", "@", "-ColorSpaceTags", "-ICCProfile", "/a/photo.jpg"])
    );
}

#[test]
fn clean_plan_tiff_directory() {
    let plan = clean_arguments("/a/scan.TIF", true, true, false, false, false).unwrap();
    assert_eq!(plan.args, strings(&["-all=", "-CommonIFD0=", "/a/scan.TIF"]));
    let plan = clean_arguments("/a/scan.tiff", true, false, false, false, false).unwrap();
    assert_eq!(
        plan.args,
        strings(&["-all=", "-CommonIFD0=", "-o", "/a/scan_cleaned.tiff", "/a/scan.tiff"])
    );
}

#[test]
fn clean_plan_missing_file() {
    let r = clean_arguments("/nope.jpg", false, false, true, true, true);
    assert_eq!(r.unwrap_err(), ToolError::NotFound("/nope.jpg".to_string()));
}

#[test]
fn clean_plan_bad_name() {
    let r = clean_arguments("/", true, false, false, false, false);
    assert_eq!(r.unwrap_err(), ToolError::InvalidPath(PathProblem::NoFileName));
    assert_eq!(ToolError::InvalidPath(PathProblem::NoFileName).message(), "Invalid file name");
}

#[test]
fn selective_plan_and_message() {
    let tags = strings(&["GPSLatitude", "GPSLongitude"]);
    let plan = selective_arguments("/a/photo.jpg", true, &tags, false, false).unwrap();
    assert_eq!(
        plan.args,
        strings(&["-GPSLatitude=", "-GPSLongitude=", "-o", "/a/photo_cleaned.jpg", "/a/photo.jpg"])
    );
    let out = selective_outcome("/a/photo.jpg", plan, tags.len(), true, String::new());
    assert!(out.success);
    assert_eq!(out.message, "Removed 2 metadata tags");
    assert_eq!(out.output_path, "/a/photo_cleaned.jpg");
}

#[test]
fn selective_plan_backup_keeps_date() {
    let tags = strings(&["Artist"]);
    let plan = selective_arguments("/a/photo.jpg", true, &tags, true, true).unwrap();
    assert_eq!(plan.args, strings(&["-Artist=", "-P", "/a/photo.jpg"]));
    let out = selective_outcome("/a/photo.jpg", plan, 12, true, String::new());
    assert_eq!(out.message, "Removed 12 metadata tags");
}

#[test]
fn selective_failure_carries_diagnostic() {
    let tags = strings(&["Artist"]);
    let plan = selective_arguments("/a/photo.jpg", true, &tags, true, false).unwrap();
    let out = selective_outcome("/a/photo.jpg", plan, 1, false, "Error: bad".to_string());
    assert!(!out.success);
    assert_eq!(out.message, "Error: bad");
}

#[test]
fn clean_outcome_messages() {
    let plan = clean_arguments("/a/photo.jpg", true, false, false, false, false).unwrap();
    let ok = clean_outcome("/a/photo.jpg", plan.clone(), true, "ignored".to_string());
    assert!(ok.success);
    assert_eq!(ok.message, "Metadata cleaned successfully");
    assert_eq!(ok.file_path, "/a/photo.jpg");
    assert_eq!(ok.output_path, "/a/photo_cleaned.jpg");
    let bad = clean_outcome("/a/photo.jpg", plan, false, "write failed".to_string());
    assert!(!bad.success);
    assert_eq!(bad.message, "write failed");
}

#[test]
fn read_missing_file_is_not_found() {
    let r = read_arguments("/does/not/exist.jpg", false);
    let e = r.unwrap_err();
    assert_eq!(e, ToolError::NotFound("/does/not/exist.jpg".to_string()));
    assert_eq!(e.message(), "File not found: /does/not/exist.jpg");
}

#[test]
fn read_arguments_for_existing_file() {
    let args = read_arguments("/a/photo.jpg", true).unwrap();
    assert_eq!(args, strings(&["-json", "-a", "-s", "/a/photo.jpg"]));
}

#[test]
fn read_outcome_renders_values() {
    let json = r#"[{"SourceFile":"/a/p.jpg","ISO":200,"Flash":true,"Keywords":["a","b",3],"Nothing":null,"Obj":{"x":1}}]"#;
    let info = read_outcome("/a/p.jpg", 1234, true, json, String::new()).unwrap();
    assert_eq!(info.file_path, "/a/p.jpg");
    assert_eq!(info.file_name, "p.jpg");
    assert_eq!(info.file_size, 1234);
    assert_eq!(tag(&info, "SourceFile"), Some("/a/p.jpg"));
    assert_eq!(tag(&info, "ISO"), Some("200"));
    assert_eq!(tag(&info, "Flash"), Some("true"));
    assert_eq!(tag(&info, "Keywords"), Some("a, b"));
    assert_eq!(tag(&info, "Nothing"), None);
    assert_eq!(tag(&info, "Obj"), None);
    assert_eq!(info.metadata.len(), 4);
}

#[test]
fn read_outcome_uses_first_record() {
    let json = r#"[{"A":"one"},{"B":"two"}]"#;
    let info = read_outcome("/a/p.jpg", 1, true, json, String::new()).unwrap();
    assert_eq!(tag(&info, "A"), Some("one"));
    assert_eq!(tag(&info, "B"), None);
    let empty = read_outcome("/a/p.jpg", 1, true, "[]", String::new()).unwrap();
    assert!(empty.metadata.is_empty());
}

#[test]
fn read_outcome_errors() {
    let e = read_outcome("/a/p.jpg", 1, false, "[]", "boom".to_string()).unwrap_err();
    assert_eq!(e, ToolError::Execution("boom".to_string()));
    assert_eq!(e.message(), "ExifTool error: boom");
    let e = read_outcome("/a/p.jpg", 1, true, "not json", String::new()).unwrap_err();
    assert!(matches!(e, ToolError::Parse(_)));
    assert!(e.message().starts_with("Failed to parse ExifTool output: "));
}

#[test]
fn render_values() {
    assert_eq!(render_tag_value(&TagValue::Text("x".to_string())), Some("x".to_string()));
    assert_eq!(render_tag_value(&TagValue::Number("1.5".to_string())), Some("1.5".to_string()));
    assert_eq!(render_tag_value(&TagValue::Flag(false)), Some("false".to_string()));
    assert_eq!(
        render_tag_value(&TagValue::List(vec![None, Some(String::new()), Some("a".to_string())])),
        Some(", a".to_string())
    );
    assert_eq!(render_tag_value(&TagValue::List(Vec::new())), Some(String::new()));
    assert_eq!(render_tag_value(&TagValue::Other), None);
}

#[test]
fn record_later_key_wins() {
    let pairs = vec![
        ("K".to_string(), TagValue::Text("old".to_string())),
        ("J".to_string(), TagValue::Other),
        ("K".to_string(), TagValue::Text("new".to_string())),
    ];
    let info = metadata_record("/x/y.png", 9, &pairs);
    assert_eq!(info.metadata, vec![("K".to_string(), "new".to_string())]);
    assert_eq!(info.file_name, "y.png");
}

fn done(path: &str, success: bool) -> CleanResult {
    CleanResult {
        success,
        file_path: path.to_string(),
        output_path: path.to_string(),
        message: if success { "ok".to_string() } else { "failed".to_string() },
    }
}

#[test]
fn batch_keeps_every_file() {
    let paths = strings(&["/a.jpg", "/b.jpg", "/c.jpg", "/d.jpg"]);
    let results = vec![
        Ok(done("/a.jpg", true)),
        Ok(done("/b.jpg", false)),
        Err(ToolError::NotFound("/c.jpg".to_string())),
        Ok(done("/d.jpg", true)),
    ];
    let out = collect_clean_results(&paths, results);
    assert_eq!(out.len(), 4);
    assert_eq!(out.iter().filter(|c| !c.success).count(), 2);
    assert_eq!(out[2].file_path, "/c.jpg");
    assert_eq!(out[2].output_path, "/c.jpg");
    assert_eq!(out[2].message, "File not found: /c.jpg");
    assert_eq!(out[1].message, "failed");
}

#[test]
fn read_batch_omits_failures() {
    let a = metadata_record("/a.jpg", 1, &Vec::new());
    let b = metadata_record("/b.jpg", 2, &Vec::new());
    let results = vec![Ok(a), Err(ToolError::Parse("x".to_string())), Ok(b)];
    let out = collect_records(results);
    assert_eq!(out.len(), 2);
    assert_eq!(out[0].file_path, "/a.jpg");
    assert_eq!(out[1].file_path, "/b.jpg");
}

#[test]
fn platform_binaries() {
    assert_eq!(tool_binary_name("linux", "x86_64"), Some("exiftool-x86_64-unknown-linux-gnu".to_string()));
    assert_eq!(tool_binary_name("macos", "aarch64"), Some("exiftool-aarch64-apple-darwin".to_string()));
    assert_eq!(tool_binary_name("windows", "x86_64"), Some("exiftool-x86_64-pc-windows-msvc.exe".to_string()));
    assert_eq!(tool_binary_name("windows", "x86"), None);
    assert_eq!(tool_binary_name("linux", "riscv64"), None);
    assert_eq!(tool_binary_name("freebsd", "x86_64"), None);
    assert_eq!(
        ExifToolWrapper::binary_location("/res", "linux", "aarch64"),
        Ok("/res/binaries/exiftool-aarch64-unknown-linux-gnu".to_string())
    );
    assert_eq!(
        ExifToolWrapper::binary_location("/res", "haiku", "x86_64"),
        Err(ToolError::UnsupportedPlatform)
    );
    assert_eq!(
        ExifToolWrapper::binary_location("/res", "linux", "riscv64"),
        Err(ToolError::UnsupportedPlatform)
    );
}

#[test]
fn tool_handle_requires_binary() {
    let w = ExifToolWrapper::new("/res/bin/exiftool".to_string(), true).unwrap();
    assert_eq!(w.exiftool_path(), "/res/bin/exiftool");
    let e = ExifToolWrapper::new("/res/bin/exiftool".to_string(), false).unwrap_err();
    assert_eq!(e.message(), "ExifTool binary not found at: /res/bin/exiftool");
}

#[test]
fn decoded_first_record_only() {
    let records = vec![
        vec![("A".to_string(), TagValue::Flag(true)), ("B".to_string(), TagValue::Other)],
        vec![("C".to_string(), TagValue::Text("c".to_string()))],
    ];
    let info = record_from_decoded("/a/p.jpg", 5, &records);
    assert_eq!(info.metadata, vec![("A".to_string(), "true".to_string())]);
    assert_eq!(info.file_size, 5);
    let empty = record_from_decoded("/a/p.jpg", 5, &Vec::new());
    assert!(empty.metadata.is_empty());
    assert_eq!(empty.file_name, "p.jpg");
}

#[test]
fn read_outcome_non_array_is_parse_error() {
    let e = read_outcome("/a/p.jpg", 1, true, r#"{"A":1}"#, String::new()).unwrap_err();
    assert!(matches!(e, ToolError::Parse(_)));
}

#[test]
fn removed_message_counts_in_decimal() {
    let tags: Vec<String> = Vec::new();
    let plan = selective_arguments("/a/p.jpg", true, &tags, true, false).unwrap();
    assert_eq!(plan.args, strings(&["/a/p.jpg"]));
    let out = selective_outcome("/a/p.jpg", plan.clone(), 0, true, String::new());
    assert_eq!(out.message, "Removed 0 metadata tags");
    let out = selective_outcome("/a/p.jpg", plan, 1234567, true, String::new());
    assert_eq!(out.message, "Removed 1234567 metadata tags");
}
