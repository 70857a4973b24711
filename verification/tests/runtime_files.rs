use std::io::Write;

use privatewhisper::listing::{DirListing, FileEntry};
use privatewhisper::runtime::{
    check_extracted, dll_files, dll_target_name, dylib_path, is_ready, marker_path, RuntimeError,
};

fn wheel(entries: &[(&str, &[u8])]) -> Vec<u8> {
    let mut writer = zip::write::ZipWriter::new(std::io::Cursor::new(Vec::new()));
    let options = zip::write::SimpleFileOptions::default()
        .compression_method(zip::CompressionMethod::Stored);
    for (name, data) in entries {
        writer.start_file(*name, options).unwrap();
        writer.write_all(data).unwrap();
    }
    writer.finish().unwrap().into_inner()
}

#[test]
fn extract_dlls_flattens_dll_entries_and_ignores_other_files() {
    let bytes = wheel(&[("nvidia/foo/bar.dll", b"dll bytes"), ("nvidia/foo/readme.txt", b"readme")]);
    let files = dll_files(bytes).unwrap();
    assert_eq!(files.len(), 1);
    assert_eq!(files[0].0, "bar.dll");
    assert_eq!(files[0].1, b"dll bytes".to_vec());
}

#[test]
fn dll_suffix_is_case_insensitive() {
    assert_eq!(dll_target_name("a/B/CUDNN.DLL"), Some("CUDNN.DLL".to_string()));
    assert_eq!(dll_target_name("top.Dll"), Some("top.Dll".to_string()));
    assert_eq!(dll_target_name("lib/x.dll.txt"), None);
    assert_eq!(dll_target_name("dll"), None);
}

#[test]
fn not_a_zip_is_an_archive_error() {
    assert!(matches!(dll_files(b"not a zip".to_vec()), Err(RuntimeError::Archive(_))));
}

#[test]
fn runtime_ready_needs_marker_and_library() {
    let lib = FileEntry { name: "onnxruntime.dll".to_string(), len: 1 };
    let marker = FileEntry { name: ".runtime-complete".to_string(), len: 2 };
    assert!(!is_ready(&DirListing { files: vec![lib.clone()] }));
    assert!(!is_ready(&DirListing { files: vec![marker.clone()] }));
    assert!(is_ready(&DirListing { files: vec![marker, lib.clone()] }));
    assert!(check_extracted(&DirListing { files: vec![lib] }).is_ok());
    assert!(matches!(
        check_extracted(&DirListing { files: vec![] }),
        Err(RuntimeError::MissingLibrary)
    ));
}

#[test]
fn runtime_paths_are_in_the_runtime_dir() {
    assert_eq!(dylib_path("/rt"), "/rt/onnxruntime.dll");
    assert_eq!(dylib_path("/rt/"), "/rt/onnxruntime.dll");
    assert_eq!(marker_path("rt"), "rt/.runtime-complete");
}

#[test]
fn empty_wheel_gives_no_files() {
    assert_eq!(dll_files(wheel(&[])).unwrap().len(), 0);
}

#[test]
fn upper_case_dll_entries_are_extracted_in_order() {
    let bytes = wheel(&[("a/A.DLL", b"one"), ("b.txt", b"x"), ("c/d/e.dll", b"two")]);
    let files = dll_files(bytes).unwrap();
    let names: Vec<&str> = files.iter().map(|f| f.0.as_str()).collect();
    assert_eq!(names, vec!["A.DLL", "e.dll"]);
    assert_eq!(files[1].1, b"two".to_vec());
}
