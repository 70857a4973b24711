use privatewhisper::listing::{DirListing, FileEntry};
use privatewhisper::model::{
    check_complete, file_present, is_complete, missing_files, model_files, ModelError, ModelFile,
};

fn touch(dir: &mut DirListing, name: &str, bytes: u64) {
    dir.files.push(FileEntry { name: name.to_string(), len: bytes });
}

#[test]
fn empty_dir_is_incomplete_and_lists_all() {
    let dir = DirListing { files: Vec::new() };
    assert!(!is_complete(&dir));
    assert_eq!(missing_files(&dir).len(), model_files().len());
}

#[test]
fn all_present_is_complete() {
    let mut dir = DirListing { files: Vec::new() };
    for f in model_files() {
        touch(&mut dir, f.filename, f.expected_size);
    }
    assert!(is_complete(&dir));
    assert!(missing_files(&dir).is_empty());
}

#[test]
fn size_mismatch_counts_as_missing_when_expected_set() {
    let mut dir = DirListing { files: Vec::new() };
    let f = ModelFile { filename: "x.bin", url: "", expected_size: 100 };
    touch(&mut dir, "x.bin", 10);
    assert!(!file_present(&dir, &f));
}

#[test]
fn any_size_will_do_when_none_expected() {
    let mut dir = DirListing { files: Vec::new() };
    let f = ModelFile { filename: "x.bin", url: "", expected_size: 0 };
    touch(&mut dir, "x.bin", 10);
    assert!(file_present(&dir, &f));
}

#[test]
fn missing_files_keep_manifest_order() {
    let mut dir = DirListing { files: Vec::new() };
    touch(&mut dir, "decoder_joint-model.onnx", 36_266_140);
    touch(&mut dir, "encoder-model.onnx", 5);
    assert_eq!(missing_files(&dir), vec!["encoder-model.onnx", "vocab.txt"]);
    assert_eq!(
        check_complete(&dir),
        Err(ModelError::Incomplete(vec!["encoder-model.onnx", "vocab.txt"]))
    );
}

#[test]
fn manifest_has_the_three_model_files() {
    let names: Vec<&str> = model_files().iter().map(|f| f.filename).collect();
    assert_eq!(names, vec!["encoder-model.onnx", "decoder_joint-model.onnx", "vocab.txt"]);
}
