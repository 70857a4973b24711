//! The speech model's files and whether a directory holds all of them.
use vstd::prelude::*;
use crate::listing::DirListing;

verus! {

broadcast use vstd::string::group_string_axioms;

/// One file of the speech model: its name on disk, where it is downloaded
/// from, and its size in bytes (0 when any size will do).
#[derive(Debug, Clone, Copy)]
pub struct ModelFile {
    pub filename: &'static str,
    pub url: &'static str,
    pub expected_size: u64,
}

/// The files that make up the speech model (Parakeet TDT 0.6b v3, fp16).
pub open spec fn manifest() -> Seq<ModelFile> {
    seq![
        ModelFile {
            filename: "encoder-model.onnx",
            url: "https://huggingface.co/grikdotnet/parakeet-tdt-0.6b-fp16/resolve/main/encoder-model.fp16.onnx",
            expected_size: 1_238_960_452,
        },
        ModelFile {
            filename: "decoder_joint-model.onnx",
            url: "https://huggingface.co/grikdotnet/parakeet-tdt-0.6b-fp16/resolve/main/decoder_joint-model.fp16.onnx",
            expected_size: 36_266_140,
        },
        ModelFile {
            filename: "vocab.txt",
            url: "https://huggingface.co/istupakov/parakeet-tdt-0.6b-v3-onnx/resolve/main/vocab.txt",
            expected_size: 93_939,
        },
    ]
}

/// The files that make up the speech model, in download order.
pub fn model_files() -> (r: Vec<ModelFile>)
    ensures
        r@ == manifest(),
{
    let r = vec![
        ModelFile {
            filename: "encoder-model.onnx",
            url: "https://huggingface.co/grikdotnet/parakeet-tdt-0.6b-fp16/resolve/main/encoder-model.fp16.onnx",
            expected_size: 1_238_960_452,
        },
        ModelFile {
            filename: "decoder_joint-model.onnx",
            url: "https://huggingface.co/grikdotnet/parakeet-tdt-0.6b-fp16/resolve/main/decoder_joint-model.fp16.onnx",
            expected_size: 36_266_140,
        },
        ModelFile {
            filename: "vocab.txt",
            url: "https://huggingface.co/istupakov/parakeet-tdt-0.6b-v3-onnx/resolve/main/vocab.txt",
            expected_size: 93_939,
        },
    ];
    assert(r@ =~= manifest());
    r
}

/// A file counts as present if the directory has it and, when its expected
/// size is set, its length matches.
pub open spec fn present(dir: DirListing, f: ModelFile) -> bool {
    match dir.size_of(f.filename@) {
        Some(len) => f.expected_size == 0 || len == f.expected_size,
        None => false,
    }
}

/// The names of the files among `fs` that `dir` does not hold, in order.
pub open spec fn missing_in(dir: DirListing, fs: Seq<ModelFile>) -> Seq<&'static str>
    decreases fs.len(),
{
    if fs.len() == 0 {
        Seq::empty()
    } else {
        let rest = missing_in(dir, fs.drop_last());
        if present(dir, fs.last()) {
            rest
        } else {
            rest.push(fs.last().filename)
        }
    }
}

/// Whether `dir` holds file `f` (see [`present`]).
pub fn file_present(dir: &DirListing, f: &ModelFile) -> (r: bool)
    ensures
        r == present(*dir, *f),
{
    match dir.file_len(f.filename) {
        Some(len) => f.expected_size == 0 || len == f.expected_size,
        None => false,
    }
}

/// The names of the model files that `dir` does not hold, in manifest order.
pub fn missing_files(dir: &DirListing) -> (r: Vec<&'static str>)
    ensures
        r@ == missing_in(*dir, manifest()),
{
    let files = model_files();
    let n = files.len();
    let mut r: Vec<&'static str> = Vec::new();
    let mut i: usize = 0;
    while i < n
        invariant
            i <= n,
            n == files.len(),
            files@ == manifest(),
            r@ == missing_in(*dir, files@.take(i as int)),
        decreases n - i,
    {
        let f = files[i];
        let ghost before = files@.take(i as int);
        assert(files@.take(i + 1).drop_last() =~= before);
        assert(files@.take(i + 1).last() == f);
        if !file_present(dir, &f) {
            r.push(f.filename);
        }
        i = i + 1;
    }
    assert(files@.take(n as int) =~= files@);
    r
}

/// Whether `dir` holds every model file.
pub fn is_complete(dir: &DirListing) -> (r: bool)
    ensures
        r == (missing_in(*dir, manifest()).len() == 0),
        r == (forall|k: int| 0 <= k < manifest().len() ==> present(*dir, #[trigger] manifest()[k])),
{
    proof {
        lemma_missing_empty(*dir, manifest());
    }
    missing_files(dir).len() == 0
}

/// Why the model is not ready.
#[derive(Debug, Clone, PartialEq)]
pub enum ModelError {
    /// After downloading, these model files are still missing.
    Incomplete(Vec<&'static str>),
}

/// The check after downloading: `Ok` when `dir` holds every model file, and
/// otherwise the names of the files still missing.
pub fn check_complete(dir: &DirListing) -> (r: Result<(), ModelError>)
    ensures
        r is Ok <==> missing_in(*dir, manifest()).len() == 0,
        r matches Err(ModelError::Incomplete(m)) ==> m@ == missing_in(*dir, manifest()),
{
    let missing = missing_files(dir);
    if missing.len() == 0 {
        Ok(())
    } else {
        Err(ModelError::Incomplete(missing))
    }
}

/// No file is missing exactly when every file is present.
pub proof fn lemma_missing_empty(dir: DirListing, fs: Seq<ModelFile>)
    ensures
        (missing_in(dir, fs).len() == 0) == (forall|k: int|
            0 <= k < fs.len() ==> present(dir, #[trigger] fs[k])),
    decreases fs.len(),
{
    if fs.len() > 0 {
        let init = fs.drop_last();
        lemma_missing_empty(dir, init);
        if missing_in(dir, fs).len() == 0 {
            assert forall|k: int| 0 <= k < fs.len() implies present(dir, #[trigger] fs[k]) by {
                if k < fs.len() - 1 {
                    assert(fs[k] == init[k]);
                }
            }
        } else if (forall|k: int| 0 <= k < fs.len() ==> present(dir, #[trigger] fs[k])) {
            assert(present(dir, fs[fs.len() - 1]));
            assert forall|k: int| 0 <= k < init.len() implies present(dir, #[trigger] init[k]) by {
                assert(fs[k] == init[k]);
            }
        }
    }
}

/// Every missing name is the name of a model file the directory does not hold,
/// so a directory holding every file has nothing to download again.
pub proof fn missing_are_absent(dir: DirListing, fs: Seq<ModelFile>, j: int)
    requires
        0 <= j < missing_in(dir, fs).len(),
    ensures
        exists|k: int|
            0 <= k < fs.len() && !present(dir, #[trigger] fs[k]) && fs[k].filename
                == missing_in(dir, fs)[j],
    decreases fs.len(),
{
    let init = fs.drop_last();
    let rest = missing_in(dir, init);
    if j < rest.len() {
        missing_are_absent(dir, init, j);
        let k = choose|k: int|
            0 <= k < init.len() && !present(dir, #[trigger] init[k]) && init[k].filename == rest[j];
        assert(fs[k] == init[k]);
    } else {
        assert(!present(dir, fs.last()));
        assert(fs[fs.len() - 1] == fs.last());
    }
}

} // verus!
