//! The GPU runtime: which DLLs a downloaded wheel contributes, where the ONNX
//! Runtime library lands, and when the runtime directory is complete.
use vstd::prelude::*;
use crate::archive::{archive_entries, open_zip, zip_entries, zip_entry_data, zip_entry_name, zip_len};
use crate::listing::DirListing;
use crate::paths::{join, joined};
use crate::text::chars_of;

verus! {

broadcast use vstd::string::group_string_axioms;

/// The file name of the ONNX Runtime library.
pub const ORT_DLL: &'static str = "onnxruntime.dll";

/// The file written once the runtime is completely in place.
pub const MARKER: &'static str = ".runtime-complete";

/// The wheels whose bundled `*.dll` files make up the Windows CUDA-13 GPU
/// runtime (Microsoft onnxruntime-gpu with NVIDIA CUDA 13 and cuDNN 9), in
/// download order.
pub open spec fn wheel_urls() -> Seq<&'static str> {
    seq![
        "https://aiinfra.pkgs.visualstudio.com/2692857e-05ef-43b4-ba9c-ccf1c22c437c/_packaging/62a612ee-4dee-42bc-8205-15b672eb4e4b/pypi/download/onnxruntime-gpu/1.24.1/onnxruntime_gpu-1.24.1-cp314-cp314-win_amd64.whl",
        "https://pypi.nvidia.com/nvidia-cuda-runtime/nvidia_cuda_runtime-13.3.29-py3-none-win_amd64.whl",
        "https://pypi.nvidia.com/nvidia-cublas/nvidia_cublas-13.5.1.27-py3-none-win_amd64.whl",
        "https://pypi.nvidia.com/nvidia-curand/nvidia_curand-10.4.3.29-py3-none-win_amd64.whl",
        "https://pypi.nvidia.com/nvidia-cufft/nvidia_cufft-12.3.0.29-py3-none-win_amd64.whl",
        "https://pypi.nvidia.com/nvidia-cuda-nvrtc/nvidia_cuda_nvrtc-13.3.33-py3-none-win_amd64.whl",
        "https://pypi.nvidia.com/nvidia-cudnn-cu13/nvidia_cudnn_cu13-9.23.0.39-py3-none-win_amd64.whl",
    ]
}

/// The wheels to download for the GPU runtime (see [`wheel_urls`]).
pub fn runtime_wheels() -> (r: Vec<&'static str>)
    ensures
        r@ == wheel_urls(),
{
    let r = vec![
        "https://aiinfra.pkgs.visualstudio.com/2692857e-05ef-43b4-ba9c-ccf1c22c437c/_packaging/62a612ee-4dee-42bc-8205-15b672eb4e4b/pypi/download/onnxruntime-gpu/1.24.1/onnxruntime_gpu-1.24.1-cp314-cp314-win_amd64.whl",
        "https://pypi.nvidia.com/nvidia-cuda-runtime/nvidia_cuda_runtime-13.3.29-py3-none-win_amd64.whl",
        "https://pypi.nvidia.com/nvidia-cublas/nvidia_cublas-13.5.1.27-py3-none-win_amd64.whl",
        "https://pypi.nvidia.com/nvidia-curand/nvidia_curand-10.4.3.29-py3-none-win_amd64.whl",
        "https://pypi.nvidia.com/nvidia-cufft/nvidia_cufft-12.3.0.29-py3-none-win_amd64.whl",
        "https://pypi.nvidia.com/nvidia-cuda-nvrtc/nvidia_cuda_nvrtc-13.3.33-py3-none-win_amd64.whl",
        "https://pypi.nvidia.com/nvidia-cudnn-cu13/nvidia_cudnn_cu13-9.23.0.39-py3-none-win_amd64.whl",
    ];
    assert(r@ =~= wheel_urls());
    r
}

/// The path of the ONNX Runtime library in runtime directory `dir`.
pub fn dylib_path(dir: &str) -> (r: String)
    ensures
        r@ == joined(dir@, ORT_DLL@),
{
    join(dir, ORT_DLL)
}

/// The path of the completion marker in runtime directory `dir`.
pub fn marker_path(dir: &str) -> (r: String)
    ensures
        r@ == joined(dir@, MARKER@),
{
    join(dir, MARKER)
}

/// The runtime is ready when the directory has both the completion marker and
/// the ONNX Runtime library.
pub open spec fn ready(dir: DirListing) -> bool {
    dir.size_of(MARKER@) is Some && dir.size_of(ORT_DLL@) is Some
}

/// Whether the runtime in `dir` is ready (see [`ready`]).
pub fn is_ready(dir: &DirListing) -> (r: bool)
    ensures
        r == ready(*dir),
{
    dir.has_file(MARKER) && dir.has_file(ORT_DLL)
}

/// Why the runtime could not be put in place.
#[derive(Debug)]
pub enum RuntimeError {
    /// A wheel could not be read as a zip archive.
    Archive(zip::result::ZipError),
    /// After extraction the ONNX Runtime library is still missing.
    MissingLibrary,
}

/// The check after extracting every wheel: `Ok` exactly when the directory
/// has the ONNX Runtime library.
pub fn check_extracted(dir: &DirListing) -> (r: Result<(), RuntimeError>)
    ensures
        r is Ok <==> dir.size_of(ORT_DLL@) is Some,
        r is Err ==> r matches Err(RuntimeError::MissingLibrary),
{
    if dir.has_file(ORT_DLL) {
        Ok(())
    } else {
        Err(RuntimeError::MissingLibrary)
    }
}

/// `c` with ASCII capitals lowered, as `to_ascii_lowercase` does.
pub open spec fn ascii_lower(c: char) -> char {
    if 'A' <= c && c <= 'Z' {
        ((c as u32) + 32) as char
    } else {
        c
    }
}

/// Whether `name`, with ASCII capitals lowered, ends in `.dll`.
pub open spec fn has_dll_suffix(name: Seq<char>) -> bool {
    let n = name.len();
    &&& n >= 4
    &&& ascii_lower(name[n - 4]) == '.'
    &&& ascii_lower(name[n - 3]) == 'd'
    &&& ascii_lower(name[n - 2]) == 'l'
    &&& ascii_lower(name[n - 1]) == 'l'
}

/// Where the last segment of a `/`-separated `name` starts.
pub open spec fn segment_start(name: Seq<char>) -> int
    decreases name.len(),
{
    if name.len() == 0 {
        0
    } else if name.last() == '/' {
        name.len() as int
    } else {
        segment_start(name.drop_last())
    }
}

/// The part of `name` after its last `/`, or all of it when it has none.
pub open spec fn last_segment(name: Seq<char>) -> Seq<char> {
    name.subrange(segment_start(name), name.len() as int)
}

/// The file an archive entry named `name` is extracted to: its last segment
/// when it is a DLL, and none otherwise.
pub open spec fn dll_target(name: Seq<char>) -> Option<Seq<char>> {
    if has_dll_suffix(name) {
        Some(last_segment(name))
    } else {
        None
    }
}

proof fn lemma_segment_start_bounds(name: Seq<char>)
    ensures
        0 <= segment_start(name) <= name.len(),
        forall|k: int| segment_start(name) <= k < name.len() ==> name[k] != '/',
        segment_start(name) > 0 ==> name[segment_start(name) - 1] == '/',
    decreases name.len(),
{
    if name.len() > 0 && name.last() != '/' {
        lemma_segment_start_bounds(name.drop_last());
        assert forall|k: int| segment_start(name) <= k < name.len() implies name[k] != '/' by {
            if k < name.len() - 1 {
                assert(name.drop_last()[k] == name[k]);
            }
        }
        if segment_start(name) > 0 {
            assert(name.drop_last()[segment_start(name) - 1] == name[segment_start(name) - 1]);
        }
    }
}

fn is_ascii_ci(c: char, lower: char) -> (r: bool)
    requires
        lower == '.' || lower == 'd' || lower == 'l',
    ensures
        r == (ascii_lower(c) == lower),
{
    proof {
        assert(('D' as u32) + 32 == ('d' as u32));
        assert(('L' as u32) + 32 == ('l' as u32));
    }
    if lower == '.' {
        c == '.'
    } else if lower == 'd' {
        c == 'd' || c == 'D'
    } else {
        c == 'l' || c == 'L'
    }
}

/// The file an archive entry named `name` is extracted to (see [`dll_target`]).
pub fn dll_target_name(name: &str) -> (r: Option<String>)
    ensures
        match (r, dll_target(name@)) {
            (Some(t), Some(u)) => t@ == u,
            (None, None) => true,
            _ => false,
        },
{
    let cs = chars_of(name);
    let n = cs.len();
    if n < 4 {
        return None;
    }
    let dll = is_ascii_ci(cs[n - 4], '.') && is_ascii_ci(cs[n - 3], 'd') && is_ascii_ci(
        cs[n - 2],
        'l',
    ) && is_ascii_ci(cs[n - 1], 'l');
    if !dll {
        return None;
    }
    let mut k: usize = n;
    assert(cs@.subrange(0, n as int) =~= cs@);
    while k > 0 && cs[k - 1] != '/'
        invariant
            k <= n,
            n == cs.len(),
            segment_start(cs@) == segment_start(cs@.subrange(0, k as int)),
        decreases k,
    {
        proof {
            let p = cs@.subrange(0, k as int);
            assert(p.last() == cs@[k - 1]);
            assert(p.drop_last() =~= cs@.subrange(0, k - 1));
        }
        k = k - 1;
    }
    proof {
        let p = cs@.subrange(0, k as int);
        if k > 0 {
            assert(p.last() == cs@[k - 1]);
        }
        assert(cs@.subrange(0, n as int) =~= cs@);
    }
    Some(name.substring_char(k, n).to_owned())
}

/// The files that extraction writes for the archive entries `es`, in order:
/// every DLL entry, under its last path segment, with the bytes it reads to.
pub open spec fn dll_files_of(es: Seq<(Seq<char>, bool, Option<Seq<u8>>)>) -> Seq<
    (Seq<char>, Seq<u8>),
>
    decreases es.len(),
{
    if es.len() == 0 {
        Seq::empty()
    } else {
        let rest = dll_files_of(es.drop_last());
        match dll_target(es.last().0) {
            Some(t) => rest.push((t, es.last().2->0)),
            None => rest,
        }
    }
}

/// Whether extraction gets through entry `e`: the archive opens it and, when
/// it is a DLL, reading it succeeds.
pub open spec fn entry_extracts(e: (Seq<char>, bool, Option<Seq<u8>>)) -> bool {
    e.1 && (dll_target(e.0) is Some ==> e.2 is Some)
}

/// Whether extraction gets through every entry of `es`.
pub open spec fn all_extract(es: Seq<(Seq<char>, bool, Option<Seq<u8>>)>) -> bool {
    forall|k: int| 0 <= k < es.len() ==> entry_extracts(#[trigger] es[k])
}

/// The files as values.
pub open spec fn files_view(v: Seq<(String, Vec<u8>)>) -> Seq<(Seq<char>, Seq<u8>)> {
    v.map_values(|f: (String, Vec<u8>)| (f.0@, f.1@))
}

/// The DLL files a wheel holds, flattened to their base names, in archive
/// order, with their contents; the caller writes each into the runtime
/// directory (a later file of the same name replaces an earlier one) and the
/// number written is the length of the list. It succeeds exactly when the
/// wheel opens as a zip archive, every entry opens, and every DLL entry reads
/// to the end; otherwise the error is the zip crate's.
pub fn dll_files(wheel: Vec<u8>) -> (r: Result<Vec<(String, Vec<u8>)>, RuntimeError>)
    ensures
        r is Ok <==> (zip_entries(wheel@) matches Some(es) && all_extract(es)),
        r matches Ok(v) ==> files_view(v@) == dll_files_of(zip_entries(wheel@)->0),
        r is Err ==> r matches Err(RuntimeError::Archive(_)),
{
    let ghost bytes = wheel@;
    let mut archive = match open_zip(wheel) {
        Ok(a) => a,
        Err(e) => return Err(RuntimeError::Archive(e)),
    };
    let ghost es = archive_entries(archive);
    let n = zip_len(&archive);
    let mut out: Vec<(String, Vec<u8>)> = Vec::new();
    let mut i: usize = 0;
    while i < n
        invariant
            i <= n,
            n == es.len(),
            zip_entries(bytes) == Some(es),
            bytes == wheel@,
            archive_entries(archive) == es,
            files_view(out@) == dll_files_of(es.take(i as int)),
            forall|k: int| 0 <= k < i ==> entry_extracts(#[trigger] es[k]),
        decreases n - i,
    {
        let name = match zip_entry_name(&mut archive, i) {
            Ok(name) => name,
            Err(e) => {
                assert(!entry_extracts(es[i as int]));
                assert(!all_extract(es));
                return Err(RuntimeError::Archive(e));
            },
        };
        proof {
            assert(es.take(i + 1).drop_last() =~= es.take(i as int));
            assert(es.take(i + 1).last() == es[i as int]);
        }
        match dll_target_name(name.as_str()) {
            Some(target) => {
                let data = match zip_entry_data(&mut archive, i) {
                    Ok(d) => d,
                    Err(e) => {
                        assert(!entry_extracts(es[i as int]));
                        assert(!all_extract(es));
                        return Err(RuntimeError::Archive(e));
                    },
                };
                let ghost before = out@;
                out.push((target, data));
                proof {
                    assert(files_view(out@) =~= files_view(before).push((target@, data@)));
                }
            },
            None => {},
        }
        assert(entry_extracts(es[i as int]));
        i = i + 1;
    }
    proof {
        assert(es.take(n as int) =~= es);
    }
    Ok(out)
}

/// A wheel entry is extracted exactly when its name ends in `.dll` (in any
/// ASCII case), and it lands under a name with no `/` in it that ends the
/// entry's name.
pub proof fn dll_targets_are_flat(name: Seq<char>)
    ensures
        dll_target(name) is Some <==> has_dll_suffix(name),
        dll_target(name) matches Some(t) ==> {
            &&& forall|k: int| 0 <= k < t.len() ==> t[k] != '/'
            &&& t == name.subrange(name.len() - t.len(), name.len() as int)
            &&& (t.len() < name.len() ==> name[name.len() - t.len() - 1] == '/')
        },
{
    lemma_segment_start_bounds(name);
}

/// The runtime directory is ready exactly when it holds both a file named
/// `onnxruntime.dll` and a file named `.runtime-complete`; in particular a
/// directory missing either (such as an empty one) is not ready.
pub proof fn ready_needs_library_and_marker(dir: DirListing)
    ensures
        ready(dir) <==> (exists|i: int|
            0 <= i < dir.files@.len() && (#[trigger] dir.files@[i]).name@ == "onnxruntime.dll"@)
            && (exists|j: int|
            0 <= j < dir.files@.len() && (#[trigger] dir.files@[j]).name@
                == ".runtime-complete"@),
        dir.files@.len() == 0 ==> !ready(dir),
{
    crate::listing::size_found_iff_named(dir.files@, ORT_DLL@);
    crate::listing::size_found_iff_named(dir.files@, MARKER@);
    assert(ORT_DLL@ == "onnxruntime.dll"@);
    assert(MARKER@ == ".runtime-complete"@);
}

} // verus!
