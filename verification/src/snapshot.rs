//! The scripts that make up a startup snapshot, and its compressed form.

use crate::text::chars_of;
use vstd::prelude::*;

verus! {

/// One step in the making of a snapshot.
#[derive(Debug, Clone, PartialEq, Eq)]
pub enum SnapshotStep {
    /// The build is told to run again when the file changes.
    Announce { file: String },
    /// The file is read and run as the script `name`.
    ExecuteFile { name: String, file: String },
    /// `code` is run as the script `name`.
    ExecuteCode { name: String, code: String },
}

/// The mathematical value of a `SnapshotStep`.
pub enum SnapshotStepView {
    Announce { file: Seq<char> },
    ExecuteFile { name: Seq<char>, file: Seq<char> },
    ExecuteCode { name: Seq<char>, code: Seq<char> },
}

impl View for SnapshotStep {
    type V = SnapshotStepView;

    open spec fn view(&self) -> SnapshotStepView {
        match self {
            SnapshotStep::Announce { file } => SnapshotStepView::Announce { file: file@ },
            SnapshotStep::ExecuteFile { name, file } => SnapshotStepView::ExecuteFile {
                name: name@,
                file: file@,
            },
            SnapshotStep::ExecuteCode { name, code } => SnapshotStepView::ExecuteCode {
                name: name@,
                code: code@,
            },
        }
    }
}

/// The views of `steps`, in order.
pub open spec fn steps_view(steps: Seq<SnapshotStep>) -> Seq<SnapshotStepView> {
    Seq::new(steps.len(), |i: int| steps[i]@)
}

/// A file that does not lie below the root that script names are taken from.
#[derive(Debug, Clone, PartialEq, Eq)]
pub struct OutsideRoot {
    pub file: String,
}

/// What `std::path::Path::strip_prefix` leaves of `path` when `base` is
/// taken from its front, as text; `None` where `path` does not start with
/// `base`. Paths are read as on the platform that the library is built for.
pub uninterp spec fn path_below(path: Seq<char>, base: Seq<char>) -> Option<Seq<char>>;

/// Calls `Path::strip_prefix`, which gives the path that, joined onto
/// `base`, yields `path`, and fails where `base` is not a prefix of `path`.
/// The contract only names what comes back.
#[verifier::external_body]
fn strip_prefix(path: &str, base: &str) -> (out: Option<String>)
    ensures
        match out {
            Some(rest) => path_below(path@, base@) == Some(rest@),
            None => path_below(path@, base@) is None,
        },
{
    std::path::Path::new(path).strip_prefix(base).ok().map(|p| p.to_string_lossy().into_owned())
}

/// `text` with a slash in place of every backslash.
pub open spec fn with_slashes(text: Seq<char>) -> Seq<char> {
    Seq::new(
        text.len(),
        |i: int|
            if text[i] == '\\' {
                '/'
            } else {
                text[i]
            },
    )
}

/// The name under which the file at `display_path` is run.
pub open spec fn script_name_text(display_path: Seq<char>) -> Seq<char> {
    "deno:"@ + with_slashes(display_path)
}

/// The name under which the file at `display_path` is run: the path with
/// slashes, after `deno:`.
pub fn script_name(display_path: &str) -> (out: String)
    ensures
        out@ == script_name_text(display_path@),
{
    let chars = chars_of(display_path);
    let mut out = String::from_str("deno:");
    let mut i: usize = 0;
    while i < chars.len()
        invariant
            i <= chars.len(),
            out@ == "deno:"@ + with_slashes(chars@).take(i as int),
        decreases chars.len() - i,
    {
        let c = chars[i];
        out.push(
            if c == '\\' {
                '/'
            } else {
                c
            },
        );
        proof {
            let w = with_slashes(chars@);
            assert(w.take(i + 1) =~= w.take(i as int).push(w[i as int]));
            assert(out@ =~= "deno:"@ + w.take(i + 1));
        }
        i += 1;
    }
    proof {
        let w = with_slashes(chars@);
        assert(w.take(chars.len() as int) =~= w);
    }
    out
}

/// The steps for one file below `root`: with `build` it is announced first,
/// then it is run under its name.
pub open spec fn file_steps(file: Seq<char>, below: Seq<char>, build: bool) -> Seq<
    SnapshotStepView,
> {
    let run = SnapshotStepView::ExecuteFile { name: script_name_text(below), file };
    if build {
        seq![SnapshotStepView::Announce { file }, run]
    } else {
        seq![run]
    }
}

/// Whether each of the first `n` files lies below `root`.
pub open spec fn all_below(files: Seq<Seq<char>>, root: Seq<char>, n: nat) -> bool {
    forall|i: int| 0 <= i < n && i < files.len() ==> path_below(#[trigger] files[i], root) is Some
}

/// The steps for the first `n` files, in order.
pub open spec fn files_steps(files: Seq<Seq<char>>, root: Seq<char>, build: bool, n: nat) -> Seq<
    SnapshotStepView,
>
    decreases n,
{
    if n == 0 || n > files.len() {
        Seq::empty()
    } else {
        files_steps(files, root, build, (n - 1) as nat) + file_steps(
            files[n - 1],
            path_below(files[n - 1], root).unwrap(),
            build,
        )
    }
}

/// The step that runs the main module, where there is one.
pub open spec fn code_steps(code: Option<String>) -> Seq<SnapshotStepView> {
    match code {
        Some(text) => seq![SnapshotStepView::ExecuteCode { name: "deno:main"@, code: text@ }],
        None => Seq::empty(),
    }
}

/// The texts of `files`, in order.
pub open spec fn file_texts(files: Seq<String>) -> Seq<Seq<char>> {
    Seq::new(files.len(), |i: int| files[i]@)
}

/// The steps that make a snapshot of the scripts `core_files`, then
/// `files`, then the main module `code`: every file is run under the name
/// that its path below `display_root` gives it. The first file that does
/// not lie below the root fails the plan.
pub fn _create_snapshot(
    core_files: &Vec<String>,
    files: &Vec<String>,
    display_root: &str,
    code: Option<String>,
    build: bool,
) -> (out: Result<Vec<SnapshotStep>, OutsideRoot>)
    ensures
        match out {
            Ok(steps) => {
                let all = file_texts(core_files@) + file_texts(files@);
                &&& all_below(all, display_root@, all.len())
                &&& steps_view(steps@) == files_steps(all, display_root@, build, all.len())
                    + code_steps(code)
            },
            Err(outside) => {
                let all = file_texts(core_files@) + file_texts(files@);
                exists|i: int|
                    0 <= i < all.len() && #[trigger] all[i] == outside.file@ && path_below(
                        all[i],
                        display_root@,
                    ) is None && all_below(all, display_root@, i as nat)
            },
        },
{
    let ghost all = file_texts(core_files@) + file_texts(files@);
    let total = core_files.len() as u128 + files.len() as u128;
    let mut steps: Vec<SnapshotStep> = Vec::new();
    let mut n: u128 = 0;
    while n < total
        invariant
            n <= total,
            total == core_files.len() + files.len(),
            all == file_texts(core_files@) + file_texts(files@),
            all_below(all, display_root@, n as nat),
            steps_view(steps@) == files_steps(all, display_root@, build, n as nat),
        decreases total - n,
    {
        let file: &String = if n < core_files.len() as u128 {
            &core_files[n as usize]
        } else {
            &files[(n - core_files.len() as u128) as usize]
        };
        assert(file@ == all[n as int]);
        let ghost before = steps_view(steps@);
        match strip_prefix(file.as_str(), display_root) {
            Some(below) => {
                if build {
                    steps.push(SnapshotStep::Announce { file: file.clone() });
                }
                steps.push(
                    SnapshotStep::ExecuteFile {
                        name: script_name(below.as_str()),
                        file: file.clone(),
                    },
                );
                proof {
                    assert(steps_view(steps@) =~= before + file_steps(
                        all[n as int],
                        below@,
                        build,
                    ));
                }
            },
            None => {
                return Err(OutsideRoot { file: file.clone() });
            },
        }
        n += 1;
    }
    let ghost before = steps_view(steps@);
    match code {
        Some(text) => {
            steps.push(SnapshotStep::ExecuteCode { name: String::from_str("deno:main"), code: text });
            proof {
                assert(steps_view(steps@) =~= before + code_steps(code));
            }
        },
        None => {
            proof {
                assert(steps_view(steps@) =~= before + code_steps(code));
            }
        },
    }
    Ok(steps)
}

/// The steps of a snapshot that ends with the main module `code`. The build
/// is not told of the files.
pub fn create_snapshot_with_main_module(
    core_files: &Vec<String>,
    files: &Vec<String>,
    display_root: &str,
    code: Option<String>,
) -> (out: Result<Vec<SnapshotStep>, OutsideRoot>)
    ensures
        match out {
            Ok(steps) => {
                let all = file_texts(core_files@) + file_texts(files@);
                &&& all_below(all, display_root@, all.len())
                &&& steps_view(steps@) == files_steps(all, display_root@, false, all.len())
                    + code_steps(code)
            },
            Err(outside) => {
                let all = file_texts(core_files@) + file_texts(files@);
                exists|i: int|
                    0 <= i < all.len() && #[trigger] all[i] == outside.file@ && path_below(
                        all[i],
                        display_root@,
                    ) is None && all_below(all, display_root@, i as nat)
            },
        },
{
    _create_snapshot(core_files, files, display_root, code, false)
}

/// The steps of a snapshot that is made while building: every file is
/// announced to the build, and there is no main module.
pub fn create_snapshot(core_files: &Vec<String>, files: &Vec<String>, display_root: &str) -> (out:
    Result<Vec<SnapshotStep>, OutsideRoot>)
    ensures
        match out {
            Ok(steps) => {
                let all = file_texts(core_files@) + file_texts(files@);
                &&& all_below(all, display_root@, all.len())
                &&& steps_view(steps@) == files_steps(all, display_root@, true, all.len())
            },
            Err(outside) => {
                let all = file_texts(core_files@) + file_texts(files@);
                exists|i: int|
                    0 <= i < all.len() && #[trigger] all[i] == outside.file@ && path_below(
                        all[i],
                        display_root@,
                    ) is None && all_below(all, display_root@, i as nat)
            },
        },
{
    let out = _create_snapshot(core_files, files, display_root, None, true);
    proof {
        let all = file_texts(core_files@) + file_texts(files@);
        assert(files_steps(all, display_root@, true, all.len()) + code_steps(None)
            =~= files_steps(all, display_root@, true, all.len()));
    }
    out
}

/// The level at which a snapshot is compressed.
pub const SNAPSHOT_LEVEL: i32 = 7;

/// What `zstd::encode_all` makes of `data` at `level`; `None` where it fails.
pub uninterp spec fn zstd_encoded(data: Seq<u8>, level: i32) -> Option<Seq<u8>>;

/// What `zstd::decode_all` makes of `compressed`; `None` where it fails, as
/// it does on bytes that are no zstd frame.
pub uninterp spec fn zstd_decoded(compressed: Seq<u8>) -> Option<Seq<u8>>;

/// Calls `zstd::encode_all`, which compresses all of `data` into the zstd
/// frame format. The contract only names what comes back.
#[verifier::external_body]
fn zstd_encode(data: &Vec<u8>, level: i32) -> (out: Option<Vec<u8>>)
    ensures
        match out {
            Some(bytes) => zstd_encoded(data@, level) == Some(bytes@),
            None => zstd_encoded(data@, level) is None,
        },
{
    zstd::encode_all(data.as_slice(), level).ok()
}

/// Calls `zstd::decode_all`, which decompresses data in the zstd frame
/// format. The contract only names what comes back.
#[verifier::external_body]
fn zstd_decode(compressed: &Vec<u8>) -> (out: Option<Vec<u8>>)
    ensures
        match out {
            Some(bytes) => zstd_decoded(compressed@) == Some(bytes@),
            None => zstd_decoded(compressed@) is None,
        },
{
    zstd::decode_all(compressed.as_slice()).ok()
}

/// The compressed form of a snapshot, or `None` where the compression
/// fails.
pub fn encode(snapshot: &Vec<u8>) -> (out: Option<Vec<u8>>)
    ensures
        match out {
            Some(bytes) => zstd_encoded(snapshot@, SNAPSHOT_LEVEL) == Some(bytes@),
            None => zstd_encoded(snapshot@, SNAPSHOT_LEVEL) is None,
        },
{
    zstd_encode(snapshot, SNAPSHOT_LEVEL)
}

/// The snapshot that `compressed` holds, or `None` where it holds none.
pub fn try_decode(compressed: &Vec<u8>) -> (out: Option<Vec<u8>>)
    ensures
        match out {
            Some(bytes) => zstd_decoded(compressed@) == Some(bytes@),
            None => zstd_decoded(compressed@) is None,
        },
{
    if zstd_decode(compressed).is_some() {
        Some(decode(compressed))
    } else {
        None
    }
}

/// The snapshot that `compressed` holds. The bytes have to be a compressed
/// snapshot.
pub fn decode(compressed: &Vec<u8>) -> (out: Vec<u8>)
    requires
        zstd_decoded(compressed@) is Some,
    ensures
        zstd_decoded(compressed@) == Some(out@),
{
    match zstd_decode(compressed) {
        Some(bytes) => bytes,
        None => Vec::new(),
    }
}

} // verus!
