//! Building fleets: which packages, how the toolchain is called, and which of its
//! outputs go through the optimizer, and where to.
use vstd::prelude::*;
use vstd::string::StringSliceAdditionalSpecFns;
use crate::path::{extension, extension_of, file_name, file_name_of, join, join_of};

verus! {

/// The target triple that fleets are compiled for.
pub const WASI_TARGET: &'static str = "wasm32-wasi";

/// Where the toolchain puts a debug build, below its target directory.
pub const DEBUG_OUTPUT_DIR: &'static str = "./wasm32-wasi/debug/";

/// Where the toolchain puts a release build, below its target directory.
pub const RELEASE_OUTPUT_DIR: &'static str = "./wasm32-wasi/release/";

/// The extension of a WebAssembly binary.
pub const WASM_EXTENSION: &'static str = "wasm";

/// Why a build stops.
#[derive(Debug, Clone)]
pub enum BuildError {
    /// No package was named and the workspace has no default members.
    NoPackages,
    /// The toolchain did not succeed on `package`; `exit_code` is its exit status, if it had one.
    ToolchainFailed { package: String, exit_code: Option<i32> },
}

/// The packages to build: those named, or else the workspace's default members.
pub fn select_packages(named: Option<Vec<String>>, defaults: Vec<String>) -> (r: Result<
    Vec<String>,
    BuildError,
>)
    ensures
        ({
            let chosen = match named {
                Some(v) => v@,
                None => defaults@,
            };
            match r {
                Ok(v) => v@ == chosen && chosen.len() > 0,
                Err(e) => chosen.len() == 0 && e is NoPackages,
            }
        }),
{
    let chosen = match named {
        Some(v) => v,
        None => defaults,
    };
    if chosen.len() == 0 {
        Err(BuildError::NoPackages)
    } else {
        Ok(chosen)
    }
}

/// The toolchain arguments that build `package` as a WebAssembly library.
pub fn build_args(package: &String, debug: bool) -> (r: Vec<String>)
    ensures
        r@.len() == (if debug {
            7int
        } else {
            8int
        }),
        r@[0]@ == "rustc"@,
        r@[1]@ == "-p"@,
        r@[2]@ == package@,
        r@[3]@ == "--crate-type"@,
        r@[4]@ == "cdylib"@,
        r@[5]@ == "--target"@,
        r@[6]@ == WASI_TARGET@,
        !debug ==> r@[7]@ == "--release"@,
{
    let mut r: Vec<String> = Vec::new();
    r.push("rustc".to_owned());
    r.push("-p".to_owned());
    r.push(package.clone());
    r.push("--crate-type".to_owned());
    r.push("cdylib".to_owned());
    r.push("--target".to_owned());
    r.push(WASI_TARGET.to_owned());
    if !debug {
        r.push("--release".to_owned());
    }
    r
}

/// Whether the build of `package` may go on, given how the toolchain exited.
pub fn check_build_exit(package: &String, success: bool, exit_code: Option<i32>) -> (r: Result<
    (),
    BuildError,
>)
    ensures
        success <==> r is Ok,
        match r {
            Err(BuildError::ToolchainFailed { package: p, exit_code: c }) => p@ == package@ && c
                == exit_code,
            Err(BuildError::NoPackages) => false,
            Ok(_) => true,
        },
{
    if success {
        Ok(())
    } else {
        Err(BuildError::ToolchainFailed { package: package.clone(), exit_code })
    }
}

/// The directory where the toolchain writes its binaries, below `target_directory`.
pub fn cargo_output_base_path(target_directory: &[u8], debug: bool) -> (r: Vec<u8>)
    ensures
        r@ == join_of(
            target_directory@,
            if debug {
                DEBUG_OUTPUT_DIR.spec_bytes()
            } else {
                RELEASE_OUTPUT_DIR.spec_bytes()
            },
        ),
{
    if debug {
        join(target_directory, DEBUG_OUTPUT_DIR.as_bytes())
    } else {
        join(target_directory, RELEASE_OUTPUT_DIR.as_bytes())
    }
}

/// Where the optimized binary for the file `input_file_name` goes in `fleet_dir`.
pub fn wasm_opt_output_path(fleet_dir: &[u8], input_file_name: &[u8]) -> (r: Vec<u8>)
    ensures
        r@ == join_of(fleet_dir@, input_file_name@),
{
    join(fleet_dir, input_file_name)
}

/// An entry of the toolchain's output directory.
#[derive(Debug, Clone)]
pub struct ScannedEntry {
    pub path: Vec<u8>,
    /// Whether the entry is a regular file.
    pub is_file: bool,
}

/// A regular file with the WebAssembly extension.
pub open spec fn is_wasm_artifact(e: ScannedEntry) -> bool {
    e.is_file && extension_of(e.path@) == Some(WASM_EXTENSION.spec_bytes())
}

/// The paths of the WebAssembly binaries among `entries`, in their order.
pub open spec fn wasm_paths(entries: Seq<ScannedEntry>) -> Seq<Seq<u8>>
    decreases entries.len(),
{
    if entries.len() == 0 {
        Seq::empty()
    } else {
        let rest = wasm_paths(entries.drop_last());
        if is_wasm_artifact(entries.last()) {
            rest.push(entries.last().path@)
        } else {
            rest
        }
    }
}

/// The views of a sequence of byte vectors.
pub open spec fn byte_views(v: Seq<Vec<u8>>) -> Seq<Seq<u8>> {
    v.map_values(|b: Vec<u8>| b@)
}

fn bytes_equal(a: &[u8], b: &[u8]) -> (r: bool)
    ensures
        r == (a@ == b@),
{
    if a.len() != b.len() {
        return false;
    }
    let mut k: usize = 0;
    while k < a.len()
        invariant
            a@.len() == b@.len(),
            k <= a@.len(),
            forall|j: int| 0 <= j < k ==> a@[j] == b@[j],
        decreases a@.len() - k,
    {
        if a[k] != b[k] {
            return false;
        }
        k = k + 1;
    }
    assert(a@ =~= b@);
    true
}

/// Whether `entry` is a WebAssembly binary.
pub fn is_wasm_output(entry: &ScannedEntry) -> (r: bool)
    ensures
        r == is_wasm_artifact(*entry),
{
    if !entry.is_file {
        return false;
    }
    match extension(entry.path.as_slice()) {
        Some(ext) => bytes_equal(ext.as_slice(), WASM_EXTENSION.as_bytes()),
        None => false,
    }
}

/// The paths of the WebAssembly binaries among `entries`, in their order.
pub fn select_wasm_outputs(entries: &Vec<ScannedEntry>) -> (r: Vec<Vec<u8>>)
    ensures
        byte_views(r@) == wasm_paths(entries@),
{
    let mut r: Vec<Vec<u8>> = Vec::new();
    let mut k: usize = 0;
    while k < entries.len()
        invariant
            k <= entries@.len(),
            byte_views(r@) == wasm_paths(entries@.subrange(0, k as int)),
        decreases entries@.len() - k,
    {
        let e = &entries[k];
        let ghost before = r@;
        assert(entries@.subrange(0, k + 1).drop_last() =~= entries@.subrange(0, k as int));
        if is_wasm_output(e) {
            r.push(e.path.clone());
            assert(byte_views(r@) =~= byte_views(before).push(e.path@));
        }
        k = k + 1;
    }
    assert(entries@.subrange(0, entries@.len() as int) =~= entries@);
    r
}

/// One binary to optimize: read from `input`, written first to `staging` and then
/// moved to `output`, so that no half-written fleet is ever left in the fleet directory.
#[derive(Debug, Clone)]
pub struct OptimizeJob {
    pub input: Vec<u8>,
    pub staging: Vec<u8>,
    pub output: Vec<u8>,
}

/// What the optimization step of a build does.
#[derive(Debug, Clone)]
pub enum OptimizationPlan {
    /// The build produced no binary.
    NothingToOptimize,
    /// The binaries to optimize, in the order they were listed.
    Optimize(Vec<OptimizeJob>),
}

/// `job` optimizes the binary at `input` into `fleet_dir`, through `staging_dir`.
pub open spec fn is_job_for(
    job: OptimizeJob,
    input: Seq<u8>,
    fleet_dir: Seq<u8>,
    staging_dir: Seq<u8>,
) -> bool {
    &&& job.input@ == input
    &&& file_name_of(input) is Some
    &&& job.output@ == join_of(fleet_dir, file_name_of(input)->Some_0)
    &&& job.staging@ == join_of(staging_dir, file_name_of(input)->Some_0)
}

/// Every selected binary has an extension.
proof fn lemma_wasm_paths_have_extension(entries: Seq<ScannedEntry>)
    ensures
        forall|i: int|
            0 <= i < wasm_paths(entries).len() ==> extension_of(#[trigger] wasm_paths(entries)[i])
                is Some,
    decreases entries.len(),
{
    if entries.len() > 0 {
        lemma_wasm_paths_have_extension(entries.drop_last());
    }
}

/// The optimization step for the listed output `entries`: nothing where the build made
/// no binary, else one job per binary, in order, each writing the binary under its own
/// file name in `fleet_dir`.
pub fn plan_optimization(entries: &Vec<ScannedEntry>, fleet_dir: &[u8], staging_dir: &[u8]) -> (r:
    OptimizationPlan)
    ensures
        wasm_paths(entries@).len() == 0 <==> r is NothingToOptimize,
        match r {
            OptimizationPlan::Optimize(jobs) => jobs@.len() == wasm_paths(entries@).len() && forall|
                i: int,
            |
                0 <= i < jobs@.len() ==> is_job_for(
                    #[trigger] jobs@[i],
                    wasm_paths(entries@)[i],
                    fleet_dir@,
                    staging_dir@,
                ),
            OptimizationPlan::NothingToOptimize => true,
        },
{
    let inputs = select_wasm_outputs(entries);
    if inputs.len() == 0 {
        assert(byte_views(inputs@).len() == 0);
        return OptimizationPlan::NothingToOptimize;
    }
    proof {
        lemma_wasm_paths_have_extension(entries@);
    }
    let mut jobs: Vec<OptimizeJob> = Vec::new();
    let mut k: usize = 0;
    while k < inputs.len()
        invariant
            k <= inputs@.len(),
            byte_views(inputs@) == wasm_paths(entries@),
            jobs@.len() == k,
            forall|i: int|
                0 <= i < k ==> is_job_for(
                    #[trigger] jobs@[i],
                    wasm_paths(entries@)[i],
                    fleet_dir@,
                    staging_dir@,
                ),
            forall|i: int|
                0 <= i < wasm_paths(entries@).len() ==> extension_of(
                    #[trigger] wasm_paths(entries@)[i],
                ) is Some,
        decreases inputs@.len() - k,
    {
        let input = &inputs[k];
        assert(byte_views(inputs@)[k as int] == input@);
        let name = match file_name(input.as_slice()) {
            Some(n) => n,
            None => {
                return OptimizationPlan::NothingToOptimize;
            },
        };
        let job = OptimizeJob {
            input: input.clone(),
            staging: join(staging_dir, name.as_slice()),
            output: wasm_opt_output_path(fleet_dir, name.as_slice()),
        };
        jobs.push(job);
        k = k + 1;
    }
    OptimizationPlan::Optimize(jobs)
}

} // verus!
