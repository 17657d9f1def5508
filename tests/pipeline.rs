use cargo_protologic::fleet_build::{
    build_args, cargo_output_base_path, check_build_exit, plan_optimization, select_packages,
    select_wasm_outputs, wasm_opt_output_path, BuildError, OptimizationPlan, ScannedEntry,
};
use cargo_protologic::path::{extension, file_name, join, with_extension};
use cargo_protologic::profile::{optimization_profile, Feature, OptLevel, Pass};

fn entry(p: &str, is_file: bool) -> ScannedEntry {
    ScannedEntry { path: p.as_bytes().to_vec(), is_file }
}

#[test]
fn release_profile_has_yield_rewrite_and_strips_debug_info() {
    let p = optimization_profile(false);
    assert_eq!(p.level, OptLevel::Highest);
    assert!(!p.debug_info);
    assert_eq!(p.passes, vec![Pass::StripDwarf, Pass::Asyncify]);
    assert_eq!(p.features, vec![Feature::BulkMemory, Feature::Simd]);
    assert_eq!(
        p.pass_args,
        vec![("asyncify-imports".to_string(), "wasi_snapshot_preview1.sched_yield".to_string())]
    );
}

#[test]
fn debug_profile_keeps_debug_info_at_lowest_level() {
    let p = optimization_profile(true);
    assert_eq!(p.level, OptLevel::Lowest);
    assert!(p.debug_info);
    assert_eq!(p.passes, vec![Pass::Asyncify]);
}

#[test]
fn profile_is_the_same_each_time() {
    for debug in [false, true] {
        let a = optimization_profile(debug);
        let b = optimization_profile(debug);
        assert_eq!(a.level, b.level);
        assert_eq!(a.passes, b.passes);
        assert_eq!(a.features, b.features);
        assert_eq!(a.pass_args, b.pass_args);
        assert_eq!(a.debug_info, b.debug_info);
    }
}

#[test]
fn no_binaries_means_nothing_to_optimize() {
    let entries = vec![entry("t/deps", false), entry("t/libx.rlib", true), entry("t/README", true)];
    let plan = plan_optimization(&entries, b"./target/protologic_fleets/", b"./target/staging");
    assert!(matches!(plan, OptimizationPlan::NothingToOptimize));
    let plan = plan_optimization(&Vec::new(), b"f", b"s");
    assert!(matches!(plan, OptimizationPlan::NothingToOptimize));
}

#[test]
fn binaries_are_planned_in_order() {
    let entries = vec![
        entry("out/alpha.wasm", true),
        entry("out/skip.wasm", false),
        entry("out/notes.txt", true),
        entry("out/beta.wasm", true),
    ];
    let plan = plan_optimization(&entries, b"./target/protologic_fleets/", b"./target/staging");
    let jobs = match plan {
        OptimizationPlan::Optimize(j) => j,
        OptimizationPlan::NothingToOptimize => panic!("expected jobs"),
    };
    assert_eq!(jobs.len(), 2);
    assert_eq!(jobs[0].input, b"out/alpha.wasm".to_vec());
    assert_eq!(jobs[0].output, b"./target/protologic_fleets/alpha.wasm".to_vec());
    assert_eq!(jobs[0].staging, b"./target/staging/alpha.wasm".to_vec());
    assert_eq!(jobs[1].output, b"./target/protologic_fleets/beta.wasm".to_vec());
}

#[test]
fn only_wasm_files_are_selected() {
    let entries = vec![entry("a.wasm", true), entry("b.WASM", true), entry(".wasm", true), entry("c.wasm", true)];
    assert_eq!(select_wasm_outputs(&entries), vec![b"a.wasm".to_vec(), b"c.wasm".to_vec()]);
}

#[test]
fn packages_default_to_workspace_members() {
    let d = vec!["one".to_string(), "two".to_string()];
    assert_eq!(select_packages(None, d.clone()).unwrap(), d);
    let named = vec!["three".to_string()];
    assert_eq!(select_packages(Some(named.clone()), d).unwrap(), named);
    assert!(matches!(select_packages(None, Vec::new()), Err(BuildError::NoPackages)));
    assert!(matches!(select_packages(Some(Vec::new()), vec!["x".to_string()]), Err(BuildError::NoPackages)));
}

#[test]
fn build_arguments() {
    let pkg = "my_fleet".to_string();
    assert_eq!(
        build_args(&pkg, false),
        vec!["rustc", "-p", "my_fleet", "--crate-type", "cdylib", "--target", "wasm32-wasi", "--release"]
    );
    assert_eq!(
        build_args(&pkg, true),
        vec!["rustc", "-p", "my_fleet", "--crate-type", "cdylib", "--target", "wasm32-wasi"]
    );
}

#[test]
fn failed_toolchain_stops_the_build() {
    let pkg = "broken".to_string();
    assert!(check_build_exit(&pkg, true, Some(0)).is_ok());
    match check_build_exit(&pkg, false, Some(101)) {
        Err(BuildError::ToolchainFailed { package, exit_code }) => {
            assert_eq!(package, "broken");
            assert_eq!(exit_code, Some(101));
        }
        _ => panic!("expected a toolchain failure"),
    }
}

#[test]
fn output_directories() {
    assert_eq!(cargo_output_base_path(b"/ws/target", true), b"/ws/target/./wasm32-wasi/debug/".to_vec());
    assert_eq!(cargo_output_base_path(b"/ws/target/", false), b"/ws/target/./wasm32-wasi/release/".to_vec());
    assert_eq!(wasm_opt_output_path(b"./target/protologic_fleets/", b"a.wasm"), b"./target/protologic_fleets/a.wasm".to_vec());
}

#[test]
fn path_operations() {
    assert_eq!(join(b"a", b"/abs"), b"/abs".to_vec());
    assert_eq!(join(b"", b"x"), b"x".to_vec());
    assert_eq!(file_name(b"a/b/./"), Some(b"b".to_vec()));
    assert_eq!(file_name(b"./"), None);
    assert_eq!(extension(b"a/b.tar.gz"), Some(b"gz".to_vec()));
    assert_eq!(extension(b".bashrc"), None);
    assert_eq!(with_extension(b"a/b.wasm", b"json.deflate"), b"a/b.json.deflate".to_vec());
    assert_eq!(with_extension(b"a/b", b""), b"a/b".to_vec());
    assert_eq!(with_extension(b"..", b"x"), b"..".to_vec());
}
