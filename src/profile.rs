//! The binary optimizer's configuration, chosen by the build mode.
use vstd::prelude::*;

verus! {

/// How hard the optimizer works.
#[derive(Debug, Clone, Copy, PartialEq, Eq, Structural)]
pub enum OptLevel {
    /// No optimization.
    Lowest,
    /// The most aggressive optimization.
    Highest,
}

/// A WebAssembly feature the optimizer may rely on.
#[derive(Debug, Clone, Copy, PartialEq, Eq, Structural)]
pub enum Feature {
    BulkMemory,
    Simd,
}

/// An optimizer pass added on top of those of the level.
#[derive(Debug, Clone, Copy, PartialEq, Eq, Structural)]
pub enum Pass {
    /// Strips embedded DWARF debug metadata.
    StripDwarf,
    /// Rewrites the module so that its execution can be suspended and resumed at the
    /// yield import.
    Asyncify,
}

/// The pass argument that names the imports at which execution may suspend.
pub const ASYNCIFY_IMPORTS: &'static str = "asyncify-imports";

/// The host's voluntary-yield import.
pub const SCHED_YIELD_IMPORT: &'static str = "wasi_snapshot_preview1.sched_yield";

/// What the optimizer is asked to do to a fleet binary.
#[derive(Debug, Clone)]
pub struct OptimizationProfile {
    pub level: OptLevel,
    /// Whether embedded debug metadata is kept.
    pub debug_info: bool,
    pub features: Vec<Feature>,
    /// Added passes, in order.
    pub passes: Vec<Pass>,
    /// Pass arguments, as (name, value).
    pub pass_args: Vec<(String, String)>,
}

/// The passes a profile adds: debug metadata is stripped in release mode, and the
/// cooperative-yield rewrite is added in both modes.
pub open spec fn passes_for(debug: bool) -> Seq<Pass> {
    if debug {
        seq![Pass::Asyncify]
    } else {
        seq![Pass::StripDwarf, Pass::Asyncify]
    }
}

/// The profile for a debug or a release build: a debug build keeps debug metadata at the
/// lowest level, a release build strips it at the highest; both enable bulk memory and
/// SIMD and rewrite the module to yield at the host's yield import.
pub fn optimization_profile(debug: bool) -> (r: OptimizationProfile)
    ensures
        r.level == (if debug {
            OptLevel::Lowest
        } else {
            OptLevel::Highest
        }),
        r.debug_info == debug,
        r.features@ == seq![Feature::BulkMemory, Feature::Simd],
        r.passes@ == passes_for(debug),
        r.pass_args@.len() == 1,
        r.pass_args@[0].0@ == ASYNCIFY_IMPORTS@,
        r.pass_args@[0].1@ == SCHED_YIELD_IMPORT@,
{
    let mut passes: Vec<Pass> = Vec::new();
    if !debug {
        passes.push(Pass::StripDwarf);
    }
    passes.push(Pass::Asyncify);
    let mut features: Vec<Feature> = Vec::new();
    features.push(Feature::BulkMemory);
    features.push(Feature::Simd);
    let mut pass_args: Vec<(String, String)> = Vec::new();
    pass_args.push((ASYNCIFY_IMPORTS.to_owned(), SCHED_YIELD_IMPORT.to_owned()));
    proof {
        assert(features@ =~= seq![Feature::BulkMemory, Feature::Simd]);
        assert(passes@ =~= passes_for(debug));
    }
    OptimizationProfile {
        level: if debug {
            OptLevel::Lowest
        } else {
            OptLevel::Highest
        },
        debug_info: debug,
        features,
        passes,
        pass_args,
    }
}

/// A release profile always holds the cooperative-yield rewrite; a debug profile keeps
/// debug metadata and uses the lowest level.
pub proof fn lemma_profile_modes(debug: bool, r: OptimizationProfile)
    requires
        r.level == (if debug {
            OptLevel::Lowest
        } else {
            OptLevel::Highest
        }),
        r.debug_info == debug,
        r.passes@ == passes_for(debug),
    ensures
        !debug ==> r.passes@.contains(Pass::Asyncify) && !r.debug_info,
        debug ==> r.debug_info && r.level == OptLevel::Lowest,
{
    if !debug {
        assert(r.passes@[1] == Pass::Asyncify);
    }
}

} // verus!
