//! Battles: the simulator and viewer locations, the replay's name, and what is run.
use vstd::prelude::*;
use vstd::string::StringSliceAdditionalSpecFns;
use crate::naming::{extracted_name, fleet_name_bytes, fleet_name_of, name_text, NameError};
use crate::path::{append_bytes, copy_range, join, join_of, with_extension, with_extension_of};

verus! {

/// The operating system the tool runs on.
#[derive(Debug, Clone, Copy, PartialEq, Eq, Structural)]
pub enum Platform {
    Windows,
    Linux,
    Other,
}

/// A tool that the platform does not offer.
#[derive(Debug, Clone, Copy, PartialEq, Eq, Structural)]
pub enum ConfigError {
    SimulatorUnsupported,
    PlayerUnsupported,
}

/// Why a battle cannot run.
#[derive(Debug, Clone, Copy, PartialEq, Eq, Structural)]
pub enum BattleError {
    /// A battle needs exactly two built fleets; `found` were listed.
    WrongFleetCount { found: usize },
    /// A fleet's artifact gives no name.
    Name(NameError),
    /// The simulator or the viewer is not available here.
    Config(ConfigError),
}

pub const SIM_WINDOWS: &'static str = "Sim/Windows/Protologic.Terminal.exe";

pub const SIM_LINUX: &'static str = "Sim/Linux/Protologic.Terminal";

pub const PLAYER_WINDOWS: &'static str = "Player/Windows/PROTOLOGIC.exe";

/// The extension of the compressed replay that the simulator writes beside its output.
pub const REPLAY_EXTENSION: &'static str = "json.deflate";

pub const UNDERSCORE: u8 = 95;

/// The simulator below the release directory `root`, on `platform`.
pub open spec fn sim_path_of(root: Seq<u8>, platform: Platform) -> Result<Seq<u8>, ConfigError> {
    match platform {
        Platform::Windows => Ok(join_of(root, SIM_WINDOWS.spec_bytes())),
        Platform::Linux => Ok(join_of(root, SIM_LINUX.spec_bytes())),
        Platform::Other => Err(ConfigError::SimulatorUnsupported),
    }
}

/// The replay viewer below the release directory `root`, on `platform`; only Windows has one.
pub open spec fn player_path_of(root: Seq<u8>, platform: Platform) -> Result<
    Seq<u8>,
    ConfigError,
> {
    match platform {
        Platform::Windows => Ok(join_of(root, PLAYER_WINDOWS.spec_bytes())),
        _ => Err(ConfigError::PlayerUnsupported),
    }
}

/// The simulator's executable.
pub fn protologic_sim_path(protologic_path: &[u8], platform: Platform) -> (r: Result<
    Vec<u8>,
    ConfigError,
>)
    ensures
        match r {
            Ok(v) => sim_path_of(protologic_path@, platform) == Ok::<Seq<u8>, ConfigError>(v@),
            Err(e) => sim_path_of(protologic_path@, platform) == Err::<Seq<u8>, ConfigError>(e),
        },
{
    match platform {
        Platform::Windows => Ok(join(protologic_path, SIM_WINDOWS.as_bytes())),
        Platform::Linux => Ok(join(protologic_path, SIM_LINUX.as_bytes())),
        Platform::Other => Err(ConfigError::SimulatorUnsupported),
    }
}

/// The replay viewer's executable.
pub fn protologic_player_path(protologic_path: &[u8], platform: Platform) -> (r: Result<
    Vec<u8>,
    ConfigError,
>)
    ensures
        match r {
            Ok(v) => player_path_of(protologic_path@, platform) == Ok::<Seq<u8>, ConfigError>(v@),
            Err(e) => player_path_of(protologic_path@, platform) == Err::<Seq<u8>, ConfigError>(e),
        },
{
    match platform {
        Platform::Windows => Ok(join(protologic_path, PLAYER_WINDOWS.as_bytes())),
        _ => Err(ConfigError::PlayerUnsupported),
    }
}

/// The decimal digits of `n`, most significant first.
pub open spec fn decimal_of(n: nat) -> Seq<u8>
    decreases n,
{
    if n < 10 {
        seq![(48 + n) as u8]
    } else {
        decimal_of(n / 10).push((48 + n % 10) as u8)
    }
}

/// Appends the decimal digits of `n` to `r`.
pub fn write_decimal(r: &mut Vec<u8>, n: u64)
    ensures
        final(r)@ == old(r)@ + decimal_of(n as nat),
    decreases n,
{
    if n >= 10 {
        write_decimal(r, n / 10);
    }
    let digit: u8 = (48 + n % 10) as u8;
    r.push(digit);
    assert(final(r)@ =~= old(r)@ + decimal_of(n as nat));
}

/// The battle's name: `{now}_{name1}_{name2}`.
pub open spec fn battle_file_name(now: u64, name1: Seq<u8>, name2: Seq<u8>) -> Seq<u8> {
    decimal_of(now as nat).push(UNDERSCORE) + name1.push(UNDERSCORE) + name2
}

/// Where the simulator writes the battle of the fleets at `fleet1` and `fleet2`, started at
/// unix time `now`, from the directory `cwd`.
pub open spec fn battle_output_of(cwd: Seq<u8>, now: u64, fleet1: Seq<u8>, fleet2: Seq<u8>) -> Result<
    Seq<u8>,
    NameError,
> {
    match (extracted_name(fleet1), extracted_name(fleet2)) {
        (Err(e), _) => Err(e),
        (Ok(_), Err(e)) => Err(e),
        (Ok(_), Ok(_)) => Ok(
            join_of(
                cwd,
                battle_file_name(now, fleet_name_of(fleet1)->Some_0, fleet_name_of(fleet2)->Some_0),
            ),
        ),
    }
}

/// The fleet name of `p`, as bytes that are known to be text.
fn checked_name(p: &[u8]) -> (r: Result<Vec<u8>, NameError>)
    ensures
        match r {
            Ok(v) => extracted_name(p@) is Ok && fleet_name_of(p@) == Some(v@),
            Err(e) => extracted_name(p@) == Err::<Seq<char>, NameError>(e),
        },
{
    match fleet_name_bytes(p) {
        None => Err(NameError::MissingFileName),
        Some(n) => match name_text(n.as_slice()) {
            Ok(_) => Ok(n),
            Err(e) => Err(e),
        },
    }
}

/// Where the simulator writes the battle of the fleets at `fleet1` and `fleet2`.
pub fn battle_output_path(cwd: &[u8], now: u64, fleet1: &[u8], fleet2: &[u8]) -> (r: Result<
    Vec<u8>,
    NameError,
>)
    ensures
        match r {
            Ok(v) => battle_output_of(cwd@, now, fleet1@, fleet2@) == Ok::<Seq<u8>, NameError>(v@),
            Err(e) => battle_output_of(cwd@, now, fleet1@, fleet2@) == Err::<Seq<u8>, NameError>(e),
        },
{
    let name1 = match checked_name(fleet1) {
        Ok(n) => n,
        Err(e) => {
            return Err(e);
        },
    };
    let name2 = match checked_name(fleet2) {
        Ok(n) => n,
        Err(e) => {
            return Err(e);
        },
    };
    let mut file: Vec<u8> = Vec::new();
    write_decimal(&mut file, now);
    file.push(UNDERSCORE);
    append_bytes(&mut file, name1.as_slice());
    file.push(UNDERSCORE);
    append_bytes(&mut file, name2.as_slice());
    assert(file@ =~= battle_file_name(now, name1@, name2@));
    Ok(join(cwd, file.as_slice()))
}

/// The viewer and the replay it opens.
#[derive(Debug, Clone)]
pub struct PlayerLaunch {
    pub program: Vec<u8>,
    pub replay: Vec<u8>,
}

/// One battle: the simulator with its arguments, the output it writes, and the viewer to
/// open afterwards, if asked for.
#[derive(Debug, Clone)]
pub struct BattlePlan {
    pub simulator: Vec<u8>,
    pub args: Vec<Vec<u8>>,
    pub output: Vec<u8>,
    pub player: Option<PlayerLaunch>,
}

/// A battle plan as values: (simulator, arguments, output, (viewer, replay)).
pub type PlanView = (Seq<u8>, Seq<Seq<u8>>, Seq<u8>, Option<(Seq<u8>, Seq<u8>)>);

impl BattlePlan {
    pub open spec fn view(&self) -> PlanView {
        (
            self.simulator@,
            self.args@.map_values(|a: Vec<u8>| a@),
            self.output@,
            match self.player {
                Some(l) => Some((l.program@, l.replay@)),
                None => None,
            },
        )
    }
}

/// The spelling of a flag's value.
pub open spec fn bool_text(b: bool) -> Seq<u8> {
    if b {
        "true".spec_bytes()
    } else {
        "false".spec_bytes()
    }
}

/// The simulator's arguments for a battle of `fleet1` and `fleet2` written to `output`.
pub open spec fn sim_args_of(fleet1: Seq<u8>, fleet2: Seq<u8>, debug: bool, output: Seq<u8>) -> Seq<
    Seq<u8>,
> {
    seq![
        "--fleets".spec_bytes(),
        fleet1,
        fleet2,
        "--debug".spec_bytes(),
        bool_text(debug),
        "--output".spec_bytes(),
        output,
    ]
}

/// The battle between the listed `fleets`: exactly two are needed. The simulator is given
/// both artifacts, the debug flag and the output path; with `open_player` the viewer is
/// given the compressed replay beside that output.
pub open spec fn battle_plan_of(
    fleets: Seq<Seq<u8>>,
    protologic_path: Seq<u8>,
    platform: Platform,
    cwd: Seq<u8>,
    now: u64,
    debug: bool,
    open_player: bool,
) -> Result<PlanView, BattleError> {
    if fleets.len() != 2 {
        Err(BattleError::WrongFleetCount { found: fleets.len() as usize })
    } else {
        match battle_output_of(cwd, now, fleets[0], fleets[1]) {
            Err(e) => Err(BattleError::Name(e)),
            Ok(out) => match sim_path_of(protologic_path, platform) {
                Err(c) => Err(BattleError::Config(c)),
                Ok(sim) => {
                    let args = sim_args_of(fleets[0], fleets[1], debug, out);
                    if !open_player {
                        Ok((sim, args, out, None))
                    } else {
                        match player_path_of(protologic_path, platform) {
                            Err(c) => Err(BattleError::Config(c)),
                            Ok(player) => Ok(
                                (
                                    sim,
                                    args,
                                    out,
                                    Some(
                                        (
                                            player,
                                            with_extension_of(out, REPLAY_EXTENSION.spec_bytes()),
                                        ),
                                    ),
                                ),
                            ),
                        }
                    }
                },
            },
        }
    }
}

fn owned_bytes(s: &str) -> (r: Vec<u8>)
    ensures
        r@ == s.spec_bytes(),
{
    let b = s.as_bytes();
    copy_range(b, 0, b.len())
}

/// Plans the battle between the fleets listed in the fleet directory, in listing order.
pub fn plan_battle(
    fleets: &Vec<Vec<u8>>,
    protologic_path: &[u8],
    platform: Platform,
    cwd: &[u8],
    now: u64,
    debug: bool,
    open_player: bool,
) -> (r: Result<BattlePlan, BattleError>)
    ensures
        match r {
            Ok(p) => battle_plan_of(
                fleets@.map_values(|f: Vec<u8>| f@),
                protologic_path@,
                platform,
                cwd@,
                now,
                debug,
                open_player,
            ) == Ok::<PlanView, BattleError>(p.view()),
            Err(e) => battle_plan_of(
                fleets@.map_values(|f: Vec<u8>| f@),
                protologic_path@,
                platform,
                cwd@,
                now,
                debug,
                open_player,
            ) == Err::<PlanView, BattleError>(e),
        },
{
    let ghost fs = fleets@.map_values(|f: Vec<u8>| f@);
    if fleets.len() != 2 {
        return Err(BattleError::WrongFleetCount { found: fleets.len() });
    }
    let fleet1 = &fleets[0];
    let fleet2 = &fleets[1];
    assert(fs[0] == fleet1@ && fs[1] == fleet2@);
    let output = match battle_output_path(cwd, now, fleet1.as_slice(), fleet2.as_slice()) {
        Ok(o) => o,
        Err(e) => {
            return Err(BattleError::Name(e));
        },
    };
    let simulator = match protologic_sim_path(protologic_path, platform) {
        Ok(s) => s,
        Err(c) => {
            return Err(BattleError::Config(c));
        },
    };
    let player = if open_player {
        match protologic_player_path(protologic_path, platform) {
            Ok(program) => Some(
                PlayerLaunch {
                    program,
                    replay: with_extension(output.as_slice(), REPLAY_EXTENSION.as_bytes()),
                },
            ),
            Err(c) => {
                return Err(BattleError::Config(c));
            },
        }
    } else {
        None
    };
    let mut args: Vec<Vec<u8>> = Vec::new();
    args.push(owned_bytes("--fleets"));
    args.push(fleet1.clone());
    args.push(fleet2.clone());
    args.push(owned_bytes("--debug"));
    args.push(if debug {
        owned_bytes("true")
    } else {
        owned_bytes("false")
    });
    args.push(owned_bytes("--output"));
    args.push(output.clone());
    let plan = BattlePlan { simulator, args, output, player };
    assert(plan.view().1 =~= sim_args_of(fs[0], fs[1], debug, plan.output@));
    Ok(plan)
}

} // verus!
