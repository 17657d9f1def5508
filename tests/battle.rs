use cargo_protologic::battle::{
    battle_output_path, plan_battle, protologic_player_path, protologic_sim_path, BattleError,
    ConfigError, Platform,
};
use cargo_protologic::naming::NameError;

fn fleets(names: &[&str]) -> Vec<Vec<u8>> {
    names.iter().map(|n| n.as_bytes().to_vec()).collect()
}

#[test]
fn battle_of_alpha_and_beta_at_1000() {
    let listed = fleets(&["target/protologic_fleets/alpha.wasm", "target/protologic_fleets/beta.wasm"]);
    let plan = plan_battle(&listed, b"/opt/release", Platform::Windows, b"/home/u", 1000, false, true)
        .unwrap();
    assert_eq!(plan.output, b"/home/u/1000_alpha_beta".to_vec());
    assert!(plan.output.ends_with(b"1000_alpha_beta"));
    assert_eq!(
        plan.simulator,
        b"/opt/release/Sim/Windows/Protologic.Terminal.exe".to_vec()
    );
    let expected_args: Vec<Vec<u8>> = vec![
        b"--fleets".to_vec(),
        listed[0].clone(),
        listed[1].clone(),
        b"--debug".to_vec(),
        b"false".to_vec(),
        b"--output".to_vec(),
        b"/home/u/1000_alpha_beta".to_vec(),
    ];
    assert_eq!(plan.args, expected_args);
    let player = plan.player.unwrap();
    assert_eq!(player.program, b"/opt/release/Player/Windows/PROTOLOGIC.exe".to_vec());
    assert_eq!(player.replay, b"/home/u/1000_alpha_beta.json.deflate".to_vec());
}

#[test]
fn battle_order_follows_listing() {
    let listed = fleets(&["beta.wasm", "alpha.wasm"]);
    let plan = plan_battle(&listed, b"rel", Platform::Linux, b"", 7, true, false).unwrap();
    assert_eq!(plan.output, b"7_beta_alpha".to_vec());
    assert_eq!(plan.args[4], b"true".to_vec());
    assert_eq!(plan.simulator, b"rel/Sim/Linux/Protologic.Terminal".to_vec());
    assert!(plan.player.is_none());
}

#[test]
fn battle_needs_exactly_two_fleets() {
    for n in [0usize, 1, 3, 4] {
        let names: Vec<String> = (0..n).map(|i| format!("f{i}.wasm")).collect();
        let listed: Vec<Vec<u8>> = names.iter().map(|s| s.as_bytes().to_vec()).collect();
        let r = plan_battle(&listed, b"rel", Platform::Windows, b"/tmp", 1000, false, true);
        assert_eq!(r.unwrap_err(), BattleError::WrongFleetCount { found: n });
    }
}

#[test]
fn battle_with_unnamed_fleet_fails() {
    let listed = fleets(&["alpha.wasm", "/"]);
    let r = plan_battle(&listed, b"rel", Platform::Windows, b"/tmp", 1000, false, false);
    assert_eq!(r.unwrap_err(), BattleError::Name(NameError::MissingFileName));
}

#[test]
fn player_is_unsupported_on_linux() {
    let listed = fleets(&["alpha.wasm", "beta.wasm"]);
    let r = plan_battle(&listed, b"rel", Platform::Linux, b"/tmp", 1000, false, true);
    assert_eq!(r.unwrap_err(), BattleError::Config(ConfigError::PlayerUnsupported));
    assert_eq!(protologic_player_path(b"rel", Platform::Linux), Err(ConfigError::PlayerUnsupported));
}

#[test]
fn simulator_is_unsupported_elsewhere() {
    assert_eq!(protologic_sim_path(b"rel", Platform::Other), Err(ConfigError::SimulatorUnsupported));
    let listed = fleets(&["alpha.wasm", "beta.wasm"]);
    let r = plan_battle(&listed, b"rel", Platform::Other, b"/tmp", 1000, false, false);
    assert_eq!(r.unwrap_err(), BattleError::Config(ConfigError::SimulatorUnsupported));
}

#[test]
fn battle_output_writes_timestamp_in_decimal() {
    let out = battle_output_path(b"/w/", 1700000000, b"x.wasm", b"y.wasm").unwrap();
    assert_eq!(out, b"/w/1700000000_x_y".to_vec());
    let out = battle_output_path(b"/w", 0, b"x.wasm", b"y.wasm").unwrap();
    assert_eq!(out, b"/w/0_x_y".to_vec());
    let out = battle_output_path(b"/w", u64::MAX, b"x", b"y").unwrap();
    assert_eq!(out, b"/w/18446744073709551615_x_y".to_vec());
}

#[test]
fn battle_output_rejects_non_unicode_name() {
    let bad: Vec<u8> = vec![0xc3, b'.', b'w', b'a', b's', b'm'];
    assert_eq!(
        battle_output_path(b"/w", 1, b"x.wasm", &bad),
        Err(NameError::NonUnicodeName)
    );
}
