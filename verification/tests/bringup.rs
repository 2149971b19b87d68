use mujina_miner::bringup::{
    chain_baud_for, firmware_version, thread_name, BoardAction, BringupError, BringupStep, ChainBaud,
    BOARD_ID, BOARD_MODEL,
};
use mujina_miner::config::{EnvValues, FloatReading, S19xpConfig};
use mujina_miner::discovery::{ChipDiscovery, DiscoveryError, DiscoveryEvent};

fn config(env: EnvValues) -> S19xpConfig {
    let env = EnvValues {
        asic_tty: Some("/dev/ttyS1".to_string()),
        ..env
    };
    S19xpConfig::from_env_values(&env, FloatReading::InRange, FloatReading::InRange).unwrap()
}

fn describe(actions: &[BoardAction]) -> Vec<String> {
    actions.iter().map(|a| format!("{a:?}")).collect()
}

fn chip(bm1366: bool, address: u8) -> DiscoveryEvent {
    DiscoveryEvent::ChipId { bm1366, chip_id: [0x13, 0x66], core_count: 112, address }
}

#[test]
fn default_power_up_replays_the_apw12_sequence() {
    let c = config(EnvValues::default());
    let actions = c.power_up_actions(238);
    let expected = vec![
        BoardAction::Apw12Write(vec![0x00]),
        BoardAction::Sleep(500),
        BoardAction::Apw12Command(vec![0x02]),
        BoardAction::Sleep(800),
        BoardAction::Apw12Command(vec![0x01]),
        BoardAction::Sleep(400),
        BoardAction::SetChainRelease(false),
        BoardAction::Sleep(1_000),
        BoardAction::Apw12Command(vec![0x06, 0x40, 0x20]),
        BoardAction::Sleep(900),
        BoardAction::Apw12Command(vec![0x81, 0x00, 0x00]),
        BoardAction::Sleep(1_400),
        BoardAction::SetPowerEnable(true),
        BoardAction::Apw12Command(vec![0x83, 238, 0x00]),
        BoardAction::Sleep(600),
        BoardAction::Apw12Command(vec![0x03]),
        BoardAction::Sleep(2_000),
        BoardAction::SetChainRelease(false),
        BoardAction::Sleep(200),
        BoardAction::SetChainRelease(true),
        BoardAction::Sleep(100),
        BoardAction::SetChainRelease(false),
        BoardAction::Sleep(100),
        BoardAction::SetChainRelease(true),
        BoardAction::Sleep(1_000),
    ];
    assert_eq!(describe(&actions), describe(&expected));
}

#[test]
fn apw12_sequence_without_gpio_lines_touches_no_line() {
    let c = config(EnvValues {
        ps_enable_gpio: Some("none".to_string()),
        chain_reset_gpio: Some("disable".to_string()),
        ps_enable_delay_ms: Some("10".to_string()),
        ..Default::default()
    });
    let actions = c.power_up_actions(7);
    assert_eq!(actions.len(), 15);
    for a in &actions {
        assert!(!matches!(a, BoardAction::SetPowerEnable(_) | BoardAction::SetChainRelease(_)));
    }
    assert_eq!(format!("{:?}", actions[11]), format!("{:?}", BoardAction::Apw12Command(vec![0x83, 7, 0])));
    assert_eq!(format!("{:?}", actions[14]), format!("{:?}", BoardAction::Sleep(10)));
}

#[test]
fn power_up_without_apw12_just_enables_the_supply() {
    let c = config(EnvValues { apw12_startup: Some("false".to_string()), ..Default::default() });
    assert_eq!(
        describe(&c.power_up_actions(0)),
        describe(&[BoardAction::SetPowerEnable(true), BoardAction::Sleep(2_000)])
    );
    let c = config(EnvValues {
        apw12_startup: Some("false".to_string()),
        ps_enable_gpio: Some(String::new()),
        ..Default::default()
    });
    assert!(c.power_up_actions(0).is_empty());
}

#[test]
fn reset_gpio_pulses_around_discovery() {
    let c = config(EnvValues { reset_gpio: Some("23".to_string()), ..Default::default() });
    assert_eq!(
        describe(&c.chain_release_actions()),
        describe(&[
            BoardAction::SetAsicEnable(false),
            BoardAction::Sleep(200),
            BoardAction::SetAsicEnable(true),
            BoardAction::Sleep(500),
        ])
    );
    assert_eq!(describe(&c.chain_hold_actions()), describe(&[BoardAction::SetAsicEnable(false)]));
    let c = config(EnvValues::default());
    assert!(c.chain_release_actions().is_empty());
    assert!(c.chain_hold_actions().is_empty());
}

#[test]
fn baud_switch_only_when_rates_differ() {
    let c = config(EnvValues::default());
    assert!(c.baud_switch_actions().unwrap().is_empty());
    let c = config(EnvValues { baud: Some("3000000".to_string()), ..Default::default() });
    assert_eq!(
        describe(&c.baud_switch_actions().unwrap()),
        describe(&[
            BoardAction::SendChainBaud(ChainBaud::Baud3M),
            BoardAction::Sleep(100),
            BoardAction::SetHostBaud(3_000_000),
            BoardAction::Sleep(100),
        ])
    );
    let c = config(EnvValues { baud: Some("9600".to_string()), ..Default::default() });
    assert_eq!(c.baud_switch_actions().unwrap_err(), BringupError::UnsupportedBaud(9600));
    let c = config(EnvValues {
        baud: Some("9600".to_string()),
        startup_baud: Some("9600".to_string()),
        ..Default::default()
    });
    assert!(c.baud_switch_actions().unwrap().is_empty());
}

#[test]
fn chain_baud_rates() {
    assert_eq!(chain_baud_for(115_200), Ok(ChainBaud::Baud115200));
    assert_eq!(chain_baud_for(1_000_000), Ok(ChainBaud::Baud1M));
    assert_eq!(chain_baud_for(3_000_000), Ok(ChainBaud::Baud3M));
    assert_eq!(chain_baud_for(2_000_000), Err(BringupError::UnsupportedBaud(2_000_000)));
}

#[test]
fn power_down_switches_the_supply_off() {
    let c = config(EnvValues::default());
    assert_eq!(describe(&c.power_down_actions()), describe(&[BoardAction::SetPowerEnable(false)]));
    let c = config(EnvValues { ps_enable_gpio: Some("none".to_string()), ..Default::default() });
    assert!(c.power_down_actions().is_empty());
}

#[test]
fn thread_names_count_the_chips() {
    assert_eq!(thread_name(110), "S19XP-Amlogic-BM1366-110ch");
    assert_eq!(thread_name(0), "S19XP-Amlogic-BM1366-0ch");
}

#[test]
fn discovery_collects_bm1366_answers_in_order() {
    let mut d = ChipDiscovery::new(3);
    assert!(d.wants_more());
    d.observe(chip(true, 0));
    d.observe(DiscoveryEvent::OtherResponse);
    d.observe(chip(false, 2));
    d.observe(DiscoveryEvent::DecodeError);
    d.observe(chip(true, 4));
    assert_eq!(d.found(), 2);
    assert!(d.wants_more());
    d.observe(chip(true, 6));
    assert!(!d.wants_more());
    d.observe(chip(true, 8));
    let chips = d.finish().unwrap();
    let addresses: Vec<u8> = chips.iter().map(|c| c.address).collect();
    assert_eq!(addresses, vec![0, 4, 6]);
    assert!(chips.iter().all(|c| c.supports_version_rolling && c.core_count == 112));
    assert_eq!(chips[0].chip_id, [0x13, 0x66]);
}

#[test]
fn discovery_stops_at_stream_end_or_deadline() {
    let mut d = ChipDiscovery::new(110);
    d.observe(chip(true, 0));
    d.observe(DiscoveryEvent::StreamEnded);
    assert!(!d.wants_more());
    d.observe(chip(true, 2));
    assert_eq!(d.finish().unwrap().len(), 1);

    let mut d = ChipDiscovery::new(110);
    d.observe(chip(false, 0));
    d.observe(DiscoveryEvent::DeadlinePassed);
    assert!(!d.wants_more());
    assert_eq!(d.finish().unwrap_err(), DiscoveryError::NoChipsDiscovered);
}

#[test]
fn discovery_expecting_no_chips_finds_none() {
    let d = ChipDiscovery::new(0);
    assert!(!d.wants_more());
    assert_eq!(d.finish().unwrap_err(), DiscoveryError::NoChipsDiscovered);
}

#[test]
fn board_identity() {
    assert_eq!(BOARD_ID, "s19xp-amlogic");
    assert_eq!(BOARD_MODEL, "Antminer S19XP Amlogic");
    assert_eq!(firmware_version(true), "local-linux-probe");
    assert_eq!(firmware_version(false), "local-linux");
}

fn describe_plan(plan: &[BringupStep]) -> Vec<String> {
    plan.iter().map(|s| format!("{s:?}")).collect()
}

#[test]
fn bring_up_plan_orders_the_stages() {
    let c = config(EnvValues {
        apw12_startup: Some("no".to_string()),
        reset_gpio: Some("23".to_string()),
        baud: Some("1000000".to_string()),
        probe_only: Some("yes".to_string()),
        ..Default::default()
    });
    let expected = vec![
        BringupStep::Act(BoardAction::SetPowerEnable(true)),
        BringupStep::Act(BoardAction::Sleep(2_000)),
        BringupStep::OpenUart,
        BringupStep::Act(BoardAction::SetAsicEnable(false)),
        BringupStep::Act(BoardAction::Sleep(200)),
        BringupStep::Act(BoardAction::SetAsicEnable(true)),
        BringupStep::Act(BoardAction::Sleep(500)),
        BringupStep::Discover,
        BringupStep::Act(BoardAction::SetAsicEnable(false)),
        BringupStep::Act(BoardAction::SendChainBaud(ChainBaud::Baud1M)),
        BringupStep::Act(BoardAction::Sleep(100)),
        BringupStep::Act(BoardAction::SetHostBaud(1_000_000)),
        BringupStep::Act(BoardAction::Sleep(100)),
        BringupStep::Act(BoardAction::SetPowerEnable(false)),
    ];
    assert_eq!(describe_plan(&c.bring_up_plan(0)), describe_plan(&expected));
}

#[test]
fn default_bring_up_plan_powers_up_before_discovery() {
    let c = config(EnvValues::default());
    let plan = c.bring_up_plan(238);
    let discover = plan.iter().position(|s| matches!(s, BringupStep::Discover)).unwrap();
    assert_eq!(discover, 26);
    assert!(matches!(plan[25], BringupStep::OpenUart));
    let enable = plan
        .iter()
        .position(|s| matches!(s, BringupStep::Act(BoardAction::SetPowerEnable(true))))
        .unwrap();
    assert!(enable < discover);
    assert!(plan[discover + 1..].iter().all(|s| !matches!(
        s,
        BringupStep::Act(BoardAction::Apw12Command(_))
            | BringupStep::Act(BoardAction::Apw12Write(_))
            | BringupStep::Act(BoardAction::SetPowerEnable(_))
    )));
    assert_eq!(plan.len(), 27);
}

#[test]
fn bring_up_plan_stops_at_an_unsupported_baud() {
    let c = config(EnvValues {
        baud: Some("9600".to_string()),
        reset_gpio: Some("5".to_string()),
        probe_only: Some("true".to_string()),
        ..Default::default()
    });
    let plan = c.bring_up_plan(238);
    let n = plan.len();
    assert_eq!(
        format!("{:?}", plan[n - 1]),
        format!("{:?}", BringupStep::Refuse(BringupError::UnsupportedBaud(9600)))
    );
    assert_eq!(
        format!("{:?}", plan[n - 2]),
        format!("{:?}", BringupStep::Act(BoardAction::SetAsicEnable(false)))
    );
    assert!(matches!(plan[n - 3], BringupStep::Discover));
}
