use mujina_miner::config::{
    ConfigError, EnvValues, FloatReading, S19xpConfig, Setting, DEFAULT_APW12_I2C_ADDRESS,
};
use mujina_miner::values::ValueError;

fn with_tty() -> EnvValues {
    EnvValues {
        asic_tty: Some("/dev/ttyS1".to_string()),
        ..Default::default()
    }
}

fn read(env: &EnvValues) -> Result<S19xpConfig, ConfigError> {
    S19xpConfig::from_env_values(env, FloatReading::InRange, FloatReading::InRange)
}

#[test]
fn defaults_match_the_documented_values() {
    let c = read(&with_tty()).unwrap();
    assert_eq!(c.asic_tty, "/dev/ttyS1");
    assert_eq!(c.startup_baud_rate, 115_200);
    assert_eq!(c.baud_rate, 115_200);
    assert_eq!(c.expected_chips, 110);
    assert_eq!(c.nonce_range, 0x0000_1446);
    assert!(c.apw12_startup);
    assert_eq!(c.apw12_i2c_device, "/dev/i2c-1");
    assert_eq!(c.apw12_i2c_address, 0x10);
    assert_eq!(c.apw12_i2c_address, DEFAULT_APW12_I2C_ADDRESS);
    assert_eq!(c.ps_enable_gpio, Some(437));
    assert!(!c.ps_enable_active_high);
    assert_eq!(c.ps_enable_delay_ms, 2_000);
    assert_eq!(c.chain_reset_gpio, Some(456));
    assert_eq!(c.reset_gpio, None);
    assert!(c.reset_active_low);
    assert!(!c.probe_only);
}

#[test]
fn missing_tty_is_refused_first() {
    let env = EnvValues {
        baud: Some("fast".to_string()),
        ..Default::default()
    };
    assert_eq!(read(&env).unwrap_err(), ConfigError::MissingAsicTty);
}

#[test]
fn every_setting_is_read() {
    let env = EnvValues {
        asic_tty: Some("/dev/ttyS2".to_string()),
        baud: Some("3000000".to_string()),
        startup_baud: Some("1000000".to_string()),
        expected_chips: Some("+76".to_string()),
        nonce_range: Some(" 0X2000 ".to_string()),
        apw12_startup: Some("off".to_string()),
        apw12_i2c_device: Some("/dev/i2c-2".to_string()),
        apw12_i2c_address: Some("0x11".to_string()),
        ps_enable_gpio: Some("disabled".to_string()),
        ps_enable_active_high: Some("Yes".to_string()),
        ps_enable_delay_ms: Some("500".to_string()),
        chain_reset_gpio: Some("none".to_string()),
        reset_gpio: Some(" 23 ".to_string()),
        reset_active_low: Some("0".to_string()),
        probe_only: Some("1".to_string()),
        ..Default::default()
    };
    let c = read(&env).unwrap();
    assert_eq!(c.asic_tty, "/dev/ttyS2");
    assert_eq!(c.baud_rate, 3_000_000);
    assert_eq!(c.startup_baud_rate, 1_000_000);
    assert_eq!(c.expected_chips, 76);
    assert_eq!(c.nonce_range, 0x2000);
    assert!(!c.apw12_startup);
    assert_eq!(c.apw12_i2c_device, "/dev/i2c-2");
    assert_eq!(c.apw12_i2c_address, 0x11);
    assert_eq!(c.ps_enable_gpio, None);
    assert!(c.ps_enable_active_high);
    assert_eq!(c.ps_enable_delay_ms, 500);
    assert_eq!(c.chain_reset_gpio, None);
    assert_eq!(c.reset_gpio, Some(23));
    assert!(!c.reset_active_low);
    assert!(c.probe_only);
}

#[test]
fn blank_reset_gpio_means_none() {
    let env = EnvValues {
        reset_gpio: Some("   ".to_string()),
        ..with_tty()
    };
    assert_eq!(read(&env).unwrap().reset_gpio, None);
    let env = EnvValues {
        reset_gpio: Some("none".to_string()),
        ..with_tty()
    };
    assert_eq!(
        read(&env).unwrap_err(),
        ConfigError::Invalid { setting: Setting::ResetGpio, cause: ValueError::InvalidDigit }
    );
}

#[test]
fn legacy_pic_names_are_accepted() {
    let env = EnvValues {
        pic_startup: Some("no".to_string()),
        pic_i2c_device: Some("/dev/i2c-3".to_string()),
        pic_i2c_address: Some("0x20".to_string()),
        ..with_tty()
    };
    let c = read(&env).unwrap();
    assert!(!c.apw12_startup);
    assert_eq!(c.apw12_i2c_device, "/dev/i2c-3");
    assert_eq!(c.apw12_i2c_address, 0x20);
}

#[test]
fn apw12_names_take_precedence_over_legacy_ones() {
    let env = EnvValues {
        apw12_startup: Some("true".to_string()),
        pic_startup: Some("garbage".to_string()),
        apw12_i2c_device: Some("/dev/i2c-4".to_string()),
        pic_i2c_device: Some("/dev/i2c-3".to_string()),
        apw12_i2c_address: Some("0x12".to_string()),
        pic_i2c_address: Some("garbage".to_string()),
        ..with_tty()
    };
    let c = read(&env).unwrap();
    assert!(c.apw12_startup);
    assert_eq!(c.apw12_i2c_device, "/dev/i2c-4");
    assert_eq!(c.apw12_i2c_address, 0x12);
}

#[test]
fn malformed_values_name_their_setting() {
    let cases: Vec<(EnvValues, ConfigError)> = vec![
        (
            EnvValues { baud: Some(" 115200".to_string()), ..with_tty() },
            ConfigError::Invalid { setting: Setting::Baud, cause: ValueError::InvalidDigit },
        ),
        (
            EnvValues { startup_baud: Some("4294967296".to_string()), ..with_tty() },
            ConfigError::Invalid { setting: Setting::StartupBaud, cause: ValueError::Overflow },
        ),
        (
            EnvValues { expected_chips: Some(String::new()), ..with_tty() },
            ConfigError::Invalid { setting: Setting::ExpectedChips, cause: ValueError::Empty },
        ),
        (
            EnvValues { nonce_range: Some("0xzz".to_string()), ..with_tty() },
            ConfigError::Invalid { setting: Setting::NonceRange, cause: ValueError::InvalidDigit },
        ),
        (
            EnvValues { apw12_startup: Some("maybe".to_string()), ..with_tty() },
            ConfigError::Invalid { setting: Setting::Apw12Startup, cause: ValueError::NotABoolean },
        ),
        (
            EnvValues { pic_startup: Some("maybe".to_string()), ..with_tty() },
            ConfigError::Invalid { setting: Setting::PicStartup, cause: ValueError::NotABoolean },
        ),
        (
            EnvValues { pic_i2c_address: Some("0x10000".to_string()), ..with_tty() },
            ConfigError::Invalid { setting: Setting::Apw12I2cAddress, cause: ValueError::OutOfRange },
        ),
        (
            EnvValues { ps_enable_gpio: Some("gpio437".to_string()), ..with_tty() },
            ConfigError::Invalid { setting: Setting::PsEnableGpio, cause: ValueError::InvalidDigit },
        ),
        (
            EnvValues { ps_enable_active_high: Some("high".to_string()), ..with_tty() },
            ConfigError::Invalid {
                setting: Setting::PsEnableActiveHigh,
                cause: ValueError::NotABoolean,
            },
        ),
        (
            EnvValues { ps_enable_delay_ms: Some("2s".to_string()), ..with_tty() },
            ConfigError::Invalid { setting: Setting::PsEnableDelayMs, cause: ValueError::InvalidDigit },
        ),
        (
            EnvValues { chain_reset_gpio: Some("-1".to_string()), ..with_tty() },
            ConfigError::Invalid { setting: Setting::ChainResetGpio, cause: ValueError::InvalidDigit },
        ),
        (
            EnvValues { reset_active_low: Some("low".to_string()), ..with_tty() },
            ConfigError::Invalid { setting: Setting::ResetActiveLow, cause: ValueError::NotABoolean },
        ),
        (
            EnvValues { probe_only: Some("please".to_string()), ..with_tty() },
            ConfigError::Invalid { setting: Setting::ProbeOnly, cause: ValueError::NotABoolean },
        ),
    ];
    for (env, expected) in cases {
        assert_eq!(read(&env).unwrap_err(), expected);
    }
}

#[test]
fn first_malformed_setting_in_reading_order_is_reported() {
    let env = EnvValues {
        baud: Some("x".to_string()),
        probe_only: Some("x".to_string()),
        ..with_tty()
    };
    assert_eq!(
        read(&env).unwrap_err(),
        ConfigError::Invalid { setting: Setting::Baud, cause: ValueError::InvalidDigit }
    );
    let env = EnvValues {
        nonce_range: Some("x".to_string()),
        ..with_tty()
    };
    assert_eq!(
        S19xpConfig::from_env_values(&env, FloatReading::Unparsable, FloatReading::Unparsable)
            .unwrap_err(),
        ConfigError::Invalid { setting: Setting::FrequencyMhz, cause: ValueError::InvalidFloat }
    );
    assert_eq!(
        S19xpConfig::from_env_values(&env, FloatReading::OutOfRange, FloatReading::Unparsable)
            .unwrap_err(),
        ConfigError::Invalid { setting: Setting::NonceRange, cause: ValueError::InvalidDigit }
    );
}

#[test]
fn float_range_checks_come_after_reading() {
    let env = with_tty();
    assert_eq!(
        S19xpConfig::from_env_values(&env, FloatReading::InRange, FloatReading::Unparsable)
            .unwrap_err(),
        ConfigError::Invalid {
            setting: Setting::Apw12TargetVoltage,
            cause: ValueError::InvalidFloat
        }
    );
    let bad = EnvValues {
        probe_only: Some("x".to_string()),
        ..with_tty()
    };
    assert_eq!(
        S19xpConfig::from_env_values(&bad, FloatReading::OutOfRange, FloatReading::InRange)
            .unwrap_err(),
        ConfigError::Invalid { setting: Setting::ProbeOnly, cause: ValueError::NotABoolean }
    );
    assert_eq!(
        S19xpConfig::from_env_values(&env, FloatReading::OutOfRange, FloatReading::OutOfRange)
            .unwrap_err(),
        ConfigError::FrequencyOutOfRange
    );
    assert_eq!(
        S19xpConfig::from_env_values(&env, FloatReading::InRange, FloatReading::OutOfRange)
            .unwrap_err(),
        ConfigError::VoltageOutOfRange
    );
}

#[test]
fn env_keys_are_the_documented_variables() {
    assert_eq!(Setting::AsicTty.env_key(), "MUJINA_S19XP_ASIC_TTY");
    assert_eq!(Setting::PicStartup.env_key(), "MUJINA_S19XP_PIC_STARTUP");
    assert_eq!(Setting::Apw12TargetVoltage.env_key(), "MUJINA_S19XP_APW12_TARGET_VOLTAGE");
    assert_eq!(Setting::ProbeOnly.env_key(), "MUJINA_S19XP_PROBE_ONLY");
    assert_eq!(Setting::ChainResetGpio.env_key(), "MUJINA_S19XP_CHAIN_RESET_GPIO");
}
