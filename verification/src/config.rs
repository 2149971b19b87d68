//! The board's settings, read from the values of its `MUJINA_S19XP_*`
//! environment variables.
//!
//! Every setting but the ASIC UART path has a default. A malformed value is
//! refused with the setting that held it, in the order in which the settings
//! are read; the frequency and voltage range checks come last.
use vstd::prelude::*;

use crate::values::{
    lemma_decimal_is_a_gpio_number, lemma_decimal_reads_back, parse_bool, parse_decimal, parse_optional_u32, parse_u16_auto, parse_u32_auto,
    spec_parse_bool, spec_parse_optional_u32, spec_parse_u32_auto, spec_parse_unsigned, ValueError,
};
use crate::text::{chars_of, decimal, trim_chars, trimmed};

verus! {

/// One of the board's settings, by the environment variable that holds it.
#[derive(Debug, Clone, Copy, PartialEq, Eq, Structural)]
pub enum Setting {
    AsicTty,
    Baud,
    StartupBaud,
    ExpectedChips,
    FrequencyMhz,
    NonceRange,
    Apw12Startup,
    PicStartup,
    Apw12I2cDevice,
    PicI2cDevice,
    Apw12I2cAddress,
    PicI2cAddress,
    Apw12TargetVoltage,
    PsEnableGpio,
    PsEnableActiveHigh,
    PsEnableDelayMs,
    ChainResetGpio,
    ResetGpio,
    ResetActiveLow,
    ProbeOnly,
}

/// The name of the environment variable that holds `s`.
pub open spec fn spec_env_key(s: Setting) -> Seq<char> {
    match s {
        Setting::AsicTty => "MUJINA_S19XP_ASIC_TTY"@,
        Setting::Baud => "MUJINA_S19XP_BAUD"@,
        Setting::StartupBaud => "MUJINA_S19XP_STARTUP_BAUD"@,
        Setting::ExpectedChips => "MUJINA_S19XP_EXPECTED_CHIPS"@,
        Setting::FrequencyMhz => "MUJINA_S19XP_FREQUENCY_MHZ"@,
        Setting::NonceRange => "MUJINA_S19XP_NONCE_RANGE"@,
        Setting::Apw12Startup => "MUJINA_S19XP_APW12_STARTUP"@,
        Setting::PicStartup => "MUJINA_S19XP_PIC_STARTUP"@,
        Setting::Apw12I2cDevice => "MUJINA_S19XP_APW12_I2C_DEVICE"@,
        Setting::PicI2cDevice => "MUJINA_S19XP_PIC_I2C_DEVICE"@,
        Setting::Apw12I2cAddress => "MUJINA_S19XP_APW12_I2C_ADDRESS"@,
        Setting::PicI2cAddress => "MUJINA_S19XP_PIC_I2C_ADDRESS"@,
        Setting::Apw12TargetVoltage => "MUJINA_S19XP_APW12_TARGET_VOLTAGE"@,
        Setting::PsEnableGpio => "MUJINA_S19XP_PS_ENABLE_GPIO"@,
        Setting::PsEnableActiveHigh => "MUJINA_S19XP_PS_ENABLE_ACTIVE_HIGH"@,
        Setting::PsEnableDelayMs => "MUJINA_S19XP_PS_ENABLE_DELAY_MS"@,
        Setting::ChainResetGpio => "MUJINA_S19XP_CHAIN_RESET_GPIO"@,
        Setting::ResetGpio => "MUJINA_S19XP_RESET_GPIO"@,
        Setting::ResetActiveLow => "MUJINA_S19XP_RESET_ACTIVE_LOW"@,
        Setting::ProbeOnly => "MUJINA_S19XP_PROBE_ONLY"@,
    }
}

impl Setting {
    /// The name of the environment variable that holds this setting.
    pub fn env_key(&self) -> (res: &'static str)
        ensures
            res@ == spec_env_key(*self),
    {
        match self {
            Setting::AsicTty => "MUJINA_S19XP_ASIC_TTY",
            Setting::Baud => "MUJINA_S19XP_BAUD",
            Setting::StartupBaud => "MUJINA_S19XP_STARTUP_BAUD",
            Setting::ExpectedChips => "MUJINA_S19XP_EXPECTED_CHIPS",
            Setting::FrequencyMhz => "MUJINA_S19XP_FREQUENCY_MHZ",
            Setting::NonceRange => "MUJINA_S19XP_NONCE_RANGE",
            Setting::Apw12Startup => "MUJINA_S19XP_APW12_STARTUP",
            Setting::PicStartup => "MUJINA_S19XP_PIC_STARTUP",
            Setting::Apw12I2cDevice => "MUJINA_S19XP_APW12_I2C_DEVICE",
            Setting::PicI2cDevice => "MUJINA_S19XP_PIC_I2C_DEVICE",
            Setting::Apw12I2cAddress => "MUJINA_S19XP_APW12_I2C_ADDRESS",
            Setting::PicI2cAddress => "MUJINA_S19XP_PIC_I2C_ADDRESS",
            Setting::Apw12TargetVoltage => "MUJINA_S19XP_APW12_TARGET_VOLTAGE",
            Setting::PsEnableGpio => "MUJINA_S19XP_PS_ENABLE_GPIO",
            Setting::PsEnableActiveHigh => "MUJINA_S19XP_PS_ENABLE_ACTIVE_HIGH",
            Setting::PsEnableDelayMs => "MUJINA_S19XP_PS_ENABLE_DELAY_MS",
            Setting::ChainResetGpio => "MUJINA_S19XP_CHAIN_RESET_GPIO",
            Setting::ResetGpio => "MUJINA_S19XP_RESET_GPIO",
            Setting::ResetActiveLow => "MUJINA_S19XP_RESET_ACTIVE_LOW",
            Setting::ProbeOnly => "MUJINA_S19XP_PROBE_ONLY",
        }
    }
}

/// Why the settings were refused.
#[derive(Debug, Clone, Copy, PartialEq, Eq, Structural)]
pub enum ConfigError {
    /// The ASIC UART path is not set.
    MissingAsicTty,
    /// The value of `setting` is malformed.
    Invalid { setting: Setting, cause: ValueError },
    /// The chip frequency is outside the bring-up range of 50..=200 MHz.
    FrequencyOutOfRange,
    /// The APW12 target voltage is outside the bring-up range of 11.9..=15.0 V.
    VoltageOutOfRange,
}

/// What became of a floating-point setting (the chip frequency or the
/// APW12 target voltage): its default or value read, checked against its
/// bring-up range.
#[derive(Debug, Clone, Copy, PartialEq, Eq, Structural)]
pub enum FloatReading {
    /// The value is not a floating-point number.
    Unparsable,
    /// The value (or the default) lies in the setting's range.
    InRange,
    /// The value lies outside the setting's range.
    OutOfRange,
}

/// The values of the board's environment variables, `None` where a variable
/// is unset (or not valid Unicode). The chip frequency and the APW12 target
/// voltage are floating-point and are read apart, as `FloatReading`s.
#[derive(Debug, Clone, Default)]
pub struct EnvValues {
    pub asic_tty: Option<String>,
    pub baud: Option<String>,
    pub startup_baud: Option<String>,
    pub expected_chips: Option<String>,
    pub nonce_range: Option<String>,
    pub apw12_startup: Option<String>,
    pub pic_startup: Option<String>,
    pub apw12_i2c_device: Option<String>,
    pub pic_i2c_device: Option<String>,
    pub apw12_i2c_address: Option<String>,
    pub pic_i2c_address: Option<String>,
    pub ps_enable_gpio: Option<String>,
    pub ps_enable_active_high: Option<String>,
    pub ps_enable_delay_ms: Option<String>,
    pub chain_reset_gpio: Option<String>,
    pub reset_gpio: Option<String>,
    pub reset_active_low: Option<String>,
    pub probe_only: Option<String>,
}

/// The characters of an optional text.
pub open spec fn opt_chars(o: Option<String>) -> Option<Seq<char>> {
    match o {
        Some(s) => Some(s@),
        None => None,
    }
}

/// The environment's values as character sequences.
pub struct EnvModel {
    pub asic_tty: Option<Seq<char>>,
    pub baud: Option<Seq<char>>,
    pub startup_baud: Option<Seq<char>>,
    pub expected_chips: Option<Seq<char>>,
    pub nonce_range: Option<Seq<char>>,
    pub apw12_startup: Option<Seq<char>>,
    pub pic_startup: Option<Seq<char>>,
    pub apw12_i2c_device: Option<Seq<char>>,
    pub pic_i2c_device: Option<Seq<char>>,
    pub apw12_i2c_address: Option<Seq<char>>,
    pub pic_i2c_address: Option<Seq<char>>,
    pub ps_enable_gpio: Option<Seq<char>>,
    pub ps_enable_active_high: Option<Seq<char>>,
    pub ps_enable_delay_ms: Option<Seq<char>>,
    pub chain_reset_gpio: Option<Seq<char>>,
    pub reset_gpio: Option<Seq<char>>,
    pub reset_active_low: Option<Seq<char>>,
    pub probe_only: Option<Seq<char>>,
}

impl View for EnvValues {
    type V = EnvModel;

    open spec fn view(&self) -> EnvModel {
        EnvModel {
            asic_tty: opt_chars(self.asic_tty),
            baud: opt_chars(self.baud),
            startup_baud: opt_chars(self.startup_baud),
            expected_chips: opt_chars(self.expected_chips),
            nonce_range: opt_chars(self.nonce_range),
            apw12_startup: opt_chars(self.apw12_startup),
            pic_startup: opt_chars(self.pic_startup),
            apw12_i2c_device: opt_chars(self.apw12_i2c_device),
            pic_i2c_device: opt_chars(self.pic_i2c_device),
            apw12_i2c_address: opt_chars(self.apw12_i2c_address),
            pic_i2c_address: opt_chars(self.pic_i2c_address),
            ps_enable_gpio: opt_chars(self.ps_enable_gpio),
            ps_enable_active_high: opt_chars(self.ps_enable_active_high),
            ps_enable_delay_ms: opt_chars(self.ps_enable_delay_ms),
            chain_reset_gpio: opt_chars(self.chain_reset_gpio),
            reset_gpio: opt_chars(self.reset_gpio),
            reset_active_low: opt_chars(self.reset_active_low),
            probe_only: opt_chars(self.probe_only),
        }
    }
}

/// The board's settings (but for the floating-point frequency and voltage).
#[derive(Debug, Clone)]
pub struct S19xpConfig {
    pub asic_tty: String,
    pub startup_baud_rate: u32,
    pub baud_rate: u32,
    pub expected_chips: usize,
    pub nonce_range: u32,
    pub apw12_startup: bool,
    pub apw12_i2c_device: String,
    pub apw12_i2c_address: u16,
    pub ps_enable_gpio: Option<u32>,
    pub ps_enable_active_high: bool,
    pub ps_enable_delay_ms: u64,
    pub chain_reset_gpio: Option<u32>,
    pub reset_gpio: Option<u32>,
    pub reset_active_low: bool,
    pub probe_only: bool,
}

/// The settings with their texts as character sequences.
pub struct ConfigModel {
    pub asic_tty: Seq<char>,
    pub startup_baud_rate: u32,
    pub baud_rate: u32,
    pub expected_chips: usize,
    pub nonce_range: u32,
    pub apw12_startup: bool,
    pub apw12_i2c_device: Seq<char>,
    pub apw12_i2c_address: u16,
    pub ps_enable_gpio: Option<u32>,
    pub ps_enable_active_high: bool,
    pub ps_enable_delay_ms: u64,
    pub chain_reset_gpio: Option<u32>,
    pub reset_gpio: Option<u32>,
    pub reset_active_low: bool,
    pub probe_only: bool,
}

impl View for S19xpConfig {
    type V = ConfigModel;

    open spec fn view(&self) -> ConfigModel {
        ConfigModel {
            asic_tty: self.asic_tty@,
            startup_baud_rate: self.startup_baud_rate,
            baud_rate: self.baud_rate,
            expected_chips: self.expected_chips,
            nonce_range: self.nonce_range,
            apw12_startup: self.apw12_startup,
            apw12_i2c_device: self.apw12_i2c_device@,
            apw12_i2c_address: self.apw12_i2c_address,
            ps_enable_gpio: self.ps_enable_gpio,
            ps_enable_active_high: self.ps_enable_active_high,
            ps_enable_delay_ms: self.ps_enable_delay_ms,
            chain_reset_gpio: self.chain_reset_gpio,
            reset_gpio: self.reset_gpio,
            reset_active_low: self.reset_active_low,
            probe_only: self.probe_only,
        }
    }
}

/// Default UART baud rate, at start-up and at run time.
pub const DEFAULT_BAUD_RATE: u32 = 115_200;

/// Default number of chips expected on the chain.
pub const DEFAULT_EXPECTED_CHIPS: usize = 110;

/// Default nonce range register value (the LuxOS S19XP value).
pub const DEFAULT_NONCE_RANGE: u32 = 0x0000_1446;

/// Default GPIO of the power supply enable line (active-low by default).
pub const DEFAULT_PS_ENABLE_GPIO: u32 = 437;

/// Default delay after enabling the hashboard power, in milliseconds.
pub const DEFAULT_PS_ENABLE_DELAY_MS: u64 = 2_000;

/// Default GPIO of the chain reset line.
pub const DEFAULT_CHAIN_RESET_GPIO: u32 = 456;

/// Default I2C address of the APW12 power supply.
pub const DEFAULT_APW12_I2C_ADDRESS: u16 = 0x10;

/// A decimal setting: its default where unset.
pub open spec fn spec_env_number(raw: Option<Seq<char>>, default: int, max: int) -> Result<
    int,
    ValueError,
> {
    match raw {
        Some(s) => spec_parse_unsigned(s, 10, max),
        None => Ok(default),
    }
}

/// A setting read as `parse_u32_auto` reads it: its default where unset.
pub open spec fn spec_env_auto_u32(raw: Option<Seq<char>>, default: int) -> Result<int, ValueError> {
    match raw {
        Some(s) => spec_parse_u32_auto(s),
        None => Ok(default),
    }
}

/// A 16-bit setting read as `parse_u16_auto` reads it.
pub open spec fn spec_u16_auto(s: Seq<char>) -> Result<int, ValueError> {
    match spec_parse_u32_auto(s) {
        Ok(v) => if v > u16::MAX {
            Err(ValueError::OutOfRange)
        } else {
            Ok(v)
        },
        Err(e) => Err(e),
    }
}

/// A boolean setting: its default where unset.
pub open spec fn spec_env_bool(raw: Option<Seq<char>>, default: bool) -> Result<bool, ValueError> {
    match raw {
        Some(s) => spec_parse_bool(s),
        None => Ok(default),
    }
}

/// An optional GPIO setting: its default where unset.
pub open spec fn spec_env_optional_u32(raw: Option<Seq<char>>, default: Option<int>) -> Result<
    Option<int>,
    ValueError,
> {
    match raw {
        Some(s) => spec_parse_optional_u32(s),
        None => Ok(default),
    }
}

/// The reset GPIO: none where unset or blank.
pub open spec fn spec_env_reset_gpio(raw: Option<Seq<char>>) -> Result<Option<int>, ValueError> {
    match raw {
        Some(s) => if trimmed(s).len() != 0 {
            match spec_parse_u32_auto(s) {
                Ok(v) => Ok(Some(v)),
                Err(e) => Err(e),
            }
        } else {
            Ok(None)
        },
        None => Ok(None),
    }
}

/// The APW12 start-up switch, from its variable or else its legacy one,
/// with the setting that a malformed value is charged to.
pub open spec fn spec_env_apw12_startup(env: EnvModel) -> (Result<bool, ValueError>, Setting) {
    match env.apw12_startup {
        Some(s) => (spec_parse_bool(s), Setting::Apw12Startup),
        None => (spec_env_bool(env.pic_startup, true), Setting::PicStartup),
    }
}

/// The APW12 I2C device, from its variable or else its legacy one.
pub open spec fn spec_env_i2c_device(env: EnvModel) -> Seq<char> {
    match env.apw12_i2c_device {
        Some(s) => s,
        None => match env.pic_i2c_device {
            Some(s) => s,
            None => "/dev/i2c-1"@,
        },
    }
}

/// The APW12 I2C address, from its variable or else its legacy one.
pub open spec fn spec_env_i2c_address(env: EnvModel) -> Result<int, ValueError> {
    match env.apw12_i2c_address {
        Some(s) => spec_u16_auto(s),
        None => match env.pic_i2c_address {
            Some(s) => spec_u16_auto(s),
            None => Ok(DEFAULT_APW12_I2C_ADDRESS as int),
        },
    }
}

/// An `Option<int>` known to fit 32 bits, as an `Option<u32>`.
pub open spec fn opt_u32(o: Option<int>) -> Option<u32> {
    match o {
        Some(v) => Some(v as u32),
        None => None,
    }
}

/// The settings that the environment `env` gives, with the floating-point
/// settings read as `frequency` and `voltage`; or the first refusal, in the
/// order in which the settings are read.
pub open spec fn spec_config(env: EnvModel, frequency: FloatReading, voltage: FloatReading) -> Result<
    ConfigModel,
    ConfigError,
> {
    let baud = spec_env_number(env.baud, DEFAULT_BAUD_RATE as int, u32::MAX as int);
    let startup_baud = spec_env_number(
        env.startup_baud,
        DEFAULT_BAUD_RATE as int,
        u32::MAX as int,
    );
    let expected = spec_env_number(
        env.expected_chips,
        DEFAULT_EXPECTED_CHIPS as int,
        usize::MAX as int,
    );
    let nonce = spec_env_auto_u32(env.nonce_range, DEFAULT_NONCE_RANGE as int);
    let (startup, startup_setting) = spec_env_apw12_startup(env);
    let address = spec_env_i2c_address(env);
    let ps_gpio = spec_env_optional_u32(env.ps_enable_gpio, Some(DEFAULT_PS_ENABLE_GPIO as int));
    let ps_high = spec_env_bool(env.ps_enable_active_high, false);
    let ps_delay = spec_env_number(
        env.ps_enable_delay_ms,
        DEFAULT_PS_ENABLE_DELAY_MS as int,
        u64::MAX as int,
    );
    let chain_gpio = spec_env_optional_u32(
        env.chain_reset_gpio,
        Some(DEFAULT_CHAIN_RESET_GPIO as int),
    );
    let reset_gpio = spec_env_reset_gpio(env.reset_gpio);
    let reset_low = spec_env_bool(env.reset_active_low, true);
    let probe = spec_env_bool(env.probe_only, false);
    if env.asic_tty is None {
        Err(ConfigError::MissingAsicTty)
    } else if baud is Err {
        Err(ConfigError::Invalid { setting: Setting::Baud, cause: baud->Err_0 })
    } else if startup_baud is Err {
        Err(ConfigError::Invalid { setting: Setting::StartupBaud, cause: startup_baud->Err_0 })
    } else if expected is Err {
        Err(ConfigError::Invalid { setting: Setting::ExpectedChips, cause: expected->Err_0 })
    } else if frequency == FloatReading::Unparsable {
        Err(ConfigError::Invalid { setting: Setting::FrequencyMhz, cause: ValueError::InvalidFloat })
    } else if nonce is Err {
        Err(ConfigError::Invalid { setting: Setting::NonceRange, cause: nonce->Err_0 })
    } else if startup is Err {
        Err(ConfigError::Invalid { setting: startup_setting, cause: startup->Err_0 })
    } else if address is Err {
        Err(ConfigError::Invalid { setting: Setting::Apw12I2cAddress, cause: address->Err_0 })
    } else if voltage == FloatReading::Unparsable {
        Err(
            ConfigError::Invalid {
                setting: Setting::Apw12TargetVoltage,
                cause: ValueError::InvalidFloat,
            },
        )
    } else if ps_gpio is Err {
        Err(ConfigError::Invalid { setting: Setting::PsEnableGpio, cause: ps_gpio->Err_0 })
    } else if ps_high is Err {
        Err(ConfigError::Invalid { setting: Setting::PsEnableActiveHigh, cause: ps_high->Err_0 })
    } else if ps_delay is Err {
        Err(ConfigError::Invalid { setting: Setting::PsEnableDelayMs, cause: ps_delay->Err_0 })
    } else if chain_gpio is Err {
        Err(ConfigError::Invalid { setting: Setting::ChainResetGpio, cause: chain_gpio->Err_0 })
    } else if reset_gpio is Err {
        Err(ConfigError::Invalid { setting: Setting::ResetGpio, cause: reset_gpio->Err_0 })
    } else if reset_low is Err {
        Err(ConfigError::Invalid { setting: Setting::ResetActiveLow, cause: reset_low->Err_0 })
    } else if probe is Err {
        Err(ConfigError::Invalid { setting: Setting::ProbeOnly, cause: probe->Err_0 })
    } else if frequency == FloatReading::OutOfRange {
        Err(ConfigError::FrequencyOutOfRange)
    } else if voltage == FloatReading::OutOfRange {
        Err(ConfigError::VoltageOutOfRange)
    } else {
        Ok(
            ConfigModel {
                asic_tty: env.asic_tty->Some_0,
                startup_baud_rate: startup_baud->Ok_0 as u32,
                baud_rate: baud->Ok_0 as u32,
                expected_chips: expected->Ok_0 as usize,
                nonce_range: nonce->Ok_0 as u32,
                apw12_startup: startup->Ok_0,
                apw12_i2c_device: spec_env_i2c_device(env),
                apw12_i2c_address: address->Ok_0 as u16,
                ps_enable_gpio: opt_u32(ps_gpio->Ok_0),
                ps_enable_active_high: ps_high->Ok_0,
                ps_enable_delay_ms: ps_delay->Ok_0 as u64,
                chain_reset_gpio: opt_u32(chain_gpio->Ok_0),
                reset_gpio: opt_u32(reset_gpio->Ok_0),
                reset_active_low: reset_low->Ok_0,
                probe_only: probe->Ok_0,
            },
        )
    }
}

/// A decimal setting of at most `max`; `default` where unset.
pub fn env_number(raw: &Option<String>, default: u64, max: u64) -> (res: Result<u64, ValueError>)
    requires
        default <= max,
    ensures
        res matches Ok(v) ==> v <= max && spec_env_number(opt_chars(*raw), default as int, max as int)
            == Ok::<int, ValueError>(v as int),
        res matches Err(e) ==> spec_env_number(opt_chars(*raw), default as int, max as int) == Err::<
            int,
            ValueError,
        >(e),
{
    match raw {
        Some(s) => parse_decimal(s.as_str(), max),
        None => Ok(default),
    }
}

/// A setting read as `parse_u32_auto` reads it; `default` where unset.
pub fn env_auto_u32(raw: &Option<String>, default: u32) -> (res: Result<u32, ValueError>)
    ensures
        res matches Ok(v) ==> spec_env_auto_u32(opt_chars(*raw), default as int) == Ok::<
            int,
            ValueError,
        >(v as int),
        res matches Err(e) ==> spec_env_auto_u32(opt_chars(*raw), default as int) == Err::<
            int,
            ValueError,
        >(e),
{
    match raw {
        Some(s) => parse_u32_auto(s.as_str()),
        None => Ok(default),
    }
}

/// A boolean setting; `default` where unset.
pub fn env_bool(raw: &Option<String>, default: bool) -> (res: Result<bool, ValueError>)
    ensures
        res == spec_env_bool(opt_chars(*raw), default),
{
    match raw {
        Some(s) => parse_bool(s.as_str()),
        None => Ok(default),
    }
}

/// An optional GPIO setting; `default` where unset.
pub fn env_optional_u32(raw: &Option<String>, default: Option<u32>) -> (res: Result<
    Option<u32>,
    ValueError,
>)
    ensures
        res matches Ok(v) ==> spec_env_optional_u32(
            opt_chars(*raw),
            match default {
                Some(d) => Some(d as int),
                None => None,
            },
        ) == Ok::<Option<int>, ValueError>(
            match v {
                Some(x) => Some(x as int),
                None => None,
            },
        ),
        res matches Err(e) ==> spec_env_optional_u32(
            opt_chars(*raw),
            match default {
                Some(d) => Some(d as int),
                None => None,
            },
        ) == Err::<Option<int>, ValueError>(e),
{
    match raw {
        Some(s) => parse_optional_u32(s.as_str()),
        None => Ok(default),
    }
}

/// The reset GPIO setting: none where unset or blank.
pub fn env_reset_gpio(raw: &Option<String>) -> (res: Result<Option<u32>, ValueError>)
    ensures
        res matches Ok(v) ==> spec_env_reset_gpio(opt_chars(*raw)) == Ok::<Option<int>, ValueError>(
            match v {
                Some(x) => Some(x as int),
                None => None,
            },
        ),
        res matches Err(e) ==> spec_env_reset_gpio(opt_chars(*raw)) == Err::<
            Option<int>,
            ValueError,
        >(e),
{
    match raw {
        Some(s) => {
            let c = chars_of(s.as_str());
            let t = trim_chars(&c);
            if t.len() != 0 {
                match parse_u32_auto(s.as_str()) {
                    Ok(v) => Ok(Some(v)),
                    Err(e) => Err(e),
                }
            } else {
                Ok(None)
            }
        },
        None => Ok(None),
    }
}

/// The APW12 I2C address from its variable, else its legacy one, else the
/// default.
fn env_i2c_address(env: &EnvValues) -> (res: Result<u16, ValueError>)
    ensures
        res matches Ok(v) ==> spec_env_i2c_address(env@) == Ok::<int, ValueError>(v as int),
        res matches Err(e) ==> spec_env_i2c_address(env@) == Err::<int, ValueError>(e),
{
    let raw = match &env.apw12_i2c_address {
        Some(s) => s,
        None => match &env.pic_i2c_address {
            Some(s) => s,
            None => {
                return Ok(DEFAULT_APW12_I2C_ADDRESS);
            },
        },
    };
    parse_u16_auto(raw.as_str())
}

/// The APW12 I2C device from its variable, else its legacy one, else
/// `/dev/i2c-1`.
fn env_i2c_device(env: &EnvValues) -> (res: String)
    ensures
        res@ == spec_env_i2c_device(env@),
{
    match &env.apw12_i2c_device {
        Some(s) => s.clone(),
        None => match &env.pic_i2c_device {
            Some(s) => s.clone(),
            None => "/dev/i2c-1".to_owned(),
        },
    }
}

impl S19xpConfig {
    /// The settings that the environment gives: `env` holds the variables'
    /// values, `frequency` and `voltage` what became of the floating-point
    /// chip frequency and APW12 target voltage. A refusal names the first
    /// setting at fault in reading order; the frequency and voltage ranges
    /// are checked after every value has been read.
    pub fn from_env_values(env: &EnvValues, frequency: FloatReading, voltage: FloatReading) -> (res:
        Result<S19xpConfig, ConfigError>)
        ensures
            res matches Ok(c) ==> spec_config(env@, frequency, voltage) == Ok::<
                ConfigModel,
                ConfigError,
            >(c@),
            res matches Err(e) ==> spec_config(env@, frequency, voltage) == Err::<
                ConfigModel,
                ConfigError,
            >(e),
    {
        let asic_tty = match &env.asic_tty {
            Some(s) => s.clone(),
            None => {
                return Err(ConfigError::MissingAsicTty);
            },
        };
        let baud_rate = match env_number(&env.baud, DEFAULT_BAUD_RATE as u64, 0xffff_ffff) {
            Ok(v) => v as u32,
            Err(e) => {
                return Err(ConfigError::Invalid { setting: Setting::Baud, cause: e });
            },
        };
        let startup_baud_rate = match env_number(
            &env.startup_baud,
            DEFAULT_BAUD_RATE as u64,
            0xffff_ffff,
        ) {
            Ok(v) => v as u32,
            Err(e) => {
                return Err(ConfigError::Invalid { setting: Setting::StartupBaud, cause: e });
            },
        };
        let expected_chips = match env_number(
            &env.expected_chips,
            DEFAULT_EXPECTED_CHIPS as u64,
            usize::MAX as u64,
        ) {
            Ok(v) => v as usize,
            Err(e) => {
                return Err(ConfigError::Invalid { setting: Setting::ExpectedChips, cause: e });
            },
        };
        if frequency == FloatReading::Unparsable {
            return Err(
                ConfigError::Invalid {
                    setting: Setting::FrequencyMhz,
                    cause: ValueError::InvalidFloat,
                },
            );
        }
        let nonce_range = match env_auto_u32(&env.nonce_range, DEFAULT_NONCE_RANGE) {
            Ok(v) => v,
            Err(e) => {
                return Err(ConfigError::Invalid { setting: Setting::NonceRange, cause: e });
            },
        };
        let apw12_startup = match &env.apw12_startup {
            Some(s) => match parse_bool(s.as_str()) {
                Ok(b) => b,
                Err(e) => {
                    return Err(ConfigError::Invalid { setting: Setting::Apw12Startup, cause: e });
                },
            },
            None => match env_bool(&env.pic_startup, true) {
                Ok(b) => b,
                Err(e) => {
                    return Err(ConfigError::Invalid { setting: Setting::PicStartup, cause: e });
                },
            },
        };
        let apw12_i2c_device = env_i2c_device(env);
        let apw12_i2c_address = match env_i2c_address(env) {
            Ok(v) => v,
            Err(e) => {
                return Err(ConfigError::Invalid { setting: Setting::Apw12I2cAddress, cause: e });
            },
        };
        if voltage == FloatReading::Unparsable {
            return Err(
                ConfigError::Invalid {
                    setting: Setting::Apw12TargetVoltage,
                    cause: ValueError::InvalidFloat,
                },
            );
        }
        let ps_enable_gpio = match env_optional_u32(
            &env.ps_enable_gpio,
            Some(DEFAULT_PS_ENABLE_GPIO),
        ) {
            Ok(v) => v,
            Err(e) => {
                return Err(ConfigError::Invalid { setting: Setting::PsEnableGpio, cause: e });
            },
        };
        let ps_enable_active_high = match env_bool(&env.ps_enable_active_high, false) {
            Ok(b) => b,
            Err(e) => {
                return Err(ConfigError::Invalid { setting: Setting::PsEnableActiveHigh, cause: e });
            },
        };
        let ps_enable_delay_ms = match env_number(
            &env.ps_enable_delay_ms,
            DEFAULT_PS_ENABLE_DELAY_MS,
            0xffff_ffff_ffff_ffff,
        ) {
            Ok(v) => v,
            Err(e) => {
                return Err(ConfigError::Invalid { setting: Setting::PsEnableDelayMs, cause: e });
            },
        };
        let chain_reset_gpio = match env_optional_u32(
            &env.chain_reset_gpio,
            Some(DEFAULT_CHAIN_RESET_GPIO),
        ) {
            Ok(v) => v,
            Err(e) => {
                return Err(ConfigError::Invalid { setting: Setting::ChainResetGpio, cause: e });
            },
        };
        let reset_gpio = match env_reset_gpio(&env.reset_gpio) {
            Ok(v) => v,
            Err(e) => {
                return Err(ConfigError::Invalid { setting: Setting::ResetGpio, cause: e });
            },
        };
        let reset_active_low = match env_bool(&env.reset_active_low, true) {
            Ok(b) => b,
            Err(e) => {
                return Err(ConfigError::Invalid { setting: Setting::ResetActiveLow, cause: e });
            },
        };
        let probe_only = match env_bool(&env.probe_only, false) {
            Ok(b) => b,
            Err(e) => {
                return Err(ConfigError::Invalid { setting: Setting::ProbeOnly, cause: e });
            },
        };
        if frequency == FloatReading::OutOfRange {
            return Err(ConfigError::FrequencyOutOfRange);
        }
        if voltage == FloatReading::OutOfRange {
            return Err(ConfigError::VoltageOutOfRange);
        }
        let config = S19xpConfig {
            asic_tty,
            startup_baud_rate,
            baud_rate,
            expected_chips,
            nonce_range,
            apw12_startup,
            apw12_i2c_device,
            apw12_i2c_address,
            ps_enable_gpio,
            ps_enable_active_high,
            ps_enable_delay_ms,
            chain_reset_gpio,
            reset_gpio,
            reset_active_low,
            probe_only,
        };
        assert(spec_config(env@, frequency, voltage) == Ok::<ConfigModel, ConfigError>(config@));
        Ok(config)
    }
}

/// The environment in which no variable is set but the ASIC UART path.
pub open spec fn only_tty(tty: Seq<char>) -> EnvModel {
    EnvModel {
        asic_tty: Some(tty),
        baud: None,
        startup_baud: None,
        expected_chips: None,
        nonce_range: None,
        apw12_startup: None,
        pic_startup: None,
        apw12_i2c_device: None,
        pic_i2c_device: None,
        apw12_i2c_address: None,
        pic_i2c_address: None,
        ps_enable_gpio: None,
        ps_enable_active_high: None,
        ps_enable_delay_ms: None,
        chain_reset_gpio: None,
        reset_gpio: None,
        reset_active_low: None,
        probe_only: None,
    }
}

/// With nothing set but the ASIC UART path (and the frequency and voltage at
/// their in-range defaults), every setting takes its documented default:
/// 115200 baud at start-up and at run time, 110 chips, nonce range
/// `0x00001446`, the APW12 start-up sequence on `/dev/i2c-1` at address
/// `0x10`, the active-low PS enable on GPIO 437 with a 2000 ms delay, the
/// chain reset on GPIO 456, no reset GPIO (active-low if set), no probe-only
/// run.
pub proof fn lemma_defaults(tty: Seq<char>)
    ensures
        spec_config(only_tty(tty), FloatReading::InRange, FloatReading::InRange) == Ok::<
            ConfigModel,
            ConfigError,
        >(
            ConfigModel {
                asic_tty: tty,
                startup_baud_rate: 115_200,
                baud_rate: 115_200,
                expected_chips: 110,
                nonce_range: 0x0000_1446,
                apw12_startup: true,
                apw12_i2c_device: "/dev/i2c-1"@,
                apw12_i2c_address: 0x10,
                ps_enable_gpio: Some(437),
                ps_enable_active_high: false,
                ps_enable_delay_ms: 2_000,
                chain_reset_gpio: Some(456),
                reset_gpio: None,
                reset_active_low: true,
                probe_only: false,
            },
        ),
{
}

/// Where an APW12 variable is set, its legacy PIC twin is not read.
pub proof fn lemma_apw12_names_take_precedence(
    env: EnvModel,
    frequency: FloatReading,
    voltage: FloatReading,
    pic_startup: Option<Seq<char>>,
    pic_i2c_device: Option<Seq<char>>,
    pic_i2c_address: Option<Seq<char>>,
)
    requires
        env.apw12_startup is Some,
        env.apw12_i2c_device is Some,
        env.apw12_i2c_address is Some,
    ensures
        spec_config(env, frequency, voltage) == spec_config(
            EnvModel { pic_startup, pic_i2c_device, pic_i2c_address, ..env },
            frequency,
            voltage,
        ),
{
}

/// Where an APW12 variable is unset, its legacy PIC twin is still accepted
/// and means what the APW12 variable would mean.
pub proof fn lemma_legacy_names_accepted(
    env: EnvModel,
    frequency: FloatReading,
    voltage: FloatReading,
)
    requires
        env.apw12_startup is None,
        env.apw12_i2c_device is None,
        env.apw12_i2c_address is None,
        spec_config(env, frequency, voltage) is Ok,
    ensures
        spec_config(env, frequency, voltage) == spec_config(
            EnvModel {
                apw12_startup: env.pic_startup,
                apw12_i2c_device: env.pic_i2c_device,
                apw12_i2c_address: env.pic_i2c_address,
                pic_startup: None,
                pic_i2c_device: None,
                pic_i2c_address: None,
                ..env
            },
            frequency,
            voltage,
        ),
{
}

/// A numeric GPIO setting is used as written: with the PS-enable, chain
/// reset or reset GPIO variable set to the decimal text of `n` (and nothing
/// else but the UART path), the settings hold GPIO `n` there, and the
/// other settings keep their defaults.
pub proof fn lemma_gpio_settings_used(tty: Seq<char>, n: nat)
    requires
        n <= u32::MAX,
    ensures
        spec_config(
            EnvModel { ps_enable_gpio: Some(decimal(n)), ..only_tty(tty) },
            FloatReading::InRange,
            FloatReading::InRange,
        ) == Ok::<ConfigModel, ConfigError>(
            ConfigModel {
                ps_enable_gpio: Some(n as u32),
                ..spec_config(only_tty(tty), FloatReading::InRange, FloatReading::InRange)->Ok_0
            },
        ),
        spec_config(
            EnvModel { chain_reset_gpio: Some(decimal(n)), ..only_tty(tty) },
            FloatReading::InRange,
            FloatReading::InRange,
        ) == Ok::<ConfigModel, ConfigError>(
            ConfigModel {
                chain_reset_gpio: Some(n as u32),
                ..spec_config(only_tty(tty), FloatReading::InRange, FloatReading::InRange)->Ok_0
            },
        ),
        spec_config(
            EnvModel { reset_gpio: Some(decimal(n)), ..only_tty(tty) },
            FloatReading::InRange,
            FloatReading::InRange,
        ) == Ok::<ConfigModel, ConfigError>(
            ConfigModel {
                reset_gpio: Some(n as u32),
                ..spec_config(only_tty(tty), FloatReading::InRange, FloatReading::InRange)->Ok_0
            },
        ),
{
    lemma_decimal_is_a_gpio_number(n);
    lemma_decimal_reads_back(n, u32::MAX as int);
    assert(trimmed(decimal(n)) == decimal(n)) by {
        lemma_decimal_is_a_gpio_number(n);
    }
    lemma_defaults(tty);
}

/// The numeric settings are used as written, each from its own variable:
/// with the run-time baud, the start-up baud, the expected chip count or
/// the PS-enable delay set to the decimal text of `n`, exactly that setting
/// becomes `n` and the others keep their defaults.
pub proof fn lemma_numeric_settings_used(tty: Seq<char>, n: nat)
    ensures
        n <= u32::MAX ==> spec_config(
            EnvModel { baud: Some(decimal(n)), ..only_tty(tty) },
            FloatReading::InRange,
            FloatReading::InRange,
        ) == Ok::<ConfigModel, ConfigError>(
            ConfigModel {
                baud_rate: n as u32,
                ..spec_config(only_tty(tty), FloatReading::InRange, FloatReading::InRange)->Ok_0
            },
        ),
        n <= u32::MAX ==> spec_config(
            EnvModel { startup_baud: Some(decimal(n)), ..only_tty(tty) },
            FloatReading::InRange,
            FloatReading::InRange,
        ) == Ok::<ConfigModel, ConfigError>(
            ConfigModel {
                startup_baud_rate: n as u32,
                ..spec_config(only_tty(tty), FloatReading::InRange, FloatReading::InRange)->Ok_0
            },
        ),
        n <= usize::MAX ==> spec_config(
            EnvModel { expected_chips: Some(decimal(n)), ..only_tty(tty) },
            FloatReading::InRange,
            FloatReading::InRange,
        ) == Ok::<ConfigModel, ConfigError>(
            ConfigModel {
                expected_chips: n as usize,
                ..spec_config(only_tty(tty), FloatReading::InRange, FloatReading::InRange)->Ok_0
            },
        ),
        n <= u64::MAX ==> spec_config(
            EnvModel { ps_enable_delay_ms: Some(decimal(n)), ..only_tty(tty) },
            FloatReading::InRange,
            FloatReading::InRange,
        ) == Ok::<ConfigModel, ConfigError>(
            ConfigModel {
                ps_enable_delay_ms: n as u64,
                ..spec_config(only_tty(tty), FloatReading::InRange, FloatReading::InRange)->Ok_0
            },
        ),
{
    lemma_defaults(tty);
    if n <= u32::MAX {
        lemma_decimal_reads_back(n, u32::MAX as int);
    }
    if n <= usize::MAX {
        lemma_decimal_reads_back(n, usize::MAX as int);
    }
    if n <= u64::MAX {
        lemma_decimal_reads_back(n, u64::MAX as int);
    }
}

/// Each setting is read from its documented variable, and no two settings
/// share a variable.
#[verifier::rlimit(100)]
pub proof fn lemma_env_keys(a: Setting, b: Setting)
    ensures
        spec_env_key(Setting::AsicTty) == "MUJINA_S19XP_ASIC_TTY"@,
        spec_env_key(Setting::Baud) == "MUJINA_S19XP_BAUD"@,
        spec_env_key(Setting::StartupBaud) == "MUJINA_S19XP_STARTUP_BAUD"@,
        spec_env_key(Setting::ExpectedChips) == "MUJINA_S19XP_EXPECTED_CHIPS"@,
        spec_env_key(Setting::FrequencyMhz) == "MUJINA_S19XP_FREQUENCY_MHZ"@,
        spec_env_key(Setting::NonceRange) == "MUJINA_S19XP_NONCE_RANGE"@,
        spec_env_key(Setting::Apw12Startup) == "MUJINA_S19XP_APW12_STARTUP"@,
        spec_env_key(Setting::PicStartup) == "MUJINA_S19XP_PIC_STARTUP"@,
        spec_env_key(Setting::Apw12I2cDevice) == "MUJINA_S19XP_APW12_I2C_DEVICE"@,
        spec_env_key(Setting::PicI2cDevice) == "MUJINA_S19XP_PIC_I2C_DEVICE"@,
        spec_env_key(Setting::Apw12I2cAddress) == "MUJINA_S19XP_APW12_I2C_ADDRESS"@,
        spec_env_key(Setting::PicI2cAddress) == "MUJINA_S19XP_PIC_I2C_ADDRESS"@,
        spec_env_key(Setting::Apw12TargetVoltage) == "MUJINA_S19XP_APW12_TARGET_VOLTAGE"@,
        spec_env_key(Setting::PsEnableGpio) == "MUJINA_S19XP_PS_ENABLE_GPIO"@,
        spec_env_key(Setting::PsEnableActiveHigh) == "MUJINA_S19XP_PS_ENABLE_ACTIVE_HIGH"@,
        spec_env_key(Setting::PsEnableDelayMs) == "MUJINA_S19XP_PS_ENABLE_DELAY_MS"@,
        spec_env_key(Setting::ChainResetGpio) == "MUJINA_S19XP_CHAIN_RESET_GPIO"@,
        spec_env_key(Setting::ResetGpio) == "MUJINA_S19XP_RESET_GPIO"@,
        spec_env_key(Setting::ResetActiveLow) == "MUJINA_S19XP_RESET_ACTIVE_LOW"@,
        spec_env_key(Setting::ProbeOnly) == "MUJINA_S19XP_PROBE_ONLY"@,
        spec_env_key(a) == spec_env_key(b) ==> a == b,
{
    reveal_strlit("MUJINA_S19XP_ASIC_TTY");
    reveal_strlit("MUJINA_S19XP_BAUD");
    reveal_strlit("MUJINA_S19XP_STARTUP_BAUD");
    reveal_strlit("MUJINA_S19XP_EXPECTED_CHIPS");
    reveal_strlit("MUJINA_S19XP_FREQUENCY_MHZ");
    reveal_strlit("MUJINA_S19XP_NONCE_RANGE");
    reveal_strlit("MUJINA_S19XP_APW12_STARTUP");
    reveal_strlit("MUJINA_S19XP_PIC_STARTUP");
    reveal_strlit("MUJINA_S19XP_APW12_I2C_DEVICE");
    reveal_strlit("MUJINA_S19XP_PIC_I2C_DEVICE");
    reveal_strlit("MUJINA_S19XP_APW12_I2C_ADDRESS");
    reveal_strlit("MUJINA_S19XP_PIC_I2C_ADDRESS");
    reveal_strlit("MUJINA_S19XP_APW12_TARGET_VOLTAGE");
    reveal_strlit("MUJINA_S19XP_PS_ENABLE_GPIO");
    reveal_strlit("MUJINA_S19XP_PS_ENABLE_ACTIVE_HIGH");
    reveal_strlit("MUJINA_S19XP_PS_ENABLE_DELAY_MS");
    reveal_strlit("MUJINA_S19XP_CHAIN_RESET_GPIO");
    reveal_strlit("MUJINA_S19XP_RESET_GPIO");
    reveal_strlit("MUJINA_S19XP_RESET_ACTIVE_LOW");
    reveal_strlit("MUJINA_S19XP_PROBE_ONLY");
    if spec_env_key(a) == spec_env_key(b) && a != b {
        let x = spec_env_key(a);
        let y = spec_env_key(b);
        assert(x.len() == y.len());
        assert(forall|i: int| 0 <= i < x.len() ==> x[i] == y[i]);
        assert(x[13] == y[13]);
        assert(x[14] == y[14]);
        assert(x[15] == y[15]);
        assert(x[16] == y[16]);
        assert(false);
    }
}

} // verus!
