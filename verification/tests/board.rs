use mujina_miner::apw12::{PacketError, S19xpApw12};
use mujina_miner::gpio::{
    gpio_dir_path, gpio_direction_path, gpio_export_text, gpio_value_path, SysfsOutputLine,
    SysfsResetLine, GPIO_EXPORT_PATH,
};
use mujina_miner::values::parse_bool;

#[test]
fn parse_bool_accepts_common_env_values() {
    assert!(parse_bool("1").unwrap());
    assert!(parse_bool("true").unwrap());
    assert!(parse_bool("YES").unwrap());
    assert!(!parse_bool("0").unwrap());
    assert!(!parse_bool("false").unwrap());
    assert!(!parse_bool("off").unwrap());
    assert!(parse_bool("maybe").is_err());
}

#[test]
fn sysfs_output_line_maps_active_low_power_enable() {
    let line = SysfsOutputLine {
        gpio: 437,
        active_high: false,
        value_path: String::from("/dev/null"),
        label: "test",
    };

    assert_eq!(line.value_for(true), "0");
    assert_eq!(line.value_for(false), "1");
}

#[test]
fn apw12_packet_matches_luxos_trace_shape() {
    assert_eq!(
        S19xpApw12::packet(&[0x81, 0x00, 0x00]).unwrap(),
        vec![0x11, 0x55, 0xaa, 0x06, 0x81, 0x00, 0x00, 0x87, 0x00]
    );
}

#[test]
fn active_high_output_line_drives_high_when_enabled() {
    let line = SysfsOutputLine::for_gpio(456, true, "chain reset release");
    assert_eq!(line.value_for(true), "1");
    assert_eq!(line.value_for(false), "0");
    assert_eq!(line.value_path, "/sys/class/gpio/gpio456/value");
    assert_eq!(line.gpio, 456);
    assert_eq!(line.label, "chain reset release");
}

#[test]
fn reset_line_levels_follow_polarity() {
    let low = SysfsResetLine::for_gpio(12, true);
    assert_eq!(low.value_for(true), "1");
    assert_eq!(low.value_for(false), "0");
    let high = SysfsResetLine::for_gpio(12, false);
    assert_eq!(high.value_for(true), "0");
    assert_eq!(high.value_for(false), "1");
    assert_eq!(low.value_path, "/sys/class/gpio/gpio12/value");
}

#[test]
fn gpio_paths_name_the_sysfs_files() {
    assert_eq!(GPIO_EXPORT_PATH, "/sys/class/gpio/export");
    assert_eq!(gpio_export_text(437), "437");
    assert_eq!(gpio_export_text(0), "0");
    assert_eq!(gpio_export_text(u32::MAX), "4294967295");
    assert_eq!(gpio_dir_path(437), "/sys/class/gpio/gpio437");
    assert_eq!(gpio_direction_path(437), "/sys/class/gpio/gpio437/direction");
    assert_eq!(gpio_value_path(7), "/sys/class/gpio/gpio7/value");
}

#[test]
fn apw12_packets_of_the_startup_sequence() {
    assert_eq!(
        S19xpApw12::packet(&[0x02]).unwrap(),
        vec![0x11, 0x55, 0xaa, 0x04, 0x02, 0x06, 0x00]
    );
    assert_eq!(
        S19xpApw12::packet(&[0x06, 0x40, 0x20]).unwrap(),
        vec![0x11, 0x55, 0xaa, 0x06, 0x06, 0x40, 0x20, 0x6c, 0x00]
    );
    assert_eq!(
        S19xpApw12::packet(&[0x83, 238, 0x00]).unwrap(),
        vec![0x11, 0x55, 0xaa, 0x06, 0x83, 238, 0x00, 0x77, 0x00]
    );
    assert_eq!(S19xpApw12::packet(&[]).unwrap(), vec![0x11, 0x55, 0xaa, 0x03, 0x03, 0x00]);
}

#[test]
fn apw12_checksum_wraps_and_long_payloads_are_refused() {
    let payload = [0xff, 0xff];
    let p = S19xpApw12::packet(&payload).unwrap();
    // 5 + 0xff + 0xff = 0x203, which wraps to 0x03
    assert_eq!(p, vec![0x11, 0x55, 0xaa, 0x05, 0xff, 0xff, 0x03, 0x00]);

    let longest = vec![0u8; 252];
    let p = S19xpApw12::packet(&longest).unwrap();
    assert_eq!(p.len(), 258);
    assert_eq!(p[3], 255);
    assert_eq!(p[256], 255);

    let too_long = vec![0u8; 253];
    assert_eq!(S19xpApw12::packet(&too_long), Err(PacketError::PayloadTooLong));
}

#[test]
fn apw12_packet_checksum_is_verifiable_by_a_receiver() {
    let payload = [0x81, 0x12, 0x34, 0x56];
    let p = S19xpApw12::packet(&payload).unwrap();
    assert_eq!(p.len(), payload.len() + 6);
    let len = p[3] as usize;
    assert_eq!(len, payload.len() + 3);
    let sum = p[3..4 + payload.len()]
        .iter()
        .fold(0u8, |acc, b| acc.wrapping_add(*b));
    assert_eq!(sum, p[4 + payload.len()]);
    assert_eq!(&p[4..4 + payload.len()], &payload[..]);
}
