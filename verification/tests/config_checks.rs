use serial_tcp_bridge::config::build_config;
use serial_tcp_bridge::config::resolve_data_bits;
use serial_tcp_bridge::config::Config;
use serial_tcp_bridge::config::DataBits;
use serial_tcp_bridge::config::Parity;
use serial_tcp_bridge::config::StopBits;
use serial_tcp_bridge::config::DEFAULT_BAUD_RATE;
use serial_tcp_bridge::config::DEFAULT_DATA_BITS;
use serial_tcp_bridge::config::DEFAULT_TCP_PORT;

#[test]
fn supported_data_bits_resolve_without_warning() {
    assert_eq!(resolve_data_bits(5), (DataBits::Five, false));
    assert_eq!(resolve_data_bits(6), (DataBits::Six, false));
    assert_eq!(resolve_data_bits(7), (DataBits::Seven, false));
    assert_eq!(resolve_data_bits(8), (DataBits::Eight, false));
}

#[test]
fn unsupported_data_bits_fall_back_to_eight_with_warning() {
    assert_eq!(resolve_data_bits(9), (DataBits::Eight, true));
    assert_eq!(resolve_data_bits(0), (DataBits::Eight, true));
    assert_eq!(resolve_data_bits(4), (DataBits::Eight, true));
    assert_eq!(resolve_data_bits(255), (DataBits::Eight, true));
}

#[test]
fn config_with_invalid_data_bits_still_builds_and_warns() {
    let (config, warn) = build_config(
        String::from("/dev/ttyUSB0"),
        DEFAULT_BAUD_RATE,
        9,
        Parity::Disabled,
        StopBits::One,
        DEFAULT_TCP_PORT,
    );
    assert!(warn);
    assert_eq!(config.data_bits, DataBits::Eight);
    assert_eq!(config.device, "/dev/ttyUSB0");
    assert_eq!(config.baud_rate, 115200);
    assert_eq!(config.tcp_port, 11223);
}

#[test]
fn config_keeps_every_field_verbatim() {
    let (config, warn) = build_config(
        String::from("/dev/ttyS1"),
        9600,
        7,
        Parity::Even,
        StopBits::Two,
        2000,
    );
    assert!(!warn);
    let expected = Config {
        device: String::from("/dev/ttyS1"),
        baud_rate: 9600,
        data_bits: DataBits::Seven,
        parity: Parity::Even,
        stop_bits: StopBits::Two,
        tcp_port: 2000,
    };
    assert_eq!(config.device, expected.device);
    assert_eq!(config.baud_rate, expected.baud_rate);
    assert_eq!(config.data_bits, expected.data_bits);
    assert_eq!(config.parity, expected.parity);
    assert_eq!(config.stop_bits, expected.stop_bits);
    assert_eq!(config.tcp_port, expected.tcp_port);
}

#[test]
fn defaults_match_the_documented_values() {
    assert_eq!(DEFAULT_BAUD_RATE, 115200);
    assert_eq!(DEFAULT_DATA_BITS, 8);
    assert_eq!(DEFAULT_TCP_PORT, 11223);
    assert_eq!(DataBits::default(), DataBits::Eight);
    assert_eq!(Parity::default(), Parity::Disabled);
    assert_eq!(StopBits::default(), StopBits::One);
}
