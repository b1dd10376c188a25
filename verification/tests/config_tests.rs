use scat::config::{
    parse_data_bits, parse_parity, parse_stop_bits, ConfigError, DataBits, Parity, PortConfig,
    StopBits, READ_TIMEOUT_MS,
};

#[test]
fn test_default_baud_rate() {
    let config = PortConfig::new("/dev/ttyUSB0", 115200, 8, 1, Parity::NoParity);
    assert!(config.is_ok());
    let config = config.unwrap();
    assert_eq!(config.device(), "/dev/ttyUSB0");
    assert_eq!(config.baud_rate(), 115200);
    assert_eq!(config.data_bits(), DataBits::Eight);
    assert_eq!(config.stop_bits(), StopBits::One);
    assert_eq!(config.parity(), Parity::NoParity);
}

#[test]
fn test_custom_baud_rate() {
    let config = PortConfig::new("/dev/ttyUSB0", 9600, 8, 1, Parity::NoParity);
    assert!(config.is_ok());
    assert_eq!(config.unwrap().baud_rate(), 9600);
}

#[test]
fn test_custom_data_bits() {
    let config = PortConfig::new("/dev/ttyUSB0", 115200, 7, 1, Parity::NoParity);
    assert!(config.is_ok());
    assert_eq!(config.unwrap().data_bits(), DataBits::Seven);
}

#[test]
fn test_custom_stop_bits() {
    let config = PortConfig::new("/dev/ttyUSB0", 115200, 8, 2, Parity::NoParity);
    assert!(config.is_ok());
    assert_eq!(config.unwrap().stop_bits(), StopBits::Two);
}

#[test]
fn test_all_custom_settings() {
    let config = PortConfig::new("/dev/ttyUSB0", 19200, 8, 1, Parity::NoParity);
    assert!(config.is_ok());
    let config = config.unwrap();
    assert_eq!(config.baud_rate(), 19200);
    assert_eq!(config.data_bits(), DataBits::Eight);
    assert_eq!(config.stop_bits(), StopBits::One);
}

#[test]
fn test_common_baud_rates() {
    let common_rates: Vec<u32> =
        vec![300, 1200, 2400, 4800, 9600, 19200, 38400, 57600, 115200, 230400];

    for rate in common_rates {
        let config = PortConfig::new("/dev/ttyUSB0", rate, 8, 1, Parity::NoParity);
        assert!(config.is_ok(), "Failed to parse baud rate: {}", rate);
        assert_eq!(config.unwrap().baud_rate(), rate);
    }
}

#[test]
fn test_common_data_bits() {
    let common_bits: Vec<u8> = vec![5, 6, 7, 8];

    for bits in common_bits {
        let parsed = parse_data_bits(bits);
        assert!(parsed.is_ok(), "Failed to parse data bits: {}", bits);
        assert_eq!(parsed.unwrap().bits(), bits);
    }
}

#[test]
fn test_stop_bits_values() {
    let bits: Vec<u8> = vec![1, 2];

    for bit in bits {
        let parsed = parse_stop_bits(bit);
        assert!(parsed.is_ok(), "Failed to parse stop bits: {}", bit);
        assert_eq!(parsed.unwrap().bits(), bit);
    }
}

#[test]
fn test_parity_none() {
    assert_eq!(parse_parity("none"), Ok(Parity::NoParity));
}

#[test]
fn test_parity_odd() {
    assert_eq!(parse_parity("odd"), Ok(Parity::Odd));
}

#[test]
fn test_parity_even() {
    assert_eq!(parse_parity("even"), Ok(Parity::Even));
}

#[test]
fn test_parity_invalid() {
    let parsed = parse_parity("invalid");
    assert_eq!(parsed, Err(ConfigError::InvalidParity));
    let message = parsed.unwrap_err().message();
    assert!(message.contains("parity") || message.contains("Invalid"));
}

#[test]
fn test_all_settings_with_parity() {
    let parity = parse_parity("even").unwrap();
    let config = PortConfig::new("/dev/ttyUSB0", 9600, 8, 1, parity);
    assert!(config.is_ok());
    let config = config.unwrap();
    assert_eq!(config.baud_rate(), 9600);
    assert_eq!(config.data_bits(), DataBits::Eight);
    assert_eq!(config.stop_bits(), StopBits::One);
    assert_eq!(config.parity(), Parity::Even);
}

#[test]
fn test_parity_case_insensitive() {
    let parities = vec!["NONE", "ODD", "EVEN", "None", "Odd", "Even"];
    let expected = vec![
        Parity::NoParity,
        Parity::Odd,
        Parity::Even,
        Parity::NoParity,
        Parity::Odd,
        Parity::Even,
    ];

    for (parity, parsed) in parities.into_iter().zip(expected) {
        let result = parse_parity(parity);
        assert!(result.is_ok(), "Failed to parse parity: {}", parity);
        assert_eq!(result, Ok(parsed));
    }
}

#[test]
fn parity_names_in_mixed_case_are_read() {
    assert_eq!(parse_parity("nOnE"), Ok(Parity::NoParity));
    assert_eq!(parse_parity("oDD"), Ok(Parity::Odd));
    assert_eq!(parse_parity("eVeN"), Ok(Parity::Even));
}

#[test]
fn words_that_name_no_parity_are_turned_down() {
    for word in ["", "n", "non", "nonee", "od", "odds", "eve", "evens", " none", "odd ", "mark", "space", "n0ne", "ÖDD"] {
        assert_eq!(parse_parity(word), Err(ConfigError::InvalidParity), "{}", word);
    }
}

#[test]
fn data_bits_outside_five_to_eight_are_turned_down() {
    assert_eq!(parse_data_bits(5), Ok(DataBits::Five));
    assert_eq!(parse_data_bits(6), Ok(DataBits::Six));
    assert_eq!(parse_data_bits(7), Ok(DataBits::Seven));
    assert_eq!(parse_data_bits(8), Ok(DataBits::Eight));
    for bits in [0u8, 1, 4, 9, 16, 255] {
        assert_eq!(parse_data_bits(bits), Err(ConfigError::InvalidDataBits(bits)));
    }
}

#[test]
fn stop_bits_other_than_one_and_two_are_turned_down() {
    assert_eq!(parse_stop_bits(1), Ok(StopBits::One));
    assert_eq!(parse_stop_bits(2), Ok(StopBits::Two));
    for bits in [0u8, 3, 15, 255] {
        assert_eq!(parse_stop_bits(bits), Err(ConfigError::InvalidStopBits(bits)));
    }
}

#[test]
fn zero_baud_rate_is_turned_down() {
    assert_eq!(
        PortConfig::new("/dev/ttyUSB0", 0, 8, 1, Parity::NoParity),
        Err(ConfigError::InvalidBaudRate)
    );
    assert!(PortConfig::new("/dev/ttyUSB0", 1, 8, 1, Parity::NoParity).is_ok());
    assert!(PortConfig::new("COM3", u32::MAX, 5, 2, Parity::Odd).is_ok());
}

#[test]
fn data_bits_are_checked_before_stop_bits_and_baud_rate() {
    assert_eq!(
        PortConfig::new("/dev/ttyUSB0", 0, 9, 3, Parity::NoParity),
        Err(ConfigError::InvalidDataBits(9))
    );
    assert_eq!(
        PortConfig::new("/dev/ttyUSB0", 0, 8, 3, Parity::NoParity),
        Err(ConfigError::InvalidStopBits(3))
    );
}

#[test]
fn messages_name_the_value_and_what_is_accepted() {
    assert_eq!(
        ConfigError::InvalidDataBits(9).message(),
        "Invalid data bits: 9. Must be 5, 6, 7, or 8"
    );
    assert_eq!(
        ConfigError::InvalidDataBits(255).message(),
        "Invalid data bits: 255. Must be 5, 6, 7, or 8"
    );
    assert_eq!(
        ConfigError::InvalidStopBits(0).message(),
        "Invalid stop bits: 0. Must be 1 or 2"
    );
    assert_eq!(
        ConfigError::InvalidStopBits(10).message(),
        "Invalid stop bits: 10. Must be 1 or 2"
    );
    assert_eq!(ConfigError::InvalidBaudRate.message(), "Invalid baud rate: 0. Must be positive");
    assert_eq!(
        ConfigError::InvalidParity.message(),
        "Invalid parity. Must be none, odd, or even"
    );
}

#[test]
fn read_timeout_keeps_the_pumps_responsive() {
    assert_eq!(READ_TIMEOUT_MS, 100);
    assert!(READ_TIMEOUT_MS <= 200);
}
