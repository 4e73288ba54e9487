use asr33emu::adapters::transport::serial::settings::{LinuxTermiosSettings, Win32DcbSettings};
use asr33emu::adapters::transport::serial::{info_string, parity_label, stop_bits_label};
use asr33emu::domain::config::{DataBits, SerialConfig, SerialParity, StopBits};

fn config(databits: DataBits, parity: SerialParity, stopbits: StopBits) -> SerialConfig {
    SerialConfig {
        port: "TEST".to_owned(),
        baudrate: 110,
        databits,
        parity,
        stopbits,
    }
}

fn parity_code(parity: SerialParity) -> u8 {
    match parity {
        SerialParity::NoParity => 0,
        SerialParity::Odd => 1,
        SerialParity::Even => 2,
        SerialParity::Mark => 3,
        SerialParity::Space => 4,
    }
}

fn stop_code(stop_bits: StopBits) -> u8 {
    match stop_bits {
        StopBits::One => 0,
        StopBits::OnePointFive => 1,
        StopBits::Two => 2,
    }
}

const DATA_BITS: [DataBits; 4] = [DataBits::Five, DataBits::Six, DataBits::Seven, DataBits::Eight];
const PARITIES: [SerialParity; 5] = [
    SerialParity::NoParity,
    SerialParity::Even,
    SerialParity::Odd,
    SerialParity::Mark,
    SerialParity::Space,
];
const STOP_BITS: [StopBits; 3] = [StopBits::One, StopBits::OnePointFive, StopBits::Two];

#[test]
fn every_domain_combination_translates_to_win32_dcb() {
    for data in DATA_BITS {
        for parity in PARITIES {
            for stop in STOP_BITS {
                let translated = Win32DcbSettings::from(&config(data, parity, stop));
                assert_eq!(translated.byte_size, u8::from(data));
                assert_eq!(
                    translated.parity_check_enabled,
                    parity != SerialParity::NoParity
                );
                assert_eq!(translated.parity, parity_code(parity));
                assert_eq!(translated.stop_bits, stop_code(stop));
            }
        }
    }
}

#[test]
fn every_domain_combination_translates_to_linux_termios() {
    for data in DATA_BITS {
        for parity in PARITIES {
            for stop in STOP_BITS {
                let translated = LinuxTermiosSettings::from(&config(data, parity, stop));
                assert_eq!(translated.character_size, u8::from(data));
                assert_eq!(translated.parity_enabled, parity != SerialParity::NoParity);
                assert_eq!(
                    translated.odd_parity,
                    matches!(parity, SerialParity::Odd | SerialParity::Mark)
                );
                assert_eq!(
                    translated.mark_or_space,
                    matches!(parity, SerialParity::Mark | SerialParity::Space)
                );
                assert_eq!(translated.two_stop_bits, stop != StopBits::One);
            }
        }
    }
}

#[test]
fn posix_one_point_five_intentionally_equals_two_stop_bits() {
    let one_point_five = LinuxTermiosSettings::from(&config(
        DataBits::Seven,
        SerialParity::NoParity,
        StopBits::OnePointFive,
    ));
    let two =
        LinuxTermiosSettings::from(&config(DataBits::Seven, SerialParity::NoParity, StopBits::Two));
    assert!(one_point_five.two_stop_bits);
    assert_eq!(one_point_five, two);
}

#[test]
fn linux_mark_and_space_use_cmspar_with_distinct_parodd() {
    let mark =
        LinuxTermiosSettings::from(&config(DataBits::Seven, SerialParity::Mark, StopBits::One));
    let space = LinuxTermiosSettings::from(&config(
        DataBits::Seven,
        SerialParity::Space,
        StopBits::One,
    ));
    assert!(mark.mark_or_space && mark.odd_parity);
    assert!(space.mark_or_space && !space.odd_parity);
}

#[test]
fn info_string_preserves_extended_settings() {
    let config = config(DataBits::Seven, SerialParity::Mark, StopBits::OnePointFive);
    assert_eq!(info_string(&config), "TEST:110-7M1.5");
    let mut plain = config.clone();
    plain.baudrate = 9600;
    plain.databits = DataBits::Eight;
    plain.parity = SerialParity::NoParity;
    plain.stopbits = StopBits::One;
    assert_eq!(info_string(&plain), "TEST:9600-8N1");
    assert_eq!(parity_label(SerialParity::Even), 'E');
    assert_eq!(stop_bits_label(StopBits::Two), "2");
}
