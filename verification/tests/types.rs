use rpi_fft::input_type::{InputType, UnknownInputType};
use rpi_fft::s7_error::{documented, S7Error};
use rpi_fft::thread_state::ThreadState;
use rpi_fft::zoom::{zoom_in_len, zoom_out_len};

#[test]
fn input_type_sizes() {
    assert_eq!(InputType::U8.size(), 1);
    assert_eq!(InputType::I8.size(), 1);
    assert_eq!(InputType::U16.size(), 2);
    assert_eq!(InputType::I16.size(), 2);
    assert_eq!(InputType::U32.size(), 4);
    assert_eq!(InputType::I32.size(), 4);
    assert_eq!(InputType::F32.size(), 4);
}

#[test]
fn input_type_codes_roundtrip() {
    for t in [
        InputType::U8,
        InputType::I8,
        InputType::U16,
        InputType::I16,
        InputType::U32,
        InputType::I32,
        InputType::F32,
    ] {
        assert_eq!(InputType::try_from(t.code()), Ok(t));
    }
    assert_eq!(InputType::try_from(132), Ok(InputType::F32));
    assert_eq!(InputType::try_from(16), Ok(InputType::U16));
}

#[test]
fn input_type_unknown_code() {
    assert_eq!(InputType::try_from(0), Err(UnknownInputType { value: 0 }));
    assert_eq!(InputType::try_from(131), Err(UnknownInputType { value: 131 }));
    assert_eq!(UnknownInputType { value: 131 }.message(), "Unknown InputType value 131");
    assert_eq!(InputType::try_from(7).unwrap_err().message(), "Unknown InputType value 7");
    assert_eq!(InputType::try_from(0).unwrap_err().message(), "Unknown InputType value 0");
}

#[test]
fn input_type_default_and_name() {
    assert_eq!(InputType::default(), InputType::U16);
    assert_eq!(InputType::U16.to_string(), "U16");
    assert_eq!(InputType::F32.to_string(), "F32");
    assert_eq!(InputType::I8.to_string(), "I8");
}

#[test]
fn s7_error_documented_codes() {
    assert!(matches!(S7Error::from_code(0x00000001, String::new()), S7Error::TCPSocketCreation));
    assert!(matches!(S7Error::from_code(0x00002751, String::new()), S7Error::TCPUnreachableHost));
    assert!(matches!(S7Error::from_code(0x00900000, String::new()), S7Error::CliAddressOutOfRange));
    assert!(matches!(
        S7Error::from_code(0x02700000, String::new()),
        S7Error::CliFunctionNotImplemented
    ));
}

#[test]
fn s7_error_lookup_without_library_text() {
    assert!(matches!(documented(0x00000002), Some(S7Error::TCPConnectionTimeout)));
    assert!(matches!(documented(0x01D00000), Some(S7Error::CliNeedPassword)));
    assert!(documented(0x01A00000).is_none());
    assert!(documented(0).is_none());
}

#[test]
fn s7_error_undocumented_code() {
    match S7Error::from_code(0x01A00000, "Unknown error".to_string()) {
        S7Error::Inner(text) => assert_eq!(text, "Unknown error (27262976)"),
        other => panic!("unexpected {:?}", other),
    }
    match S7Error::from_code(-5, "Negative".to_string()) {
        S7Error::Inner(text) => assert_eq!(text, "Negative (-5)"),
        other => panic!("unexpected {:?}", other),
    }
    match S7Error::from_code(0, String::new()) {
        S7Error::Inner(text) => assert_eq!(text, " (0)"),
        other => panic!("unexpected {:?}", other),
    }
    match S7Error::from_code(i32::MIN, "min".to_string()) {
        S7Error::Inner(text) => assert_eq!(text, "min (-2147483648)"),
        other => panic!("unexpected {:?}", other),
    }
}

#[test]
fn thread_state_new() {
    let s = ThreadState::new(0);
    assert_eq!(s.title, "Background thread 0");
    assert_eq!(s.name, "Arthur");
    assert_eq!(s.age, 12);
    let s = ThreadState::new(37);
    assert_eq!(s.thread_nr, 37);
    assert_eq!(s.title, "Background thread 37");
    assert_eq!(s.age, 382);
}

#[test]
fn zoom_lengths() {
    assert_eq!(zoom_out_len(100, 1000), 125);
    assert_eq!(zoom_out_len(900, 1000), 1000);
    assert_eq!(zoom_out_len(800, 1000), 1000);
    assert_eq!(zoom_in_len(100), 75);
    assert_eq!(zoom_in_len(13), 10);
    assert_eq!(zoom_in_len(14), 11);
    assert_eq!(zoom_in_len(0), 10);
}
