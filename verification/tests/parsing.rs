use rpi_fft::point::{Cot, Point, PointType, Status, Value};
use rpi_fft::receiver::{exit_by_string, exit_requested};
use rpi_fft::protocol::data_message;
use rpi_fft::text::before_nul;
use rpi_fft::udpc_parse_u16::{data_bytes, ConvertError, ParsePoint, ToBytesError, UdpcParseU16};

fn parser() -> UdpcParseU16 {
    UdpcParseU16::new(7, "/test/UdpClient/Sensor1".to_string(), PointType::Int)
}

fn int_point(value: i64) -> Point {
    Point {
        tx_id: 0,
        name: "p".to_string(),
        value: Value::Int(value),
        status: Status::Good,
        cot: Cot::Inf,
        timestamp: 0,
    }
}

#[test]
fn new_parser_is_invalid() {
    let p = parser();
    assert_eq!(p.txid, 7);
    assert_eq!(p.status, Status::Invalid);
    assert_eq!(p.typ(), PointType::Int);
    assert_eq!(ParsePoint::name(&p), "/test/UdpClient/Sensor1");
    assert_eq!(p.size(), 2);
}

#[test]
fn convert_big_endian_words() {
    let p = parser();
    assert_eq!(p.convert(&[0x01, 0x02, 0xFF, 0xFE]), Ok(vec![0x0102, 0xFFFE]));
    assert_eq!(p.convert(&[0x00, 0x00]), Ok(vec![0]));
}

#[test]
fn convert_errors() {
    let p = parser();
    assert_eq!(p.convert(&[]), Err(ConvertError::Empty));
    assert_eq!(p.convert(&[1, 2, 3]), Err(ConvertError::WrongLength { remainder: 1 }));
}

#[test]
fn convert_error_messages() {
    let p = parser();
    assert_eq!(p.convert(&[]).unwrap_err().message(), "Input is empty");
    assert_eq!(
        p.convert(&[1, 2, 3]).unwrap_err().message(),
        "Wrong input len 1, must be divisible by 2"
    );
    assert_eq!(
        ConvertError::WrongLength { remainder: 1037 }.message(),
        "Wrong input len 1037, must be divisible by 2"
    );
}

#[test]
fn add_makes_int_points() {
    let mut p = parser();
    let points = p.add(&[0x00, 0x0A, 0x10, 0x00], Status::Good, 1_700_000_000_000_000_000).unwrap();
    assert_eq!(p.status, Status::Good);
    assert_eq!(points.len(), 2);
    assert_eq!(points[0].tx_id, 7);
    assert_eq!(points[0].name, "/test/UdpClient/Sensor1");
    assert!(matches!(points[0].value, Value::Int(10)));
    assert!(matches!(points[1].value, Value::Int(4096)));
    assert_eq!(points[1].status, Status::Good);
    for point in &points {
        assert_eq!(point.cot, Cot::Inf);
        assert_eq!(point.timestamp, 1_700_000_000_000_000_000);
    }
}

#[test]
fn add_keeps_status_on_error() {
    let mut p = parser();
    assert_eq!(p.add(&[1], Status::Obsolete, 5).unwrap_err(), ConvertError::WrongLength { remainder: 1 });
    assert_eq!(p.status, Status::Obsolete);
}

#[test]
fn to_bytes_little_endian_i16() {
    let p = parser();
    assert_eq!(p.to_bytes(&int_point(0x0102)), Ok(vec![0x02, 0x01]));
    assert_eq!(p.to_bytes(&int_point(-2)), Ok(vec![0xFE, 0xFF]));
    assert_eq!(p.to_bytes(&int_point(32767)), Ok(vec![0xFF, 0x7F]));
    assert_eq!(p.to_bytes(&int_point(-32768)), Ok(vec![0x00, 0x80]));
}

#[test]
fn to_bytes_errors() {
    let p = parser();
    assert_eq!(p.to_bytes(&int_point(32768)), Err(ToBytesError::OutOfRange { value: 32768 }));
    let b = Point { value: Value::Bool(true), ..int_point(0) };
    assert_eq!(p.to_bytes(&b), Err(ToBytesError::NotInt { found: PointType::Bool }));
    let r = Point { value: Value::Real(1.5f32.to_bits()), ..int_point(0) };
    assert_eq!(p.to_bytes(&r), Err(ToBytesError::NotInt { found: PointType::Real }));
}

fn string_point(name: &str, value: &str) -> Point {
    Point {
        tx_id: 0,
        name: name.to_string(),
        value: Value::String(value.to_string()),
        status: Status::Good,
        cot: Cot::Act,
        timestamp: 0,
    }
}

#[test]
fn exit_by_name_or_value() {
    assert!(exit_requested(&string_point("/App/Receiver.Exit", "")));
    assert!(exit_requested(&string_point("/App/Receiver.EXIT", "no")));
    assert!(exit_requested(&string_point("anything", "exit")));
    assert!(!exit_requested(&string_point("anything", "Exit")));
    assert!(!exit_requested(&string_point("exit.now", "")));
    assert!(!exit_requested(&int_point(1)));
}

#[test]
fn exit_by_lowercase_name_or_value() {
    assert!(exit_by_string("/app/receiver.exit", &String::new()));
    assert!(exit_by_string("x", &"exit".to_string()));
    assert!(!exit_by_string("/app/receiver.EXIT", &String::new()));
    assert!(!exit_by_string("x", &"exit ".to_string()));
}

#[test]
fn convert_reads_back_written_words() {
    let p = parser();
    let words: Vec<u16> = vec![0, 1, 255, 256, 0x1234, 0xFFFF];
    let bytes: Vec<u8> = words.iter().flat_map(|w| w.to_be_bytes()).collect();
    assert_eq!(p.convert(&bytes), Ok(words));
}

#[test]
fn data_bytes_of_a_data_message() {
    let msg = data_message(1, &[0x0102, 0xABCD]);
    assert_eq!(data_bytes(&msg), vec![0x01, 0x02, 0xAB, 0xCD]);
    let p = parser();
    assert_eq!(p.convert(&data_bytes(&msg)), Ok(vec![0x0102, 0xABCD]));
}

#[test]
fn data_bytes_skip_an_odd_byte() {
    let buf = [2u8, 0, 16, 2, 0, 0, 0, 0x10, 0x00, 0x20, 0x00, 0x30];
    assert_eq!(data_bytes(&buf), vec![0x00, 0x10, 0x00, 0x20]);
    assert_eq!(data_bytes(&buf[..7]), Vec::<u8>::new());
}

#[test]
fn text_before_the_first_nul() {
    assert_eq!(before_nul(b"TCP : Connection timed out\0\0garbage"), b"TCP : Connection timed out".to_vec());
    assert_eq!(before_nul(b"no terminator"), b"no terminator".to_vec());
    assert_eq!(before_nul(&[0, 1, 2]), Vec::<u8>::new());
    assert_eq!(before_nul(&[]), Vec::<u8>::new());
}
