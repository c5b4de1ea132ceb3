use rpi_fft::input_type::InputType;
use rpi_fft::protocol::{
    classify, data_message, handshake_reply, request, start_message, HandshakeError, Message,
    Request, DAT, EOT, ERR, SYN,
};

#[test]
fn start_message_is_syn_eot() {
    assert_eq!(start_message(), vec![0x22, 0x04]);
    assert_eq!(classify(&start_message()), Message::Start);
}

#[test]
fn classify_each_kind() {
    assert_eq!(classify(&[]), Message::Empty);
    assert_eq!(classify(&[SYN, EOT, 1, 2]), Message::Start);
    assert_eq!(
        classify(&[DAT, 2, 16, 0x00, 0x02, 0x00, 0x00, 9, 9]),
        Message::Data { channel: 2, typ: 16, count: 512 }
    );
    assert_eq!(classify(&[ERR, 3]), Message::Error { code: 3 });
    assert_eq!(classify(&[DAT, 1, 16]), Message::Unknown);
    assert_eq!(classify(&[SYN]), Message::Unknown);
    assert_eq!(classify(&[ERR]), Message::Unknown);
}

#[test]
fn data_message_layout() {
    // channel 1, two values
    let msg = data_message(1, &[0x0102, 0xA0B0]);
    assert_eq!(
        msg,
        vec![
            DAT, 1, 16, 2, 0, 0, 0, // header: channel 1, U16, 2 values, little endian
            0x02, 0x01, // value 0
            0xB0, 0xA0, // value 1
        ]
    );
    assert_eq!(classify(&msg), Message::Data { channel: 1, typ: InputType::U16.code(), count: 2 });
}

#[test]
fn data_message_reads_back() {
    let values: Vec<u16> = (0..512u32).map(|v| (v * 7) as u16).collect();
    let msg = data_message(2, &values);
    assert_eq!(msg.len(), 7 + 2 * values.len());
    assert_eq!(msg[1], 2);
    let count = u32::from_le_bytes([msg[3], msg[4], msg[5], msg[6]]) as usize;
    assert_eq!(count, 512);
    assert_eq!(count, (msg.len() - 7) / 2);
    for (i, v) in values.iter().enumerate() {
        let at = 7 + 2 * i;
        assert_eq!(u16::from_le_bytes([msg[at], msg[at + 1]]), *v);
    }
}

#[test]
fn data_message_without_values() {
    assert_eq!(data_message(0, &[]), vec![DAT, 0, 16, 0, 0, 0, 0]);
    assert_eq!(data_message(255, &[]), vec![DAT, 255, 16, 0, 0, 0, 0]);
}

#[test]
fn handshake_accepts_ack_and_data() {
    let mut buf = vec![0u8; 1500];
    buf[0] = SYN;
    buf[1] = EOT;
    assert_eq!(handshake_reply(&buf), Ok(()));
    assert_eq!(handshake_reply(&[DAT, 1, 16, 1, 0, 0, 0]), Ok(()));
}

#[test]
fn handshake_errors() {
    assert_eq!(handshake_reply(&[ERR, 2]), Err(HandshakeError::ErrorReceived(2)));
    assert_eq!(handshake_reply(&[]), Err(HandshakeError::Empty));
    let buf: Vec<u8> = (1..=20).collect();
    assert_eq!(handshake_reply(&buf), Err(HandshakeError::Unknown((1..=11).collect())));
}

#[test]
fn server_requests() {
    assert_eq!(request(&[]), Request::Empty);
    assert_eq!(request(&[SYN, EOT]), Request::Start);
    let buf = vec![0u8; 1500];
    assert_eq!(request(&buf), Request::Unknown(vec![0u8; 11]));
}
