//! The simple UDP protocol spoken with the vibro-analytics micro-controller.
//!
//! Message structure:
//!
//! | Field name: | FUN | ADDR | TYPE | COUNT | DATA       |
//! |-------------|-----|------|------|-------|------------|
//! | Data type:  | u8  | u8   | u8   | u32   | [T; COUNT] |
//!
//! - `FUN` functional byte: `0x22` initialization (start), `0x02` data,
//!   `0x05` command, `0x07` error message;
//! - `ADDR` index of the input channel (0 - the first input channel);
//! - `TYPE` type of the values in `DATA`, see [crate::input_type::InputType];
//! - `COUNT` number of values in `DATA`, little endian;
//! - `DATA` the values, little endian.
//!
//! The client starts a session with `[SYN, EOT]`; the device acknowledges
//! with the same two bytes (or directly with a data message) and then
//! streams data messages.
use vstd::prelude::*;
use crate::input_type::{InputType, spec_code};

verus! {

/// Functional byte of the start (initialization) message.
pub const SYN: u8 = 0x22;
/// End of transmission, follows `SYN` in the start message.
pub const EOT: u8 = 0x04;
/// Functional byte of a data message (`STX`).
pub const DAT: u8 = 0x02;
/// Functional byte of a command message.
pub const CMD: u8 = 0x05;
/// Functional byte of an error message.
pub const ERR: u8 = 0x07;
/// Length of the header of a data message: `FUN`, `ADDR`, `TYPE` and the four bytes of `COUNT`.
pub const HEADER_LEN: usize = 7;

/// Units of the values a device sends.
#[derive(Debug, Clone, PartialEq, Eq, Hash)]
pub enum Units {
    Data,
    Unknown(String),
}

/// What a received datagram is, judged by its leading bytes.
#[derive(Debug, Clone, Copy, PartialEq, Eq, Structural)]
pub enum Message {
    /// Nothing was received.
    Empty,
    /// A start message, or its acknowledgement: `[SYN, EOT, ..]`.
    Start,
    /// A data message with a complete header: the index of its input
    /// channel, the type of its values and their number.
    Data { channel: u8, typ: u8, count: u32 },
    /// An error message: `[ERR, code, ..]`.
    Error { code: u8 },
    /// Anything else.
    Unknown,
}

/// Little-endian bytes of a `u16`.
pub open spec fn le_bytes_u16(v: u16) -> Seq<u8> {
    seq![(v % 256) as u8, (v / 256) as u8]
}

/// Little-endian bytes of a `u32`.
pub open spec fn le_bytes_u32(v: u32) -> Seq<u8> {
    seq![
        (v % 256) as u8,
        ((v / 256) % 256) as u8,
        ((v / 65536) % 256) as u8,
        (v / 16777216) as u8,
    ]
}

/// The `u32` whose little-endian bytes start at `at` in `buf`.
pub open spec fn le_u32_at(buf: Seq<u8>, at: int) -> u32 {
    (buf[at] as int + 256 * buf[at + 1] as int + 65536 * buf[at + 2] as int + 16777216 * buf[at
        + 3] as int) as u32
}

/// The `u16` whose little-endian bytes start at `at` in `buf`.
pub open spec fn le_u16_at(buf: Seq<u8>, at: int) -> int {
    buf[at] as int + 256 * buf[at + 1] as int
}

/// Whether `buf` starts with the start message `[SYN, EOT]`.
pub open spec fn is_start(buf: Seq<u8>) -> bool {
    buf.len() >= 2 && buf[0] == SYN && buf[1] == EOT
}

/// The kind of a received datagram.
pub open spec fn spec_classify(buf: Seq<u8>) -> Message {
    if is_start(buf) {
        Message::Start
    } else if buf.len() >= 7 && buf[0] == DAT {
        Message::Data { channel: buf[1], typ: buf[2], count: le_u32_at(buf, 3) }
    } else if buf.len() >= 2 && buf[0] == ERR {
        Message::Error { code: buf[1] }
    } else if buf.len() == 0 {
        Message::Empty
    } else {
        Message::Unknown
    }
}

/// Returns the kind of the received datagram `buf`.
pub fn classify(buf: &[u8]) -> (res: Message)
    ensures
        res == spec_classify(buf@),
{
    if buf.len() >= 2 && buf[0] == SYN && buf[1] == EOT {
        Message::Start
    } else if buf.len() >= 7 && buf[0] == DAT {
        let count = buf[3] as u32 + 256 * buf[4] as u32 + 65536 * buf[5] as u32 + 16777216
            * buf[6] as u32;
        Message::Data { channel: buf[1], typ: buf[2], count }
    } else if buf.len() >= 2 && buf[0] == ERR {
        Message::Error { code: buf[1] }
    } else if buf.len() == 0 {
        Message::Empty
    } else {
        Message::Unknown
    }
}

/// The start message, also sent back as its acknowledgement.
pub fn start_message() -> (res: Vec<u8>)
    ensures
        res@ == seq![SYN, EOT],
{
    vec![SYN, EOT]
}

/// Why the device's answer to the start message is refused.
#[derive(Debug, Clone, PartialEq, Eq)]
pub enum HandshakeError {
    /// The device answered with an error message carrying this code.
    ErrorReceived(u8),
    /// The answer was empty.
    Empty,
    /// The answer is of no known form; the first eleven bytes of it.
    Unknown(Vec<u8>),
}

/// Whether an answer of the given kind can be reported without panicking:
/// an unknown answer is reported by its first eleven bytes.
pub open spec fn reportable(buf: Seq<u8>) -> bool {
    spec_classify(buf) is Unknown ==> buf.len() >= 11
}

/// Returns whether the answer `buf` can be checked by [handshake_reply].
pub fn is_reportable(buf: &[u8]) -> (res: bool)
    ensures
        res == reportable(buf@),
{
    match classify(buf) {
        Message::Unknown => buf.len() >= 11,
        _ => true,
    }
}

/// Checks the device's answer `buf` to the start message.
///
/// The session is established when the answer acknowledges the start message
/// or already is a data message.
pub fn handshake_reply(buf: &[u8]) -> (res: Result<(), HandshakeError>)
    requires
        reportable(buf@),
    ensures
        match spec_classify(buf@) {
            Message::Start => res is Ok,
            Message::Data { .. } => res is Ok,
            Message::Error { code } => res matches Err(HandshakeError::ErrorReceived(c)) && c == code,
            Message::Empty => res matches Err(HandshakeError::Empty),
            Message::Unknown => res matches Err(HandshakeError::Unknown(head)) && head@ == buf@.take(
                11,
            ),
        },
{
    match classify(buf) {
        Message::Start => Ok(()),
        Message::Data { .. } => Ok(()),
        Message::Error { code } => Err(HandshakeError::ErrorReceived(code)),
        Message::Empty => Err(HandshakeError::Empty),
        Message::Unknown => {
            let mut head: Vec<u8> = Vec::new();
            let mut i: usize = 0;
            while i < 11
                invariant
                    i <= 11 <= buf.len(),
                    head@ == buf@.take(i as int),
                decreases 11 - i,
            {
                head.push(buf[i]);
                i = i + 1;
                assert(head@ =~= buf@.take(i as int));
            }
            Err(HandshakeError::Unknown(head))
        },
    }
}

/// What the emulated device does with a received request.
#[derive(Debug, Clone, PartialEq, Eq)]
pub enum Request {
    /// An empty datagram, only noted.
    Empty,
    /// A start message: acknowledge it and stream data messages.
    Start,
    /// Anything else, reported by its first eleven bytes.
    Unknown(Vec<u8>),
}

/// Whether a request can be reported without panicking: anything that is
/// neither empty nor a start message is reported by its first eleven bytes.
pub open spec fn request_reportable(buf: Seq<u8>) -> bool {
    buf.len() == 0 || is_start(buf) || buf.len() >= 11
}

/// Returns whether the request `buf` can be judged by [request].
pub fn is_request_reportable(buf: &[u8]) -> (res: bool)
    ensures
        res == request_reportable(buf@),
{
    buf.len() == 0 || (buf.len() >= 2 && buf[0] == SYN && buf[1] == EOT) || buf.len() >= 11
}

/// Judges a request received by the emulated device.
pub fn request(buf: &[u8]) -> (res: Request)
    requires
        request_reportable(buf@),
    ensures
        buf.len() == 0 ==> res == Request::Empty,
        is_start(buf@) ==> res == Request::Start,
        buf.len() != 0 && !is_start(buf@) ==> (res matches Request::Unknown(head) && head@
            == buf@.take(11)),
{
    if buf.len() == 0 {
        Request::Empty
    } else if buf.len() >= 2 && buf[0] == SYN && buf[1] == EOT {
        Request::Start
    } else {
        let mut head: Vec<u8> = Vec::new();
        let mut i: usize = 0;
        while i < 11
            invariant
                i <= 11 <= buf.len(),
                head@ == buf@.take(i as int),
            decreases 11 - i,
        {
            head.push(buf[i]);
            i = i + 1;
            assert(head@ =~= buf@.take(i as int));
        }
        Request::Unknown(head)
    }
}

/// The little-endian bytes of `values`, two bytes each: the `DATA` field of
/// a data message.
pub open spec fn spec_payload(values: Seq<u16>) -> Seq<u8> {
    Seq::new(
        2 * values.len(),
        |k: int|
            if k % 2 == 0 {
                (values[k / 2] % 256) as u8
            } else {
                (values[k / 2] / 256) as u8
            },
    )
}

/// The header of a data message of input channel `channel` whose `DATA`
/// holds `count` u16 values.
pub open spec fn spec_header(channel: u8, count: u32) -> Seq<u8> {
    seq![DAT, channel, spec_code(InputType::U16)] + le_bytes_u32(count)
}

/// The `COUNT` of a data message of `len` values; a `u32` holds it whenever
/// the message fits a datagram.
pub open spec fn spec_count(len: nat) -> u32 {
    len as u32
}

/// The data message carrying `values` of input channel `channel`: `ADDR` is
/// the index of the channel, `COUNT` the number of values, `DATA` the values.
pub open spec fn spec_data_message(channel: u8, values: Seq<u16>) -> Seq<u8> {
    spec_header(channel, spec_count(values.len())) + spec_payload(values)
}

/// Returns the data message that carries `values` of input channel `channel`.
pub fn data_message(channel: u8, values: &[u16]) -> (msg: Vec<u8>)
    ensures
        msg@ == spec_data_message(channel, values@),
{
    let mut buf: Vec<u8> = vec![DAT, channel, InputType::U16.code()];
    let count: u32 = #[verifier::truncate] (values.len() as u32);
    buf.push((count % 256) as u8);
    buf.push(((count / 256) % 256) as u8);
    buf.push(((count / 65536) % 256) as u8);
    buf.push((count / 16777216) as u8);
    let ghost header = spec_header(channel, count);
    assert(buf@ =~= header);
    let mut i: usize = 0;
    while i < values.len()
        invariant
            i <= values.len(),
            header == spec_header(channel, spec_count(values@.len())),
            buf@ == header + spec_payload(values@.take(i as int)),
        decreases values.len() - i,
    {
        let value = values[i];
        buf.push((value % 256) as u8);
        buf.push((value / 256) as u8);
        i = i + 1;
        proof {
            let p = spec_payload(values@.take(i as int));
            let q = spec_payload(values@.take(i - 1));
            assert forall|k: int| 0 <= k < p.len() implies #[trigger] p[k] == (q + seq![
                (value % 256) as u8,
                (value / 256) as u8,
            ])[k] by {
                if k < q.len() {
                    assert(k / 2 < i - 1) by (nonlinear_arith)
                        requires
                            0 <= k < 2 * (i - 1),
                    ;
                } else {
                    assert(k / 2 == i - 1) by (nonlinear_arith)
                        requires
                            2 * (i - 1) <= k < 2 * i,
                    ;
                }
            }
            assert(p =~= q + seq![(value % 256) as u8, (value / 256) as u8]);
        }
        assert(buf@ =~= header + spec_payload(values@.take(i as int)));
    }
    assert(values@.take(i as int) =~= values@);
    buf
}

/// The little-endian bytes of a count read back as that count.
proof fn lemma_le_u32_roundtrip(c: u32)
    ensures
        le_u32_at(le_bytes_u32(c), 0) == c,
{
    let b = le_bytes_u32(c);
    assert(c % 256 + 256 * ((c / 256) % 256) + 65536 * ((c / 65536) % 256) + 16777216 * (c
        / 16777216) == c) by (nonlinear_arith);
}

/// A data message is judged a data message whose header tells its channel,
/// the `U16` type and the number of its values; it is seven bytes of header
/// followed by two bytes per value, so `COUNT` is the number of words after
/// the header whenever it fits a `u32`.
pub proof fn lemma_data_message_header(channel: u8, values: Seq<u16>)
    ensures
        spec_classify(spec_data_message(channel, values)) == (Message::Data {
            channel,
            typ: spec_code(InputType::U16),
            count: spec_count(values.len()),
        }),
        spec_data_message(channel, values).len() == HEADER_LEN + 2 * values.len(),
        values.len() <= u32::MAX ==> spec_count(values.len()) == (spec_data_message(
            channel,
            values,
        ).len() - HEADER_LEN) / 2,
{
    let msg = spec_data_message(channel, values);
    let count = spec_count(values.len());
    lemma_le_u32_roundtrip(count);
    assert(msg.subrange(3, 7) =~= le_bytes_u32(count));
    assert(le_u32_at(msg, 3) == le_u32_at(le_bytes_u32(count), 0));
}

/// What a data message carries reads back: its `i`-th word is the `i`-th value.
pub proof fn lemma_data_message_words(channel: u8, values: Seq<u16>, i: int)
    requires
        0 <= i < values.len(),
    ensures
        le_u16_at(spec_data_message(channel, values), HEADER_LEN + 2 * i) == values[i] as int,
{
    let msg = spec_data_message(channel, values);
    let payload = spec_payload(values);
    assert((2 * i) / 2 == i && (2 * i) % 2 == 0);
    assert((2 * i + 1) / 2 == i && (2 * i + 1) % 2 == 1);
    assert(msg[HEADER_LEN + 2 * i] == payload[2 * i]);
    assert(msg[HEADER_LEN + 2 * i + 1] == payload[2 * i + 1]);
    let v = values[i];
    assert((v % 256) as int + 256 * ((v / 256) as int) == v as int) by (nonlinear_arith);
}

/// Every datagram of at least seven bytes that starts with `DAT` is a data
/// message, whatever its `TYPE` byte: its channel is the second byte, its type
/// the third, its count the next four bytes read little-endian; and as an
/// answer to the start message it can be checked.
pub proof fn lemma_any_data_datagram(buf: Seq<u8>)
    requires
        buf.len() >= 7,
        buf[0] == DAT,
    ensures
        spec_classify(buf) == (Message::Data {
            channel: buf[1],
            typ: buf[2],
            count: (buf[3] as int + 256 * buf[4] as int + 65536 * buf[5] as int + 16777216
                * buf[6] as int) as u32,
        }),
        reportable(buf),
{
}

/// The start message is judged a start message, and it establishes the
/// session when it comes back as the device's answer.
pub proof fn lemma_start_message_acknowledges()
    ensures
        spec_classify(seq![SYN, EOT]) == Message::Start,
        reportable(seq![SYN, EOT]),
{
}

} // verus!
