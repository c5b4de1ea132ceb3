//! Parsing of the `DATA` bytes of a single input into points of type `Int`.
use vstd::prelude::*;
use crate::point::{Cot, Point, PointType, Status, Value, spec_value_type};
use crate::protocol::{
    le_bytes_u16, le_u16_at, lemma_data_message_header, lemma_data_message_words,
    spec_data_message, HEADER_LEN,
};
use crate::decimal::{nat_decimal, spec_decimal};

verus! {

/// The big-endian `u16` words of `bytes`, two bytes each.
pub open spec fn spec_be_words(bytes: Seq<u8>) -> Seq<u16> {
    Seq::new(
        bytes.len() / 2,
        |i: int| (256 * bytes[2 * i] as int + bytes[2 * i + 1] as int) as u16,
    )
}

/// The big-endian bytes of `words`, two bytes each.
pub open spec fn spec_be_bytes(words: Seq<u16>) -> Seq<u8> {
    Seq::new(
        2 * words.len(),
        |k: int|
            if k % 2 == 0 {
                (words[k / 2] / 256) as u8
            } else {
                (words[k / 2] % 256) as u8
            },
    )
}

/// Words written big-endian read back as the same words: converting the
/// big-endian bytes of a non-empty sequence of words gives those words.
pub proof fn lemma_convert_roundtrip(words: Seq<u16>)
    requires
        words.len() > 0,
    ensures
        spec_convert(spec_be_bytes(words)) == Ok::<Seq<u16>, ConvertError>(words),
{
    let bytes = spec_be_bytes(words);
    assert(bytes.len() % 2 == 0);
    assert forall|i: int| 0 <= i < words.len() implies #[trigger] spec_be_words(bytes)[i]
        == words[i] by {
        assert((2 * i) / 2 == i && (2 * i) % 2 == 0);
        assert((2 * i + 1) / 2 == i && (2 * i + 1) % 2 == 1);
    }
    assert(spec_be_words(bytes) =~= words);
}

/// The whole words after the header of the data message `buf`, read
/// little-endian as the protocol sends them.
pub open spec fn spec_data_words(buf: Seq<u8>) -> Seq<u16> {
    Seq::new(
        ((buf.len() - HEADER_LEN) / 2) as nat,
        |k: int| le_u16_at(buf, HEADER_LEN + 2 * k) as u16,
    )
}

/// Returns the words of the data message `buf`, written big-endian, as
/// [UdpcParseU16::add] reads them; an odd trailing byte is left out.
pub fn data_bytes(buf: &[u8]) -> (res: Vec<u8>)
    requires
        buf.len() >= HEADER_LEN,
    ensures
        res@ == spec_be_bytes(spec_data_words(buf@)),
{
    let words = (buf.len() - HEADER_LEN) / 2;
    let ghost expected = spec_data_words(buf@);
    let ghost target = spec_be_bytes(expected);
    let mut out: Vec<u8> = Vec::new();
    let mut k: usize = 0;
    while k < words
        invariant
            buf.len() >= HEADER_LEN,
            words == (buf.len() - HEADER_LEN) / 2,
            expected == spec_data_words(buf@),
            target == spec_be_bytes(expected),
            expected.len() == words,
            k <= words,
            out@.len() == 2 * k,
            forall|j: int| 0 <= j < 2 * k ==> out@[j] == #[trigger] target[j],
        decreases words - k,
    {
        let at = HEADER_LEN + 2 * k;
        let lo = buf[at];
        let hi = buf[at + 1];
        let ghost w = expected[k as int];
        assert(w == (lo as int + 256 * hi as int) as u16);
        assert(w / 256 == hi && w % 256 == lo) by (nonlinear_arith)
            requires
                w == lo as int + 256 * hi as int,
                lo < 256,
                hi < 256,
        ;
        assert((2 * k as int) / 2 == k && (2 * k as int) % 2 == 0);
        assert((2 * k as int + 1) / 2 == k && (2 * k as int + 1) % 2 == 1);
        out.push(hi);
        out.push(lo);
        k = k + 1;
    }
    assert(out@ =~= target);
    out
}

/// What a data message carries reads back through the parser: the words of
/// a non-empty data message are the values sent.
pub proof fn lemma_data_reads_back(channel: u8, values: Seq<u16>)
    requires
        values.len() > 0,
    ensures
        spec_convert(spec_be_bytes(spec_data_words(spec_data_message(channel, values))))
            == Ok::<Seq<u16>, ConvertError>(values),
{
    let msg = spec_data_message(channel, values);
    lemma_data_message_header(channel, values);
    let words = spec_data_words(msg);
    assert(words.len() == values.len());
    assert forall|i: int| 0 <= i < values.len() implies #[trigger] words[i] == values[i] by {
        lemma_data_message_words(channel, values, i);
    }
    assert(words =~= values);
    lemma_convert_roundtrip(values);
}

/// Why raw bytes give no values.
#[derive(Debug, Clone, Copy, PartialEq, Eq, Structural)]
pub enum ConvertError {
    /// Input is empty.
    Empty,
    /// The input length is not divisible by 2; `remainder` bytes are left over.
    WrongLength { remainder: usize },
}

/// The text of each convert error.
pub open spec fn spec_convert_message(e: ConvertError) -> Seq<char> {
    match e {
        ConvertError::Empty => "Input is empty"@,
        ConvertError::WrongLength { remainder } => "Wrong input len "@ + spec_decimal(
            remainder as nat,
        ) + ", must be divisible by 2"@,
    }
}

impl ConvertError {
    /// Returns the text of the error: `Input is empty`, or
    /// `Wrong input len {remainder}, must be divisible by 2`.
    pub fn message(&self) -> (res: String)
        ensures
            res@ == spec_convert_message(*self),
    {
        match self {
            ConvertError::Empty => String::from_str("Input is empty"),
            ConvertError::WrongLength { remainder } => {
                let head = String::from_str("Wrong input len ");
                let digits = nat_decimal(*remainder as u64);
                let text = head.concat(digits.as_str());
                text.concat(", must be divisible by 2")
            },
        }
    }
}

/// What [UdpcParseU16::convert] gives for `bytes`.
pub open spec fn spec_convert(bytes: Seq<u8>) -> Result<Seq<u16>, ConvertError> {
    if bytes.len() == 0 {
        Err(ConvertError::Empty)
    } else if bytes.len() % 2 != 0 {
        Err(ConvertError::WrongLength { remainder: (bytes.len() % 2) as usize })
    } else {
        Ok(spec_be_words(bytes))
    }
}

/// Why a point cannot be written to the device.
#[derive(Debug, Clone, Copy, PartialEq, Eq, Structural)]
pub enum ToBytesError {
    /// A point of type `Int` was expected, one of this type was given.
    NotInt { found: PointType },
    /// The value does not fit in an `i16`.
    OutOfRange { value: i64 },
}

/// The result of adding `bytes` with `status` and `timestamp` to the parser
/// of point `name` with transmission id `txid`: one `Int` point per
/// big-endian word, each carrying the status, the time stamp and the cause of
/// transmission `Inf`.
pub open spec fn add_result(
    txid: usize,
    name: Seq<char>,
    bytes: Seq<u8>,
    status: Status,
    timestamp: i64,
    res: Result<Vec<Point>, ConvertError>,
) -> bool {
    match spec_convert(bytes) {
        Ok(values) => res matches Ok(points) && points.len() == values.len() && forall|i: int|
            0 <= i < values.len() ==> {
                &&& (#[trigger] points[i]).tx_id == txid
                &&& points[i].name@ == name
                &&& points[i].value matches Value::Int(v) && v == values[i] as i64
                &&& points[i].status == status
                &&& points[i].cot == Cot::Inf
                &&& points[i].timestamp == timestamp
            },
        Err(e) => res == Err::<Vec<Point>, ConvertError>(e),
    }
}

/// The result of writing `point`: the little-endian bytes of its value as an
/// `i16`, when it is an `Int` point whose value fits.
pub open spec fn to_bytes_result(point: Point, res: Result<Vec<u8>, ToBytesError>) -> bool {
    match point.value {
        Value::Int(v) => if i16::MIN <= v <= i16::MAX {
            res matches Ok(bytes) && bytes@ == le_bytes_u16(v as i16 as u16)
        } else {
            res == Err::<Vec<u8>, ToBytesError>(ToBytesError::OutOfRange { value: v })
        },
        _ => res == Err::<Vec<u8>, ToBytesError>(
            ToBytesError::NotInt { found: spec_value_type(point.value) },
        ),
    }
}

/// Used for parsing a configured point from the slice of bytes read from the device.
pub struct UdpcParseU16 {
    pub txid: usize,
    pub typ: PointType,
    pub name: String,
    pub status: Status,
}

/// Returns updated points parsed from the data bytes read from the device.
pub trait ParsePoint {
    /// Returns the type of the configured point.
    fn typ(&self) -> PointType;

    /// Adds new raw data, read at `timestamp` (nanoseconds since the Unix
    /// epoch), to be parsed.
    fn add(&mut self, bytes: &[u8], status: Status, timestamp: i64) -> Result<Vec<Point>, ConvertError>;

    /// Returns the name of the configured point.
    fn name(&self) -> String;

    /// Returns the size of the type in bytes.
    fn size(&self) -> usize;

    /// Returns the protocol specific bytes that represent the value of `point`.
    fn to_bytes(&self, point: &Point) -> Result<Vec<u8>, ToBytesError>;
}

impl UdpcParseU16 {
    /// Size in bytes of a single value of the device address area.
    pub const SIZE: usize = 2;

    /// Creates a parser of the point `name` of type `typ`; its status is `Invalid`
    /// until data is added.
    pub fn new(txid: usize, name: String, typ: PointType) -> (res: UdpcParseU16)
        ensures
            res.txid == txid,
            res.typ == typ,
            res.name@ == name@,
            res.status == Status::Invalid,
    {
        UdpcParseU16 { txid, typ, name, status: Status::Invalid }
    }

    /// Returns the `u16` values read big-endian from `bytes`, or why there are none.
    pub fn convert(&self, bytes: &[u8]) -> (res: Result<Vec<u16>, ConvertError>)
        ensures
            match spec_convert(bytes@) {
                Ok(values) => res matches Ok(v) && v@ == values,
                Err(e) => res == Err::<Vec<u16>, ConvertError>(e),
            },
    {
        if bytes.len() == 0 {
            return Err(ConvertError::Empty);
        }
        let remainder = bytes.len() % 2;
        if remainder > 0 {
            return Err(ConvertError::WrongLength { remainder });
        }
        let mut values: Vec<u16> = Vec::new();
        let n = bytes.len() / 2;
        let mut i: usize = 0;
        while i < n
            invariant
                n == bytes.len() / 2,
                bytes.len() % 2 == 0,
                i <= n,
                values@ == spec_be_words(bytes@).take(i as int),
            decreases n - i,
        {
            let word: u16 = 256 * (bytes[2 * i] as u16) + bytes[2 * i + 1] as u16;
            values.push(word);
            i = i + 1;
            assert(values@ =~= spec_be_words(bytes@).take(i as int));
        }
        assert(values@ =~= spec_be_words(bytes@));
        Ok(values)
    }

    /// Returns the points of type `Int` parsed from `bytes`, one for each
    /// big-endian word, all with the given `status` and `timestamp` and the
    /// cause of transmission `Inf`; the parser keeps `status`.
    pub fn add(&mut self, bytes: &[u8], status: Status, timestamp: i64) -> (res: Result<Vec<Point>, ConvertError>)
        ensures
            final(self).status == status,
            final(self).txid == old(self).txid,
            final(self).typ == old(self).typ,
            final(self).name@ == old(self).name@,
            add_result(old(self).txid, old(self).name@, bytes@, status, timestamp, res),
    {
        self.status = status;
        match self.convert(bytes) {
            Ok(values) => {
                let mut points: Vec<Point> = Vec::new();
                let mut i: usize = 0;
                while i < values.len()
                    invariant
                        i <= values.len(),
                        points.len() == i,
                        forall|j: int|
                            0 <= j < i ==> {
                                &&& (#[trigger] points[j]).tx_id == self.txid
                                &&& points[j].name@ == self.name@
                                &&& points[j].value matches Value::Int(v) && v == values[j] as i64
                                &&& points[j].status == status
                                &&& points[j].cot == Cot::Inf
                                &&& points[j].timestamp == timestamp
                            },
                    decreases values.len() - i,
                {
                    points.push(
                        Point {
                            tx_id: self.txid,
                            name: self.name.clone(),
                            value: Value::Int(values[i] as i64),
                            status,
                            cot: Cot::Inf,
                            timestamp,
                        },
                    );
                    i = i + 1;
                }
                Ok(points)
            },
            Err(e) => Err(e),
        }
    }

    /// Returns the little-endian bytes of the value of `point` as an `i16`.
    pub fn to_bytes(&self, point: &Point) -> (res: Result<Vec<u8>, ToBytesError>)
        ensures
            to_bytes_result(*point, res),
    {
        match &point.value {
            Value::Int(v) => {
                let v = *v;
                if -32768 <= v && v <= 32767 {
                    let word: u16 = v as i16 as u16;
                    Ok(vec![(word % 256) as u8, (word / 256) as u8])
                } else {
                    Err(ToBytesError::OutOfRange { value: v })
                }
            },
            _ => Err(ToBytesError::NotInt { found: point.value.type_() }),
        }
    }
}

impl ParsePoint for UdpcParseU16 {
    fn typ(&self) -> (res: PointType)
        ensures
            res == self.typ,
    {
        self.typ
    }

    fn add(&mut self, bytes: &[u8], status: Status, timestamp: i64) -> (res: Result<Vec<Point>, ConvertError>)
        ensures
            final(self).status == status,
            final(self).txid == old(self).txid,
            final(self).typ == old(self).typ,
            final(self).name@ == old(self).name@,
            add_result(old(self).txid, old(self).name@, bytes@, status, timestamp, res),
    {
        UdpcParseU16::add(self, bytes, status, timestamp)
    }

    fn name(&self) -> (res: String)
        ensures
            res@ == self.name@,
    {
        self.name.clone()
    }

    fn size(&self) -> (res: usize)
        ensures
            res == UdpcParseU16::SIZE,
    {
        Self::SIZE
    }

    fn to_bytes(&self, point: &Point) -> (res: Result<Vec<u8>, ToBytesError>)
        ensures
            to_bytes_result(*point, res),
    {
        UdpcParseU16::to_bytes(self, point)
    }
}

} // verus!
