//! Line protocol of the serial pressure transducer.
//!
//! A frame is `ADDR CMD [DATA] CRC '\r'`: three decimal digits of address, one
//! command byte, an optional payload, one checksum byte and a carriage return.
//! Everything here works on bytes that the host has already read from, or is
//! about to write to, the half-duplex port.

use vstd::arithmetic::div_mod::lemma_basic_div;
use vstd::arithmetic::div_mod::lemma_div_denominator;
use vstd::prelude::*;
use vstd::slice::slice_subrange;
use vstd::slice::slice_to_vec;
use vstd::utf8::*;

pub mod laws;

verus! {

/// Last byte of every frame.
pub const FRAME_END: u8 = 13;

/// Command byte that asks for the device identifier.
pub const CMD_ID: u8 = 84;

/// Command byte that asks for a pressure reading.
pub const CMD_PRESSURE: u8 = 77;

/// Time to wait between the end of a request and the read of its reply.
pub const SETTLE_DELAY_MS: u64 = 35;

/// The digit `0`.
pub const ASCII_ZERO: u8 = 48;

/// The sign `+`.
pub const ASCII_PLUS: u8 = 43;

/// The sign `-`.
pub const ASCII_MINUS: u8 = 45;

/// Sum of the bytes of `data`, as a mathematical integer.
pub open spec fn byte_sum(data: Seq<u8>) -> int
    decreases data.len(),
{
    if data.len() == 0 {
        0
    } else {
        byte_sum(data.drop_last()) + data.last() as int
    }
}

/// Checksum of a frame body: the byte sum modulo 64, plus 64.
pub open spec fn crc_of(data: Seq<u8>) -> u8 {
    (byte_sum(data) % 64 + 64) as u8
}

/// A frame body followed by its checksum and the terminator.
pub open spec fn framed(body: Seq<u8>) -> Seq<u8> {
    body.push(crc_of(body)).push(FRAME_END)
}

/// Whether `b` is one of the digits `0` to `9`.
pub open spec fn is_digit(b: u8) -> bool {
    ASCII_ZERO <= b <= ASCII_ZERO + 9
}

/// Whether `s` holds digits alone.
pub open spec fn all_digits(s: Seq<u8>) -> bool {
    forall|i: int| 0 <= i < s.len() ==> is_digit(#[trigger] s[i])
}

/// Value of a run of decimal digits, most significant first.
pub open spec fn digits_value(s: Seq<u8>) -> int
    decreases s.len(),
{
    if s.len() == 0 {
        0
    } else {
        10 * digits_value(s.drop_last()) + (s.last() - ASCII_ZERO)
    }
}

/// Whether a field opens with a sign: `+` always counts, `-` only in a signed
/// field.
pub open spec fn has_sign(s: Seq<u8>, signed: bool) -> bool {
    s.len() > 0 && (s[0] == ASCII_PLUS || (signed && s[0] == ASCII_MINUS))
}

/// Value of a decimal field: an optional sign followed by at least one digit
/// and nothing else. `None` for anything malformed.
pub open spec fn parse_decimal(s: Seq<u8>, signed: bool) -> Option<int> {
    let digits = if has_sign(s, signed) {
        s.skip(1)
    } else {
        s
    };
    if digits.len() == 0 || !all_digits(digits) {
        None
    } else if has_sign(s, signed) && s[0] == ASCII_MINUS {
        Some(-digits_value(digits))
    } else {
        Some(digits_value(digits))
    }
}

/// The `width` least significant decimal digits of `n`, zero-padded.
pub open spec fn decimal(n: int, width: nat) -> Seq<u8>
    decreases width,
{
    if width == 0 {
        Seq::empty()
    } else {
        decimal(n / 10, (width - 1) as nat).push((ASCII_ZERO + n % 10) as u8)
    }
}

/// Ten to the power of `n`.
pub open spec fn pow10(n: nat) -> int
    decreases n,
{
    if n == 0 {
        1
    } else {
        10 * pow10((n - 1) as nat)
    }
}

/// A pressure as the transducer reports it: `mantissa / 1000 * 10^(exponent - 20)`
/// millibar.
#[derive(Clone, Copy, Debug, PartialEq, Eq)]
pub struct Reading {
    pub mantissa: u32,
    pub exponent: i32,
}

impl Reading {
    /// The reading in millionths of a millibar, rounded towards zero.
    pub open spec fn spec_micro_mbar(self) -> int {
        if self.exponent >= 17 {
            self.mantissa as int * pow10((self.exponent - 17) as nat)
        } else {
            self.mantissa as int / pow10((17 - self.exponent) as nat)
        }
    }
}

/// Powers of ten are positive and grow with the exponent.
pub proof fn lemma_pow10_increases(a: nat, b: nat)
    requires
        a <= b,
    ensures
        0 < pow10(a) <= pow10(b),
    decreases b,
{
    if b == 0 {
    } else if a == b {
        lemma_pow10_increases(0, (b - 1) as nat);
    } else {
        lemma_pow10_increases(a, (b - 1) as nat);
    }
}

impl Reading {
    /// The reading in millionths of a millibar, rounded towards zero, or
    /// `None` where that number is beyond the range of `i64`.
    pub fn micro_mbar(&self) -> (r: Option<i64>)
        ensures
            self.spec_micro_mbar() <= i64::MAX ==> r == Some(self.spec_micro_mbar() as i64),
            self.spec_micro_mbar() > i64::MAX ==> r is None,
    {
        if self.mantissa == 0 {
            proof {
                if self.exponent >= 17 {
                    assert(0 * pow10((self.exponent - 17) as nat) == 0) by (nonlinear_arith);
                } else {
                    lemma_pow10_increases(0, (17 - self.exponent) as nat);
                    lemma_basic_div(0, pow10((17 - self.exponent) as nat));
                }
            }
            return Some(0);
        }
        let m: u32 = self.mantissa;
        let e: i32 = self.exponent;
        if e >= 17 {
            let mut acc: i64 = m as i64;
            let mut k: i32 = 17;
            while k < e
                invariant
                    17 <= k <= e,
                    m == self.mantissa,
                    e == self.exponent,
                    m > 0,
                    acc == m * pow10((k - 17) as nat),
                    acc > 0,
                decreases e - k,
            {
                if acc > i64::MAX / 10 {
                    proof {
                        let reached = pow10((k + 1 - 17) as nat);
                        let end = pow10((e - 17) as nat);
                        lemma_pow10_increases((k + 1 - 17) as nat, (e - 17) as nat);
                        assert(m * end >= m * reached) by (nonlinear_arith)
                            requires
                                end >= reached,
                                m > 0,
                        ;
                        assert(m * reached == 10 * (m * pow10((k - 17) as nat)))
                            by (nonlinear_arith)
                            requires
                                reached == 10 * pow10((k - 17) as nat),
                        ;
                    }
                    return None;
                }
                proof {
                    assert(m * pow10((k + 1 - 17) as nat) == 10 * (m * pow10((k - 17) as nat)))
                        by (nonlinear_arith)
                        requires
                            pow10((k + 1 - 17) as nat) == 10 * pow10((k - 17) as nat),
                    ;
                }
                acc = acc * 10;
                k = k + 1;
            }
            Some(acc)
        } else {
            let mut acc: u32 = m;
            let mut k: i32 = e;
            while k < 17 && acc > 0
                invariant
                    e <= k <= 17,
                    acc as int == m as int / pow10((k - e) as nat),
                decreases 17 - k,
            {
                proof {
                    lemma_pow10_increases(0, (k - e) as nat);
                    lemma_div_denominator(m as int, pow10((k - e) as nat), 10);
                    assert(pow10((k + 1 - e) as nat) == pow10((k - e) as nat) * 10);
                }
                acc = acc / 10;
                k = k + 1;
            }
            proof {
                if k < 17 {
                    let reached = pow10((k - e) as nat);
                    let end = pow10((17 - e) as nat);
                    lemma_pow10_increases((k - e) as nat, (17 - e) as nat);
                    assert(m < reached) by (nonlinear_arith)
                        requires
                            m as int / reached == 0,
                            reached > 0,
                            m >= 0,
                    ;
                    lemma_basic_div(m as int, end);
                }
            }
            Some(acc as i64)
        }
    }
}

/// Field of a response that failed to decode.
#[derive(Clone, Copy, Debug, PartialEq, Eq)]
pub enum Field {
    Address,
    Id,
    Mantissa,
    Exponent,
}

/// Why a response does not decode.
#[derive(Clone, Copy, Debug, PartialEq, Eq)]
pub enum ParseError {
    /// The bytes do not end in a checksum and a carriage return.
    Incomplete,
    /// The checksum in the frame, and the one computed over its body.
    CrcError { msg: u8, actual: u8 },
    /// A field is missing or malformed.
    ValueError(Field),
    /// The command byte is missing or is none that this codec decodes.
    Unknown,
}

/// A decoded response.
#[derive(Debug, PartialEq, Eq)]
pub enum Response {
    Id { addr: u8, id: String },
    Pressure(Reading),
}

/// What a response holds, with the identifier as a sequence of characters.
pub enum ResponseView {
    Id { addr: u8, id: Seq<char> },
    Pressure(Reading),
}

impl View for Response {
    type V = ResponseView;

    open spec fn view(&self) -> ResponseView {
        match self {
            Response::Id { addr, id } => ResponseView::Id { addr: *addr, id: id@ },
            Response::Pressure(r) => ResponseView::Pressure(*r),
        }
    }
}

/// Why a probe for the transducer must be given up for good.
#[derive(Clone, Copy, Debug, PartialEq, Eq)]
pub enum ProbeError {
    /// A well-formed response that carries no identifier.
    WrongResponse,
    /// A response that fails to decode after its checksum has matched.
    Decode(ParseError),
}

/// What a probe concludes from a decoded response: the identifier, no device
/// for now (`Ok(None)`), or a fault.
pub open spec fn probe_outcome(decoded: Result<ResponseView, ParseError>) -> Result<
    Option<Seq<char>>,
    ProbeError,
> {
    match decoded {
        Ok(ResponseView::Id { addr, id }) => Ok(Some(id)),
        Ok(ResponseView::Pressure(_)) => Err(ProbeError::WrongResponse),
        Err(ParseError::Incomplete) => Ok(None),
        Err(ParseError::CrcError { msg, actual }) => Ok(None),
        Err(e) => Err(ProbeError::Decode(e)),
    }
}

/// What a poll concludes from a decoded response: the reading, or no sample
/// this tick.
pub open spec fn poll_outcome(decoded: Result<ResponseView, ParseError>) -> Option<Reading> {
    match decoded {
        Ok(ResponseView::Pressure(reading)) => Some(reading),
        _ => None,
    }
}

/// One thing that the host does on the port in the course of an exchange.
#[derive(Clone, Copy, Debug, PartialEq, Eq, Structural)]
pub enum PortStep {
    /// Read and drop whatever has been received.
    FlushRx,
    /// Enable the driver, write the request, wait until it has left, and
    /// disable the driver again.
    Transmit,
    /// Wait for the settle delay.
    Settle,
    /// Read whatever has been received, up to the first moment at which
    /// nothing more is there.
    Receive,
}

/// The two exchanges with the transducer.
#[derive(Clone, Copy, Debug, PartialEq, Eq, Structural)]
pub enum Exchange {
    /// Ask for the identifier, once, at start.
    Probe,
    /// Ask for a reading, every tick.
    Poll,
}

impl Exchange {
    /// The command byte of the request.
    pub open spec fn spec_command(self) -> u8 {
        match self {
            Exchange::Probe => CMD_ID,
            Exchange::Poll => CMD_PRESSURE,
        }
    }

    /// The steps of the exchange, in order. A poll drops stale bytes before
    /// it sends its request, so that an earlier reply that nobody has read is
    /// not taken for the new one; a probe sends first and drops then. Neither
    /// repeats a step.
    pub open spec fn spec_steps(self) -> Seq<PortStep> {
        match self {
            Exchange::Probe => seq![
                PortStep::Transmit,
                PortStep::FlushRx,
                PortStep::Settle,
                PortStep::Receive,
            ],
            Exchange::Poll => seq![
                PortStep::FlushRx,
                PortStep::Transmit,
                PortStep::Settle,
                PortStep::Receive,
            ],
        }
    }

    #[verifier::when_used_as_spec(spec_command)]
    pub fn command(self) -> (cmd: u8)
        ensures
            cmd == self.spec_command(),
    {
        match self {
            Exchange::Probe => CMD_ID,
            Exchange::Poll => CMD_PRESSURE,
        }
    }

    /// The steps of the exchange, in the order in which the host takes them.
    pub fn steps(self) -> (steps: [PortStep; 4])
        ensures
            steps@ == self.spec_steps(),
    {
        let steps = match self {
            Exchange::Probe => [
                PortStep::Transmit,
                PortStep::FlushRx,
                PortStep::Settle,
                PortStep::Receive,
            ],
            Exchange::Poll => [
                PortStep::FlushRx,
                PortStep::Transmit,
                PortStep::Settle,
                PortStep::Receive,
            ],
        };
        assert(steps@ =~= self.spec_steps());
        steps
    }
}

/// Decoding of a frame body whose checksum has matched.
///
/// The first three bytes are the address, an unsigned decimal field of at
/// most 255. The fourth byte is the command: `T` is followed by the
/// identifier, which is UTF-8 up to the end of the body, `M` by the payload of
/// a pressure response, and any other command is `Unknown`. A body that ends
/// within the address is malformed there; one that ends before the command is
/// `Unknown`.
pub open spec fn decode_body(body: Seq<u8>) -> Result<ResponseView, ParseError> {
    if body.len() < 3 {
        Err(ParseError::ValueError(Field::Address))
    } else {
        match parse_decimal(body.take(3), false) {
            Some(addr) if addr <= u8::MAX => {
                if body.len() < 4 {
                    Err(ParseError::Unknown)
                } else if body[3] == CMD_ID {
                    if valid_utf8(body.skip(4)) {
                        Ok(ResponseView::Id { addr: addr as u8, id: decode_utf8(body.skip(4)) })
                    } else {
                        Err(ParseError::ValueError(Field::Id))
                    }
                } else if body[3] == CMD_PRESSURE {
                    decode_pressure(body)
                } else {
                    Err(ParseError::Unknown)
                }
            },
            _ => Err(ParseError::ValueError(Field::Address)),
        }
    }
}

/// Decoding of the payload of a pressure response: four bytes of mantissa, an
/// unsigned decimal field, and two of exponent, a signed one, directly behind
/// the command byte. The mantissa is looked at first, and a field that the
/// body ends before is malformed. Bytes behind the payload are not looked at.
pub open spec fn decode_pressure(body: Seq<u8>) -> Result<ResponseView, ParseError> {
    if body.len() < 8 {
        Err(ParseError::ValueError(Field::Mantissa))
    } else {
        match parse_decimal(body.subrange(4, 8), false) {
            None => Err(ParseError::ValueError(Field::Mantissa)),
            Some(m) => {
                if body.len() < 10 {
                    Err(ParseError::ValueError(Field::Exponent))
                } else {
                    match parse_decimal(body.subrange(8, 10), true) {
                        None => Err(ParseError::ValueError(Field::Exponent)),
                        Some(e) => Ok(
                            ResponseView::Pressure(
                                Reading { mantissa: m as u32, exponent: e as i32 },
                            ),
                        ),
                    }
                }
            },
        }
    }
}

/// Decoding of everything read from the port after one request.
///
/// Fewer than two bytes, and bytes that do not end in a carriage return, are
/// `Incomplete`. The byte before the carriage return is the checksum of all
/// bytes before it; where it is not, the frame is a `CrcError`, whatever else
/// it holds.
pub open spec fn decode_spec(data: Seq<u8>) -> Result<ResponseView, ParseError> {
    if data.len() < 2 || data.last() != FRAME_END {
        Err(ParseError::Incomplete)
    } else {
        let body = data.take(data.len() - 2);
        let msg = data[data.len() - 2];
        if crc_of(body) != msg {
            Err(ParseError::CrcError { msg, actual: crc_of(body) })
        } else {
            decode_body(body)
        }
    }
}

/// `r` with its identifier taken as a sequence of characters.
pub open spec fn response_view(r: Result<Response, ParseError>) -> Result<
    ResponseView,
    ParseError,
> {
    match r {
        Ok(resp) => Ok(resp@),
        Err(e) => Err(e),
    }
}

/// The transducer at one address of the serial line.
pub struct TyracontSensor {
    pub addr: u8,
}

/// `core::str::from_utf8`: the bytes as a string slice when they are valid
/// UTF-8, and nothing otherwise. The slice holds the characters that the bytes
/// encode.
#[verifier::external_body]
fn str_from_utf8(bytes: &[u8]) -> (r: Option<&str>)
    ensures
        r is Some <==> valid_utf8(bytes@),
        r matches Some(s) ==> s@ == decode_utf8(bytes@),
{
    match core::str::from_utf8(bytes) {
        Ok(s) => Some(s),
        Err(_) => None,
    }
}

/// Parses the decimal field `data[start..end]`.
fn parse_field(data: &[u8], start: usize, end: usize, signed: bool) -> (r: Option<i32>)
    requires
        start <= end <= data.len(),
        end - start <= 8,
    ensures
        match parse_decimal(data@.subrange(start as int, end as int), signed) {
            Some(v) => r == Some(v as i32) && -100_000_000 < v < 100_000_000,
            None => r is None,
        },
{
    let ghost field = data@.subrange(start as int, end as int);
    let mut first: usize = start;
    let mut negative = false;
    if start < end && (data[start] == ASCII_PLUS || (signed && data[start] == ASCII_MINUS)) {
        negative = data[start] == ASCII_MINUS;
        first = start + 1;
    }
    let ghost digits = data@.subrange(first as int, end as int);
    proof {
        assert(field.len() == end - start);
        assert(field.len() > 0 ==> field[0] == data@[start as int]);
        if has_sign(field, signed) {
            assert(first == start + 1);
            assert(field.skip(1) =~= digits);
        } else {
            assert(first == start);
            assert(field =~= digits);
        }
    }
    if first == end {
        return None;
    }
    let mut acc: i32 = 0;
    let mut i: usize = first;
    while i < end
        invariant
            first <= i <= end <= data.len(),
            end - first <= 8,
            start <= first,
            digits == data@.subrange(first as int, end as int),
            parse_decimal(data@.subrange(start as int, end as int), signed) == (if !all_digits(
                digits,
            ) {
                None
            } else if negative {
                Some(-digits_value(digits))
            } else {
                Some(digits_value(digits))
            }),
            all_digits(data@.subrange(first as int, i as int)),
            acc as int == digits_value(data@.subrange(first as int, i as int)),
            0 <= acc < pow10((i - first) as nat),
        decreases end - i,
    {
        let b = data[i];
        if b < ASCII_ZERO || b > ASCII_ZERO + 9 {
            proof {
                assert(digits[i - first] == b);
            }
            return None;
        }
        proof {
            let next = data@.subrange(first as int, i + 1);
            assert(next.drop_last() =~= data@.subrange(first as int, i as int));
            assert(next.last() == b);
            lemma_pow10_bounds((i - first) as nat);
            lemma_pow10_bounds((i + 1 - first) as nat);
        }
        acc = acc * 10 + (b - ASCII_ZERO) as i32;
        i += 1;
    }
    proof {
        lemma_pow10_bounds((end - first) as nat);
        assert(data@.subrange(first as int, i as int) =~= digits);
    }
    if negative {
        Some(-acc)
    } else {
        Some(acc)
    }
}

/// The powers of ten that a field of up to eight digits can reach.
proof fn lemma_pow10_bounds(n: nat)
    requires
        n <= 8,
    ensures
        1 <= pow10(n) <= 100_000_000,
        n > 0 ==> pow10(n) == 10 * pow10((n - 1) as nat),
{
    reveal_with_fuel(pow10, 10);
}

impl TyracontSensor {
    pub fn new(addr: u8) -> (sensor: Self)
        ensures
            sensor.addr == addr,
    {
        Self { addr }
    }

    /// Checksum over the address, code and data fields of a frame.
    pub fn calc_crc(data: &[u8]) -> (crc: u8)
        ensures
            crc == crc_of(data@),
            64 <= crc < 128,
    {
        let mut acc: u8 = 0;
        let mut i: usize = 0;
        while i < data.len()
            invariant
                i <= data.len(),
                acc < 64,
                acc as int == byte_sum(data@.take(i as int)) % 64,
            decreases data.len() - i,
        {
            proof {
                assert(data@.take(i + 1).drop_last() =~= data@.take(i as int));
            }
            acc = ((acc as u16 + data[i] as u16) % 64) as u8;
            i += 1;
        }
        proof {
            assert(data@.take(i as int) =~= data@);
        }
        acc + 64
    }

    /// The body of a request: the address in three digits, then the command.
    pub fn request(&self, cmd: u8) -> (req: Vec<u8>)
        ensures
            req@ == decimal(self.addr as int, 3).push(cmd),
            req@.len() == 4,
    {
        let a = self.addr;
        let mut req: Vec<u8> = Vec::new();
        req.push(ASCII_ZERO + a / 100);
        req.push(ASCII_ZERO + (a / 10) % 10);
        req.push(ASCII_ZERO + a % 10);
        req.push(cmd);
        proof {
            reveal_with_fuel(decimal, 4);
            assert(req@ =~= decimal(a as int, 3).push(cmd));
        }
        req
    }

    /// The bytes to put on the wire for the request body `req`: the body, its
    /// checksum and the terminator, in this order.
    pub fn write_request(req: &[u8]) -> (frame: Vec<u8>)
        ensures
            frame@ == framed(req@),
            frame@.len() == req@.len() + 2,
    {
        let crc = Self::calc_crc(req);
        let mut frame = slice_to_vec(req);
        frame.push(crc);
        frame.push(FRAME_END);
        frame
    }

    /// The frame that opens `exchange` with the transducer at this address.
    pub fn exchange_request(&self, exchange: Exchange) -> (frame: Vec<u8>)
        ensures
            frame@ == framed(decimal(self.addr as int, 3).push(exchange.spec_command())),
            frame@.len() == 6,
    {
        let req = self.request(exchange.command());
        Self::write_request(req.as_slice())
    }

    /// Decodes the payload of a pressure response.
    fn decode_pressure(body: &[u8]) -> (r: Result<Response, ParseError>)
        requires
            body@.len() >= 4,
        ensures
            response_view(r) == decode_pressure(body@),
    {
        if body.len() < 8 {
            return Err(ParseError::ValueError(Field::Mantissa));
        }
        let m = match parse_field(body, 4, 8, false) {
            Some(m) => m,
            None => {
                return Err(ParseError::ValueError(Field::Mantissa));
            },
        };
        if body.len() < 10 {
            return Err(ParseError::ValueError(Field::Exponent));
        }
        let e = match parse_field(body, 8, 10, true) {
            Some(e) => e,
            None => {
                return Err(ParseError::ValueError(Field::Exponent));
            },
        };
        proof {
            lemma_parse_unsigned_nonnegative(body@.subrange(4, 8));
        }
        Ok(Response::Pressure(Reading { mantissa: m as u32, exponent: e }))
    }

    /// Decodes a frame body whose checksum has matched.
    fn decode_body(body: &[u8]) -> (r: Result<Response, ParseError>)
        ensures
            response_view(r) == decode_body(body@),
    {
        if body.len() < 3 {
            return Err(ParseError::ValueError(Field::Address));
        }
        proof {
            assert(body@.take(3) =~= body@.subrange(0, 3));
            lemma_parse_unsigned_nonnegative(body@.subrange(0, 3));
        }
        let addr = match parse_field(body, 0, 3, false) {
            Some(a) => a,
            None => {
                return Err(ParseError::ValueError(Field::Address));
            },
        };
        if addr > 255 {
            return Err(ParseError::ValueError(Field::Address));
        }
        if body.len() < 4 {
            return Err(ParseError::Unknown);
        }
        let command = body[3];
        if command == CMD_ID {
            let rest = slice_subrange(body, 4, body.len());
            proof {
                assert(body@.skip(4) =~= body@.subrange(4, body@.len() as int));
            }
            match str_from_utf8(rest) {
                Some(id) => Ok(Response::Id { addr: addr as u8, id: id.to_owned() }),
                None => Err(ParseError::ValueError(Field::Id)),
            }
        } else if command == CMD_PRESSURE {
            Self::decode_pressure(body)
        } else {
            Err(ParseError::Unknown)
        }
    }

    /// Decodes what was read from the port after one request.
    ///
    /// Bytes that do not end in a checksum and a carriage return are
    /// `Incomplete`; a checksum that differs from the one computed over the
    /// body is a `CrcError`; after that the address, the command and the
    /// payload are decoded.
    pub fn decode_resp(data: &[u8]) -> (r: Result<Response, ParseError>)
        ensures
            response_view(r) == decode_spec(data@),
    {
        let n = data.len();
        if n < 2 || data[n - 1] != FRAME_END {
            return Err(ParseError::Incomplete);
        }
        let body = slice_subrange(data, 0, n - 2);
        let msg = data[n - 2];
        let crc = Self::calc_crc(body);
        if crc != msg {
            return Err(ParseError::CrcError { msg, actual: crc });
        }
        Self::decode_body(body)
    }

    /// Concludes a probe for the transducer from the bytes of its reply.
    ///
    /// A reply that is incomplete or fails its checksum means no device for
    /// now; any other reply without an identifier is a fault.
    pub fn get_id(&self, resp: &[u8]) -> (r: Result<Option<String>, ProbeError>)
        ensures
            match probe_outcome(decode_spec(resp@)) {
                Ok(Some(id)) => r matches Ok(Some(s)) && s@ == id,
                Ok(None) => r == Ok::<Option<String>, ProbeError>(None),
                Err(e) => r == Err::<Option<String>, ProbeError>(e),
            },
    {
        match Self::decode_resp(resp) {
            Ok(Response::Id { addr: _, id }) => Ok(Some(id)),
            Ok(Response::Pressure(_)) => Err(ProbeError::WrongResponse),
            Err(ParseError::Incomplete) => Ok(None),
            Err(ParseError::CrcError { msg: _, actual: _ }) => Ok(None),
            Err(e) => Err(ProbeError::Decode(e)),
        }
    }

    /// Concludes a poll for a reading from the bytes of the reply: the
    /// reading, or nothing for every reply that is no well-formed pressure
    /// response.
    pub fn read(&self, resp: &[u8]) -> (r: Option<Reading>)
        ensures
            r == poll_outcome(decode_spec(resp@)),
    {
        match Self::decode_resp(resp) {
            Ok(Response::Pressure(p)) => Some(p),
            _ => None,
        }
    }
}

/// An unsigned field never parses to a negative number.
proof fn lemma_parse_unsigned_nonnegative(s: Seq<u8>)
    ensures
        parse_decimal(s, false) matches Some(v) ==> v >= 0,
{
    let digits = if has_sign(s, false) {
        s.skip(1)
    } else {
        s
    };
    if all_digits(digits) {
        lemma_digits_value_nonnegative(digits);
    }
}

proof fn lemma_digits_value_nonnegative(s: Seq<u8>)
    requires
        all_digits(s),
    ensures
        digits_value(s) >= 0,
    decreases s.len(),
{
    if s.len() > 0 {
        lemma_digits_value_nonnegative(s.drop_last());
    }
}

} // verus!
