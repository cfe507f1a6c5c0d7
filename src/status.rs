//! Protocol status: a code from a closed set, a message and opaque details,
//! and their header form.
use vstd::prelude::*;
use vstd::utf8::*;
use crate::hexcode::{hex_text, is_hex_input, unhex, encode_hex, decode_hex, lemma_hex_round_trip, hex_digit_value, is_hex_char, hex_char_value};
use crate::metadata::{HeaderMap, HeaderName, lemma_lookup_append};

verus! {

broadcast use vstd::string::group_string_axioms;

/// Outcome codes of a call.
#[derive(Clone, Copy, Debug, PartialEq, Eq, Structural)]
pub enum Code {
    Success,
    Cancelled,
    Unknown,
    InvalidArgument,
    DeadlineExceeded,
    NotFound,
    AlreadyExists,
    PermissionDenied,
    ResourceExhausted,
    FailedPrecondition,
    Aborted,
    OutOfRange,
    Unimplemented,
    Internal,
    Unavailable,
    DataLoss,
    Unauthenticated,
}

/// The numeric value of a code on the wire.
pub open spec fn code_value(c: Code) -> u8 {
    match c {
        Code::Success => 0,
        Code::Cancelled => 1,
        Code::Unknown => 2,
        Code::InvalidArgument => 3,
        Code::DeadlineExceeded => 4,
        Code::NotFound => 5,
        Code::AlreadyExists => 6,
        Code::PermissionDenied => 7,
        Code::ResourceExhausted => 8,
        Code::FailedPrecondition => 9,
        Code::Aborted => 10,
        Code::OutOfRange => 11,
        Code::Unimplemented => 12,
        Code::Internal => 13,
        Code::Unavailable => 14,
        Code::DataLoss => 15,
        Code::Unauthenticated => 16,
    }
}

/// The code with a numeric value; values outside the set read as `Unknown`.
pub open spec fn code_of_value(n: nat) -> Code {
    if n == 0 { Code::Success }
    else if n == 1 { Code::Cancelled }
    else if n == 3 { Code::InvalidArgument }
    else if n == 4 { Code::DeadlineExceeded }
    else if n == 5 { Code::NotFound }
    else if n == 6 { Code::AlreadyExists }
    else if n == 7 { Code::PermissionDenied }
    else if n == 8 { Code::ResourceExhausted }
    else if n == 9 { Code::FailedPrecondition }
    else if n == 10 { Code::Aborted }
    else if n == 11 { Code::OutOfRange }
    else if n == 12 { Code::Unimplemented }
    else if n == 13 { Code::Internal }
    else if n == 14 { Code::Unavailable }
    else if n == 15 { Code::DataLoss }
    else if n == 16 { Code::Unauthenticated }
    else { Code::Unknown }
}

/// Decimal text of a code value (all values are below one hundred).
pub open spec fn code_text(v: u8) -> Seq<u8> {
    if v < 10 {
        seq![(48 + v) as u8]
    } else {
        seq![(48 + v / 10) as u8, (48 + v % 10) as u8]
    }
}

pub open spec fn is_digit(c: u8) -> bool {
    48 <= c <= 57
}

pub open spec fn all_digits(s: Seq<u8>) -> bool {
    forall|i: int| 0 <= i < s.len() ==> is_digit(#[trigger] s[i])
}

/// The number that a string of decimal digits stands for.
pub open spec fn decimal_value(s: Seq<u8>) -> nat
    decreases s.len(),
{
    if s.len() == 0 {
        0
    } else {
        decimal_value(s.drop_last()) * 10 + (s.last() - 48) as nat
    }
}

/// The code that a status header value names: its decimal value (a number
/// outside the set is `Unknown`), or `InvalidArgument` for malformed text
/// that is not a decimal number.
pub open spec fn parse_code(s: Seq<u8>) -> Code {
    if s.len() > 0 && all_digits(s) {
        code_of_value(decimal_value(s))
    } else {
        Code::InvalidArgument
    }
}

impl Code {
    pub fn value(self) -> (r: u8)
        ensures
            r == code_value(self),
    {
        match self {
            Code::Success => 0,
            Code::Cancelled => 1,
            Code::Unknown => 2,
            Code::InvalidArgument => 3,
            Code::DeadlineExceeded => 4,
            Code::NotFound => 5,
            Code::AlreadyExists => 6,
            Code::PermissionDenied => 7,
            Code::ResourceExhausted => 8,
            Code::FailedPrecondition => 9,
            Code::Aborted => 10,
            Code::OutOfRange => 11,
            Code::Unimplemented => 12,
            Code::Internal => 13,
            Code::Unavailable => 14,
            Code::DataLoss => 15,
            Code::Unauthenticated => 16,
        }
    }

    pub fn from_value(n: u32) -> (r: Code)
        ensures
            r == code_of_value(n as nat),
    {
        match n {
            0 => Code::Success,
            1 => Code::Cancelled,
            3 => Code::InvalidArgument,
            4 => Code::DeadlineExceeded,
            5 => Code::NotFound,
            6 => Code::AlreadyExists,
            7 => Code::PermissionDenied,
            8 => Code::ResourceExhausted,
            9 => Code::FailedPrecondition,
            10 => Code::Aborted,
            11 => Code::OutOfRange,
            12 => Code::Unimplemented,
            13 => Code::Internal,
            14 => Code::Unavailable,
            15 => Code::DataLoss,
            16 => Code::Unauthenticated,
            _ => Code::Unknown,
        }
    }

    /// The decimal text of the code, as the status header carries it.
    pub fn to_header_value(self) -> (r: Vec<u8>)
        ensures
            r@ == code_text(code_value(self)),
    {
        let v = self.value();
        let mut out: Vec<u8> = Vec::new();
        if v < 10 {
            out.push(48 + v);
        } else {
            out.push(48 + v / 10);
            out.push(48 + v % 10);
        }
        assert(out@ =~= code_text(v));
        out
    }

    /// Reads a status header value: decimal digits naming a code (`Unknown`
    /// for a number outside the set), malformed text `InvalidArgument`.
    pub fn from_header_value(s: &[u8]) -> (r: Code)
        ensures
            r == parse_code(s@),
    {
        let mut v: u32 = 0;
        let mut big = false;
        let mut i: usize = 0;
        while i < s.len()
            invariant
                i <= s@.len(),
                all_digits(s@.subrange(0, i as int)),
                big ==> decimal_value(s@.subrange(0, i as int)) > 16,
                !big ==> v as nat == decimal_value(s@.subrange(0, i as int)),
                !big ==> v <= 16,
            decreases s@.len() - i,
        {
            let c = s[i];
            if c < 48 || c > 57 {
                assert(!all_digits(s@)) by {
                    assert(!is_digit(s@[i as int]));
                }
                return Code::InvalidArgument;
            }
            assert(s@.subrange(0, i + 1).drop_last() =~= s@.subrange(0, i as int));
            if !big {
                let w = v * 10 + (c - 48) as u32;
                if w > 16 {
                    big = true;
                } else {
                    v = w;
                }
            }
            i = i + 1;
        }
        assert(s@.subrange(0, i as int) =~= s@);
        if i == 0 {
            Code::InvalidArgument
        } else if big {
            Code::Unknown
        } else {
            Code::from_value(v)
        }
    }
}

/// A code's header text reads back as the same code.
pub proof fn lemma_code_text_round_trip(c: Code)
    ensures
        parse_code(code_text(code_value(c))) == c,
{
    let t = code_text(code_value(c));
    assert(t.len() == 1 ==> t.drop_last() =~= Seq::<u8>::empty());
    assert(t.len() == 2 ==> t.drop_last().drop_last() =~= Seq::<u8>::empty());
    assert(decimal_value(Seq::<u8>::empty()) == 0);
    if t.len() == 2 {
        assert(decimal_value(t.drop_last()) == (t[0] - 48) as nat) by {
            assert(t.drop_last().drop_last() =~= Seq::<u8>::empty());
        }
    }
}

/// A byte that a message header carries as it is: printable ASCII but `%`.
pub open spec fn is_plain_byte(b: u8) -> bool {
    32 <= b <= 126 && b != 37
}

pub open spec fn upper_hex_digit(n: u8) -> u8 {
    if n < 10 {
        (48 + n) as u8
    } else {
        (55 + n) as u8
    }
}

/// One byte of a message in header form: itself, or `%` and two uppercase digits.
pub open spec fn escape_byte(b: u8) -> Seq<u8> {
    if is_plain_byte(b) {
        seq![b]
    } else {
        seq![37u8, upper_hex_digit(b / 16), upper_hex_digit(b % 16)]
    }
}

pub open spec fn percent_encode(s: Seq<u8>) -> Seq<u8>
    decreases s.len(),
{
    if s.len() == 0 {
        Seq::empty()
    } else {
        escape_byte(s[0]) + percent_encode(s.drop_first())
    }
}

/// Reads `%` and two hex digits as one byte; any other byte stands for itself.
pub open spec fn percent_decode(s: Seq<u8>) -> Seq<u8>
    decreases s.len(),
{
    if s.len() == 0 {
        Seq::empty()
    } else if s.len() >= 3 && s[0] == 37 && is_hex_char(s[1]) && is_hex_char(s[2]) {
        seq![(hex_char_value(s[1]) * 16 + hex_char_value(s[2])) as u8] + percent_decode(
            s.subrange(3, s.len() as int),
        )
    } else {
        seq![s[0]] + percent_decode(s.drop_first())
    }
}

pub proof fn lemma_percent_round_trip(s: Seq<u8>)
    ensures
        percent_decode(percent_encode(s)) == s,
    decreases s.len(),
{
    if s.len() == 0 {
        assert(percent_encode(s) =~= Seq::<u8>::empty());
    } else {
        let e = percent_encode(s);
        let rest = percent_encode(s.drop_first());
        lemma_percent_round_trip(s.drop_first());
        let b = s[0];
        if is_plain_byte(b) {
            assert(e.drop_first() =~= rest);
            assert(e[0] == b);
        } else {
            assert(e.subrange(3, e.len() as int) =~= rest);
            assert(e[0] == 37 && e[1] == upper_hex_digit(b / 16) && e[2] == upper_hex_digit(b % 16));
            assert(hex_char_value(upper_hex_digit(b / 16)) == b / 16);
            assert(hex_char_value(upper_hex_digit(b % 16)) == b % 16);
            assert((b / 16) * 16 + b % 16 == b);
        }
        assert(percent_decode(e) =~= s);
    }
}

fn push_escaped(out: &mut Vec<u8>, b: u8)
    ensures
        final(out)@ == old(out)@ + escape_byte(b),
{
    if 32 <= b && b <= 126 && b != 37 {
        out.push(b);
    } else {
        let hi = b / 16;
        let lo = b % 16;
        out.push(37);
        out.push(if hi < 10 { 48 + hi } else { 55 + hi });
        out.push(if lo < 10 { 48 + lo } else { 55 + lo });
    }
    assert(final(out)@ =~= old(out)@ + escape_byte(b));
}

/// Percent-encodes a message: bytes outside printable ASCII, and `%`, become
/// `%` and two uppercase hex digits.
pub fn encode_message(s: &[u8]) -> (r: Vec<u8>)
    ensures
        r@ == percent_encode(s@),
{
    let mut out: Vec<u8> = Vec::new();
    let mut i: usize = 0;
    assert(s@.subrange(0, s@.len() as int) =~= s@);
    while i < s.len()
        invariant
            i <= s@.len(),
            out@ + percent_encode(s@.subrange(i as int, s@.len() as int)) == percent_encode(s@),
        decreases s@.len() - i,
    {
        let ghost rest = s@.subrange(i as int, s@.len() as int);
        assert(rest.drop_first() =~= s@.subrange(i + 1, s@.len() as int));
        assert(rest[0] == s@[i as int]);
        let ghost before = out@;
        push_escaped(&mut out, s[i]);
        assert(out@ + percent_encode(s@.subrange(i + 1, s@.len() as int)) =~= before
            + percent_encode(rest));
        i = i + 1;
    }
    assert(percent_encode(s@.subrange(i as int, s@.len() as int)) =~= Seq::<u8>::empty());
    assert(out@ + Seq::<u8>::empty() =~= out@);
    out
}

/// Decodes a percent-encoded message.
pub fn decode_message(s: &[u8]) -> (r: Vec<u8>)
    ensures
        r@ == percent_decode(s@),
{
    let mut out: Vec<u8> = Vec::new();
    let mut i: usize = 0;
    assert(s@.subrange(0, s@.len() as int) =~= s@);
    while i < s.len()
        invariant
            i <= s@.len(),
            out@ + percent_decode(s@.subrange(i as int, s@.len() as int)) == percent_decode(s@),
        decreases s@.len() - i,
    {
        let ghost rest = s@.subrange(i as int, s@.len() as int);
        let ghost before = out@;
        let mut escaped: Option<u8> = None;
        if s[i] == 37 && s.len() - i > 2 {
            match (hex_digit_value(s[i + 1]), hex_digit_value(s[i + 2])) {
                (Some(h), Some(l)) => {
                    escaped = Some(h * 16 + l);
                },
                _ => {},
            }
        }
        match escaped {
            Some(v) => {
                assert(rest.subrange(3, rest.len() as int) =~= s@.subrange(i + 3, s@.len() as int));
                out.push(v);
                i = i + 3;
            },
            None => {
                assert(rest.drop_first() =~= s@.subrange(i + 1, s@.len() as int));
                out.push(s[i]);
                i = i + 1;
            },
        }
        assert(out@ + percent_decode(s@.subrange(i as int, s@.len() as int)) =~= before
            + percent_decode(rest));
    }
    assert(percent_decode(s@.subrange(i as int, s@.len() as int)) =~= Seq::<u8>::empty());
    assert(out@ + Seq::<u8>::empty() =~= out@);
    out
}

/// Relies on `String::from_utf8`: it accepts exactly the valid UTF-8 byte
/// strings and keeps the characters they encode.
#[verifier::external_body]
fn string_from_utf8(v: Vec<u8>) -> (r: Option<String>)
    ensures
        r is Some <==> valid_utf8(v@),
        r matches Some(t) ==> t@ == decode_utf8(v@),
{
    String::from_utf8(v).ok()
}

/// What a status is: its code, the characters of its message and its details.
pub struct StatusModel {
    pub code: Code,
    pub message: Seq<char>,
    pub details: Seq<u8>,
}

/// The outcome of a call as the protocol reports it.
#[derive(Debug)]
pub struct Status {
    pub code: Code,
    pub message: String,
    pub details: Vec<u8>,
}

impl View for Status {
    type V = StatusModel;

    open spec fn view(&self) -> StatusModel {
        StatusModel { code: self.code, message: self.message@, details: self.details@ }
    }
}

/// The three header values of a status: code text, message and details; the
/// last two are left out when empty.
pub open spec fn status_fields(s: StatusModel) -> (Seq<u8>, Option<Seq<u8>>, Option<Seq<u8>>) {
    (
        code_text(code_value(s.code)),
        if s.message.len() == 0 { None } else { Some(percent_encode(encode_utf8(s.message))) },
        if s.details.len() == 0 { None } else { Some(hex_text(s.details)) },
    )
}

/// The status that header values give. A message that does not decode to
/// UTF-8, or details that are not hexadecimal, make the whole status an
/// `InvalidArgument` with no message or details.
pub open spec fn status_of_fields(
    code: Seq<u8>,
    message: Option<Seq<u8>>,
    details: Option<Seq<u8>>,
) -> StatusModel {
    let message_ok = match message {
        Some(m) => valid_utf8(percent_decode(m)),
        None => true,
    };
    let details_ok = match details {
        Some(d) => is_hex_input(d),
        None => true,
    };
    if message_ok && details_ok {
        StatusModel {
            code: parse_code(code),
            message: match message {
                Some(m) => decode_utf8(percent_decode(m)),
                None => Seq::empty(),
            },
            details: match details {
                Some(d) => unhex(d),
                None => Seq::empty(),
            },
        }
    } else {
        StatusModel { code: Code::InvalidArgument, message: Seq::empty(), details: Seq::empty() }
    }
}

/// Round trip of the header form: for every code, message and details, the
/// header values that a status is written as read back as the same status.
pub proof fn lemma_status_round_trip(s: StatusModel)
    ensures
        status_of_fields(status_fields(s).0, status_fields(s).1, status_fields(s).2) == s,
{
    lemma_code_text_round_trip(s.code);
    lemma_hex_round_trip(s.details);
    lemma_percent_round_trip(encode_utf8(s.message));
    encode_utf8_valid_utf8(s.message);
    encode_utf8_decode_utf8(s.message);
    assert(s.message.len() == 0 ==> s.message =~= Seq::<char>::empty());
    assert(s.details.len() == 0 ==> s.details =~= Seq::<u8>::empty());
}

impl Status {
    pub fn new(code: Code, message: String) -> (r: Status)
        ensures
            r@ == (StatusModel { code: code, message: message@, details: Seq::empty() }),
    {
        Status { code, message, details: Vec::new() }
    }

    /// A status with a code alone.
    pub fn from_code(code: Code) -> (r: Status)
        ensures
            r@ == (StatusModel { code: code, message: Seq::empty(), details: Seq::empty() }),
    {
        Status { code, message: String::new(), details: Vec::new() }
    }

    pub fn code(&self) -> (r: Code)
        ensures
            r == self.code,
    {
        self.code
    }

    /// Writes the status as headers (or trailers): the code always, the
    /// message and the details when they are not empty.
    pub fn to_header_map(&self) -> (r: HeaderMap)
        ensures
            r.get_spec(HeaderName::GrpcStatus) == Some(status_fields(self@).0),
            r.get_spec(HeaderName::GrpcMessage) == status_fields(self@).1,
            r.get_spec(HeaderName::GrpcStatusDetails) == status_fields(self@).2,
            r.entries@.len() == 1 + (if self.message@.len() == 0 { 0int } else { 1 }) + (if self.details@.len() == 0 { 0int } else { 1 }),
    {
        let mut r = HeaderMap::new();
        let ghost e0 = r.entries@;
        r.append(HeaderName::GrpcStatus, self.code.to_header_value());
        proof {
            lemma_lookup_append(e0, r.entries@.last(), HeaderName::GrpcStatus);
            lemma_lookup_append(e0, r.entries@.last(), HeaderName::GrpcMessage);
            lemma_lookup_append(e0, r.entries@.last(), HeaderName::GrpcStatusDetails);
            assert(e0.push(r.entries@.last()) =~= r.entries@);
        }
        if !self.message.as_str().is_empty() {
            let ghost e1 = r.entries@;
            let v = encode_message(self.message.as_str().as_bytes());
            r.append(HeaderName::GrpcMessage, v);
            proof {
                lemma_lookup_append(e1, r.entries@.last(), HeaderName::GrpcStatus);
                lemma_lookup_append(e1, r.entries@.last(), HeaderName::GrpcMessage);
                lemma_lookup_append(e1, r.entries@.last(), HeaderName::GrpcStatusDetails);
                assert(e1.push(r.entries@.last()) =~= r.entries@);
            }
        }
        if self.details.len() > 0 {
            let ghost e2 = r.entries@;
            let v = encode_hex(self.details.as_slice());
            r.append(HeaderName::GrpcStatusDetails, v);
            proof {
                lemma_lookup_append(e2, r.entries@.last(), HeaderName::GrpcStatus);
                lemma_lookup_append(e2, r.entries@.last(), HeaderName::GrpcMessage);
                lemma_lookup_append(e2, r.entries@.last(), HeaderName::GrpcStatusDetails);
                assert(e2.push(r.entries@.last()) =~= r.entries@);
            }
        }
        r
    }

    /// Reads a status from headers (or trailers). Without a status header
    /// there is none: that is no statement yet, not success.
    pub fn from_header_map(headers: &HeaderMap) -> (r: Option<Status>)
        ensures
            r is None <==> headers.get_spec(HeaderName::GrpcStatus) is None,
            r matches Some(st) ==> st@ == status_of_fields(
                headers.get_spec(HeaderName::GrpcStatus)->Some_0,
                headers.get_spec(HeaderName::GrpcMessage),
                headers.get_spec(HeaderName::GrpcStatusDetails),
            ),
    {
        let code_value = match headers.get(&HeaderName::GrpcStatus) {
            Some(v) => v,
            None => return None,
        };
        let code = Code::from_header_value(code_value.as_slice());
        let message = match headers.get(&HeaderName::GrpcMessage) {
            Some(m) => match string_from_utf8(decode_message(m.as_slice())) {
                Some(t) => t,
                None => return Some(Status::from_code(Code::InvalidArgument)),
            },
            None => String::new(),
        };
        let details = match headers.get(&HeaderName::GrpcStatusDetails) {
            Some(d) => match decode_hex(d.as_slice()) {
                Some(v) => v,
                None => return Some(Status::from_code(Code::InvalidArgument)),
            },
            None => Vec::new(),
        };
        Some(Status { code, message, details })
    }
}

} // verus!
