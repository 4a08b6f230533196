//! Typed cell values and their total text rendering.

use vstd::prelude::*;
use vstd::string::*;
use vstd::std_specs::convert::FromSpec;

verus! {

/// The value of one table cell.
#[derive(Clone, Debug, PartialEq, Eq)]
pub enum CellValue {
    Empty,
    Text(String),
    Int(i64),
    UInt(u64),
    Bool(bool),
    /// An instant, as microseconds since 1970-01-01 00:00:00 UTC.
    DateTime(i64),
    Bytes(Vec<u8>),
}

/// What chrono renders for the instant `micros` microseconds after the Unix
/// epoch (`None` where chrono cannot represent that instant).
pub uninterp spec fn timestamp_text(micros: int) -> Option<Seq<char>>;

/// Relies on chrono's `DateTime::from_timestamp_micros` (which fails only on
/// instants outside chrono's range) and on the `Display` of `DateTime<Utc>`:
/// the text depends on the instant alone.
#[verifier::external_body]
pub(crate) fn format_timestamp_micros(micros: i64) -> (r: Option<String>)
    ensures
        match r {
            Some(s) => timestamp_text(micros as int) == Some(s@),
            None => timestamp_text(micros as int) is None,
        },
{
    match chrono::DateTime::from_timestamp_micros(micros) {
        Some(t) => Some(t.to_string()),
        None => None,
    }
}

/// Relies on `String::push`: appends one character.
#[verifier::external_body]
pub(crate) fn push_char(s: &mut String, c: char)
    ensures
        final(s)@ == old(s)@.push(c),
{
    s.push(c)
}

pub open spec fn digit_char(d: nat) -> char {
    ((d + 48) as u8) as char
}

pub open spec fn nibble_char(d: nat) -> char {
    if d < 10 {
        ((d + 48) as u8) as char
    } else {
        ((d + 87) as u8) as char
    }
}

/// Decimal digits of `n`, most significant first, without leading zeros.
pub open spec fn decimal(n: nat) -> Seq<char>
    decreases n,
{
    if n < 10 {
        seq![digit_char(n)]
    } else {
        decimal(n / 10).push(digit_char(n % 10))
    }
}

pub open spec fn signed_decimal(i: int) -> Seq<char> {
    if i < 0 {
        seq!['-'] + decimal((-i) as nat)
    } else {
        decimal(i as nat)
    }
}

/// Two lower-case hexadecimal digits per byte.
pub open spec fn hex_text(b: Seq<u8>) -> Seq<char>
    decreases b.len(),
{
    if b.len() == 0 {
        Seq::empty()
    } else {
        hex_text(b.drop_last()) + seq![
            nibble_char((b.last() / 16) as nat),
            nibble_char((b.last() % 16) as nat),
        ]
    }
}

pub open spec fn bool_text(b: bool) -> Seq<char> {
    if b {
        seq!['t', 'r', 'u', 'e']
    } else {
        seq!['f', 'a', 'l', 's', 'e']
    }
}

/// The text shown for a cell. Defined for every value: an instant that
/// cannot be rendered shows as the empty text.
pub open spec fn cell_text(v: CellValue) -> Seq<char> {
    match v {
        CellValue::Empty => Seq::empty(),
        CellValue::Text(s) => s@,
        CellValue::Int(i) => signed_decimal(i as int),
        CellValue::UInt(u) => decimal(u as nat),
        CellValue::Bool(b) => bool_text(b),
        CellValue::DateTime(m) => match timestamp_text(m as int) {
            Some(t) => t,
            None => Seq::empty(),
        },
        CellValue::Bytes(b) => hex_text(b@),
    }
}

fn digit(d: u64) -> (c: char)
    requires
        d < 10,
    ensures
        c == digit_char(d as nat),
{
    ((d as u8) + 48) as char
}

fn nibble(d: u8) -> (c: char)
    requires
        d < 16,
    ensures
        c == nibble_char(d as nat),
{
    if d < 10 {
        (d + 48) as char
    } else {
        (d + 87) as char
    }
}

/// Appends the decimal digits of `n` to `s`.
pub fn push_decimal(s: &mut String, n: u64)
    ensures
        final(s)@ == old(s)@ + decimal(n as nat),
    decreases n,
{
    if n >= 10 {
        push_decimal(s, n / 10);
    }
    let c = digit(n % 10);
    push_char(s, c);
    assert(s@ =~= old(s)@ + decimal(n as nat));
}


/// Appends the signed decimal rendering of `i` to `s`.
pub fn push_signed_decimal(s: &mut String, i: i64)
    ensures
        final(s)@ == old(s)@ + signed_decimal(i as int),
{
    if i < 0 {
        push_char(s, '-');
        let m: u64 = (0i128 - i as i128) as u64;
        push_decimal(s, m);
        assert(final(s)@ =~= old(s)@ + signed_decimal(i as int));
    } else {
        push_decimal(s, i as u64);
    }
}

/// Appends two lower-case hexadecimal digits per byte of `b` to `s`.
pub fn push_hex(s: &mut String, b: &Vec<u8>)
    ensures
        final(s)@ == old(s)@ + hex_text(b@),
{
    let ghost start = s@;
    let mut i: usize = 0;
    while i < b.len()
        invariant
            i <= b.len(),
            s@ == start + hex_text(b@.subrange(0, i as int)),
        decreases b.len() - i,
    {
        let x = b[i];
        let hi = nibble(x / 16);
        let lo = nibble(x % 16);
        push_char(s, hi);
        push_char(s, lo);
        proof {
            let p = b@.subrange(0, i + 1);
            assert(p.drop_last() =~= b@.subrange(0, i as int));
        }
        i = i + 1;
        assert(s@ =~= start + hex_text(b@.subrange(0, i as int)));
    }
    assert(b@.subrange(0, b.len() as int) =~= b@);
}

/// Appends `t` to `s`.
pub(crate) fn push_str(s: &mut String, t: &str)
    ensures
        final(s)@ == old(s)@ + t@,
{
    s.append(t);
}

impl CellValue {
    /// Appends the text of this cell to `s`.
    pub fn write_to(&self, s: &mut String)
        ensures
            final(s)@ == old(s)@ + cell_text(*self),
    {
        match self {
            CellValue::Empty => {
                assert(old(s)@ + cell_text(*self) =~= old(s)@);
            },
            CellValue::Text(t) => {
                push_str(s, t.as_str());
            },
            CellValue::Int(i) => {
                push_signed_decimal(s, *i);
            },
            CellValue::UInt(u) => {
                push_decimal(s, *u);
            },
            CellValue::Bool(b) => {
                if *b {
                    push_char(s, 't');
                    push_char(s, 'r');
                    push_char(s, 'u');
                    push_char(s, 'e');
                } else {
                    push_char(s, 'f');
                    push_char(s, 'a');
                    push_char(s, 'l');
                    push_char(s, 's');
                    push_char(s, 'e');
                }
                assert(final(s)@ =~= old(s)@ + cell_text(*self));
            },
            CellValue::DateTime(m) => {
                match format_timestamp_micros(*m) {
                    Some(t) => {
                        push_str(s, t.as_str());
                    },
                    None => {
                        assert(old(s)@ + cell_text(*self) =~= old(s)@);
                    },
                }
            },
            CellValue::Bytes(b) => {
                push_hex(s, b);
            },
        }
    }

    /// The text of this cell. Never fails, whatever the variant.
    pub fn to_display_string(&self) -> (r: String)
        ensures
            r@ == cell_text(*self),
    {
        let mut s = String::new();
        self.write_to(&mut s);
        assert(s@ =~= cell_text(*self));
        s
    }

    pub fn is_empty(&self) -> (r: bool)
        ensures
            r == (*self is Empty),
    {
        match self {
            CellValue::Empty => true,
            _ => false,
        }
    }

    /// The text held, if this is a text cell.
    pub fn as_text(&self) -> (r: Option<&str>)
        ensures
            r matches Some(t) ==> text_of(*self) == Some(t@),
            r is None ==> text_of(*self) is None,
    {
        match self {
            CellValue::Text(t) => Some(t.as_str()),
            _ => None,
        }
    }

    /// The signed integer held, if this is a signed integer cell.
    pub fn as_i64(&self) -> (r: Option<i64>)
        ensures
            r == int_of(*self),
    {
        match self {
            CellValue::Int(i) => Some(*i),
            _ => None,
        }
    }

    /// The unsigned integer held, if this is an unsigned integer cell.
    pub fn as_u64(&self) -> (r: Option<u64>)
        ensures
            r == uint_of(*self),
    {
        match self {
            CellValue::UInt(u) => Some(*u),
            _ => None,
        }
    }

    /// The boolean held, if this is a boolean cell.
    pub fn as_bool(&self) -> (r: Option<bool>)
        ensures
            r == bool_of(*self),
    {
        match self {
            CellValue::Bool(b) => Some(*b),
            _ => None,
        }
    }

    /// The instant held (microseconds since the Unix epoch), if this is a
    /// date-time cell.
    pub fn as_timestamp_micros(&self) -> (r: Option<i64>)
        ensures
            r == timestamp_of(*self),
    {
        match self {
            CellValue::DateTime(m) => Some(*m),
            _ => None,
        }
    }

    /// The bytes held, if this is a byte cell.
    pub fn as_bytes(&self) -> (r: Option<&Vec<u8>>)
        ensures
            r matches Some(b) ==> bytes_of(*self) == Some(b@),
            r is None ==> bytes_of(*self) is None,
    {
        match self {
            CellValue::Bytes(b) => Some(b),
            _ => None,
        }
    }

    /// A date-time cell for the instant `micros` microseconds after the Unix
    /// epoch.
    pub fn from_timestamp_micros(micros: i64) -> (r: CellValue)
        ensures
            r == CellValue::DateTime(micros),
    {
        CellValue::DateTime(micros)
    }
}

pub open spec fn text_of(v: CellValue) -> Option<Seq<char>> {
    match v {
        CellValue::Text(s) => Some(s@),
        _ => None,
    }
}

pub open spec fn int_of(v: CellValue) -> Option<i64> {
    match v {
        CellValue::Int(i) => Some(i),
        _ => None,
    }
}

pub open spec fn uint_of(v: CellValue) -> Option<u64> {
    match v {
        CellValue::UInt(u) => Some(u),
        _ => None,
    }
}

pub open spec fn bool_of(v: CellValue) -> Option<bool> {
    match v {
        CellValue::Bool(b) => Some(b),
        _ => None,
    }
}

pub open spec fn timestamp_of(v: CellValue) -> Option<i64> {
    match v {
        CellValue::DateTime(m) => Some(m),
        _ => None,
    }
}

pub open spec fn bytes_of(v: CellValue) -> Option<Seq<u8>> {
    match v {
        CellValue::Bytes(b) => Some(b@),
        _ => None,
    }
}

impl From<String> for CellValue {
    fn from(s: String) -> (r: CellValue) {
        CellValue::Text(s)
    }
}

impl vstd::std_specs::convert::FromSpecImpl<String> for CellValue {
    open spec fn obeys_from_spec() -> bool {
        true
    }

    open spec fn from_spec(s: String) -> CellValue {
        CellValue::Text(s)
    }
}

impl From<i64> for CellValue {
    fn from(i: i64) -> (r: CellValue) {
        CellValue::Int(i)
    }
}

impl vstd::std_specs::convert::FromSpecImpl<i64> for CellValue {
    open spec fn obeys_from_spec() -> bool {
        true
    }

    open spec fn from_spec(i: i64) -> CellValue {
        CellValue::Int(i)
    }
}

impl From<u64> for CellValue {
    fn from(u: u64) -> (r: CellValue) {
        CellValue::UInt(u)
    }
}

impl vstd::std_specs::convert::FromSpecImpl<u64> for CellValue {
    open spec fn obeys_from_spec() -> bool {
        true
    }

    open spec fn from_spec(u: u64) -> CellValue {
        CellValue::UInt(u)
    }
}

impl From<bool> for CellValue {
    fn from(b: bool) -> (r: CellValue) {
        CellValue::Bool(b)
    }
}

impl vstd::std_specs::convert::FromSpecImpl<bool> for CellValue {
    open spec fn obeys_from_spec() -> bool {
        true
    }

    open spec fn from_spec(b: bool) -> CellValue {
        CellValue::Bool(b)
    }
}

impl From<Vec<u8>> for CellValue {
    fn from(b: Vec<u8>) -> (r: CellValue) {
        CellValue::Bytes(b)
    }
}

impl vstd::std_specs::convert::FromSpecImpl<Vec<u8>> for CellValue {
    open spec fn obeys_from_spec() -> bool {
        true
    }

    open spec fn from_spec(b: Vec<u8>) -> CellValue {
        CellValue::Bytes(b)
    }
}

/// Reading a cell back through the accessor of its kind gives the value it
/// was built from, for every kind of primitive a cell can hold.
pub proof fn lemma_cell_round_trip(s: String, i: i64, u: u64, b: bool, m: i64, bytes: Vec<u8>)
    ensures
        text_of(<CellValue as FromSpec<String>>::from_spec(s)) == Some(s@),
        int_of(<CellValue as FromSpec<i64>>::from_spec(i)) == Some(i),
        uint_of(<CellValue as FromSpec<u64>>::from_spec(u)) == Some(u),
        bool_of(<CellValue as FromSpec<bool>>::from_spec(b)) == Some(b),
        bytes_of(<CellValue as FromSpec<Vec<u8>>>::from_spec(bytes)) == Some(bytes@),
        timestamp_of(CellValue::DateTime(m)) == Some(m),
{
}

} // verus!
