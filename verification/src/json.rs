//! A plain model of JSON documents, and the one place where text is parsed
//! into it.

use vstd::prelude::*;

verus! {

/// `json::JsonValue`, which is carried from the parser to the copy that is
/// made of it. Nothing inside it is seen.
#[verifier::external_type_specification]
#[verifier::external_body]
pub struct ExJsonValue(json::JsonValue);

/// A JSON number as sign, decimal mantissa and decimal exponent, together
/// with the bit pattern of its single-precision reading.
#[derive(Debug, Clone, Copy, PartialEq, Eq)]
pub struct JsonNumber {
    /// `false` for a number written with a leading minus sign.
    pub positive: bool,
    /// The decimal digits, read as one integer.
    pub mantissa: u64,
    /// The power of ten the mantissa is scaled by.
    pub exponent: i16,
    /// IEEE 754 single-precision bits of the number.
    pub single: u32,
}

/// One `"key": value` pair of a JSON object.
#[derive(Debug, PartialEq, Eq)]
pub struct JsonMember {
    pub key: String,
    pub value: JsonNode,
}

/// A JSON document.
#[derive(Debug, PartialEq, Eq)]
pub enum JsonNode {
    Null,
    Boolean(bool),
    Number(JsonNumber),
    Text(String),
    Array(Vec<JsonNode>),
    Object(Vec<JsonMember>),
}

/// Why a text is not read as a JSON document.
#[derive(Debug, Clone, PartialEq, Eq)]
pub enum JsonError {
    UnexpectedCharacter { ch: char, line: usize, column: usize },
    UnexpectedEndOfJson,
    ExceededDepthLimit,
    FailedUtf8Parsing,
    WrongType(String),
    /// A number of the text takes more than `FRACTION_LIMIT` digits of its
    /// fraction into its mantissa. Such a text is not handed to the parser.
    TooManyDigits,
}

/// The most digits of a fraction that a number can take into its mantissa:
/// the parser counts them down from zero in 16 bits.
pub const FRACTION_LIMIT: usize = 32768;

/// Whether `c` is a decimal digit.
pub open spec fn is_digit(c: char) -> bool {
    c == '0' || c == '1' || c == '2' || c == '3' || c == '4' || c == '5' || c == '6' || c == '7'
        || c == '8' || c == '9'
}

/// The value of a decimal digit.
pub open spec fn digit_value(c: char) -> u64 {
    if c == '1' {
        1
    } else if c == '2' {
        2
    } else if c == '3' {
        3
    } else if c == '4' {
        4
    } else if c == '5' {
        5
    } else if c == '6' {
        6
    } else if c == '7' {
        7
    } else if c == '8' {
        8
    } else if c == '9' {
        9
    } else {
        0
    }
}

/// Whether a value may begin behind `c`: behind whitespace, an opening
/// bracket, a comma or a colon.
pub open spec fn opens_value(c: char) -> bool {
    c == ' ' || c == '\t' || c == '\n' || c == '\r' || c == '\u{b}' || c == '\u{c}' || c == '['
        || c == ',' || c == ':'
}

/// Where a scan for fractions stands behind a character of the text.
#[derive(Debug, Clone, Copy, PartialEq, Eq)]
pub struct FractionScan {
    /// Inside a string.
    pub in_string: bool,
    /// Inside a string, behind a backslash.
    pub escaped: bool,
    /// A value may begin here: at the start of the text, behind a character
    /// that opens a value, and behind a minus sign where one may begin.
    pub value_may_begin: bool,
    /// Behind a `0` that begins a number.
    pub after_zero: bool,
    /// Inside the fraction of a number whose integer part is `0`.
    pub in_fraction: bool,
    /// The mantissa that the digits of the fraction have made so far.
    pub mantissa: u64,
    /// How many digits of the fraction the mantissa has taken, counted up to
    /// the limit.
    pub taken: usize,
    /// Whether a number has taken more digits than the limit.
    pub overflown: bool,
}

/// The scan before the first character.
pub open spec fn scan_start() -> FractionScan {
    FractionScan {
        in_string: false,
        escaped: false,
        value_may_begin: true,
        after_zero: false,
        in_fraction: false,
        mantissa: 0,
        taken: 0,
        overflown: false,
    }
}

/// The scan behind one more digit of a fraction. The mantissa takes the
/// digit where ten times the mantissa and the digit fit 64 bits, and drops
/// it otherwise. A digit that is taken beyond the limit is one too many.
pub open spec fn take_digit(scan: FractionScan, digit: u64) -> FractionScan {
    if scan.mantissa * 10 + digit <= u64::MAX {
        FractionScan {
            mantissa: (scan.mantissa * 10 + digit) as u64,
            taken: if scan.taken < FRACTION_LIMIT {
                (scan.taken + 1) as usize
            } else {
                scan.taken
            },
            overflown: scan.overflown || scan.taken >= FRACTION_LIMIT,
            ..scan
        }
    } else {
        scan
    }
}

/// The scan behind one more character. Inside a string only the end of the
/// string is looked for, a character behind a backslash being passed over.
/// Outside a string a fraction begins behind `0.` where the `0` begins a
/// number, and lasts as long as digits follow.
pub open spec fn scan_step(scan: FractionScan, c: char) -> FractionScan {
    if scan.in_string {
        if scan.escaped {
            FractionScan { escaped: false, ..scan }
        } else if c == '\\' {
            FractionScan { escaped: true, ..scan }
        } else if c == '"' {
            FractionScan { in_string: false, ..scan }
        } else {
            scan
        }
    } else if scan.in_fraction && is_digit(c) {
        take_digit(scan, digit_value(c))
    } else {
        FractionScan {
            in_string: c == '"',
            escaped: false,
            value_may_begin: opens_value(c) || (c == '-' && scan.value_may_begin),
            after_zero: c == '0' && scan.value_may_begin,
            in_fraction: c == '.' && scan.after_zero,
            mantissa: 0,
            taken: 0,
            overflown: scan.overflown,
        }
    }
}

/// The scan behind the last character of `text`.
pub open spec fn scanned(text: Seq<char>) -> FractionScan
    decreases text.len(),
{
    if text.len() == 0 {
        scan_start()
    } else {
        scan_step(scanned(text.drop_last()), text.last())
    }
}

/// Whether a number of `text` that stands outside any string and has the
/// integer part `0` takes more than `FRACTION_LIMIT` digits of its fraction
/// into its mantissa. Digits in strings, digits of an integer part or of an
/// exponent, and digits that the mantissa drops do not count.
pub open spec fn takes_too_many_digits(text: Seq<char>) -> bool {
    scanned(text).overflown
}

/// Whether the single-precision reading of a number with this decimal
/// exponent is the same on every machine. Up to a magnitude of 22 the `json`
/// crate scales the mantissa by one multiplication or division with a power
/// of ten from a table; beyond it the power is computed, with a precision
/// that is not fixed.
pub open spec fn single_is_settled(exponent: i16) -> bool {
    -22 <= exponent <= 22
}

/// Whether two documents are the same but for single-precision bits that are
/// not settled: the same shape, the same keys in the same order, the same
/// texts and booleans, numbers of the same sign, mantissa and exponent, and
/// the same bits wherever the exponent settles them.
pub open spec fn agree(a: JsonNode, b: JsonNode) -> bool
    decreases a,
{
    match (a, b) {
        (JsonNode::Null, JsonNode::Null) => true,
        (JsonNode::Boolean(x), JsonNode::Boolean(y)) => x == y,
        (JsonNode::Number(x), JsonNode::Number(y)) => {
            &&& x.positive == y.positive
            &&& x.mantissa == y.mantissa
            &&& x.exponent == y.exponent
            &&& single_is_settled(x.exponent) ==> x.single == y.single
        },
        (JsonNode::Text(x), JsonNode::Text(y)) => x@ == y@,
        (JsonNode::Array(x), JsonNode::Array(y)) => {
            &&& x.len() == y.len()
            &&& forall|i: int| 0 <= i < x.len() ==> agree(#[trigger] x[i], y[i])
        },
        (JsonNode::Object(x), JsonNode::Object(y)) => {
            &&& x.len() == y.len()
            &&& forall|i: int|
                0 <= i < x.len() ==> (#[trigger] x[i]).key@ == y[i].key@ && agree(
                    x[i].value,
                    y[i].value,
                )
        },
        _ => false,
    }
}

/// Whether what was read is what was named: the same error, or a document
/// that agrees with the named one.
pub open spec fn reads_as<E>(read: Result<JsonNode, E>, named: Result<JsonNode, E>) -> bool {
    match (read, named) {
        (Ok(a), Ok(b)) => agree(a, b),
        (Err(e), Err(f)) => e == f,
        _ => false,
    }
}

/// What `json::parse` makes of a text: the document it reads, or the reason
/// it rejects the text.
pub uninterp spec fn parsed_json(text: Seq<char>) -> Result<JsonNode, JsonError>;

/// The document that a `json::JsonValue` holds.
pub uninterp spec fn json_tree(value: json::JsonValue) -> JsonNode;

/// What a text is read as: what `json::parse` makes of it, unless one of its
/// numbers takes too many digits.
pub open spec fn document_of(text: Seq<char>) -> Result<JsonNode, JsonError> {
    if takes_too_many_digits(text) {
        Err(JsonError::TooManyDigits)
    } else {
        parsed_json(text)
    }
}

impl JsonNumber {
    /// A number from its `(positive, mantissa, exponent)` parts and the bits
    /// of its single-precision reading.
    pub fn new(parts: (bool, u64, i16), single: u32) -> (r: JsonNumber)
        ensures
            r == (JsonNumber { positive: parts.0, mantissa: parts.1, exponent: parts.2, single }),
    {
        JsonNumber { positive: parts.0, mantissa: parts.1, exponent: parts.2, single }
    }
}

impl JsonMember {
    /// The pair of `key` and `value`.
    pub fn new(key: &str, value: JsonNode) -> (r: JsonMember)
        ensures
            r.key@ == key@,
            r.value == value,
    {
        JsonMember { key: key.to_owned(), value }
    }
}

/// Copies a `json::JsonValue` into a `JsonNode`, variant by variant. Both
/// string variants of the crate become `Text`. A number keeps the parts that
/// `Number::as_parts` gives and the bits of what `JsonValue::as_f32` converts
/// it to. Object members keep the order in which `Object::iter` hands them
/// out. The copy agrees with what `json_tree` names: it is that document but
/// for the single-precision bits of numbers whose exponent does not settle
/// them, of which nothing is claimed.
#[verifier::external_body]
fn node_of(value: &json::JsonValue) -> (r: JsonNode)
    ensures
        agree(r, json_tree(*value)),
{
    match value {
        json::JsonValue::Null => JsonNode::Null,
        json::JsonValue::Boolean(flag) => JsonNode::Boolean(*flag),
        json::JsonValue::Number(number) => JsonNode::Number(
            JsonNumber::new(number.as_parts(), value.as_f32().unwrap_or_default().to_bits()),
        ),
        json::JsonValue::Short(short) => JsonNode::Text(short.as_str().to_owned()),
        json::JsonValue::String(string) => JsonNode::Text(string.clone()),
        json::JsonValue::Array(items) => JsonNode::Array(items.iter().map(node_of).collect()),
        json::JsonValue::Object(object) => JsonNode::Object(
            object.iter().map(|(key, value)| JsonMember::new(key, node_of(value))).collect(),
        ),
    }
}

/// Calls `json::parse` on `text`. On success the value that comes back holds
/// the document that `parsed_json` names for the text; on failure the error of
/// the crate is handed on, variant for variant, and is the one that
/// `parsed_json` names. A text in which a number takes more than
/// `FRACTION_LIMIT` digits of its fraction into its mantissa is left out: the
/// parser lowers a 16-bit exponent by one for each such digit, and the
/// exponent leaves its range behind that many. Only a number with the integer
/// part `0` can take so many, since any other mantissa outgrows 64 bits
/// within twenty digits and drops the rest.
#[verifier::external_body]
fn parse_value(text: &str) -> (r: Result<json::JsonValue, JsonError>)
    requires
        !takes_too_many_digits(text@),
    ensures
        match r {
            Ok(value) => parsed_json(text@) == Ok::<JsonNode, JsonError>(json_tree(value)),
            Err(error) => parsed_json(text@) == Err::<JsonNode, JsonError>(error),
        },
{
    match json::parse(text) {
        Ok(value) => Ok(value),
        Err(json::Error::UnexpectedCharacter { ch, line, column }) => {
            Err(JsonError::UnexpectedCharacter { ch, line, column })
        },
        Err(json::Error::UnexpectedEndOfJson) => Err(JsonError::UnexpectedEndOfJson),
        Err(json::Error::ExceededDepthLimit) => Err(JsonError::ExceededDepthLimit),
        Err(json::Error::FailedUtf8Parsing) => Err(JsonError::FailedUtf8Parsing),
        Err(json::Error::WrongType(expected)) => Err(JsonError::WrongType(expected)),
    }
}

impl JsonNumber {
    /// The number as a 64-bit signed integer, the way the `json` crate reads
    /// one: only a number without exponent is an integer; the mantissa is
    /// taken as a two's complement value and negated for a negative number.
    pub open spec fn spec_as_i64(self) -> Option<i64> {
        if self.exponent != 0 {
            None
        } else {
            let wrapped: int = if self.mantissa <= i64::MAX {
                self.mantissa as int
            } else {
                self.mantissa - 0x1_0000_0000_0000_0000
            };
            if self.positive || wrapped == i64::MIN {
                Some(wrapped as i64)
            } else {
                Some((-wrapped) as i64)
            }
        }
    }

    /// The number as a 32-bit signed integer: its 64-bit reading, where that
    /// fits.
    pub open spec fn spec_as_i32(self) -> Option<i32> {
        match self.spec_as_i64() {
            Some(value) if i32::MIN <= value <= i32::MAX => Some(value as i32),
            _ => None,
        }
    }

    /// Reads the number as a 64-bit signed integer.
    pub fn as_i64(&self) -> (r: Option<i64>)
        ensures
            r == self.spec_as_i64(),
    {
        if self.exponent != 0 {
            None
        } else if self.mantissa <= 0x7fff_ffff_ffff_ffff {
            let magnitude: i64 = self.mantissa as i64;
            if self.positive {
                Some(magnitude)
            } else {
                Some(-magnitude)
            }
        } else {
            let low: u64 = self.mantissa - 0x8000_0000_0000_0000;
            let wrapped: i64 = i64::MIN + (low as i64);
            if self.positive || wrapped == i64::MIN {
                Some(wrapped)
            } else {
                Some(-wrapped)
            }
        }
    }

    /// Reads the number as a 32-bit signed integer.
    pub fn as_i32(&self) -> (r: Option<i32>)
        ensures
            r == self.spec_as_i32(),
    {
        match self.as_i64() {
            Some(value) => {
                if -0x8000_0000 <= value && value <= 0x7fff_ffff {
                    Some(value as i32)
                } else {
                    None
                }
            },
            None => None,
        }
    }
}

/// The value of the first member of `members` whose key is `key`.
pub open spec fn find_member(members: Seq<JsonMember>, key: Seq<char>) -> Option<JsonNode>
    decreases members.len(),
{
    if members.len() == 0 {
        None
    } else if members[0].key@ == key {
        Some(members[0].value)
    } else {
        find_member(members.drop_first(), key)
    }
}

/// The node that a reading yields: the node itself, or `Null` where there
/// is none.
pub open spec fn or_null(node: Option<&JsonNode>) -> JsonNode {
    match node {
        Some(node) => *node,
        None => JsonNode::Null,
    }
}

/// Reads `json[key]`, where a missing `json` reads as `Null`. What comes
/// back stands for `Null` both as `None` and as `Some` of a null node.
pub fn index<'a>(json: Option<&'a JsonNode>, key: &str) -> (r: Option<&'a JsonNode>)
    ensures
        or_null(r) == or_null(json).spec_field(key@),
{
    match json {
        Some(node) => node.member(key),
        None => None,
    }
}

/// Once a number has taken too many digits, the scan says so for good.
pub proof fn lemma_scan_keeps_an_overflow(text: Seq<char>, k: int)
    requires
        0 <= k <= text.len(),
        scanned(text.take(k)).overflown,
    ensures
        scanned(text).overflown,
    decreases text.len() - k,
{
    if k < text.len() {
        assert(text.take(k + 1).drop_last() == text.take(k));
        lemma_scan_keeps_an_overflow(text, k + 1);
    } else {
        assert(text.take(k) == text);
    }
}

/// A text of no more characters than the limit is never refused.
pub proof fn lemma_short_text_is_read(text: Seq<char>)
    requires
        text.len() <= FRACTION_LIMIT,
    ensures
        scanned(text).taken <= text.len(),
        !takes_too_many_digits(text),
        document_of(text) == parsed_json(text),
    decreases text.len(),
{
    if text.len() > 0 {
        lemma_short_text_is_read(text.drop_last());
    }
}

/// A text without a decimal point is never refused: only a fraction can
/// take too many digits.
pub proof fn lemma_text_without_point_is_read(text: Seq<char>)
    requires
        !text.contains('.'),
    ensures
        !scanned(text).in_fraction,
        !takes_too_many_digits(text),
        document_of(text) == parsed_json(text),
    decreases text.len(),
{
    if text.len() > 0 {
        assert forall|i: int| 0 <= i < text.drop_last().len() implies text.drop_last()[i] != '.' by {
            assert(text.drop_last()[i] == text[i]);
        }
        assert(text.last() == text[text.len() - 1]);
        lemma_text_without_point_is_read(text.drop_last());
    }
}

/// Whether `c` is a decimal digit.
pub fn is_digit_char(c: char) -> (r: bool)
    ensures
        r == is_digit(c),
{
    c == '0' || c == '1' || c == '2' || c == '3' || c == '4' || c == '5' || c == '6' || c == '7'
        || c == '8' || c == '9'
}

/// The value of a decimal digit, 0 for any other character.
pub fn digit_value_of(c: char) -> (r: u64)
    ensures
        r == digit_value(c),
        r <= 9,
{
    if c == '1' {
        1
    } else if c == '2' {
        2
    } else if c == '3' {
        3
    } else if c == '4' {
        4
    } else if c == '5' {
        5
    } else if c == '6' {
        6
    } else if c == '7' {
        7
    } else if c == '8' {
        8
    } else if c == '9' {
        9
    } else {
        0
    }
}

impl FractionScan {
    /// The scan before the first character.
    pub fn start() -> (r: FractionScan)
        ensures
            r == scan_start(),
    {
        FractionScan {
            in_string: false,
            escaped: false,
            value_may_begin: true,
            after_zero: false,
            in_fraction: false,
            mantissa: 0,
            taken: 0,
            overflown: false,
        }
    }

    /// The scan behind one more character.
    pub fn step(self, c: char) -> (r: FractionScan)
        ensures
            r == scan_step(self, c),
    {
        if self.in_string {
            if self.escaped {
                FractionScan { escaped: false, ..self }
            } else if c == '\\' {
                FractionScan { escaped: true, ..self }
            } else if c == '"' {
                FractionScan { in_string: false, ..self }
            } else {
                self
            }
        } else if self.in_fraction && is_digit_char(c) {
            let digit = digit_value_of(c);
            if self.mantissa <= (u64::MAX - digit) / 10 {
                FractionScan {
                    mantissa: self.mantissa * 10 + digit,
                    taken: if self.taken < FRACTION_LIMIT {
                        self.taken + 1
                    } else {
                        self.taken
                    },
                    overflown: self.overflown || self.taken >= FRACTION_LIMIT,
                    ..self
                }
            } else {
                self
            }
        } else {
            let opens = c == ' ' || c == '\t' || c == '\n' || c == '\r' || c == '\u{b}' || c == '\u{c}'
                || c == '[' || c == ',' || c == ':';
            FractionScan {
                in_string: c == '"',
                escaped: false,
                value_may_begin: opens || (c == '-' && self.value_may_begin),
                after_zero: c == '0' && self.value_may_begin,
                in_fraction: c == '.' && self.after_zero,
                mantissa: 0,
                taken: 0,
                overflown: self.overflown,
            }
        }
    }
}

/// Whether a number of `text` takes too many digits of its fraction into its
/// mantissa.
pub fn has_long_fraction(text: &str) -> (r: bool)
    ensures
        r == takes_too_many_digits(text@),
{
    broadcast use vstd::string::group_string_axioms;

    let mut scan = FractionScan::start();
    for c in it: text.chars()
        invariant
            it.seq() == text@,
            scan == scanned(text@.take(it.index())),
            !scan.overflown,
    {
        proof {
            assert(text@.take(it.index() + 1).drop_last() == text@.take(it.index()));
            assert(text@.take(it.index() + 1).last() == c);
        }
        scan = scan.step(c);
        if scan.overflown {
            proof {
                lemma_scan_keeps_an_overflow(text@, it.index() + 1);
            }
            return true;
        }
    }
    assert(text@.take(text@.len() as int) == text@);
    false
}

/// Two lists of members that agree entry by entry hold agreeing values
/// under every key, or both hold none.
pub proof fn lemma_agreeing_members(x: Seq<JsonMember>, y: Seq<JsonMember>, key: Seq<char>)
    requires
        x.len() == y.len(),
        forall|i: int|
            0 <= i < x.len() ==> (#[trigger] x[i]).key@ == y[i].key@ && agree(x[i].value, y[i].value),
    ensures
        match (find_member(x, key), find_member(y, key)) {
            (Some(a), Some(b)) => agree(a, b),
            (None, None) => true,
            _ => false,
        },
    decreases x.len(),
{
    if x.len() > 0 {
        assert(x[0].key@ == y[0].key@ && agree(x[0].value, y[0].value));
        if x[0].key@ != key {
            assert forall|i: int| 0 <= i < x.drop_first().len() implies (
            #[trigger] x.drop_first()[i]).key@ == y.drop_first()[i].key@ && agree(
                x.drop_first()[i].value,
                y.drop_first()[i].value,
            ) by {
                assert(x.drop_first()[i] == x[i + 1]);
                assert(y.drop_first()[i] == y[i + 1]);
            }
            lemma_agreeing_members(x.drop_first(), y.drop_first(), key);
        }
    }
}

/// Documents that agree hold agreeing values under every key.
pub proof fn lemma_agreeing_fields(a: JsonNode, b: JsonNode, key: Seq<char>)
    requires
        agree(a, b),
    ensures
        agree(a.spec_field(key), b.spec_field(key)),
{
    match (a, b) {
        (JsonNode::Object(x), JsonNode::Object(y)) => {
            assert forall|i: int| 0 <= i < x@.len() implies (#[trigger] x@[i]).key@ == y@[i].key@
                && agree(x@[i].value, y@[i].value) by {
                assert(x[i].key@ == y[i].key@ && agree(x[i].value, y[i].value));
            }
            lemma_agreeing_members(x@, y@, key);
        },
        _ => {},
    }
}

/// Documents that agree read alike: as the same text, the same integers and
/// the same boolean, and as the same single-precision bits where they are
/// settled.
pub proof fn lemma_agreeing_readings(a: JsonNode, b: JsonNode)
    requires
        agree(a, b),
    ensures
        a.spec_as_str() == b.spec_as_str(),
        a.spec_as_i64() == b.spec_as_i64(),
        a.spec_as_i32() == b.spec_as_i32(),
        a.spec_is_true() == b.spec_is_true(),
        a is Null == b is Null,
        a.single_is_settled() == b.single_is_settled(),
        a.single_is_settled() ==> a.spec_as_single() == b.spec_as_single(),
{
}

impl JsonNode {
    /// Parses a text as JSON. A text in which a number takes too many digits
    /// of its fraction is refused; any other is handed to the parser.
    pub fn parse(text: &str) -> (r: Result<JsonNode, JsonError>)
        ensures
            reads_as(r, document_of(text@)),
    {
        if has_long_fraction(text) {
            return Err(JsonError::TooManyDigits);
        }
        match parse_value(text) {
            Ok(value) => Ok(node_of(&value)),
            Err(error) => Err(error),
        }
    }

    /// Whether the single-precision reading of the node is settled: whether
    /// it is no number, or a number whose exponent settles the bits.
    pub open spec fn single_is_settled(self) -> bool {
        match self {
            JsonNode::Number(number) => single_is_settled(number.exponent),
            _ => true,
        }
    }

    /// The member `key` of an object; `None` for a missing key and for
    /// anything that is not an object.
    pub open spec fn spec_member(self, key: Seq<char>) -> Option<JsonNode> {
        match self {
            JsonNode::Object(members) => find_member(members@, key),
            _ => None,
        }
    }

    /// What reading `self[key]` yields: the member, or `Null` in its place.
    pub open spec fn spec_field(self, key: Seq<char>) -> JsonNode {
        match self.spec_member(key) {
            Some(node) => node,
            None => JsonNode::Null,
        }
    }

    /// The text of a string.
    pub open spec fn spec_as_str(self) -> Option<Seq<char>> {
        match self {
            JsonNode::Text(text) => Some(text@),
            _ => None,
        }
    }

    /// The 64-bit integer reading of a number.
    pub open spec fn spec_as_i64(self) -> Option<i64> {
        match self {
            JsonNode::Number(number) => number.spec_as_i64(),
            _ => None,
        }
    }

    /// The 32-bit integer reading of a number.
    pub open spec fn spec_as_i32(self) -> Option<i32> {
        match self {
            JsonNode::Number(number) => number.spec_as_i32(),
            _ => None,
        }
    }

    /// The single-precision bits of a number.
    pub open spec fn spec_as_single(self) -> Option<u32> {
        match self {
            JsonNode::Number(number) => Some(number.single),
            _ => None,
        }
    }

    /// Whether the node is the boolean `true`.
    pub open spec fn spec_is_true(self) -> bool {
        self == JsonNode::Boolean(true)
    }

    /// Whether the node is `null`.
    pub fn is_null(&self) -> (r: bool)
        ensures
            r == (*self is Null),
    {
        match self {
            JsonNode::Null => true,
            _ => false,
        }
    }

    /// Looks up the member `key` of an object.
    pub fn member(&self, key: &str) -> (r: Option<&JsonNode>)
        ensures
            match r {
                Some(node) => self.spec_member(key@) == Some(*node),
                None => self.spec_member(key@) is None,
            },
    {
        match self {
            JsonNode::Object(members) => {
                let wanted = key.to_owned();
                let mut i: usize = 0;
                assert(members@.skip(0) == members@);
                while i < members.len()
                    invariant
                        i <= members.len(),
                        wanted@ == key@,
                        self.spec_member(key@) == find_member(members@, key@),
                        find_member(members@, key@) == find_member(members@.skip(i as int), key@),
                    decreases members.len() - i,
                {
                    assert(members@.skip(i as int)[0] == members@[i as int]);
                    if members[i].key == wanted {
                        return Some(&members[i].value);
                    }
                    assert(members@.skip(i as int).drop_first() == members@.skip(i + 1));
                    i += 1;
                }
                None
            },
            _ => None,
        }
    }

    /// Reads the text of a string.
    pub fn as_str(&self) -> (r: Option<&str>)
        ensures
            match r {
                Some(text) => self.spec_as_str() == Some(text@),
                None => self.spec_as_str() is None,
            },
    {
        match self {
            JsonNode::Text(text) => Some(text.as_str()),
            _ => None,
        }
    }

    /// Reads a number as a 64-bit signed integer.
    pub fn as_i64(&self) -> (r: Option<i64>)
        ensures
            r == self.spec_as_i64(),
    {
        match self {
            JsonNode::Number(number) => number.as_i64(),
            _ => None,
        }
    }

    /// Reads a number as a 32-bit signed integer.
    pub fn as_i32(&self) -> (r: Option<i32>)
        ensures
            r == self.spec_as_i32(),
    {
        match self {
            JsonNode::Number(number) => number.as_i32(),
            _ => None,
        }
    }

    /// Reads the single-precision bits of a number.
    pub fn as_single(&self) -> (r: Option<u32>)
        ensures
            r == self.spec_as_single(),
    {
        match self {
            JsonNode::Number(number) => Some(number.single),
            _ => None,
        }
    }

    /// Whether the node is the boolean `true`.
    pub fn is_true(&self) -> (r: bool)
        ensures
            r == self.spec_is_true(),
    {
        match self {
            JsonNode::Boolean(flag) => *flag,
            _ => false,
        }
    }
}

} // verus!
