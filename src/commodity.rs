//! Commodity readings: the backend sends each one either as a complex literal behind a
//! two-character prefix, or as a bare real number. Decoding yields the rectangular
//! literal (`a+bj`) that the complex number parser reads.

use vstd::prelude::*;

use crate::text::{
    decimal, decimal_text, is_digit, lemma_decimal_is_digits, signed_decimal, signed_decimal_text,
};
use crate::wire::{find, lookup, DecodeError, Field, Number, Wire};

verus! {

/// One reading of one energy carrier, as the backend sent it.
#[derive(Debug)]
pub enum Commodity {
    /// A complex value as text, prefix and parentheses included.
    Complex(String),
    /// A real value.
    Real(Number),
}

/// The readings of a device, per energy carrier.
#[derive(Debug)]
pub struct Commodities {
    pub electricity: Option<Commodity>,
    pub heat: Option<Commodity>,
}

pub open spec fn is_paren(c: char) -> bool {
    c == '(' || c == ')'
}

/// `s` with every parenthesis removed.
pub open spec fn without_parens(s: Seq<char>) -> Seq<char>
    decreases s.len(),
{
    if s.len() == 0 {
        s
    } else if is_paren(s.last()) {
        without_parens(s.drop_last())
    } else {
        without_parens(s.drop_last()).push(s.last())
    }
}

/// The literal within a complex reading: the text after its two-character prefix, without
/// parentheses. `None` where the text is shorter than the prefix.
pub open spec fn stripped_literal(s: Seq<char>) -> Option<Seq<char>> {
    if s.len() < 2 {
        None
    } else {
        Some(without_parens(s.subrange(2, s.len() as int)))
    }
}

/// The decimal text of a number.
pub open spec fn number_literal(n: Number) -> Seq<char> {
    match n {
        Number::PosInt(k) => decimal(k as nat),
        Number::NegInt(k) => signed_decimal(k as int),
        Number::Float(t) => t@,
    }
}

/// The rectangular literal of a reading; a real reading has no imaginary part.
pub open spec fn reading_literal(c: Commodity) -> Result<Seq<char>, DecodeError> {
    match c {
        Commodity::Complex(s) => match stripped_literal(s@) {
            Some(t) => Ok(t),
            None => Err(DecodeError::ShortLiteral),
        },
        Commodity::Real(n) => Ok(number_literal(n)),
    }
}

/// The reading that a value encodes at `place`: `null` is no reading, a string a complex
/// reading and a number a real one.
pub open spec fn reading(v: Wire, place: Field) -> Result<Option<Commodity>, DecodeError> {
    match v {
        Wire::Null => Ok(None),
        Wire::Str(s) => Ok(Some(Commodity::Complex(s))),
        Wire::Number(n) => Ok(Some(Commodity::Real(n))),
        _ => Err(DecodeError::WrongType(place)),
    }
}

pub open spec fn electricity_key() -> Seq<char> {
    seq!['E', 'L', 'E', 'C', 'T', 'R', 'I', 'C', 'I', 'T', 'Y']
}

pub open spec fn heat_key() -> Seq<char> {
    seq!['H', 'E', 'A', 'T']
}

/// The reading of an optional member: absent is no reading.
pub open spec fn optional_reading(v: Option<Wire>, place: Field) -> Result<
    Option<Commodity>,
    DecodeError,
> {
    match v {
        None => Ok(None),
        Some(x) => reading(x, place),
    }
}

/// The readings that a consumption object encodes.
pub open spec fn commodities(v: Wire) -> Result<Commodities, DecodeError> {
    match v {
        Wire::Object(m) => match optional_reading(lookup(m@, electricity_key()), Field::Electricity) {
            Err(e) => Err(e),
            Ok(el) => match optional_reading(lookup(m@, heat_key()), Field::Heat) {
                Err(e) => Err(e),
                Ok(h) => Ok(Commodities { electricity: el, heat: h }),
            },
        },
        _ => Err(DecodeError::WrongType(Field::Consumption)),
    }
}

/// Whether an executable literal is the outcome that a spec outcome describes.
pub open spec fn literal_outcome(
    r: Result<String, DecodeError>,
    s: Result<Seq<char>, DecodeError>,
) -> bool {
    match r {
        Ok(t) => s == Ok::<Seq<char>, DecodeError>(t@),
        Err(e) => s == Err::<Seq<char>, DecodeError>(e),
    }
}

/// Strips the two-character prefix and every parenthesis from a complex reading's text.
pub fn complex_literal(raw: &str) -> (r: Result<String, DecodeError>)
    ensures
        match stripped_literal(raw@) {
            Some(t) => r matches Ok(x) && x@ == t,
            None => r == Err::<String, DecodeError>(DecodeError::ShortLiteral),
        },
{
    let n = raw.unicode_len();
    if n < 2 {
        return Err(DecodeError::ShortLiteral);
    }
    let mut out = String::new();
    let mut i: usize = 2;
    while i < n
        invariant
            n == raw@.len(),
            2 <= i <= n,
            out@ == without_parens(raw@.subrange(2, i as int)),
        decreases n - i,
    {
        let ghost before = raw@.subrange(2, i as int);
        let ghost after = raw@.subrange(2, i + 1);
        assert(after.drop_last() =~= before);
        let c = raw.get_char(i);
        if c != '(' && c != ')' {
            out.append(raw.substring_char(i, i + 1));
            assert(raw@.subrange(i as int, i + 1) =~= seq![c]);
        }
        i = i + 1;
    }
    Ok(out)
}

/// The decimal text of a number.
pub fn number_text(n: &Number) -> (r: String)
    ensures
        r@ == number_literal(*n),
{
    match n {
        Number::PosInt(k) => decimal_text(*k),
        Number::NegInt(k) => signed_decimal_text(*k),
        Number::Float(t) => t.clone(),
    }
}

fn copy_number(n: &Number) -> (r: Number)
    ensures
        r == *n,
{
    match n {
        Number::PosInt(k) => Number::PosInt(*k),
        Number::NegInt(k) => Number::NegInt(*k),
        Number::Float(t) => Number::Float(t.clone()),
    }
}

impl Commodity {
    /// The rectangular literal of this reading, for the complex number parser.
    pub fn literal(&self) -> (r: Result<String, DecodeError>)
        ensures
            literal_outcome(r, reading_literal(*self)),
    {
        match self {
            Commodity::Complex(s) => complex_literal(s.as_str()),
            Commodity::Real(n) => Ok(number_text(n)),
        }
    }
}

/// Decodes one reading: a string is a complex reading, a number a real one, and `null`
/// no reading.
pub fn decode_commodity(v: &Wire, place: Field) -> (r: Result<Option<Commodity>, DecodeError>)
    ensures
        r == reading(*v, place),
{
    match v {
        Wire::Null => Ok(None),
        Wire::Str(s) => Ok(Some(Commodity::Complex(s.clone()))),
        Wire::Number(n) => Ok(Some(Commodity::Real(copy_number(n)))),
        _ => Err(DecodeError::WrongType(place)),
    }
}

fn decode_member_reading(m: &Vec<(String, Wire)>, key: &str, place: Field) -> (r: Result<
    Option<Commodity>,
    DecodeError,
>)
    ensures
        r == optional_reading(lookup(m@, key@), place),
{
    match find(m, key) {
        None => Ok(None),
        Some(x) => decode_commodity(x, place),
    }
}

/// Decodes a consumption object; a carrier that is absent has no reading.
pub fn decode_commodities(v: &Wire) -> (r: Result<Commodities, DecodeError>)
    ensures
        r == commodities(*v),
{
    proof {
        reveal_strlit("ELECTRICITY");
        reveal_strlit("HEAT");
        assert("ELECTRICITY"@ =~= electricity_key());
        assert("HEAT"@ =~= heat_key());
    }
    match v {
        Wire::Object(m) => {
            let electricity = decode_member_reading(m, "ELECTRICITY", Field::Electricity)?;
            let heat = decode_member_reading(m, "HEAT", Field::Heat)?;
            Ok(Commodities { electricity, heat })
        },
        _ => Err(DecodeError::WrongType(Field::Consumption)),
    }
}

/// Without parentheses, a concatenation is the concatenation of its parts without them.
pub proof fn lemma_without_parens_concat(a: Seq<char>, b: Seq<char>)
    ensures
        without_parens(a + b) == without_parens(a) + without_parens(b),
    decreases b.len(),
{
    if b.len() == 0 {
        assert(a + b =~= a);
        assert(without_parens(a) + without_parens(b) =~= without_parens(a));
    } else {
        assert((a + b).drop_last() =~= a + b.drop_last());
        assert((a + b).last() == b.last());
        lemma_without_parens_concat(a, b.drop_last());
        if !is_paren(b.last()) {
            assert(without_parens(a) + without_parens(b.drop_last()).push(b.last()) =~= (
            without_parens(a) + without_parens(b.drop_last())).push(b.last()));
        }
    }
}

/// Text without parentheses is left as it is.
pub proof fn lemma_without_parens_identity(t: Seq<char>)
    requires
        forall|i: int| 0 <= i < t.len() ==> !is_paren(#[trigger] t[i]),
    ensures
        without_parens(t) == t,
    decreases t.len(),
{
    if t.len() > 0 {
        lemma_without_parens_identity(t.drop_last());
        assert(t.drop_last().push(t.last()) =~= t);
    }
}

/// A parenthesis-free literal that is put in parentheses behind a two-character prefix, as
/// the backend encodes a complex value, is stripped back to itself.
pub proof fn lemma_literal_round_trip(prefix: Seq<char>, t: Seq<char>)
    requires
        prefix.len() == 2,
        forall|i: int| 0 <= i < t.len() ==> !is_paren(#[trigger] t[i]),
    ensures
        stripped_literal(prefix + seq!['('] + t + seq![')']) == Some(t),
{
    let s = prefix + seq!['('] + t + seq![')'];
    let body = s.subrange(2, s.len() as int);
    assert(body =~= seq!['('] + t + seq![')']);
    lemma_without_parens_concat(seq!['('] + t, seq![')']);
    lemma_without_parens_concat(seq!['('], t);
    lemma_without_parens_identity(t);
    let open = seq!['('];
    let close = seq![')'];
    assert(without_parens(Seq::<char>::empty()) == Seq::<char>::empty());
    assert(open.last() == '(');
    assert(close.last() == ')');
    assert(open.drop_last() =~= Seq::<char>::empty());
    assert(close.drop_last() =~= Seq::<char>::empty());
    assert(without_parens(open) =~= Seq::<char>::empty());
    assert(without_parens(close) =~= Seq::<char>::empty());
    assert(without_parens(body) =~= t);
}

/// A number read as a commodity is a real reading of that very number, and its literal
/// is the number's text. The text of an integer holds digits and at most a leading minus
/// sign, so no imaginary unit: the reading has no imaginary part.
pub proof fn lemma_real_reading(n: Number, place: Field)
    ensures
        reading(Wire::Number(n), place) == Ok::<Option<Commodity>, DecodeError>(
            Some(Commodity::Real(n)),
        ),
        reading_literal(Commodity::Real(n)) == Ok::<Seq<char>, DecodeError>(number_literal(n)),
        !(n is Float) ==> forall|i: int|
            0 <= i < number_literal(n).len() ==> is_digit(#[trigger] number_literal(n)[i]) || (i
                == 0 && number_literal(n)[i] == '-'),
{
    match n {
        Number::PosInt(k) => {
            lemma_decimal_is_digits(k as nat);
        },
        Number::NegInt(k) => {
            if k < 0 {
                let d = decimal((-k) as nat);
                lemma_decimal_is_digits((-k) as nat);
                assert forall|i: int| 0 <= i < number_literal(n).len() implies is_digit(
                    #[trigger] number_literal(n)[i],
                ) || (i == 0 && number_literal(n)[i] == '-') by {
                    if i > 0 {
                        assert(number_literal(n)[i] == d[i - 1]);
                    }
                }
            } else {
                lemma_decimal_is_digits(k as nat);
            }
        },
        Number::Float(_) => {},
    }
}

/// The sign of a real number.
#[derive(PartialEq, Eq, Structural, Clone, Copy, Debug)]
pub enum Sign {
    Negative,
    Zero,
    Positive,
}

/// How a reading is reported: as import, which is positive while the device draws power,
/// or as export, which is positive while it delivers power.
#[derive(PartialEq, Eq, Structural, Clone, Copy, Debug)]
pub enum Direction {
    Import,
    Export,
}

pub open spec fn sign_value(s: Sign) -> int {
    match s {
        Sign::Negative => -1,
        Sign::Zero => 0,
        Sign::Positive => 1,
    }
}

/// The factor by which a reading's magnitude is signed: the sign of its real part under
/// import and the opposite sign under export; a zero real part gives zero.
pub open spec fn direction_factor(re: Sign, d: Direction) -> int {
    match d {
        Direction::Import => sign_value(re),
        Direction::Export => -sign_value(re),
    }
}

/// The factor by which a reading's magnitude is signed.
pub fn signed_factor(re: Sign, d: Direction) -> (r: i8)
    ensures
        r as int == direction_factor(re, d),
{
    match (re, d) {
        (Sign::Zero, _) => 0,
        (Sign::Positive, Direction::Import) | (Sign::Negative, Direction::Export) => 1,
        _ => -1,
    }
}

/// Import and export sign a reading oppositely, and only a zero real part gives a zero
/// factor.
pub proof fn lemma_directions_opposite(re: Sign)
    ensures
        direction_factor(re, Direction::Export) == -direction_factor(re, Direction::Import),
        (direction_factor(re, Direction::Import) == 0) == (re == Sign::Zero),
        re != Sign::Zero ==> direction_factor(re, Direction::Import) == 1 || direction_factor(
            re,
            Direction::Import,
        ) == -1,
{
}

/// A reading with a positive real part is signed non-negative under import and
/// non-positive under export. With a negative real part the signs swap, so the statement
/// is made for positive real parts only.
pub proof fn lemma_positive_reading_sign(re: Sign)
    requires
        re == Sign::Positive,
    ensures
        direction_factor(re, Direction::Import) >= 0,
        direction_factor(re, Direction::Export) <= 0,
{
}

} // verus!
