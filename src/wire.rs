//! The backend's documents as a tree of plain values, and field lookup in them.

use vstd::prelude::*;

use crate::text::same_text;

verus! {

/// A number as the backend's document wrote it.
#[derive(Debug)]
pub enum Number {
    /// A non-negative integer.
    PosInt(u64),
    /// A negative integer.
    NegInt(i64),
    /// Any other number, as decimal text.
    Float(String),
}

/// A document value.
#[derive(Debug)]
pub enum Wire {
    Null,
    Bool(bool),
    Number(Number),
    Str(String),
    Array(Vec<Wire>),
    /// The members of an object, in document order.
    Object(Vec<(String, Wire)>),
}

/// A place in a document that the decoders read.
#[derive(PartialEq, Eq, Structural, Clone, Copy, Debug)]
pub enum Field {
    Name,
    Available,
    Consumption,
    Electricity,
    Heat,
    Profile,
    ProfileSample,
    CurrentJob,
    CurrentJobIdx,
    Jobs,
    JobEntry,
    JobId,
    JobProgress,
    StartTime,
    EndTime,
    /// The document as a whole.
    Document,
}

/// Why a document could not be decoded.
#[derive(PartialEq, Eq, Structural, Clone, Copy, Debug)]
pub enum DecodeError {
    /// A member that the shape requires is absent.
    MissingField(Field),
    /// A value does not have the type that its place requires.
    WrongType(Field),
    /// A current-job object holds exactly one of its two times; the field named is the
    /// absent one.
    InvariantViolation(Field),
    /// A complex literal is too short to hold its two-character prefix.
    ShortLiteral,
}

/// The value of the last member named `key`, if any.
pub open spec fn lookup(members: Seq<(String, Wire)>, key: Seq<char>) -> Option<Wire>
    decreases members.len(),
{
    if members.len() == 0 {
        None
    } else if members.last().0@ == key {
        Some(members.last().1)
    } else {
        lookup(members.drop_last(), key)
    }
}

/// The integer that a value holds, where it is a number that fits `u64`.
pub open spec fn as_u64(v: Wire) -> Option<u64> {
    match v {
        Wire::Number(Number::PosInt(n)) => Some(n),
        _ => None,
    }
}

/// The integer that a value holds, where it is a number that fits `u64`.
pub fn read_u64(v: &Wire) -> (r: Option<u64>)
    ensures
        r == as_u64(*v),
{
    match v {
        Wire::Number(Number::PosInt(n)) => Some(*n),
        _ => None,
    }
}

/// The value of the last member named `key`.
pub fn find<'a>(members: &'a Vec<(String, Wire)>, key: &str) -> (r: Option<&'a Wire>)
    ensures
        r matches Some(x) ==> lookup(members@, key@) == Some(*x),
        r is None ==> lookup(members@, key@) is None,
{
    let mut found: Option<&'a Wire> = None;
    let mut i: usize = 0;
    while i < members.len()
        invariant
            i <= members@.len(),
            found matches Some(x) ==> lookup(members@.subrange(0, i as int), key@) == Some(*x),
            found is None ==> lookup(members@.subrange(0, i as int), key@) is None,
        decreases members@.len() - i,
    {
        let ghost before = members@.subrange(0, i as int);
        let ghost after = members@.subrange(0, i + 1);
        assert(after.drop_last() =~= before);
        assert(after.last() == members@[i as int]);
        if same_text(members[i].0.as_str(), key) {
            found = Some(&members[i].1);
        }
        i = i + 1;
    }
    assert(members@.subrange(0, members@.len() as int) =~= members@);
    found
}

} // verus!
