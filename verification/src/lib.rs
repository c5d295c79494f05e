//! A string constrained to an inclusive length range, validated at
//! construction and when decoded from an external string scalar, so that a
//! field such as a name or a title can never be empty, truncated or oversized.

use vstd::prelude::*;
use vstd::string::*;
use vstd::utf8::encode_utf8;

pub mod digits;

use crate::digits::{dec_str, spec_dec};

verus! {

/// A string field that failed validation: too many or too few bytes for the
/// bounds it was checked against. Exactly one of the two variants, or
/// success, results from any construction attempt.
#[derive(Debug, Clone, Copy, PartialEq, Eq, Structural)]
pub enum LengthLimitedFieldError {
    TooLong { len: usize, max: usize },
    TooShort { len: usize, min: usize },
}

/// The human-readable sentence for a validation failure, naming the value's
/// actual length and the violated bound.
pub open spec fn spec_message(e: LengthLimitedFieldError) -> Seq<char> {
    match e {
        LengthLimitedFieldError::TooLong { len, max } => "Length of value "@ + spec_dec(
            len as nat,
        ) + " longer than "@ + spec_dec(max as nat),
        LengthLimitedFieldError::TooShort { len, min } => "Length of value "@ + spec_dec(
            len as nat,
        ) + " shorter than "@ + spec_dec(min as nat),
    }
}

impl LengthLimitedFieldError {
    /// Renders the failure as its diagnostic sentence.
    pub fn message(&self) -> (r: String)
        ensures
            r@ == spec_message(*self),
    {
        match *self {
            LengthLimitedFieldError::TooLong { len, max } => {
                let mut s = "Length of value ".to_owned();
                s.append(dec_str(len).as_str());
                s.append(" longer than ");
                s.append(dec_str(max).as_str());
                s
            },
            LengthLimitedFieldError::TooShort { len, min } => {
                let mut s = "Length of value ".to_owned();
                s.append(dec_str(len).as_str());
                s.append(" shorter than ");
                s.append(dec_str(min).as_str());
                s
            },
        }
    }
}

/// The length of a string of characters in raw string units: the bytes of
/// its UTF-8 encoding, which is what the host string representation stores.
/// This is not the count of characters, let alone of grapheme clusters.
pub open spec fn byte_len(s: Seq<char>) -> nat {
    encode_utf8(s).len()
}

/// The outcome of validating a string of characters `s` against the inclusive
/// bounds `min` and `max` on its byte length: the string itself if its length
/// lies in the range, and otherwise the error, with a length over `max`
/// reported before one under `min`.
pub open spec fn spec_construct(s: Seq<char>, min: usize, max: usize) -> Result<
    Seq<char>,
    LengthLimitedFieldError,
> {
    if byte_len(s) > max {
        Err(LengthLimitedFieldError::TooLong { len: byte_len(s) as usize, max })
    } else if byte_len(s) < min {
        Err(LengthLimitedFieldError::TooShort { len: byte_len(s) as usize, min })
    } else {
        Ok(s)
    }
}

/// The outcome of decoding a string scalar against the bounds: the same
/// acceptance as `spec_construct`, with a failure carried as its diagnostic
/// sentence.
pub open spec fn spec_decode(s: Seq<char>, min: usize, max: usize) -> Result<
    Seq<char>,
    Seq<char>,
> {
    match spec_construct(s, min, max) {
        Ok(v) => Ok(v),
        Err(e) => Err(spec_message(e)),
    }
}

/// An immutable string whose length in bytes is at least `MIN` and at most
/// `MAX`, both inclusive and fixed at the type's definition site.
#[derive(Debug)]
pub struct LengthLimitedField<const MIN: usize, const MAX: usize> {
    inner: String,
}

impl<const MIN: usize, const MAX: usize> View for LengthLimitedField<MIN, MAX> {
    type V = Seq<char>;

    closed spec fn view(&self) -> Seq<char> {
        self.inner@
    }
}

impl<const MIN: usize, const MAX: usize> LengthLimitedField<MIN, MAX> {
    /// Every live instance holds a string whose byte length lies in the
    /// bounds; with inverted bounds no instance can exist at all.
    #[verifier::type_invariant]
    pub open spec fn length_in_bounds(self) -> bool {
        MIN <= byte_len(self@) <= MAX
    }

    /// Validates `value` against the bounds and wraps a copy of it on
    /// success; length over `MAX` is rejected before length under `MIN`.
    pub fn new(value: &str) -> (r: Result<Self, LengthLimitedFieldError>)
        ensures
            match spec_construct(value@, MIN, MAX) {
                Ok(s) => r matches Ok(f) && f@ == s,
                Err(e) => r matches Err(a) && a == e,
            },
    {
        let len: usize = value.as_bytes().len();
        if len > MAX {
            Err(LengthLimitedFieldError::TooLong { len, max: MAX })
        } else if len < MIN {
            Err(LengthLimitedFieldError::TooShort { len, min: MIN })
        } else {
            Ok(LengthLimitedField { inner: value.to_owned() })
        }
    }

    /// Read-only view of the wrapped string; this is also the exact string
    /// scalar that the field encodes to.
    pub fn as_str(&self) -> (r: &str)
        ensures
            r@ == self@,
            MIN <= byte_len(self@) <= MAX,
    {
        proof {
            use_type_invariant(self);
        }
        self.inner.as_str()
    }

    /// Decodes a string scalar: accepts exactly the strings that `new`
    /// accepts, and reports a rejection as its diagnostic sentence.
    pub fn decode_str(value: &str) -> (r: Result<Self, String>)
        ensures
            match spec_decode(value@, MIN, MAX) {
                Ok(s) => r matches Ok(f) && f@ == s,
                Err(m) => r matches Err(a) && a@ == m,
            },
    {
        match Self::new(value) {
            Ok(f) => Ok(f),
            Err(e) => Err(e.message()),
        }
    }
}

/// Identity preservation: every string whose byte length lies in the bounds
/// is accepted, and the constructed value holds that string exactly.
pub proof fn lemma_construct_in_bounds(s: Seq<char>, min: usize, max: usize)
    requires
        min <= byte_len(s) <= max,
    ensures
        spec_construct(s, min, max) == Ok::<Seq<char>, LengthLimitedFieldError>(s),
{
}

/// Every string of more bytes than `max` is rejected as too long, with the
/// string's byte length and the violated bound reported.
pub proof fn lemma_construct_too_long(s: Seq<char>, min: usize, max: usize)
    requires
        byte_len(s) > max,
    ensures
        spec_construct(s, min, max) == Err::<Seq<char>, LengthLimitedFieldError>(
            (LengthLimitedFieldError::TooLong { len: byte_len(s) as usize, max }),
        ),
{
}

/// With bounds in their intended order, every string of fewer bytes than
/// `min` is rejected as too short, with the string's byte length and the
/// violated bound reported. (With inverted bounds a string may instead be
/// rejected as too long: see `lemma_degenerate_bounds`.)
pub proof fn lemma_construct_too_short(s: Seq<char>, min: usize, max: usize)
    requires
        min <= max,
        byte_len(s) < min,
    ensures
        spec_construct(s, min, max) == Err::<Seq<char>, LengthLimitedFieldError>(
            (LengthLimitedFieldError::TooShort { len: byte_len(s) as usize, min }),
        ),
{
}

/// Round trip: the string scalar that a live field encodes to is accepted
/// by decoding, and yields the field's own value back.
pub proof fn lemma_round_trip<const MIN: usize, const MAX: usize>(v: &LengthLimitedField<MIN, MAX>)
    requires
        v.length_in_bounds(),
    ensures
        spec_decode(v@, MIN, MAX) == Ok::<Seq<char>, Seq<char>>(v@),
{
}

/// Decode/construct equivalence: decoding a string scalar succeeds exactly
/// when direct construction does, and on success both yield the same value.
pub proof fn lemma_decode_construct_equivalence(s: Seq<char>, min: usize, max: usize)
    ensures
        spec_decode(s, min, max) is Ok <==> spec_construct(s, min, max) is Ok,
        spec_construct(s, min, max) is Ok ==> spec_decode(s, min, max)->Ok_0 == spec_construct(
            s,
            min,
            max,
        )->Ok_0,
{
}

/// With inverted bounds (`max < min`) no string is ever accepted: every
/// string triggers exactly one of the two errors, too long when its byte
/// length exceeds `max` and too short otherwise.
pub proof fn lemma_degenerate_bounds(s: Seq<char>, min: usize, max: usize)
    requires
        max < min,
    ensures
        spec_construct(s, min, max) is Err,
        byte_len(s) > max ==> spec_construct(s, min, max) == Err::<
            Seq<char>,
            LengthLimitedFieldError,
        >((LengthLimitedFieldError::TooLong { len: byte_len(s) as usize, max })),
        byte_len(s) <= max ==> spec_construct(s, min, max) == Err::<
            Seq<char>,
            LengthLimitedFieldError,
        >((LengthLimitedFieldError::TooShort { len: byte_len(s) as usize, min })),
{
}

} // verus!
