//! The version marker: a schema version written as decimal ASCII text.

use vstd::prelude::*;

use crate::error::Error;

verus! {

/// The ASCII code of `0`.
pub const ASCII_ZERO: u8 = 48;

/// The ASCII code of `9`.
pub const ASCII_NINE: u8 = 57;

/// The ASCII code of `+`.
pub const ASCII_PLUS: u8 = 43;

/// Whether `b` is an ASCII decimal digit.
pub open spec fn is_digit(b: u8) -> bool {
    ASCII_ZERO <= b && b <= ASCII_NINE
}

/// A non-empty run of decimal digits.
pub open spec fn is_digits(s: Seq<u8>) -> bool {
    s.len() > 0 && forall|i: int| 0 <= i < s.len() ==> is_digit(#[trigger] s[i])
}

/// The number that a run of decimal digits denotes, most significant first.
pub open spec fn digits_value(s: Seq<u8>) -> nat
    decreases s.len(),
{
    if s.len() == 0 {
        0
    } else {
        digits_value(s.drop_last()) * 10 + (s.last() - ASCII_ZERO) as nat
    }
}

/// The digits of an unsigned number: an optional leading `+` is dropped.
pub open spec fn unsigned_digits(s: Seq<u8>) -> Seq<u8> {
    if s.len() > 0 && s[0] == ASCII_PLUS {
        s.drop_first()
    } else {
        s
    }
}

/// The version that marker text denotes: base-10 digits, optionally after a
/// `+`, whose value fits in a `u32`. Anything else, whitespace included,
/// denotes no version.
pub open spec fn marker_version(s: Seq<u8>) -> Option<u32> {
    let d = unsigned_digits(s);
    if is_digits(d) && digits_value(d) <= u32::MAX {
        Some(digits_value(d) as u32)
    } else {
        None
    }
}

/// The shortest decimal text of `n`: no sign, no leading zero, no whitespace.
pub open spec fn decimal_text(n: nat) -> Seq<u8>
    decreases n,
{
    if n < 10 {
        seq![(ASCII_ZERO + n) as u8]
    } else {
        decimal_text(n / 10).push((ASCII_ZERO + n % 10) as u8)
    }
}

proof fn lemma_digits_value_monotone(s: Seq<u8>, k: int)
    requires
        0 <= k <= s.len(),
        forall|i: int| 0 <= i < s.len() ==> is_digit(#[trigger] s[i]),
    ensures
        digits_value(s.subrange(0, k)) <= digits_value(s),
    decreases s.len(),
{
    if k < s.len() {
        let t = s.drop_last();
        assert(t.subrange(0, k) =~= s.subrange(0, k));
        assert forall|i: int| 0 <= i < t.len() implies is_digit(#[trigger] t[i]) by {
            assert(t[i] == s[i]);
        }
        lemma_digits_value_monotone(t, k);
    } else {
        assert(s.subrange(0, k) =~= s);
    }
}

/// Reads a schema version from the text of a version marker.
pub fn parse_version(content: &[u8]) -> (r: Option<u32>)
    ensures
        r == marker_version(content@),
{
    let n = content.len();
    let start: usize = if n > 0 && content[0] == ASCII_PLUS { 1 } else { 0 };
    let ghost d = unsigned_digits(content@);
    assert(d =~= content@.subrange(start as int, n as int));
    if start == n {
        return None;
    }
    let mut acc: u32 = 0;
    let mut i: usize = start;
    while i < n
        invariant
            n == content@.len(),
            start <= i <= n,
            start < n,
            d == unsigned_digits(content@),
            d =~= content@.subrange(start as int, n as int),
            forall|j: int| 0 <= j < i - start ==> is_digit(#[trigger] d[j]),
            acc as nat == digits_value(d.subrange(0, i - start)),
        decreases n - i,
    {
        let b = content[i];
        let ghost k = i - start;
        assert(d[k] == b);
        if b < ASCII_ZERO || b > ASCII_NINE {
            assert(!is_digit(d[k]));
            assert(!is_digits(d));
            return None;
        }
        assert(d.subrange(0, k + 1).drop_last() =~= d.subrange(0, k));
        assert(d.subrange(0, k + 1).last() == b);
        let digit = (b - ASCII_ZERO) as u32;
        if acc > (u32::MAX - digit) / 10 {
            proof {
                assert(acc * 10 + digit > u32::MAX) by (nonlinear_arith)
                    requires
                        acc > (u32::MAX - digit) / 10,
                        digit <= 9,
                ;
                assert(digits_value(d.subrange(0, k + 1)) > u32::MAX);
                if is_digits(d) {
                    lemma_digits_value_monotone(d, k + 1);
                }
            }
            return None;
        }
        assert(acc * 10 + digit <= u32::MAX) by (nonlinear_arith)
            requires
                acc <= (u32::MAX - digit) / 10,
                digit <= 9,
        ;
        acc = acc * 10 + digit;
        i = i + 1;
    }
    assert(d.subrange(0, n - start) =~= d);
    Some(acc)
}

/// The schema version recorded in a database directory. `marker` is the
/// marker's content, or `None` where the marker is missing or unreadable.
pub fn current_version(marker: Option<&[u8]>) -> (r: Result<u32, Error>)
    ensures
        match marker {
            Some(content) => match marker_version(content@) {
                Some(v) => r == Ok::<u32, Error>(v),
                None => r is Err && r->Err_0 is UnknownDatabaseVersion,
            },
            None => r is Err && r->Err_0 is UnknownDatabaseVersion,
        },
{
    match marker {
        None => Err(Error::UnknownDatabaseVersion),
        Some(content) => match parse_version(content) {
            Some(v) => Ok(v),
            None => Err(Error::UnknownDatabaseVersion),
        },
    }
}

/// The marker text of a schema version: its shortest decimal form, with no
/// sign and no trailing newline.
pub fn version_text(version: u32) -> (r: Vec<u8>)
    ensures
        r@ == decimal_text(version as nat),
    decreases version,
{
    if version < 10 {
        vec![ASCII_ZERO + version as u8]
    } else {
        let mut r = version_text(version / 10);
        r.push(ASCII_ZERO + (version % 10) as u8);
        r
    }
}

proof fn lemma_decimal_text_digits(n: nat)
    ensures
        is_digits(decimal_text(n)),
        digits_value(decimal_text(n)) == n,
    decreases n,
{
    if n >= 10 {
        lemma_decimal_text_digits(n / 10);
        let t = decimal_text(n);
        assert(t.drop_last() =~= decimal_text(n / 10));
        assert forall|i: int| 0 <= i < t.len() implies is_digit(#[trigger] t[i]) by {
            if i < t.len() - 1 {
                assert(t[i] == decimal_text(n / 10)[i]);
            }
        }
        assert(t.last() == (ASCII_ZERO + n % 10) as u8);
        assert(digits_value(t) == digits_value(decimal_text(n / 10)) * 10 + n % 10);
    } else {
        let t = decimal_text(n);
        assert(t.drop_last() =~= Seq::<u8>::empty());
        assert(digits_value(t) == digits_value(t.drop_last()) * 10 + n);
    }
}

/// Writing a version as marker text and reading it back gives the same
/// version, and the text is nothing but decimal digits.
pub proof fn lemma_marker_round_trip(version: u32)
    ensures
        marker_version(decimal_text(version as nat)) == Some(version),
        is_digits(decimal_text(version as nat)),
{
    lemma_decimal_text_digits(version as nat);
    let t = decimal_text(version as nat);
    assert(is_digit(t[0]));
    assert(unsigned_digits(t) == t);
}

} // verus!
