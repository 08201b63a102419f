//! Pure validators, one per step of the flow: each classifies a raw input
//! exactly, with no side effects.

use vstd::prelude::*;

use crate::event::{MeetingMethod, Selection};

verus! {

/// Why an input failed validation at its step.
#[derive(Clone, Copy, Debug, PartialEq, Eq)]
pub enum ValidationError {
    /// The text holds nothing visible (empty or whitespace only).
    EmptyText,
    /// The text does not parse as a number of the expected shape.
    NotANumber,
    /// The number parsed but lies outside the accepted interval.
    OutOfRange { min: u8, max: u8 },
    /// The selection is not one of the choices offered at this step.
    UnknownSelection,
    /// A photo step received an empty photo set.
    NoPhotosAttached,
}

/// The whitespace characters that trimming ignores.
pub open spec fn is_space(c: char) -> bool {
    c == ' ' || c == '\t' || c == '\n' || c == '\r'
}

/// Whether the text holds at least one non-whitespace character, i.e. is
/// non-empty after trimming.
pub open spec fn has_visible_char(s: Seq<char>) -> bool {
    exists|i: int| 0 <= i < s.len() && !is_space(s[i])
}

/// A decimal digit.
pub open spec fn is_digit(c: char) -> bool {
    48 <= c as int <= 57
}

pub open spec fn all_digits(s: Seq<char>) -> bool {
    forall|i: int| 0 <= i < s.len() ==> is_digit(#[trigger] s[i])
}

/// The numeric value of one digit character.
pub open spec fn digit_val(c: char) -> nat
    recommends
        is_digit(c),
{
    (c as int - 48) as nat
}

/// The value of a digit string read in base ten.
pub open spec fn digits_val(s: Seq<char>) -> nat
    recommends
        all_digits(s),
    decreases s.len(),
{
    if s.len() == 0 {
        0
    } else {
        digits_val(s.drop_last()) * 10 + digit_val(s.last())
    }
}

/// Appending a digit multiplies the value by ten and adds the digit.
pub proof fn lemma_digits_val_push(s: Seq<char>, c: char)
    ensures
        digits_val(s.push(c)) == digits_val(s) * 10 + digit_val(c),
{
    assert(s.push(c).drop_last() =~= s);
    assert(s.push(c).last() == c);
}

/// A digit string of at most two digits is below one hundred.
pub proof fn lemma_short_digits_val(s: Seq<char>)
    requires
        s.len() <= 2,
        all_digits(s),
    ensures
        s.len() == 0 ==> digits_val(s) == 0,
        s.len() == 1 ==> digits_val(s) <= 9,
        s.len() == 2 ==> digits_val(s) <= 99,
{
    if s.len() == 1 {
        assert(digits_val(s.drop_last()) == 0);
    } else if s.len() == 2 {
        let t = s.drop_last();
        assert(digits_val(t.drop_last()) == 0);
        assert(digits_val(t) <= 9);
    }
}

/// A plain whole number: one or more digits, nothing else.
pub open spec fn plain_number(s: Seq<char>) -> bool {
    s.len() >= 1 && all_digits(s)
}

/// A decimal point sits at position `i`: digits before it, one or two
/// digits after it.
pub open spec fn dot_at(s: Seq<char>, i: int) -> bool {
    &&& 0 < i < s.len()
    &&& s[i] == '.'
    &&& all_digits(s.take(i))
    &&& all_digits(s.skip(i + 1))
    &&& 1 <= s.len() - i - 1 <= 2
}

/// A decimal number: a whole part, a single `.`, and one or two fraction
/// digits. No thousands separators, no sign, no other separator.
pub open spec fn decimal_number(s: Seq<char>) -> bool {
    exists|i: int| dot_at(s, i)
}

/// A price is written either as a plain whole number or with a single
/// decimal point.
pub open spec fn price_shape(s: Seq<char>) -> bool {
    plain_number(s) || decimal_number(s)
}

/// The price in minor units (hundredths): the fraction is scaled to two
/// places, so "12", "12.5" and "12.50" read as 1200, 1250 and 1250.
pub open spec fn price_minor_units(s: Seq<char>) -> nat
    recommends
        price_shape(s),
{
    if plain_number(s) {
        digits_val(s) * 100
    } else {
        let i = choose|i: int| dot_at(s, i);
        let frac = digits_val(s.skip(i + 1));
        digits_val(s.take(i)) * 100 + (if s.len() - i - 1 == 1 {
            frac * 10
        } else {
            frac
        })
    }
}

/// A price is accepted when it has the right shape and its minor-unit
/// value fits the machine word that carries prices.
pub open spec fn price_accepted(s: Seq<char>) -> bool {
    price_shape(s) && price_minor_units(s) <= u64::MAX
}

/// At most one position can carry the decimal point of a well-shaped
/// decimal number.
pub proof fn lemma_dot_unique(s: Seq<char>, i: int, j: int)
    requires
        dot_at(s, i),
        dot_at(s, j),
    ensures
        i == j,
{
    if i < j {
        assert(!is_digit(s.skip(i + 1)[j - i - 1]));
    } else if j < i {
        assert(!is_digit(s.skip(j + 1)[i - j - 1]));
    }
}

/// Reads the digits of `text` between `start` and `end` in base ten,
/// capping the result at `limit + 1` so overflow is detected instead of
/// happening.
fn parse_digits_capped(text: &str, start: usize, end: usize, limit: u64) -> (v: u64)
    requires
        start <= end <= text@.len(),
        all_digits(text@.subrange(start as int, end as int)),
        limit <= 1_000_000_000_000_000_000u64,
    ensures
        digits_val(text@.subrange(start as int, end as int)) <= limit ==> v == digits_val(
            text@.subrange(start as int, end as int),
        ),
        digits_val(text@.subrange(start as int, end as int)) > limit ==> v == limit + 1,
{
    let mut v: u64 = 0;
    let mut i: usize = start;
    while i < end
        invariant
            start <= i <= end <= text@.len(),
            all_digits(text@.subrange(start as int, end as int)),
            limit <= 1_000_000_000_000_000_000u64,
            v <= limit + 1,
            digits_val(text@.subrange(start as int, i as int)) <= limit ==> v == digits_val(
                text@.subrange(start as int, i as int),
            ),
            digits_val(text@.subrange(start as int, i as int)) > limit ==> v == limit + 1,
        decreases end - i,
    {
        let c = text.get_char(i);
        proof {
            assert(text@.subrange(start as int, end as int)[i - start] == text@[i as int]);
        }
        let d = (c as u32) - 48;
        let cand = v * 10 + (d as u64);
        let next = if cand > limit {
            limit + 1
        } else {
            cand
        };
        proof {
            let pre = text@.subrange(start as int, i as int);
            let post = text@.subrange(start as int, i + 1);
            assert(post =~= pre.push(text@[i as int]));
            lemma_digits_val_push(pre, text@[i as int]);
        }
        v = next;
        i = i + 1;
    }
    proof {
        assert(text@.subrange(start as int, end as int) =~= text@.subrange(
            start as int,
            i as int,
        ));
    }
    v
}

/// Whether every character of the text is a digit; false for empty text
/// is decided by the caller via the length.
fn scan_all_digits(text: &str) -> (b: bool)
    ensures
        b == all_digits(text@),
{
    let n = text.unicode_len();
    let mut i: usize = 0;
    while i < n
        invariant
            0 <= i <= n == text@.len(),
            forall|k: int| 0 <= k < i ==> is_digit(#[trigger] text@[k]),
        decreases n - i,
    {
        let c = text.get_char(i);
        let u = c as u32;
        if u < 48 || u > 57 {
            return false;
        }
        i = i + 1;
    }
    true
}

/// Validates the device-name step: the text must be non-empty after
/// trimming. Relied on by every step that takes free text.
pub fn validate_device_name(text: &str) -> (r: Result<(), ValidationError>)
    ensures
        r is Ok <==> has_visible_char(text@),
        r matches Err(e) ==> e == ValidationError::EmptyText,
{
    let n = text.unicode_len();
    let mut i: usize = 0;
    while i < n
        invariant
            0 <= i <= n == text@.len(),
            forall|k: int| 0 <= k < i ==> is_space(#[trigger] text@[k]),
        decreases n - i,
    {
        let c = text.get_char(i);
        if !(c == ' ' || c == '\t' || c == '\n' || c == '\r') {
            return Ok(());
        }
        i = i + 1;
    }
    Err(ValidationError::EmptyText)
}

/// Validates the components step: same rule as free text elsewhere, the
/// explicit "no components" marker is handled as a selection by the state
/// machine.
pub fn validate_components(text: &str) -> (r: Result<(), ValidationError>)
    ensures
        r is Ok <==> has_visible_char(text@),
        r matches Err(e) ==> e == ValidationError::EmptyText,
{
    validate_device_name(text)
}

/// Validates the condition-rating step: the text must be a whole number
/// between one and five.
pub fn validate_rating(text: &str) -> (r: Result<u8, ValidationError>)
    ensures
        r matches Ok(v) ==> plain_number(text@) && 1 <= digits_val(text@) <= 5 && v == digits_val(
            text@,
        ),
        r matches Err(e) ==> !(plain_number(text@) && 1 <= digits_val(text@) <= 5),
        r matches Err(e) ==> (e == ValidationError::NotANumber <==> !plain_number(text@)),
        r matches Err(e) ==> (e == (ValidationError::OutOfRange { min: 1, max: 5 }) <==> (
        plain_number(text@) && !(1 <= digits_val(text@) <= 5))),
{
    let n = text.unicode_len();
    if n == 0 || !scan_all_digits(text) {
        return Err(ValidationError::NotANumber);
    }
    proof {
        assert(text@.subrange(0, n as int) =~= text@);
    }
    let v = parse_digits_capped(text, 0, n, 5);
    if 1 <= v && v <= 5 {
        Ok(v as u8)
    } else {
        Err(ValidationError::OutOfRange { min: 1, max: 5 })
    }
}

/// Validates the meeting-method step: only the two enumerated choices are
/// accepted; everything else is an unknown selection.
pub fn validate_meeting_choice(sel: Selection) -> (r: Result<MeetingMethod, ValidationError>)
    ensures
        r == if sel is Pickup {
            Ok::<MeetingMethod, ValidationError>(MeetingMethod::Pickup)
        } else if sel is CanMeet {
            Ok::<MeetingMethod, ValidationError>(MeetingMethod::CanMeet)
        } else {
            Err::<MeetingMethod, ValidationError>(ValidationError::UnknownSelection)
        },
{
    match sel {
        Selection::Pickup => Ok(MeetingMethod::Pickup),
        Selection::CanMeet => Ok(MeetingMethod::CanMeet),
        _ => Err(ValidationError::UnknownSelection),
    }
}

/// Validates the photo step: at least one photo must be attached.
pub fn validate_photos(photos: &Vec<String>) -> (r: Result<(), ValidationError>)
    ensures
        r is Ok <==> photos@.len() >= 1,
        r matches Err(e) ==> e == ValidationError::NoPhotosAttached,
{
    if photos.len() >= 1 {
        Ok(())
    } else {
        Err(ValidationError::NoPhotosAttached)
    }
}

/// Validates the price step: a non-negative decimal number, locale
/// invariant (a single `.`, no thousands separators), that fits in minor
/// units.
pub fn validate_price(text: &str) -> (r: Result<u64, ValidationError>)
    ensures
        r matches Ok(v) ==> price_accepted(text@) && v == price_minor_units(text@),
        r is Ok <==> price_accepted(text@),
        r matches Err(e) ==> e == ValidationError::NotANumber,
{
    let n = text.unicode_len();
    let mut i: usize = 0;
    let mut dot: Option<usize> = None;
    while i < n
        invariant
            0 <= i <= n == text@.len(),
            match dot {
                None => forall|k: int| 0 <= k < i ==> is_digit(#[trigger] text@[k]),
                Some(j) => {
                    &&& 0 < j < i
                    &&& text@[j as int] == '.'
                    &&& forall|k: int| 0 <= k < i && k != j ==> is_digit(#[trigger] text@[k])
                },
            },
        decreases n - i,
    {
        let c = text.get_char(i);
        let u = c as u32;
        if 48 <= u && u <= 57 {
            // a digit
        } else if c == '.' {
            match dot {
                None => {
                    if i == 0 {
                        proof {
                            lemma_price_not_shaped_bad_char(text@, 0);
                        }
                        return Err(ValidationError::NotANumber);
                    }
                    dot = Some(i);
                },
                Some(j) => {
                    proof {
                        lemma_price_not_shaped_two_dots(text@, j as int, i as int);
                    }
                    return Err(ValidationError::NotANumber);
                },
            }
        } else {
            proof {
                lemma_price_not_shaped_bad_char(text@, i as int);
            }
            return Err(ValidationError::NotANumber);
        }
        i = i + 1;
    }
    match dot {
        None => {
            if n == 0 {
                assert(!decimal_number(text@)) by {
                    assert(forall|k: int| !dot_at(text@, k));
                }
                return Err(ValidationError::NotANumber);
            }
            let limit = u64::MAX / 100;
            proof {
                assert(text@.subrange(0, n as int) =~= text@);
            }
            let w = parse_digits_capped(text, 0, n, limit);
            if w <= limit {
                proof {
                    lemma_div_mul_le(u64::MAX as nat, w as nat);
                }
                Ok(w * 100)
            } else {
                proof {
                    lemma_div_mul_gt(u64::MAX as nat, digits_val(text@));
                }
                Err(ValidationError::NotANumber)
            }
        },
        Some(j) => {
            let fl = n - j - 1;
            proof {
                assert(forall|k: int| 0 <= k < text@.len() && k != j ==> is_digit(
                    #[trigger] text@[k],
                ));
            }
            if fl < 1 || fl > 2 {
                proof {
                    assert(!plain_number(text@)) by {
                        assert(!is_digit(text@[j as int]));
                    }
                    assert forall|k: int| !dot_at(text@, k) by {
                        if dot_at(text@, k) && k != j {
                            assert(is_digit(text@[k]));
                        }
                    }
                }
                return Err(ValidationError::NotANumber);
            }
            proof {
                assert(all_digits(text@.take(j as int)));
                assert(all_digits(text@.skip(j + 1)));
                assert(dot_at(text@, j as int));
                assert(!plain_number(text@)) by {
                    assert(!is_digit(text@[j as int]));
                }
                assert((choose|k: int| dot_at(text@, k)) == j as int) by {
                    let k = choose|k: int| dot_at(text@, k);
                    lemma_dot_unique(text@, k, j as int);
                }
                assert(text@.skip(j + 1) =~= text@.subrange(j + 1, n as int));
                lemma_short_digits_val(text@.skip(j + 1));
            }
            let f = parse_digits_capped(text, j + 1, n, 99);
            let fs = if fl == 1 {
                f * 10
            } else {
                f
            };
            let limit = (u64::MAX - fs) / 100;
            proof {
                assert(text@.take(j as int) =~= text@.subrange(0, j as int));
                assert(limit <= u64::MAX / 100);
            }
            let w = parse_digits_capped(text, 0, j, limit);
            if w <= limit {
                proof {
                    lemma_div_mul_le((u64::MAX - fs) as nat, w as nat);
                }
                Ok(w * 100 + fs)
            } else {
                proof {
                    lemma_div_mul_gt((u64::MAX - fs) as nat, digits_val(text@.take(j as int)));
                }
                Err(ValidationError::NotANumber)
            }
        },
    }
}

/// A character that is neither a digit nor a lone interior dot rules the
/// price shape out.
proof fn lemma_price_not_shaped_bad_char(s: Seq<char>, p: int)
    requires
        0 <= p < s.len(),
        !is_digit(s[p]),
        s[p] == '.' ==> p == 0,
    ensures
        !price_shape(s),
{
    assert(!plain_number(s));
    assert forall|k: int| !dot_at(s, k) by {
        if dot_at(s, k) {
            if k < p {
                assert(!is_digit(s.skip(k + 1)[p - k - 1]));
            } else if k > p {
                assert(!is_digit(s.take(k)[p]));
            }
        }
    }
}

/// Two dots rule the price shape out.
proof fn lemma_price_not_shaped_two_dots(s: Seq<char>, j: int, p: int)
    requires
        0 <= j < p < s.len(),
        s[j] == '.',
        s[p] == '.',
    ensures
        !price_shape(s),
{
    assert(!is_digit('.')) by {
        assert('.' as int == 46);
    }
    assert(!plain_number(s));
    assert forall|k: int| !dot_at(s, k) by {
        if dot_at(s, k) {
            if k <= j {
                assert(!is_digit(s.skip(k + 1)[p - k - 1]));
            } else {
                assert(!is_digit(s.take(k)[j]));
            }
        }
    }
}

/// For a positive constant divisor, `a <= b / 100` exactly when
/// `a * 100 <= b`.
proof fn lemma_div_mul_le(b: nat, a: nat)
    requires
        a <= b / 100,
    ensures
        a * 100 <= b,
{
    assert(a * 100 <= (b / 100) * 100 <= b) by (nonlinear_arith)
        requires
            a <= b / 100,
    ;
}

/// Exceeding the quotient means the product exceeds the dividend.
proof fn lemma_div_mul_gt(b: nat, a: nat)
    requires
        a > b / 100,
    ensures
        a * 100 > b,
{
    assert(a * 100 >= (b / 100 + 1) * 100 > b) by (nonlinear_arith)
        requires
            a > b / 100,
    ;
}

} // verus!
