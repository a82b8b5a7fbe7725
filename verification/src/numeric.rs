//! Input handling for NUMBER dialogs: the character filter applied to the
//! editor text on every frame, and the decimal parser the counter handler
//! uses on a confirmed result.

use vstd::prelude::*;

verus! {

/// Characters a NUMBER dialog keeps: ASCII digits, `'.'` and `'-'`.
pub open spec fn is_number_char(c: char) -> bool {
    (48 <= c as u32 && c as u32 <= 57) || c == '.' || c == '-'
}

/// The filter predicate as a value, so that every statement about the
/// filtered text speaks of one and the same function.
pub open spec fn number_char_pred() -> spec_fn(char) -> bool {
    |c: char| is_number_char(c)
}

/// The text a NUMBER dialog shows after filtering: the input with every
/// character outside {digit, '.', '-'} removed, order kept.
pub open spec fn number_filtered(s: Seq<char>) -> Seq<char> {
    s.filter(number_char_pred())
}

pub fn check_number_char(c: char) -> (r: bool)
    ensures
        r == is_number_char(c),
{
    let u = c as u32;
    (48 <= u && u <= 57) || u == 46 || u == 45
}

/// Applies the NUMBER filter to the editor's current text.
pub fn filter_number_input(s: &str) -> (r: String)
    ensures
        r@ == number_filtered(s@),
{
    let n: usize = s.unicode_len();
    let mut r = String::new();
    let mut i: usize = 0;
    while i < n
        invariant
            n == s@.len(),
            i <= n,
            r@ == number_filtered(s@.take(i as int)),
        decreases n - i,
    {
        let c = s.get_char(i);
        proof {
            reveal(Seq::filter);
            assert(s@.take(i + 1).drop_last() =~= s@.take(i as int));
            assert(s@.take(i + 1).last() == s@[i as int]);
        }
        if check_number_char(c) {
            let piece = s.substring_char(i, i + 1);
            r.append(piece);
            proof {
                assert(piece@ =~= seq![s@[i as int]]);
                assert(r@ =~= number_filtered(s@.take(i + 1)));
            }
        } else {
            proof {
                assert(r@ =~= number_filtered(s@.take(i + 1)));
            }
        }
        i = i + 1;
    }
    proof {
        assert(s@.take(n as int) =~= s@);
    }
    r
}

/// The NUMBER filter is idempotent: filtering already-filtered text changes
/// nothing.
pub proof fn lemma_number_filter_idempotent(s: Seq<char>)
    ensures
        number_filtered(number_filtered(s)) == number_filtered(s),
    decreases s.len(),
{
    reveal(Seq::filter);
    if s.len() == 0 {
    } else {
        lemma_number_filter_idempotent(s.drop_last());
        let t = number_filtered(s.drop_last());
        if number_char_pred()(s.last()) {
            assert(t.push(s.last()).drop_last() =~= t);
            assert(t.push(s.last()).last() == s.last());
        }
    }
}

/// The NUMBER filter keeps only characters in {digit, '.', '-'}.
pub proof fn lemma_number_filter_chars(s: Seq<char>)
    ensures
        forall|i: int|
            0 <= i < number_filtered(s).len() ==> is_number_char(
                #[trigger] number_filtered(s)[i],
            ),
{
    assert forall|i: int| 0 <= i < number_filtered(s).len() implies is_number_char(
        number_filtered(s)[i],
    ) by {
        s.lemma_filter_pred(number_char_pred(), i);
    }
}

pub open spec fn is_digit_char(c: char) -> bool {
    48 <= c as u32 && c as u32 <= 57
}

pub open spec fn digit_val(c: char) -> nat {
    (c as u32 - 48) as nat
}

pub open spec fn all_digits(s: Seq<char>) -> bool {
    forall|i: int| 0 <= i < s.len() ==> is_digit_char(#[trigger] s[i])
}

/// The value of a string of decimal digits, most significant first.
pub open spec fn dec_value(s: Seq<char>) -> nat
    decreases s.len(),
{
    if s.len() == 0 {
        0
    } else {
        dec_value(s.drop_last()) * 10 + digit_val(s.last())
    }
}

/// The strings the counter handler accepts: non-empty, digits only, and a
/// value that fits in a `u32`.
pub open spec fn parses_as_u32(s: Seq<char>) -> bool {
    s.len() > 0 && all_digits(s) && dec_value(s) <= u32::MAX
}

/// A prefix of a string never has a larger decimal value than the whole.
proof fn lemma_dec_value_prefix(s: Seq<char>, i: int)
    requires
        0 <= i <= s.len(),
    ensures
        dec_value(s.take(i)) <= dec_value(s),
    decreases s.len() - i,
{
    if i < s.len() {
        assert(s.take(i + 1).drop_last() =~= s.take(i));
        assert(dec_value(s.take(i)) <= dec_value(s.take(i + 1)));
        lemma_dec_value_prefix(s, i + 1);
    } else {
        assert(s.take(i) =~= s);
    }
}

/// Parses a confirmed NUMBER result as an unsigned integer: succeeds exactly
/// on non-empty all-digit strings whose value fits.
pub fn parse_u32(s: &str) -> (r: Option<u32>)
    ensures
        match r {
            Some(n) => parses_as_u32(s@) && n as nat == dec_value(s@),
            None => !parses_as_u32(s@),
        },
{
    let n: usize = s.unicode_len();
    if n == 0 {
        return None;
    }
    let mut i: usize = 0;
    let mut acc: u32 = 0;
    while i < n
        invariant
            n == s@.len(),
            0 < n,
            i <= n,
            all_digits(s@.take(i as int)),
            acc as nat == dec_value(s@.take(i as int)),
        decreases n - i,
    {
        let c = s.get_char(i);
        let u = c as u32;
        if u < 48 || u > 57 {
            return None;
        }
        let d: u32 = u - 48;
        let wide: u64 = acc as u64 * 10 + d as u64;
        proof {
            assert(s@.take(i + 1).drop_last() =~= s@.take(i as int));
            assert(s@.take(i + 1).last() == s@[i as int]);
        }
        if wide > u32::MAX as u64 {
            proof {
                lemma_dec_value_prefix(s@, i + 1);
            }
            return None;
        }
        acc = wide as u32;
        i = i + 1;
    }
    proof {
        assert(s@.take(n as int) =~= s@);
    }
    Some(acc)
}

} // verus!
