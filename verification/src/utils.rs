//! Generated values: task slugs, record identifiers and timestamps.

use vstd::prelude::*;
use rand::Rng;
use crate::text::{digit_char, digit_str, is_digit};

verus! {

#[verifier::external_type_specification]
#[verifier::external_body]
pub struct ExThreadRng(rand::rngs::ThreadRng);

/// `rand::thread_rng`: a handle to the generator of the current thread.
/// Nothing is stated of it; it is only handed to [`gen_range`].
#[verifier::external_body]
fn thread_rng() -> rand::rngs::ThreadRng {
    rand::thread_rng()
}

/// `Rng::gen_range` on the half-open range `low..high` of `u32`: the value
/// drawn lies in the range.  It panics on an empty range, which `requires`
/// leaves out.  Which value is drawn is chance and is not stated.
#[verifier::external_body]
fn gen_range(rng: &mut rand::rngs::ThreadRng, low: u32, high: u32) -> (r: u32)
    requires
        low < high,
    ensures
        low <= r < high,
{
    rng.gen_range(low..high)
}

/// The decimal text of `n`, zero-padded on the left to at least `width`
/// digits (the `{:0width$}` format).
pub open spec fn decimal_padded(n: nat, width: nat) -> Seq<char>
    decreases n + width,
{
    if n < 10 && width <= 1 {
        seq![digit_char(n)]
    } else {
        decimal_padded(n / 10, if width > 0 { (width - 1) as nat } else { 0 }).push(
            digit_char(n % 10),
        )
    }
}

/// The slug `TBD-` followed by `n` in decimal, zero-padded to three digits.
pub open spec fn slug_text(n: nat) -> Seq<char> {
    "TBD-"@ + decimal_padded(n, 3)
}

/// Whether `s` has the shape of a generated slug: `TBD-` and three digits.
pub open spec fn is_slug(s: Seq<char>) -> bool {
    &&& s.len() == 7
    &&& s.subrange(0, 4) == "TBD-"@
    &&& forall|i: int| 4 <= i < 7 ==> is_digit(#[trigger] s[i])
}

proof fn lemma_decimal_padded_digits(n: nat, width: nat)
    ensures
        decimal_padded(n, width).len() >= 1,
        forall|i: int|
            0 <= i < decimal_padded(n, width).len() ==> is_digit(
                #[trigger] decimal_padded(n, width)[i],
            ),
    decreases n + width,
{
    if !(n < 10 && width <= 1) {
        let w = if width > 0 { (width - 1) as nat } else { 0 };
        lemma_decimal_padded_digits(n / 10, w);
        assert(is_digit(digit_char(n % 10)));
    } else {
        assert(is_digit(digit_char(n)));
    }
}

/// Below 1000 the padded text has exactly three digits.
proof fn lemma_three_digits(n: nat)
    requires
        n < 1000,
    ensures
        decimal_padded(n, 3).len() == 3,
{
    assert(decimal_padded(n / 100, 1).len() == 1);
    assert(decimal_padded(n / 10, 2) == decimal_padded(n / 10 / 10, 1).push(
        digit_char((n / 10) % 10),
    ));
    assert(n / 10 / 10 == n / 100);
}

/// Distinct numbers have distinct padded texts.
pub proof fn lemma_decimal_padded_injective(a: nat, b: nat, width: nat)
    requires
        decimal_padded(a, width) == decimal_padded(b, width),
    ensures
        a == b,
    decreases a + width,
{
    let da = decimal_padded(a, width);
    let db = decimal_padded(b, width);
    let w = if width > 0 { (width - 1) as nat } else { 0 };
    let base_a = a < 10 && width <= 1;
    let base_b = b < 10 && width <= 1;
    if base_a && base_b {
        assert(da[0] == db[0]);
    } else if base_a {
        lemma_decimal_padded_digits(b / 10, w);
        assert(da.len() == 1);
        assert(db.len() >= 2);
    } else if base_b {
        lemma_decimal_padded_digits(a / 10, w);
        assert(db.len() == 1);
        assert(da.len() >= 2);
    } else {
        assert(da.last() == db.last());
        assert(digit_char(a % 10) == digit_char(b % 10));
        assert(a % 10 == b % 10);
        assert(da.drop_last() =~= decimal_padded(a / 10, w));
        assert(db.drop_last() =~= decimal_padded(b / 10, w));
        lemma_decimal_padded_injective(a / 10, b / 10, w);
    }
}

/// Appends to `s` the decimal text of `n`, zero-padded to `width` digits.
fn append_decimal(s: &mut String, n: u32, width: u32)
    ensures
        final(s)@ == old(s)@ + decimal_padded(n as nat, width as nat),
    decreases n + width,
{
    if n < 10 && width <= 1 {
        s.append(digit_str(n));
    } else {
        let w = if width > 0 {
            width - 1
        } else {
            0
        };
        append_decimal(s, n / 10, w);
        s.append(digit_str(n % 10));
        assert(s@ =~= old(s)@ + decimal_padded(n as nat, width as nat));
    }
}

/// The slug for the number `n`: `TBD-` and `n` zero-padded to three digits.
pub fn format_slug(n: u32) -> (s: String)
    ensures
        s@ == slug_text(n as nat),
{
    let mut s = "TBD-".to_owned();
    append_decimal(&mut s, n, 3);
    s
}

/// Generates a task slug: `TBD-` followed by a number drawn at random from
/// 0 to 999, written with three digits.
pub fn generate_slug() -> (s: String)
    ensures
        exists|n: nat| n < 1000 && s@ == slug_text(n),
        is_slug(s@),
{
    let mut rng = thread_rng();
    let random_digits = gen_range(&mut rng, 0, 1000);
    let s = format_slug(random_digits);
    proof {
        lemma_slug_shape(random_digits as nat);
    }
    s
}

/// Every number below 1000 gives a slug of the generated shape.
pub proof fn lemma_slug_shape(n: nat)
    requires
        n < 1000,
    ensures
        is_slug(slug_text(n)),
{
    reveal_strlit("TBD-");
    lemma_three_digits(n);
    lemma_decimal_padded_digits(n, 3);
    let s = slug_text(n);
    assert(s.subrange(0, 4) =~= "TBD-"@);
    assert forall|i: int| 4 <= i < 7 implies is_digit(#[trigger] s[i]) by {
        assert(s[i] == decimal_padded(n, 3)[i - 4]);
    }
}

/// Distinct numbers give distinct slugs.
pub proof fn lemma_slug_injective(a: nat, b: nat)
    requires
        slug_text(a) == slug_text(b),
    ensures
        a == b,
{
    let p = "TBD-"@;
    assert(slug_text(a).subrange(p.len() as int, slug_text(a).len() as int) =~= decimal_padded(
        a,
        3,
    ));
    assert(slug_text(b).subrange(p.len() as int, slug_text(b).len() as int) =~= decimal_padded(
        b,
        3,
    ));
    lemma_decimal_padded_injective(a, b, 3);
}


/// The lowercase hexadecimal digit characters, `'0'` to `'f'`.
pub open spec fn hex_char(d: int) -> char {
    seq!['0', '1', '2', '3', '4', '5', '6', '7', '8', '9', 'a', 'b', 'c', 'd', 'e', 'f'][d]
}

/// The `k`-th of the 32 four-bit digits of `v`, counted from the most
/// significant one.
pub open spec fn nibble(v: u128, k: int) -> int {
    ((v >> (((31 - k) * 4) as u128)) & 0xfu128) as int
}

/// Whether position `i` of a hyphenated UUID holds a hyphen.
pub open spec fn is_hyphen_position(i: int) -> bool {
    i == 8 || i == 13 || i == 18 || i == 23
}

/// Which of the 32 hexadecimal digits stands at position `i` of a
/// hyphenated UUID.
pub open spec fn digit_index(i: int) -> int {
    if i < 8 {
        i
    } else if i < 13 {
        i - 1
    } else if i < 18 {
        i - 2
    } else if i < 23 {
        i - 3
    } else {
        i - 4
    }
}

/// The hyphenated lowercase text of the UUID `v`: its 32 hexadecimal digits,
/// most significant first, in groups of 8, 4, 4, 4 and 12 joined by hyphens.
pub open spec fn uuid_text(v: u128) -> Seq<char> {
    Seq::new(
        36,
        |i: int|
            if is_hyphen_position(i) {
                '-'
            } else {
                hex_char(nibble(v, digit_index(i)))
            },
    )
}

/// Whether `v` carries the marks of a random (version 4, RFC 4122 variant)
/// UUID: version digit 4 and variant bits `10`.
pub open spec fn is_random_uuid(v: u128) -> bool {
    &&& (v >> 76u128) & 0xfu128 == 4
    &&& (v >> 62u128) & 0x3u128 == 2
}

/// Whether `s` is the text of a random UUID.
pub open spec fn is_uuid_v4_text(s: Seq<char>) -> bool {
    exists|v: u128| is_random_uuid(v) && s == uuid_text(v)
}

/// `uuid::Uuid::new_v4`, read as a 128-bit number with `as_u128`: random
/// bits with the version digit set to 4 and the variant bits to `10`
/// (RFC 4122).  The other 122 bits are chance and are not stated.
#[verifier::external_body]
fn new_v4() -> (v: u128)
    ensures
        is_random_uuid(v),
{
    uuid::Uuid::new_v4().as_u128()
}

/// `ToString` of `uuid::Uuid` (built with `Uuid::from_u128`): the hyphenated
/// lowercase hexadecimal text of the number.
#[verifier::external_body]
fn uuid_to_string(v: u128) -> (s: String)
    ensures
        s@ == uuid_text(v),
{
    uuid::Uuid::from_u128(v).to_string()
}

/// A fresh record identifier: the text of a random UUID.  It has 36
/// characters, hyphens at positions 8, 13, 18 and 23, the version digit `4`
/// at position 14 and one of `8`, `9`, `a`, `b` at position 19.
pub fn new_id() -> (s: String)
    ensures
        is_uuid_v4_text(s@),
        s@.len() == 36,
        forall|i: int| #![trigger s@[i]] is_hyphen_position(i) ==> s@[i] == '-',
        s@[14] == '4',
        s@[19] == '8' || s@[19] == '9' || s@[19] == 'a' || s@[19] == 'b',
{
    let v = new_v4();
    let s = uuid_to_string(v);
    proof {
        let n12 = (v >> 76u128) & 0xfu128;
        let n16 = (v >> 60u128) & 0xfu128;
        assert((v >> 62u128) & 0x3u128 == 2 ==> 8 <= (v >> 60u128) & 0xfu128 <= 11)
            by (bit_vector);
        assert(nibble(v, digit_index(14)) == n12);
        assert(nibble(v, digit_index(19)) == n16);
        assert(s@[14] == hex_char(n12 as int));
        assert(s@[19] == hex_char(n16 as int));
    }
    s
}

/// Whether the characters of `s` at positions `lo` up to `hi` are decimal
/// digits.
pub open spec fn digits_between(s: Seq<char>, lo: int, hi: int) -> bool {
    forall|i: int| lo <= i < hi ==> is_digit(#[trigger] s[i])
}

/// Whether `s` is the RFC 3339 text of a time in UTC whose year takes `y`
/// characters and whose fraction of a second takes `f`: the year (four
/// digits, or `+` and five or six digits), `-`, two digits of month, `-`, two
/// digits of day, `T`, two digits each of hour, minute and second separated
/// by `:`, then nothing or `.` and 3, 6 or 9 digits, then `+00:00`.
pub open spec fn rfc3339_layout(s: Seq<char>, y: int, f: int) -> bool {
    &&& s.len() == y + 15 + f + 6
    &&& {
        ||| (y == 4 && digits_between(s, 0, 4))
        ||| ((y == 6 || y == 7) && s[0] == '+' && digits_between(s, 1, y))
    }
    &&& s[y] == '-'
    &&& digits_between(s, y + 1, y + 3)
    &&& s[y + 3] == '-'
    &&& digits_between(s, y + 4, y + 6)
    &&& s[y + 6] == 'T'
    &&& digits_between(s, y + 7, y + 9)
    &&& s[y + 9] == ':'
    &&& digits_between(s, y + 10, y + 12)
    &&& s[y + 12] == ':'
    &&& digits_between(s, y + 13, y + 15)
    &&& {
        ||| f == 0
        ||| ((f == 4 || f == 7 || f == 10) && s[y + 15] == '.' && digits_between(
            s,
            y + 16,
            y + 15 + f,
        ))
    }
    &&& s.subrange(y + 15 + f, s.len() as int) == "+00:00"@
}

/// Whether `s` is the RFC 3339 text of a time in UTC from 1970 on, with the
/// offset written `+00:00`.
pub open spec fn is_utc_rfc3339(s: Seq<char>) -> bool {
    exists|y: int, f: int| rfc3339_layout(s, y, f)
}

/// Every such timestamp has between 25 and 38 characters, so it fits the
/// 50-character `created_at` and `updated_at` columns.
pub proof fn lemma_timestamp_fits_column(s: Seq<char>)
    requires
        is_utc_rfc3339(s),
    ensures
        25 <= s.len() <= 38,
{
    let (y, f) = choose|y: int, f: int| rfc3339_layout(s, y, f);
    assert(rfc3339_layout(s, y, f));
}

/// `chrono::Utc::now().to_rfc3339()`: the current time in UTC as RFC 3339
/// text (seconds, a fraction only when it is not zero, and the offset
/// written `+00:00`).  Which time it shows is the clock
/// and is not stated; it panics when the clock reads before 1970.
#[verifier::external_body]
pub(crate) fn now_rfc3339() -> (s: String)
    ensures
        is_utc_rfc3339(s@),
{
    chrono::Utc::now().to_rfc3339()
}

} // verus!
