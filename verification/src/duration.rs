//! Parsing the fuzzer's `--duration` option, such as `10m30s` or `1h`.
//!
//! The text is read as a sequence of numbers, each followed by a unit (`ms`/`millis`,
//! `s`/`sec`/`seconds`, `m`/`min`/`minutes`, `h`/`hr`/`hrs`/`hour`/`hours`), and the parts are
//! added up. The parser works on the text's UTF-8 bytes. A few malformed inputs with white space
//! between a number and its unit make it split the text in the wrong place; on those, and on
//! durations too long to represent, it has no defined result.

use vstd::prelude::*;
use vstd::string::StringSliceAdditionalSpecFns;

verus! {

/// Whether a byte is an ASCII digit.
pub open spec fn is_digit(c: u8) -> bool {
    48 <= c <= 57
}

/// Whether a byte is ASCII white space as `u8::is_ascii_whitespace` defines it.
pub open spec fn is_space(c: u8) -> bool {
    c == 32 || c == 9 || c == 10 || c == 12 || c == 13
}

/// The position of the first byte that is (`digit`) or is not (`!digit`) an ASCII digit, or the
/// length when there is none.
pub open spec fn first_where(b: Seq<u8>, digit: bool) -> nat
    decreases b.len(),
{
    if b.len() == 0 {
        0
    } else if is_digit(b[0]) == digit {
        0
    } else {
        1 + first_where(b.drop_first(), digit)
    }
}

/// The number of leading ASCII white space bytes.
pub open spec fn leading_spaces(b: Seq<u8>) -> nat
    decreases b.len(),
{
    if b.len() == 0 {
        0
    } else if is_space(b[0]) {
        1 + leading_spaces(b.drop_first())
    } else {
        0
    }
}

/// Whether position `i` of UTF-8 text lies between two characters.
pub open spec fn at_boundary(b: Seq<u8>, i: int) -> bool {
    0 <= i <= b.len() && (i == 0 || i == b.len() || (b[i] & 0xc0) != 0x80)
}

/// The value of a sequence of decimal digits.
pub open spec fn digits_value(d: Seq<u8>) -> nat
    decreases d.len(),
{
    if d.len() == 0 {
        0
    } else {
        digits_value(d.drop_last()) * 10 + (d.last() - 48) as nat
    }
}

/// The number of milliseconds in one unit, for the units the parser knows.
pub open spec fn unit_scale(u: Seq<u8>) -> Option<nat> {
    if u == seq![109u8, 115u8] || u == seq![109u8, 105u8, 108u8, 108u8, 105u8, 115u8] {
        Some(1)
    } else if u == seq![115u8] || u == seq![115u8, 101u8, 99u8] || u == seq![
        115u8,
        101u8,
        99u8,
        111u8,
        110u8,
        100u8,
        115u8,
    ] {
        Some(1000)
    } else if u == seq![109u8] || u == seq![109u8, 105u8, 110u8] || u == seq![
        109u8,
        105u8,
        110u8,
        117u8,
        116u8,
        101u8,
        115u8,
    ] {
        Some(60000)
    } else if u == seq![104u8] || u == seq![104u8, 114u8] || u == seq![104u8, 114u8, 115u8] || u
        == seq![104u8, 111u8, 117u8, 114u8] || u == seq![104u8, 111u8, 117u8, 114u8, 115u8] {
        Some(3600000)
    } else {
        None
    }
}

/// The largest `u64`.
pub open spec fn u64_max() -> nat {
    0xffff_ffff_ffff_ffff
}

/// `first_where` stops at the first byte of the wanted kind, or at the end.
proof fn lemma_first_where_bound(b: Seq<u8>, digit: bool)
    ensures
        first_where(b, digit) <= b.len(),
        forall|k: int| 0 <= k < first_where(b, digit) ==> is_digit(#[trigger] b[k]) != digit,
        first_where(b, digit) < b.len() ==> is_digit(b[first_where(b, digit) as int]) == digit,
    decreases b.len(),
{
    if b.len() > 0 && is_digit(b[0]) != digit {
        lemma_first_where_bound(b.drop_first(), digit);
        assert forall|k: int| 0 <= k < first_where(b, digit) implies is_digit(#[trigger] b[k])
            != digit by {
            if k > 0 {
                assert(b[k] == b.drop_first()[k - 1]);
            }
        }
    }
}

/// `leading_spaces` counts exactly the spaces before the first other byte.
pub proof fn lemma_leading_spaces_bound(b: Seq<u8>)
    ensures
        leading_spaces(b) <= b.len(),
        forall|k: int| 0 <= k < leading_spaces(b) ==> is_space(#[trigger] b[k]),
        leading_spaces(b) < b.len() ==> !is_space(b[leading_spaces(b) as int]),
    decreases b.len(),
{
    if b.len() > 0 && is_space(b[0]) {
        lemma_leading_spaces_bound(b.drop_first());
        assert forall|k: int| 0 <= k < leading_spaces(b) implies is_space(#[trigger] b[k]) by {
            if k > 0 {
                assert(b[k] == b.drop_first()[k - 1]);
            }
        }
    }
}

/// One step of the parser on the remaining text `b`: the number's bytes, the unit's bytes and
/// the text after them, or `None` where splitting the text would fail.
pub open spec fn split_step(b: Seq<u8>) -> Option<(Seq<u8>, Seq<u8>, Seq<u8>)> {
    let i = first_where(b, false) as int;
    let t1 = b.subrange(leading_spaces(b) as int, b.len() as int);
    if !at_boundary(t1, i) {
        None
    } else {
        let rest = t1.subrange(i, t1.len() as int);
        let j = first_where(rest, true) as int;
        let t2 = rest.subrange(leading_spaces(rest) as int, rest.len() as int);
        if !at_boundary(t2, j) {
            None
        } else {
            Some((t1.subrange(0, i), t2.subrange(0, j), t2.subrange(j, t2.len() as int)))
        }
    }
}

/// The total, in milliseconds, of the parts in `b` added to `acc`; `Some(Err(()))` for text
/// that is not a duration, and `None` where the parser has no defined result.
pub open spec fn parse_steps(b: Seq<u8>, acc: nat) -> Option<Result<nat, ()>>
    decreases b.len(),
{
    if b.len() == 0 {
        Some(Ok(acc))
    } else {
        proof {
            lemma_leading_spaces_bound(b);
        }
        match split_step(b) {
            None => None,
            Some((num, unit, next)) => {
                if num.len() == 0 || digits_value(num) > u64_max() {
                    Some(Err(()))
                } else {
                    match unit_scale(unit) {
                        None => Some(Err(())),
                        Some(scale) => {
                            let n = digits_value(num);
                            if (scale == 60000 && n * 60 > u64_max()) || (scale == 3600000 && n
                                * 3600 > u64_max()) {
                                None
                            } else {
                                let total = acc + n * scale;
                                if total / 1000 > u64_max() {
                                    None
                                } else if next.len() < b.len() {
                                    parse_steps(next, total)
                                } else {
                                    None
                                }
                            }
                        },
                    }
                }
            },
        }
    }
}

/// Why a duration was refused.
#[derive(Clone, Copy, PartialEq, Eq, Structural, Debug)]
pub enum DurationError {
    /// The text is empty.
    Empty,
    /// The text is not a duration.
    InvalidFormat,
}

/// What parsing the text with UTF-8 bytes `b` gives: the duration in milliseconds or the error,
/// and `None` where the parser has no defined result.
pub open spec fn spec_parse_duration(b: Seq<u8>) -> Option<Result<nat, DurationError>> {
    if b.len() == 0 {
        Some(Err(DurationError::Empty))
    } else {
        match parse_steps(b, 0) {
            None => None,
            Some(Ok(ms)) => Some(Ok(ms)),
            Some(Err(_)) => Some(Err(DurationError::InvalidFormat)),
        }
    }
}

/// Whether the parser has a defined result on the text: it splits the text at character
/// boundaries only and the duration fits.
pub open spec fn parse_duration_defined(s: &str) -> bool {
    spec_parse_duration(s.spec_bytes()) is Some
}

/// The first position from `start` where a byte is (or is not) a digit.
fn scan_digits(b: &[u8], start: usize, digit: bool) -> (r: usize)
    requires
        start <= b@.len(),
    ensures
        start <= r <= b@.len(),
        r - start == first_where(b@.subrange(start as int, b@.len() as int), digit),
{
    let mut k = start;
    while k < b.len() && ((48 <= b[k] && b[k] <= 57) != digit)
        invariant
            start <= k <= b@.len(),
            first_where(b@.subrange(start as int, b@.len() as int), digit) == (k - start) + first_where(
                b@.subrange(k as int, b@.len() as int),
                digit,
            ),
        decreases b@.len() - k,
    {
        assert(b@.subrange(k as int, b@.len() as int).drop_first() =~= b@.subrange(
            k + 1,
            b@.len() as int,
        ));
        k = k + 1;
    }
    k
}

/// The first position from `start` where a byte is not ASCII white space.
fn scan_spaces(b: &[u8], start: usize) -> (r: usize)
    requires
        start <= b@.len(),
    ensures
        start <= r <= b@.len(),
        r - start == leading_spaces(b@.subrange(start as int, b@.len() as int)),
{
    let mut k = start;
    while k < b.len() && (b[k] == 32 || b[k] == 9 || b[k] == 10 || b[k] == 12 || b[k] == 13)
        invariant
            start <= k <= b@.len(),
            leading_spaces(b@.subrange(start as int, b@.len() as int)) == (k - start)
                + leading_spaces(b@.subrange(k as int, b@.len() as int)),
        decreases b@.len() - k,
    {
        assert(b@.subrange(k as int, b@.len() as int).drop_first() =~= b@.subrange(
            k + 1,
            b@.len() as int,
        ));
        k = k + 1;
    }
    k
}

/// Whether the bytes from `start` to `end` equal `lit`.
fn range_eq(b: &[u8], start: usize, end: usize, lit: &Vec<u8>) -> (r: bool)
    requires
        start <= end <= b@.len(),
    ensures
        r == (b@.subrange(start as int, end as int) == lit@),
{
    if end - start != lit.len() {
        return false;
    }
    let mut k: usize = 0;
    while k < lit.len()
        invariant
            start <= end <= b@.len(),
            end - start == lit@.len(),
            k <= lit@.len(),
            forall|m: int| 0 <= m < k ==> b@[start + m] == lit@[m],
        decreases lit.len() - k,
    {
        if b[start + k] != lit[k] {
            assert(b@.subrange(start as int, end as int)[k as int] != lit@[k as int]);
            return false;
        }
        k = k + 1;
    }
    assert(b@.subrange(start as int, end as int) =~= lit@);
    true
}

/// The number of milliseconds in the unit between `start` and `end`.
fn unit_scale_exec(b: &[u8], start: usize, end: usize) -> (r: Option<u32>)
    requires
        start <= end <= b@.len(),
    ensures
        match r {
            Some(v) => unit_scale(b@.subrange(start as int, end as int)) == Some(v as nat),
            None => unit_scale(b@.subrange(start as int, end as int)) is None,
        },
{
    let units: Vec<(Vec<u8>, u32)> = vec![
        (vec![109u8, 115u8], 1u32),
        (vec![109u8, 105u8, 108u8, 108u8, 105u8, 115u8], 1u32),
        (vec![115u8], 1000u32),
        (vec![115u8, 101u8, 99u8], 1000u32),
        (vec![115u8, 101u8, 99u8, 111u8, 110u8, 100u8, 115u8], 1000u32),
        (vec![109u8], 60000u32),
        (vec![109u8, 105u8, 110u8], 60000u32),
        (vec![109u8, 105u8, 110u8, 117u8, 116u8, 101u8, 115u8], 60000u32),
        (vec![104u8], 3600000u32),
        (vec![104u8, 114u8], 3600000u32),
        (vec![104u8, 114u8, 115u8], 3600000u32),
        (vec![104u8, 111u8, 117u8, 114u8], 3600000u32),
        (vec![104u8, 111u8, 117u8, 114u8, 115u8], 3600000u32),
    ];
    let ghost u = b@.subrange(start as int, end as int);
    proof {
        assert(units@[0].0@ =~= seq![109u8, 115u8]);
        assert(units@[1].0@ =~= seq![109u8, 105u8, 108u8, 108u8, 105u8, 115u8]);
        assert(units@[2].0@ =~= seq![115u8]);
        assert(units@[3].0@ =~= seq![115u8, 101u8, 99u8]);
        assert(units@[4].0@ =~= seq![115u8, 101u8, 99u8, 111u8, 110u8, 100u8, 115u8]);
        assert(units@[5].0@ =~= seq![109u8]);
        assert(units@[6].0@ =~= seq![109u8, 105u8, 110u8]);
        assert(units@[7].0@ =~= seq![109u8, 105u8, 110u8, 117u8, 116u8, 101u8, 115u8]);
        assert(units@[8].0@ =~= seq![104u8]);
        assert(units@[9].0@ =~= seq![104u8, 114u8]);
        assert(units@[10].0@ =~= seq![104u8, 114u8, 115u8]);
        assert(units@[11].0@ =~= seq![104u8, 111u8, 117u8, 114u8]);
        assert(units@[12].0@ =~= seq![104u8, 111u8, 117u8, 114u8, 115u8]);
    }
    let mut k: usize = 0;
    while k < units.len()
        invariant
            units@.len() == 13,
            start <= end <= b@.len(),
            u == b@.subrange(start as int, end as int),
            k <= 13,
            forall|m: int| 0 <= m < k ==> u != (#[trigger] units@[m]).0@,
            forall|m: int|
                0 <= m < 13 ==> unit_scale((#[trigger] units@[m]).0@) == Some(units@[m].1 as nat),
            forall|w: Seq<u8>|
                #[trigger] unit_scale(w) is Some ==> exists|m: int| 0 <= m < 13 && w == units@[m].0@,
        decreases units.len() - k,
    {
        if range_eq(b, start, end, &units[k].0) {
            return Some(units[k].1);
        }
        k = k + 1;
    }
    None
}

/// The value of the digits between `start` and `end`, or `None` when it does not fit a `u64`.
fn digits_value_exec(b: &[u8], start: usize, end: usize) -> (r: Option<u64>)
    requires
        start <= end <= b@.len(),
        forall|k: int| start <= k < end ==> is_digit(b@[k]),
    ensures
        match r {
            Some(v) => digits_value(b@.subrange(start as int, end as int)) == v,
            None => digits_value(b@.subrange(start as int, end as int)) > u64_max(),
        },
{
    let mut v: u64 = 0;
    let mut k = start;
    assert(b@.subrange(start as int, start as int) =~= Seq::<u8>::empty());
    while k < end
        invariant
            start <= k <= end <= b@.len(),
            forall|m: int| start <= m < end ==> is_digit(b@[m]),
            digits_value(b@.subrange(start as int, k as int)) == v,
        decreases end - k,
    {
        let d = (b[k] - 48) as u64;
        proof {
            let s = b@.subrange(start as int, k + 1);
            assert(s.drop_last() =~= b@.subrange(start as int, k as int));
            assert(s.last() == b@[k as int]);
        }
        if v > (u64::MAX - d) / 10 {
            proof {
                lemma_digits_grow(b@.subrange(start as int, end as int), (k - start) as int);
                assert(b@.subrange(start as int, end as int).subrange(0, k - start + 1) =~= b@.subrange(
                    start as int,
                    k + 1,
                ));
                assert(v * 10 + d > u64_max()) by (nonlinear_arith)
                    requires
                        v > (0xffff_ffff_ffff_ffffu64 - d) / 10,
                        d <= 9,
                ;
            }
            return None;
        }
        v = v * 10 + d;
        k = k + 1;
    }
    Some(v)
}

/// A prefix of digits is worth no more than the whole number.
proof fn lemma_digits_grow(d: Seq<u8>, k: int)
    requires
        0 <= k < d.len(),
        forall|m: int| 0 <= m < d.len() ==> is_digit(d[m]),
    ensures
        digits_value(d.subrange(0, k + 1)) <= digits_value(d),
    decreases d.len(),
{
    if k + 1 < d.len() {
        assert(d.drop_last().subrange(0, k + 1) =~= d.subrange(0, k + 1));
        lemma_digits_grow(d.drop_last(), k);
        assert(digits_value(d) == digits_value(d.drop_last()) * 10 + (d.last() - 48) as nat);
    } else {
        assert(d.subrange(0, k + 1) =~= d);
    }
}

/// Where the number, the unit and the rest of one parsing step lie in the text.
fn split_positions(b: &[u8], pos: usize) -> (r: (usize, usize, usize, usize))
    requires
        pos < b@.len(),
        split_step(b@.subrange(pos as int, b@.len() as int)) is Some,
    ensures
        pos <= r.0 <= r.1 <= r.2 <= r.3 <= b@.len(),
        split_step(b@.subrange(pos as int, b@.len() as int)) == Some(
            (
                b@.subrange(r.0 as int, r.1 as int),
                b@.subrange(r.2 as int, r.3 as int),
                b@.subrange(r.3 as int, b@.len() as int),
            ),
        ),
        forall|k: int| r.0 <= k < r.1 ==> is_digit(#[trigger] b@[k]),
{
    let n = b.len();
    let ghost rb = b@.subrange(pos as int, n as int);
    proof {
        lemma_leading_spaces_bound(rb);
        lemma_first_where_bound(rb, false);
    }
    let num_end_raw = scan_digits(b, pos, false);
    let num_start = scan_spaces(b, pos);
    let i = num_end_raw - pos;
    let ghost t1 = rb.subrange(leading_spaces(rb) as int, rb.len() as int);
    assert(t1 =~= b@.subrange(num_start as int, n as int));
    let num_end = num_start + i;
    let ghost rest = t1.subrange(i as int, t1.len() as int);
    assert(rest =~= b@.subrange(num_end as int, n as int));
    proof {
        lemma_leading_spaces_bound(rest);
        lemma_first_where_bound(rest, true);
    }
    let unit_end_raw = scan_digits(b, num_end, true);
    let unit_start = scan_spaces(b, num_end);
    let j = unit_end_raw - num_end;
    let ghost t2 = rest.subrange(leading_spaces(rest) as int, rest.len() as int);
    assert(t2 =~= b@.subrange(unit_start as int, n as int));
    let unit_end = unit_start + j;
    proof {
        assert(t1.subrange(0, i as int) =~= b@.subrange(num_start as int, num_end as int));
        assert(t2.subrange(0, j as int) =~= b@.subrange(unit_start as int, unit_end as int));
        assert(t2.subrange(j as int, t2.len() as int) =~= b@.subrange(unit_end as int, n as int));
        if i > 0 {
            if leading_spaces(rb) > 0 {
                assert(is_space(rb[0]));
                assert(!is_digit(rb[0]));
            }
            assert(num_start == pos);
        }
        assert forall|k: int| num_start <= k < num_end implies is_digit(#[trigger] b@[k]) by {
            assert(b@[k] == rb[k - pos]);
        }
    }
    (num_start, num_end, unit_start, unit_end)
}

/// Parse a duration such as `10m30s` into milliseconds. An empty text gives "no duration
/// provided", anything else that is not a duration gives "invalid duration format".
pub fn parse_duration(s: &str) -> (r: Result<u128, &'static str>)
    requires
        parse_duration_defined(s),
    ensures
        match r {
            Ok(ms) => spec_parse_duration(s.spec_bytes()) == Some(
                Ok::<nat, DurationError>(ms as nat),
            ),
            Err(e) => (spec_parse_duration(s.spec_bytes()) == Some(
                Err::<nat, DurationError>(DurationError::Empty),
            ) && e@ == "no duration provided"@) || (spec_parse_duration(s.spec_bytes()) == Some(
                Err::<nat, DurationError>(DurationError::InvalidFormat),
            ) && e@ == "invalid duration format"@),
        },
{
    let b = s.as_bytes();
    let n = b.len();
    if n == 0 {
        return Err("no duration provided");
    }
    let ghost whole = b@;
    let mut pos: usize = 0;
    let mut acc: u128 = 0;
    assert(b@.subrange(0, n as int) =~= b@);
    while pos < n
        invariant
            n == b@.len(),
            whole == b@,
            whole == s.spec_bytes(),
            pos <= n,
            n > 0,
            acc / 1000 <= u64_max(),
            parse_steps(whole, 0) == parse_steps(b@.subrange(pos as int, n as int), acc as nat),
            parse_steps(whole, 0) is Some,
        decreases n - pos,
    {
        let ghost rb = b@.subrange(pos as int, n as int);
        assert(split_step(rb) is Some);
        let (num_start, num_end, unit_start, unit_end) = split_positions(b, pos);
        if num_end == num_start {
            assert(parse_steps(rb, acc as nat) == Some(Err::<nat, ()>(())));
            return Err("invalid duration format");
        }
        let value = match digits_value_exec(b, num_start, num_end) {
            Some(v) => v,
            None => {
                assert(parse_steps(rb, acc as nat) == Some(Err::<nat, ()>(())));
                return Err("invalid duration format");
            },
        };
        let scale = match unit_scale_exec(b, unit_start, unit_end) {
            Some(scale) => scale,
            None => {
                assert(parse_steps(rb, acc as nat) == Some(Err::<nat, ()>(())));
                return Err("invalid duration format");
            },
        };
        assert((value as int) * (scale as int) <= 0xffff_ffff_ffff_ffffu64 as int * 0xffff_ffffu32 as int)
            by (nonlinear_arith)
            requires
                value <= 0xffff_ffff_ffff_ffffu64,
                scale <= 0xffff_ffffu32,
        ;
        let part = (value as u128) * (scale as u128);
        assert(part <= 0xffff_ffff_ffff_ffffu128 * 3600000) by (nonlinear_arith)
            requires
                part == value * scale,
                value <= 0xffff_ffff_ffff_ffffu64,
                scale <= 3600000,
        ;
        proof {
            assert(parse_steps(rb, acc as nat) == parse_steps(
                b@.subrange(unit_end as int, n as int),
                (acc + part) as nat,
            ));
        }
        acc = acc + part;
        pos = unit_end;
    }
    Ok(acc)
}

/// Whether a step of the parser splits the text at character boundaries.
fn split_defined(b: &[u8], pos: usize) -> (r: bool)
    requires
        pos < b@.len(),
    ensures
        r == split_step(b@.subrange(pos as int, b@.len() as int)) is Some,
{
    let n = b.len();
    let ghost rb = b@.subrange(pos as int, n as int);
    proof {
        lemma_leading_spaces_bound(rb);
        lemma_first_where_bound(rb, false);
    }
    let i = scan_digits(b, pos, false) - pos;
    let num_start = scan_spaces(b, pos);
    let ghost t1 = rb.subrange(leading_spaces(rb) as int, rb.len() as int);
    assert(t1 =~= b@.subrange(num_start as int, n as int));
    let t1_len = n - num_start;
    if !(i <= t1_len && (i == 0 || i == t1_len || (b[num_start + i] & 0xc0) != 0x80)) {
        return false;
    }
    let num_end = num_start + i;
    let ghost rest = t1.subrange(i as int, t1.len() as int);
    assert(rest =~= b@.subrange(num_end as int, n as int));
    proof {
        lemma_leading_spaces_bound(rest);
        lemma_first_where_bound(rest, true);
    }
    let j = scan_digits(b, num_end, true) - num_end;
    let unit_start = scan_spaces(b, num_end);
    let ghost t2 = rest.subrange(leading_spaces(rest) as int, rest.len() as int);
    assert(t2 =~= b@.subrange(unit_start as int, n as int));
    let t2_len = n - unit_start;
    j <= t2_len && (j == 0 || j == t2_len || (b[unit_start + j] & 0xc0) != 0x80)
}

/// Parse a duration like [`parse_duration`], or give `None` on the texts where that has no
/// defined result.
pub fn parse_duration_checked(s: &str) -> (r: Option<Result<u128, &'static str>>)
    ensures
        r is Some <==> parse_duration_defined(s),
        match r {
            Some(Ok(ms)) => spec_parse_duration(s.spec_bytes()) == Some(
                Ok::<nat, DurationError>(ms as nat),
            ),
            Some(Err(e)) => (spec_parse_duration(s.spec_bytes()) == Some(
                Err::<nat, DurationError>(DurationError::Empty),
            ) && e@ == "no duration provided"@) || (spec_parse_duration(s.spec_bytes()) == Some(
                Err::<nat, DurationError>(DurationError::InvalidFormat),
            ) && e@ == "invalid duration format"@),
            None => true,
        },
{
    let b = s.as_bytes();
    let n = b.len();
    if n == 0 {
        return Some(Err("no duration provided"));
    }
    let ghost whole = b@;
    let mut pos: usize = 0;
    let mut acc: u128 = 0;
    assert(b@.subrange(0, n as int) =~= b@);
    while pos < n
        invariant
            n == b@.len(),
            whole == b@,
            whole == s.spec_bytes(),
            pos <= n,
            n > 0,
            acc / 1000 <= u64_max(),
            parse_steps(whole, 0) == parse_steps(b@.subrange(pos as int, n as int), acc as nat),
        decreases n - pos,
    {
        let ghost rb = b@.subrange(pos as int, n as int);
        if !split_defined(b, pos) {
            assert(parse_steps(rb, acc as nat) is None);
            return None;
        }
        let (num_start, num_end, unit_start, unit_end) = split_positions(b, pos);
        if num_end == num_start {
            assert(parse_steps(rb, acc as nat) == Some(Err::<nat, ()>(())));
            return Some(Err("invalid duration format"));
        }
        let value = match digits_value_exec(b, num_start, num_end) {
            Some(v) => v,
            None => {
                assert(parse_steps(rb, acc as nat) == Some(Err::<nat, ()>(())));
                return Some(Err("invalid duration format"));
            },
        };
        let scale = match unit_scale_exec(b, unit_start, unit_end) {
            Some(scale) => scale,
            None => {
                assert(parse_steps(rb, acc as nat) == Some(Err::<nat, ()>(())));
                return Some(Err("invalid duration format"));
            },
        };
        if (scale == 60000 && value > u64::MAX / 60) || (scale == 3600000 && value > u64::MAX
            / 3600) {
            assert(parse_steps(rb, acc as nat) is None);
            return None;
        }
        assert((value as int) * (scale as int) <= 0xffff_ffff_ffff_ffffu64 as int * 0xffff_ffffu32 as int)
            by (nonlinear_arith)
            requires
                value <= 0xffff_ffff_ffff_ffffu64,
                scale <= 0xffff_ffffu32,
        ;
        let part = (value as u128) * (scale as u128);
        assert(part <= 0xffff_ffff_ffff_ffffu128 * 3600000) by (nonlinear_arith)
            requires
                part == value * scale,
                value <= 0xffff_ffff_ffff_ffffu64,
                scale <= 3600000,
        ;
        if (acc + part) / 1000 > u64::MAX as u128 {
            assert(parse_steps(rb, acc as nat) is None);
            return None;
        }
        if unit_end <= pos {
            assert(parse_steps(rb, acc as nat) is None);
            return None;
        }
        proof {
            assert(parse_steps(rb, acc as nat) == parse_steps(
                b@.subrange(unit_end as int, n as int),
                (acc + part) as nat,
            ));
        }
        acc = acc + part;
        pos = unit_end;
    }
    Some(Ok(acc))
}


/// `first_where` on two texts one after the other.
proof fn lemma_first_where_concat(x: Seq<u8>, y: Seq<u8>, digit: bool)
    ensures
        first_where(x + y, digit) == if first_where(x, digit) < x.len() {
            first_where(x, digit)
        } else {
            x.len() + first_where(y, digit)
        },
    decreases x.len(),
{
    lemma_first_where_bound(x, digit);
    if x.len() > 0 {
        assert((x + y).drop_first() =~= x.drop_first() + y);
        assert((x + y)[0] == x[0]);
        lemma_first_where_concat(x.drop_first(), y, digit);
    } else {
        assert(x + y =~= y);
    }
}

/// A unit name holds no digit.
proof fn lemma_unit_has_no_digit(u: Seq<u8>)
    requires
        unit_scale(u) is Some,
    ensures
        forall|k: int| 0 <= k < u.len() ==> !is_digit(#[trigger] u[k]),
{
    assert forall|k: int| 0 <= k < u.len() implies !is_digit(#[trigger] u[k]) by {
        assert(u[k] >= 99);
    }
}

/// A step that reads a part with a number and a known unit reads the number at the very start
/// of the text and the unit right after it, with no white space anywhere.
proof fn lemma_valid_step(b: Seq<u8>)
    requires
        b.len() > 0,
        split_step(b) matches Some((num, unit, next)) && num.len() > 0 && unit_scale(unit) is Some,
    ensures
        leading_spaces(b) == 0,
        0 < first_where(b, false) < b.len(),
        ({
            let i = first_where(b, false) as int;
            let rest = b.subrange(i, b.len() as int);
            let j = first_where(rest, true) as int;
            &&& leading_spaces(rest) == 0
            &&& 0 < j <= rest.len()
            &&& split_step(b) == Some(
                (b.subrange(0, i), rest.subrange(0, j), rest.subrange(j, rest.len() as int)),
            )
        }),
{
    lemma_leading_spaces_bound(b);
    lemma_first_where_bound(b, false);
    let (num, unit, next) = split_step(b)->0;
    let i = first_where(b, false) as int;
    if leading_spaces(b) > 0 {
        assert(is_space(b[0]));
        assert(i == 0);
        assert(false);
    }
    let t1 = b.subrange(leading_spaces(b) as int, b.len() as int);
    assert(t1 =~= b);
    if i == b.len() {
        assert(unit.len() == 0);
        assert(false);
    }
    let rest = b.subrange(i, b.len() as int);
    assert(rest[0] == b[i]);
    let j = first_where(rest, true) as int;
    lemma_first_where_bound(rest, true);
    lemma_leading_spaces_bound(rest);
    lemma_unit_has_no_digit(unit);
    let ls = leading_spaces(rest) as int;
    let t2 = rest.subrange(ls, rest.len() as int);
    if ls > 0 {
        if j < rest.len() {
            if j < ls {
                assert(is_space(rest[j]));
            } else {
                assert(unit[j - ls] == rest[j]);
            }
        }
        assert(false);
    }
    assert(t2 =~= rest);
    if j == 0 {
        assert(false);
    }
}

/// A step on a text followed by a text that starts with a digit reads the same part, and
/// leaves the rest followed by that text.
proof fn lemma_step_concat(x: Seq<u8>, y: Seq<u8>)
    requires
        x.len() > 0,
        split_step(x) matches Some((num, unit, next)) && num.len() > 0 && unit_scale(unit) is Some,
        y.len() > 0 ==> is_digit(y[0]),
    ensures
        split_step(x) matches Some((num, unit, next)) ==> split_step(x + y) == Some(
            (num, unit, next + y),
        ),
{
    lemma_valid_step(x);
    let i = first_where(x, false) as int;
    let rest = x.subrange(i, x.len() as int);
    let j = first_where(rest, true) as int;
    let b = x + y;
    lemma_first_where_concat(x, y, false);
    assert(b[0] == x[0]);
    lemma_first_where_bound(x, false);
    assert(!is_space(b[0]));
    assert(leading_spaces(b) == 0);
    assert(b.subrange(0, b.len() as int) =~= b);
    assert(b[i] == x[i]);
    let rest2 = b.subrange(i, b.len() as int);
    assert(rest2 =~= rest + y);
    lemma_first_where_concat(rest, y, true);
    lemma_first_where_bound(rest, true);
    if y.len() > 0 {
        assert(first_where(y, true) == 0);
    } else {
        assert(first_where(y, true) == 0);
    }
    assert(first_where(rest2, true) == j);
    assert(rest2[0] == rest[0]);
    lemma_leading_spaces_bound(rest);
    assert(leading_spaces(rest2) == 0);
    assert(rest2.subrange(0, rest2.len() as int) =~= rest2);
    if j < rest.len() {
        assert(rest2[j] == rest[j]);
    } else if y.len() > 0 {
        let c = y[0];
        assert(rest2[j] == c);
        assert((c & 0xc0) != 0x80) by (bit_vector)
            requires
                48 <= c <= 57,
        ;
    }
    assert(b.subrange(0, i) =~= x.subrange(0, i));
    assert(rest2.subrange(0, j) =~= rest.subrange(0, j));
    assert(rest2.subrange(j, rest2.len() as int) =~= rest.subrange(j, rest.len() as int) + y);
}

/// A parse never gives less than it started from.
proof fn lemma_parse_steps_grows(b: Seq<u8>, acc: nat)
    requires
        parse_steps(b, acc) matches Some(Ok(t)),
    ensures
        parse_steps(b, acc)->0->Ok_0 >= acc,
    decreases b.len(),
{
    if b.len() > 0 {
        let (num, unit, next) = split_step(b)->0;
        let scale = unit_scale(unit)->0;
        lemma_parse_steps_grows(next, acc + digits_value(num) * scale);
    }
}

/// Starting from another total shifts the result by the difference, as long as it fits.
proof fn lemma_parse_steps_shift(b: Seq<u8>, a1: nat, a2: nat)
    requires
        parse_steps(b, a1) matches Some(Ok(t)),
        (parse_steps(b, a1)->0->Ok_0 - a1 + a2) / 1000 <= u64_max(),
    ensures
        parse_steps(b, a1)->0->Ok_0 >= a1,
        parse_steps(b, a2) == Some(Ok::<nat, ()>((parse_steps(b, a1)->0->Ok_0 - a1 + a2) as nat)),
    decreases b.len(),
{
    lemma_parse_steps_grows(b, a1);
    if b.len() > 0 {
        let (num, unit, next) = split_step(b)->0;
        let scale = unit_scale(unit)->0;
        let n = digits_value(num);
        let total1 = a1 + n * scale;
        let total2 = a2 + n * scale;
        lemma_parse_steps_grows(next, total1);
        let t = parse_steps(b, a1)->0->Ok_0;
        assert(parse_steps(next, total1) == parse_steps(b, a1));
        assert(total2 <= t - a1 + a2);
        assert(total2 / 1000 <= (t - a1 + a2) / 1000) by (nonlinear_arith)
            requires
                total2 <= t - a1 + a2,
                total2 >= 0,
        ;
        lemma_parse_steps_shift(next, total1, total2);
    }
}

/// Parsing two texts one after the other continues from the first text's total.
proof fn lemma_parse_steps_concat(x: Seq<u8>, y: Seq<u8>, acc: nat, dy: nat)
    requires
        parse_steps(x, acc) matches Some(Ok(t)),
        parse_steps(y, 0) == Some(Ok::<nat, ()>(dy)),
        y.len() > 0 ==> is_digit(y[0]),
        (parse_steps(x, acc)->0->Ok_0 + dy) / 1000 <= u64_max(),
    ensures
        parse_steps(x + y, acc) == Some(Ok::<nat, ()>(parse_steps(x, acc)->0->Ok_0 + dy)),
    decreases x.len(),
{
    let t = parse_steps(x, acc)->0->Ok_0;
    if x.len() == 0 {
        assert(x + y =~= y);
        lemma_parse_steps_shift(y, 0, acc);
    } else {
        let (num, unit, next) = split_step(x)->0;
        let scale = unit_scale(unit)->0;
        let total = acc + digits_value(num) * scale;
        lemma_step_concat(x, y);
        assert(parse_steps(next, total) == parse_steps(x, acc));
        lemma_parse_steps_concat(next, y, total, dy);
        assert(split_step(x + y) == Some((num, unit, next + y)));
    }
}

/// Writing one duration right after another gives their sum, as long as the sum fits: the
/// parse of the concatenated text is the parse of the first text plus that of the second.
pub proof fn lemma_concat_adds(a: Seq<u8>, b: Seq<u8>, da: nat, db: nat)
    requires
        spec_parse_duration(a) == Some(Ok::<nat, DurationError>(da)),
        spec_parse_duration(b) == Some(Ok::<nat, DurationError>(db)),
        (da + db) / 1000 <= u64_max(),
    ensures
        spec_parse_duration(a + b) == Some(Ok::<nat, DurationError>(da + db)),
{
    let (num, unit, next) = split_step(b)->0;
    lemma_valid_step(b);
    lemma_first_where_bound(b, false);
    lemma_parse_steps_concat(a, b, 0, db);
}

} // verus!
