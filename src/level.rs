use vstd::prelude::*;
use crate::command::{digit_chars, digit_str, nat_text, push_nat};
use crate::text::{find_char, index_of, lemma_index_of_bound};

verus! {

/// Number of fractional decimal digits a level keeps.
pub const FRACTION_DIGITS: usize = 6;

/// Longest integer part accepted in a level reading.
pub const MAX_INTEGER_DIGITS: usize = 9;

/// A volume level in millionths: 1_000_000 is 100%, 0 is silence or mute.
#[derive(Clone, Copy, Debug, PartialEq, Eq, Structural)]
pub struct VolumeLevel {
    pub micros: u64,
}

/// Why a `get-volume` reply could not be read as a level.
#[derive(Clone, Copy, Debug, PartialEq, Eq, Structural)]
pub enum ReadError {
    /// The reply has no second space-separated field.
    MissingField,
    /// The second field is not a plain decimal number.
    BadNumber,
}

pub open spec fn is_digit(c: char) -> bool {
    '0' <= c && c <= '9'
}

pub open spec fn digit_value(c: char) -> nat {
    (c as int - '0' as int) as nat
}

pub open spec fn all_digits(s: Seq<char>) -> bool {
    forall|i: int| 0 <= i < s.len() ==> is_digit(#[trigger] s[i])
}

/// The number that the decimal digits `s` denote (0 for no digits).
pub open spec fn digits_value(s: Seq<char>) -> nat
    decreases s.len(),
{
    if s.len() == 0 {
        0
    } else {
        digits_value(s.drop_last()) * 10 + digit_value(s.last())
    }
}

pub open spec fn pow10(n: nat) -> nat
    decreases n,
{
    if n == 0 {
        1
    } else {
        10 * pow10((n - 1) as nat)
    }
}

/// The fractional digits `f` as exactly six digits: cut after the sixth, padded with zeros.
pub open spec fn six_digits(f: Seq<char>) -> Seq<char> {
    Seq::new(6, |i: int| if i < f.len() { f[i] } else { '0' })
}

/// The value in millionths of a decimal `int[.frac]`, where either part may be empty
/// but not both, the integer part has at most nine digits, and fractional digits
/// past the sixth are dropped.
pub open spec fn decimal_micros(t: Seq<char>) -> Option<nat> {
    let p = index_of(t, '.');
    let ip = t.take(p as int);
    let fp = if p < t.len() { t.skip(p + 1 as int) } else { Seq::<char>::empty() };
    if all_digits(ip) && all_digits(fp) && ip.len() + fp.len() > 0 && ip.len() <= 9 {
        Some(digits_value(ip) * 1_000_000 + digits_value(six_digits(fp)))
    } else {
        None
    }
}

/// The marker that ends a reply for a muted node.
pub open spec fn muted_marker() -> Seq<char> {
    seq!['[', 'M', 'U', 'T', 'E', 'D', ']']
}

pub open spec fn ends_with(t: Seq<char>, m: Seq<char>) -> bool {
    m.len() <= t.len() && t.skip(t.len() - m.len()) == m
}

/// The second field of `t` when split on single spaces.
pub open spec fn second_field(t: Seq<char>) -> Option<Seq<char>> {
    let i = index_of(t, ' ');
    if i < t.len() {
        let rest = t.skip(i + 1 as int);
        Some(rest.take(index_of(rest, ' ') as int))
    } else {
        None
    }
}

/// The level, in millionths, that a trimmed `get-volume` reply reports.
pub open spec fn level_of_reply(t: Seq<char>) -> Result<nat, ReadError> {
    if ends_with(t, muted_marker()) {
        Ok(0)
    } else {
        match second_field(t) {
            None => Err(ReadError::MissingField),
            Some(f) => match decimal_micros(f) {
                Some(v) => Ok(v),
                None => Err(ReadError::BadNumber),
            },
        }
    }
}

/// What `str::trim` leaves of a text.
pub uninterp spec fn trimmed(s: Seq<char>) -> Seq<char>;

/// Relies on `str::trim`: the text without its leading and trailing whitespace,
/// which depends on the characters alone.
#[verifier::external_body]
fn trim_text(s: &str) -> (r: &str)
    ensures
        r@ == trimmed(s@),
{
    s.trim()
}

proof fn lemma_digits_step(s: Seq<char>, i: int)
    requires
        0 <= i < s.len(),
    ensures
        digits_value(s.take(i + 1)) == digits_value(s.take(i)) * 10 + digit_value(s[i]),
{
    assert(s.take(i + 1).drop_last() =~= s.take(i));
}

proof fn lemma_pow10_values()
    ensures
        pow10(6) == 1_000_000,
        pow10(9) == 1_000_000_000,
{
    reveal_with_fuel(pow10, 10);
}

proof fn lemma_pow10_mono(a: nat, b: nat)
    requires
        a <= b,
    ensures
        pow10(a) <= pow10(b),
    decreases b,
{
    if a < b {
        lemma_pow10_mono(a, (b - 1) as nat);
    }
}

fn digit_of(c: char) -> (r: u64)
    requires
        is_digit(c),
    ensures
        r == digit_value(c),
        r <= 9,
{
    (c as u32 - '0' as u32) as u64
}

/// Reads the decimal digits `s[lo..hi]`; `None` if one of them is not a digit.
fn read_digits(s: &str, lo: usize, hi: usize) -> (r: Option<u64>)
    requires
        lo <= hi <= s@.len(),
        hi - lo <= 9,
    ensures
        match r {
            Some(v) => all_digits(s@.subrange(lo as int, hi as int)) && v == digits_value(
                s@.subrange(lo as int, hi as int),
            ) && v < 1_000_000_000,
            None => !all_digits(s@.subrange(lo as int, hi as int)),
        },
{
    let ghost d = s@.subrange(lo as int, hi as int);
    let mut acc: u64 = 0;
    let mut i: usize = lo;
    while i < hi
        invariant
            lo <= i <= hi,
            hi <= s@.len(),
            hi - lo <= 9,
            d == s@.subrange(lo as int, hi as int),
            all_digits(d.take(i - lo)),
            acc == digits_value(d.take(i - lo)),
            acc < pow10((i - lo) as nat),
        decreases hi - i,
    {
        let c = s.get_char(i);
        assert(c == d[i - lo]);
        if !('0' <= c && c <= '9') {
            return None;
        }
        let v = digit_of(c);
        proof {
            lemma_digits_step(d, i - lo);
            lemma_pow10_mono((i - lo + 1) as nat, 9);
            lemma_pow10_values();
            let p = pow10((i - lo) as nat);
            assert(acc * 10 + v < 10 * p) by (nonlinear_arith)
                requires
                    acc < p,
                    v <= 9,
            ;
            assert(d.take(i + 1 - lo) =~= d.take(i - lo).push(c));
        }
        acc = acc * 10 + v;
        i = i + 1;
    }
    proof {
        assert(d.take(hi - lo) =~= d);
        lemma_pow10_mono((hi - lo) as nat, 9);
        lemma_pow10_values();
    }
    Some(acc)
}

/// Reads `s[lo..hi]` as fractional digits, kept to six places.
fn read_fraction(s: &str, lo: usize, hi: usize) -> (r: Option<u64>)
    requires
        lo <= hi <= s@.len(),
    ensures
        match r {
            Some(v) => all_digits(s@.subrange(lo as int, hi as int)) && v == digits_value(
                six_digits(s@.subrange(lo as int, hi as int)),
            ) && v < 1_000_000,
            None => !all_digits(s@.subrange(lo as int, hi as int)),
        },
{
    let ghost d = s@.subrange(lo as int, hi as int);
    let mut i: usize = lo;
    while i < hi
        invariant
            lo <= i <= hi <= s@.len(),
            d == s@.subrange(lo as int, hi as int),
            all_digits(d.take(i - lo)),
        decreases hi - i,
    {
        let c = s.get_char(i);
        assert(c == d[i - lo]);
        if !('0' <= c && c <= '9') {
            return None;
        }
        assert(d.take(i + 1 - lo) =~= d.take(i - lo).push(c));
        i = i + 1;
    }
    assert(d.take(hi - lo) =~= d);
    let ghost e = six_digits(d);
    let mut acc: u64 = 0;
    let mut k: usize = 0;
    while k < FRACTION_DIGITS
        invariant
            k <= 6,
            lo <= hi <= s@.len(),
            d == s@.subrange(lo as int, hi as int),
            all_digits(d),
            e == six_digits(d),
            acc == digits_value(e.take(k as int)),
            acc < pow10(k as nat),
        decreases 6 - k,
    {
        let c = if k < hi - lo {
            s.get_char(lo + k)
        } else {
            '0'
        };
        assert(c == e[k as int]);
        let v = digit_of(c);
        proof {
            lemma_digits_step(e, k as int);
            let p = pow10(k as nat);
            assert(acc * 10 + v < 10 * p) by (nonlinear_arith)
                requires
                    acc < p,
                    v <= 9,
            ;
            lemma_pow10_mono((k + 1) as nat, 6);
            lemma_pow10_values();
        }
        acc = acc * 10 + v;
        k = k + 1;
    }
    assert(e.take(6) =~= e);
    proof {
        lemma_pow10_values();
    }
    Some(acc)
}

/// Reads the decimal number `s[lo..hi]` as a level in millionths.
fn read_decimal(s: &str, lo: usize, hi: usize) -> (r: Option<u64>)
    requires
        lo <= hi <= s@.len(),
    ensures
        match r {
            Some(v) => decimal_micros(s@.subrange(lo as int, hi as int)) == Some(v as nat),
            None => decimal_micros(s@.subrange(lo as int, hi as int)) is None,
        },
{
    let ghost t = s@.subrange(lo as int, hi as int);
    let p = find_char(s, lo, '.');
    proof {
        assert(s@.skip(lo as int).take(hi - lo) =~= t);
        let u = s@.skip(lo as int);
        lemma_index_of_bound(u, '.');
        lemma_index_of_bound(t, '.');
        // the first dot of `t` is the first dot from `lo`, if that lies before `hi`
        assert forall|j: int| 0 <= j < index_of(t, '.') implies u[j] != '.' by {
            assert(u[j] == t[j]);
        }
        if index_of(t, '.') < t.len() {
            assert(u[index_of(t, '.') as int] == t[index_of(t, '.') as int]);
            crate::text::lemma_index_of_at(u, '.', index_of(t, '.') as int);
        } else {
            assert forall|j: int| 0 <= j < t.len() implies u[j] != '.' by {
                assert(u[j] == t[j]);
            }
        }
    }
    let int_end = if p < hi {
        p
    } else {
        hi
    };
    let ghost q = index_of(t, '.');
    assert(int_end - lo == q);
    assert(s@.subrange(lo as int, int_end as int) =~= t.take(q as int));
    if int_end - lo > MAX_INTEGER_DIGITS {
        return None;
    }
    let whole = read_digits(s, lo, int_end);
    let frac_lo = if p < hi {
        p + 1
    } else {
        hi
    };
    proof {
        if q < t.len() {
            assert(s@.subrange(frac_lo as int, hi as int) =~= t.skip(q + 1 as int));
        } else {
            assert(s@.subrange(frac_lo as int, hi as int) =~= Seq::<char>::empty());
        }
    }
    let frac = read_fraction(s, frac_lo, hi);
    match (whole, frac) {
        (Some(w), Some(f)) => {
            if int_end == lo && frac_lo == hi {
                None
            } else {
                Some(w * 1_000_000 + f)
            }
        },
        _ => None,
    }
}

/// Whether `t` ends with the muted marker.
fn ends_muted(t: &str) -> (r: bool)
    ensures
        r == ends_with(t@, muted_marker()),
{
    let m = "[MUTED]";
    proof {
        reveal_strlit("[MUTED]");
    }
    assert(m@ =~= muted_marker());
    let n = t.unicode_len();
    if n < 7 {
        return false;
    }
    let ghost tail = t@.skip(n - 7);
    let mut i: usize = 0;
    while i < 7
        invariant
            i <= 7 <= n,
            n == t@.len(),
            m@ == muted_marker(),
            tail == t@.skip(n - 7),
            forall|j: int| 0 <= j < i ==> tail[j] == m@[j],
        decreases 7 - i,
    {
        if t.get_char(n - 7 + i) != m.get_char(i) {
            assert(tail[i as int] != m@[i as int]);
            return false;
        }
        i = i + 1;
    }
    assert(tail =~= m@);
    true
}

/// Reads a level from a `get-volume` reply that has already been trimmed: zero when
/// it ends with the muted marker, else the decimal in its second space-separated field.
pub fn level_from_reply(t: &str) -> (r: Result<VolumeLevel, ReadError>)
    ensures
        match r {
            Ok(l) => level_of_reply(t@) == Ok::<nat, ReadError>(l.micros as nat),
            Err(e) => level_of_reply(t@) == Err::<nat, ReadError>(e),
        },
        ends_with(t@, muted_marker()) ==> r == Ok::<VolumeLevel, ReadError>(
            VolumeLevel { micros: 0 },
        ),
{
    if ends_muted(t) {
        return Ok(VolumeLevel { micros: 0 });
    }
    let n = t.unicode_len();
    let i = find_char(t, 0, ' ');
    assert(t@.skip(0) =~= t@);
    if i == n {
        return Err(ReadError::MissingField);
    }
    let j = find_char(t, i + 1, ' ');
    proof {
        let rest = t@.skip(i + 1 as int);
        lemma_index_of_bound(rest, ' ');
        assert(t@.subrange(i + 1 as int, j as int) =~= rest.take(index_of(rest, ' ') as int));
    }
    match read_decimal(t, i + 1, j) {
        Some(v) => Ok(VolumeLevel { micros: v }),
        None => Err(ReadError::BadNumber),
    }
}

/// Reads a level from the text a `get-volume` call printed, surrounding whitespace
/// included.
pub fn lookup(out: &str) -> (r: Result<VolumeLevel, ReadError>)
    ensures
        match r {
            Ok(l) => level_of_reply(trimmed(out@)) == Ok::<nat, ReadError>(l.micros as nat),
            Err(e) => level_of_reply(trimmed(out@)) == Err::<nat, ReadError>(e),
        },
{
    let t = trim_text(out);
    level_from_reply(t)
}

/// The last `w` decimal digits of `n`, leading zeros included.
pub open spec fn padded_digits(n: nat, w: nat) -> Seq<char>
    decreases w,
{
    if w == 0 {
        Seq::empty()
    } else {
        padded_digits(n / 10, (w - 1) as nat).push(digit_chars()[(n % 10) as int])
    }
}

/// A fraction of `w` digits with its trailing zeros taken off: the digits left and
/// their number.
pub open spec fn strip_zeros(f: nat, w: nat) -> (nat, nat)
    decreases w,
{
    if w > 0 && f % 10 == 0 {
        strip_zeros(f / 10, (w - 1) as nat)
    } else {
        (f, w)
    }
}

/// The shortest decimal text of a level: "0.45" for 450_000, "1" for 1_000_000.
pub open spec fn level_text(micros: nat) -> Seq<char> {
    let whole = nat_text(micros / 1_000_000);
    let f = micros % 1_000_000;
    if f == 0 {
        whole
    } else {
        let (g, w) = strip_zeros(f, 6);
        whole + seq!['.'] + padded_digits(g, w)
    }
}

/// Appends the last `w` digits of `n`.
fn push_padded(out: &mut String, n: u64, w: u64)
    ensures
        final(out)@ == old(out)@ + padded_digits(n as nat, w as nat),
    decreases w,
{
    if w > 0 {
        push_padded(out, n / 10, w - 1);
        out.append(digit_str(n % 10));
        assert(final(out)@ =~= old(out)@ + padded_digits(n as nat, w as nat));
    } else {
        assert(final(out)@ =~= old(out)@ + padded_digits(n as nat, w as nat));
    }
}

/// The level as the shortest decimal text of its fraction of 100%.
pub fn format_level(volume: VolumeLevel) -> (r: String)
    ensures
        r@ == level_text(volume.micros as nat),
{
    let mut out = String::new();
    push_nat(&mut out, volume.micros / 1_000_000);
    let f = volume.micros % 1_000_000;
    if f != 0 {
        let mut g = f;
        let mut w: u64 = 6;
        while w > 0 && g % 10 == 0
            invariant
                w <= 6,
                strip_zeros(g as nat, w as nat) == strip_zeros(f as nat, 6),
            decreases w,
        {
            g = g / 10;
            w = w - 1;
        }
        out.append(".");
        proof {
            reveal_strlit(".");
        }
        push_padded(&mut out, g, w);
    }
    out
}

} // verus!
