//! Human duration strings: `10`, `10s`, `5m`, `2h`, `1d`.
use vstd::prelude::*;
use crate::error::{RenderError, RenderErrorView};
use crate::text::{
    decimal, lemma_decimal_props, lemma_trim_end_take, lemma_trim_start_skip, is_ws,
    lower,
    append_chars, chars_of, is_ascii_alpha, is_ascii_alpha_exec, lower_char, lower_char_exec,
    parse_u64, parse_unsigned, push_char, slice_chars, str_string, trim, trim_chars,
};

verus! {

/// A span of whole seconds.
#[derive(Debug, Clone, Copy, PartialEq, Eq, PartialOrd, Ord, Hash, Structural)]
pub struct Duration {
    secs: u64,
}

impl Duration {
    pub closed spec fn spec_secs(&self) -> nat {
        self.secs as nat
    }

    /// The span of `secs` seconds.
    pub fn from_secs(secs: u64) -> (d: Duration)
        ensures
            d.spec_secs() == secs,
    {
        Duration { secs }
    }

    /// Whole seconds in the span.
    pub fn as_secs(&self) -> (s: u64)
        ensures
            s == self.spec_secs(),
    {
        self.secs
    }
}

/// Seconds per unit letter (already lower-cased).
pub open spec fn unit_seconds(u: char) -> Option<nat> {
    if u == 's' {
        Some(1)
    } else if u == 'm' {
        Some(60)
    } else if u == 'h' {
        Some(3600)
    } else if u == 'd' {
        Some(86400)
    } else {
        None
    }
}

/// What `parse_duration_secs` gives for `raw`: seconds, or the error message.
pub open spec fn duration_spec(raw: Seq<char>) -> Result<nat, Seq<char>> {
    let s = trim(raw);
    if s.len() == 0 {
        Err("empty"@)
    } else {
        let last = s.last();
        let unit = lower_char(last);
        let num = if is_ascii_alpha(last) { s.drop_last() } else { s };
        let mult = if is_ascii_alpha(last) { unit_seconds(unit) } else { Some(1nat) };
        match mult {
            None => Err("unknown unit '"@ + seq![unit] + "'"@),
            Some(m) => match parse_unsigned(trim(num), u64::MAX as nat) {
                None => Err("not a number: "@ + num),
                Some(n) => if n == 0 {
                    Err("duration must be > 0"@)
                } else if n * m > u64::MAX {
                    Err("duration overflow"@)
                } else {
                    Ok(n * m)
                },
            },
        }
    }
}

/// Parse human durations: `10`, `10s`, `5m`, `2h`, `1d` (unit letter in either case).
pub fn parse_duration_secs(raw: &str) -> (r: Result<Duration, RenderError>)
    ensures
        match r {
            Ok(d) => duration_spec(raw@) == Ok::<nat, Seq<char>>(d.spec_secs()),
            Err(e) => duration_spec(raw@) matches Err(m) && e@ == RenderErrorView::Duration(m),
        },
{
    let all = chars_of(raw);
    let s = trim_chars(&all);
    if s.len() == 0 {
        let m = str_string("empty");
        return Err(RenderError::Duration(m));
    }
    let last = s[s.len() - 1];
    let alpha = is_ascii_alpha_exec(last);
    let num: Vec<char>;
    let mult: u64;
    if alpha {
        num = slice_chars(&s, 0, s.len() - 1);
        assert(num@ =~= s@.drop_last());
        let u = lower_char_exec(last);
        if u == 's' {
            mult = 1;
        } else if u == 'm' {
            mult = 60;
        } else if u == 'h' {
            mult = 3600;
        } else if u == 'd' {
            mult = 86400;
        } else {
            let mut m = str_string("unknown unit '");
            push_char(&mut m, u);
            m.append("'");
            assert(m@ =~= "unknown unit '"@ + seq![u] + "'"@);
            return Err(RenderError::Duration(m));
        }
    } else {
        num = slice_chars(&s, 0, s.len());
        assert(num@ =~= s@);
        mult = 1;
    }
    let t = trim_chars(&num);
    let n = match parse_u64(&t) {
        Some(n) => n,
        None => {
            let mut m = str_string("not a number: ");
            append_chars(&mut m, &num);
            return Err(RenderError::Duration(m));
        },
    };
    if n == 0 {
        let m = str_string("duration must be > 0");
        return Err(RenderError::Duration(m));
    }
    match n.checked_mul(mult) {
        Some(secs) => Ok(Duration::from_secs(secs)),
        None => {
            let m = str_string("duration overflow");
            Err(RenderError::Duration(m))
        },
    }
}

/// A run of digits with no surrounding whitespace is its own trim.
proof fn lemma_trim_plain(s: Seq<char>)
    requires
        s.len() > 0,
        !is_ws(s[0]),
        !is_ws(s.last()),
    ensures
        trim(s) == s,
{
    lemma_trim_start_skip(s, 0);
    assert(s.skip(0) =~= s);
    lemma_trim_end_take(s, s.len() as int);
    assert(s.take(s.len() as int) =~= s);
}

/// The decimal rendering of `n` parses back to `n`.
proof fn lemma_parse_decimal(n: nat)
    requires
        n <= u64::MAX,
    ensures
        trim(decimal(n)) == decimal(n),
        parse_unsigned(trim(decimal(n)), u64::MAX as nat) == Some(n),
{
    lemma_decimal_props(n);
    lemma_trim_plain(decimal(n));
}

/// A bare number is read as seconds: for every `n > 0`, `parse_duration_secs(n)`
/// is `n` seconds.
pub proof fn law_bare_number_is_seconds(n: u64)
    requires
        n > 0,
    ensures
        duration_spec(decimal(n as nat)) == Ok::<nat, Seq<char>>(n as nat),
{
    lemma_parse_decimal(n as nat);
    lemma_decimal_props(n as nat);
}

/// A number followed by a unit letter (`s`, `m`, `h`, `d`, either case) is that many
/// seconds, minutes, hours or days, and an error when the seconds overflow `u64`.
pub proof fn law_unit_suffix(n: u64, unit: char)
    requires
        n > 0,
        unit_seconds(lower_char(unit)) is Some,
    ensures
        ({
            let m = unit_seconds(lower_char(unit)).unwrap();
            duration_spec(decimal(n as nat).push(unit)) == if n * m <= u64::MAX {
                Ok::<nat, Seq<char>>((n as nat) * m)
            } else {
                Err::<nat, Seq<char>>("duration overflow"@)
            }
        }),
{
    let d = decimal(n as nat);
    let s = d.push(unit);
    lemma_parse_decimal(n as nat);
    lemma_decimal_props(n as nat);
    assert(s[0] == d[0]);
    assert(!is_ws(unit));
    lemma_trim_plain(s);
    assert(s.drop_last() =~= d);
}

/// Zero is rejected, bare or with any unit letter.
pub proof fn law_zero_rejected(unit: char)
    requires
        unit_seconds(lower_char(unit)) is Some,
    ensures
        duration_spec(seq!['0']) is Err,
        duration_spec(seq!['0', unit]) is Err,
{
    let z = seq!['0'];
    assert(decimal(0) == z);
    lemma_parse_decimal(0);
    let s = seq!['0', unit];
    assert(!is_ws(unit));
    lemma_trim_plain(s);
    assert(s.drop_last() =~= z);
}


/// The unit letters and their lengths, in either case: `s` one second, `m` sixty, `h`
/// an hour (3600), `d` a day (86400); every other letter is no unit.
pub proof fn law_unit_values(u: char)
    ensures
        (u == 's' || u == 'S') ==> unit_seconds(lower_char(u)) == Some(1nat),
        (u == 'm' || u == 'M') ==> unit_seconds(lower_char(u)) == Some(60nat),
        (u == 'h' || u == 'H') ==> unit_seconds(lower_char(u)) == Some(3600nat),
        (u == 'd' || u == 'D') ==> unit_seconds(lower_char(u)) == Some(86400nat),
        !(u == 's' || u == 'S' || u == 'm' || u == 'M' || u == 'h' || u == 'H' || u == 'd' || u == 'D')
            ==> unit_seconds(lower_char(u)) is None,
{
    assert(('S' as u32) + 32 == 's' as u32);
    assert(('M' as u32) + 32 == 'm' as u32);
    assert(('H' as u32) + 32 == 'h' as u32);
    assert(('D' as u32) + 32 == 'd' as u32);
}

} // verus!
