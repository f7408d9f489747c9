//! Job identifiers: `<UTC time>_<six base-36 characters>`, e.g.
//! `2026-01-05T11-30-02Z_a1b2c3`.
use vstd::prelude::*;
use crate::datetime::{clock_time, now_utc, UtcDateTime};
use crate::text::{decimal, decimal2, push_decimal, push_decimal2, string_of};

verus! {

/// A year written with at least four digits.
pub open spec fn year4(y: int) -> Seq<char> {
    if 0 <= y < 10 {
        "000"@ + decimal(y as nat)
    } else if 10 <= y < 100 {
        "00"@ + decimal(y as nat)
    } else if 100 <= y < 1000 {
        "0"@ + decimal(y as nat)
    } else {
        crate::text::decimal_int(y)
    }
}

/// The base-36 digit of a value below 36.
pub open spec fn base36_digit(v: int) -> char {
    if v < 10 {
        (('0' as u8) + (v as u8)) as char
    } else {
        (('a' as u8) + ((v - 10) as u8)) as char
    }
}

/// The `k` lowest base-36 digits of `n`, least significant first.
pub open spec fn base36_low(n: nat, k: nat) -> Seq<char>
    decreases k,
{
    if k == 0 {
        seq![]
    } else {
        seq![base36_digit((n % 36) as int)] + base36_low(n / 36, (k - 1) as nat)
    }
}

/// The job id of a start time and a seed.
pub open spec fn job_id_spec(t: UtcDateTime, seed: nat) -> Seq<char> {
    year4(t.year as int) + seq!['-'] + decimal2(t.month as nat) + seq!['-'] + decimal2(t.day as nat) + seq!['T']
        + decimal2(t.hour as nat) + seq!['-'] + decimal2(t.minute as nat) + seq!['-'] + decimal2(t.second as nat)
        + seq!['Z', '_'] + base36_low(seed, 6)
}

fn base36_digit_exec(v: u128) -> (r: char)
    requires
        v < 36,
    ensures
        r == base36_digit(v as int),
{
    if v < 10 {
        (('0' as u8) + (v as u8)) as char
    } else {
        (('a' as u8) + ((v - 10) as u8)) as char
    }
}

/// Formats the id of a job started at `t`, its unique part drawn from `seed`.
pub fn job_id_from(t: &UtcDateTime, seed: u128) -> (r: String)
    ensures
        r@ == job_id_spec(*t, seed as nat),
{
    let mut out: Vec<char> = Vec::new();
    let y = t.year;
    if 0 <= y && y < 10 {
        out.push('0');
        out.push('0');
        out.push('0');
        push_decimal(&mut out, y as u64);
    } else if 10 <= y && y < 100 {
        out.push('0');
        out.push('0');
        push_decimal(&mut out, y as u64);
    } else if 100 <= y && y < 1000 {
        out.push('0');
        push_decimal(&mut out, y as u64);
    } else {
        crate::text::push_decimal_i64(&mut out, y as i64);
    }
    proof {
        reveal_strlit("000");
        reveal_strlit("00");
        reveal_strlit("0");
    }
    assert(out@ =~= year4(t.year as int));
    out.push('-');
    push_decimal2(&mut out, t.month as u64);
    out.push('-');
    push_decimal2(&mut out, t.day as u64);
    out.push('T');
    push_decimal2(&mut out, t.hour as u64);
    out.push('-');
    push_decimal2(&mut out, t.minute as u64);
    out.push('-');
    push_decimal2(&mut out, t.second as u64);
    out.push('Z');
    out.push('_');
    let ghost head = out@;
    let mut n = seed;
    let mut k: usize = 0;
    while k < 6
        invariant
            k <= 6,
            out@ + base36_low(n as nat, (6 - k) as nat) == head + base36_low(seed as nat, 6),
        decreases 6 - k,
    {
        let ghost before = out@;
        out.push(base36_digit_exec(n % 36));
        assert(base36_low(n as nat, (6 - k) as nat) == seq![base36_digit((n % 36) as int)] + base36_low((n / 36) as nat, (6 - k - 1) as nat));
        assert(out@ + base36_low((n / 36) as nat, (6 - k - 1) as nat) =~= before + base36_low(n as nat, (6 - k) as nat));
        n = n / 36;
        k = k + 1;
    }
    assert(out@ =~= head + base36_low(seed as nat, 6));
    assert(out@ =~= job_id_spec(*t, seed as nat));
    string_of(&out)
}

/// A new job id: the current UTC time (1970-01-01T00:00:00Z when the system
/// clock reads earlier) and six base-36 characters of `seed` (the caller's
/// source of uniqueness).
pub fn generate_job_id(seed: u128) -> (r: String)
    ensures
        exists|secs: Option<u64>| r@ == job_id_spec(clock_time(secs), seed as nat),
{
    let now = now_utc();
    job_id_from(&now, seed)
}

/// The current time in epoch seconds; 0 when the system clock reads earlier
/// than the epoch.
pub fn current_timestamp() -> (r: i64)
    ensures
        exists|secs: Option<u64>| clock_time(secs).epoch() == r,
{
    let now = now_utc();
    now.timestamp()
}

} // verus!
