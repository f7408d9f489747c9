//! Archiver helpers: the command line of a compression run, chosen from the
//! machine's cores, load and memory; progress parsing; password redaction.
use vstd::prelude::*;
use crate::text::{
    chars_of, digit_at, has_at, is_ascii_digit, matches_at, push_decimal, push_str_chars,
    string_of, trim, trim_chars, all_digits, digits_value,
};

verus! {

pub open spec fn strings_view(v: Seq<String>) -> Seq<Seq<char>> {
    v.map_values(|s: String| s@)
}

/// An argument as it may be shown: a password switch is masked.
pub open spec fn redacted(arg: Seq<char>) -> Seq<char> {
    if has_at(arg, 0, "-p"@) {
        "-p********"@
    } else {
        arg
    }
}

/// The arguments with every password switch masked.
pub fn redact_7z_password_args(args: &[String]) -> (r: Vec<String>)
    ensures
        r@.len() == args@.len(),
        forall|i: int| 0 <= i < args@.len() ==> (#[trigger] r@[i])@ == redacted(args@[i]@),
{
    let p = chars_of("-p");
    let mut out: Vec<String> = Vec::new();
    let mut i: usize = 0;
    while i < args.len()
        invariant
            p@ == "-p"@,
            i <= args@.len(),
            out@.len() == i,
            forall|k: int| 0 <= k < i ==> (#[trigger] out@[k])@ == redacted(args@[k]@),
        decreases args@.len() - i,
    {
        let a = chars_of(args[i].as_str());
        if matches_at(a.as_slice(), 0, p.as_slice()) {
            out.push("-p********".to_string());
        } else {
            out.push(args[i].clone());
        }
        i = i + 1;
    }
    out
}

/// Index of the first digit of the run of ASCII digits that ends at `idx`.
pub open spec fn digits_start(s: Seq<char>, idx: int) -> int
    decreases idx,
{
    if idx <= 0 || idx > s.len() || !is_ascii_digit(s[idx - 1]) {
        idx
    } else {
        digits_start(s, idx - 1)
    }
}

/// The percentage a `%` at `idx` closes: the digits before it, when they read
/// as at most 100.
pub open spec fn percent_at(s: Seq<char>, idx: int) -> Option<u8> {
    let st = digits_start(s, idx);
    if 0 <= idx < s.len() && s[idx] == '%' && st < idx && digits_value(s.subrange(st, idx)) <= 100 {
        Some(digits_value(s.subrange(st, idx)) as u8)
    } else {
        None
    }
}

/// The last percentage of a line, searching from its end.
pub open spec fn last_percent(s: Seq<char>, end: int) -> Option<u8>
    decreases end,
{
    if end <= 0 {
        None
    } else if percent_at(s, end - 1) is Some {
        percent_at(s, end - 1)
    } else {
        last_percent(s, end - 1)
    }
}

fn digits_before(s: &[char], idx: usize) -> (r: usize)
    requires
        idx <= s@.len(),
    ensures
        r == digits_start(s@, idx as int),
        r <= idx,
        forall|k: int| r <= k < idx ==> is_ascii_digit(#[trigger] s@[k]),
{
    let mut st = idx;
    while st > 0 && digit_at(s[st - 1])
        invariant
            st <= idx <= s@.len(),
            digits_start(s@, st as int) == digits_start(s@, idx as int),
            forall|k: int| st <= k < idx ==> is_ascii_digit(#[trigger] s@[k]),
        decreases st,
    {
        st = st - 1;
    }
    st
}

/// Reads digits as a value, giving up (None) once it passes `cap`.
fn capped_value(s: &[char], from: usize, to: usize, cap: u64) -> (r: Option<u64>)
    requires
        from <= to <= s@.len(),
        all_digits(s@.subrange(from as int, to as int)),
        cap < 1000,
    ensures
        r matches Some(v) ==> v == digits_value(s@.subrange(from as int, to as int)) && v <= cap,
        r is None ==> digits_value(s@.subrange(from as int, to as int)) > cap,
{
    let mut acc: u64 = 0;
    let mut i = from;
    while i < to
        invariant
            from <= i <= to <= s@.len(),
            cap < 1000,
            all_digits(s@.subrange(from as int, to as int)),
            acc <= cap,
            acc as int == digits_value(s@.subrange(from as int, i as int)),
        decreases to - i,
    {
        assert(s@.subrange(from as int, i + 1).drop_last() =~= s@.subrange(from as int, i as int));
        assert(is_ascii_digit(s@.subrange(from as int, to as int)[i - from]));
        acc = acc * 10 + (s[i] as u32 - '0' as u32) as u64;
        if acc > cap {
            proof {
                assert(all_digits(s@.subrange(from as int, i + 1))) by {
                    assert forall|k: int| 0 <= k < i + 1 - from implies is_ascii_digit(#[trigger] s@.subrange(from as int, i + 1)[k]) by {
                        assert(s@.subrange(from as int, i + 1)[k] == s@.subrange(from as int, to as int)[k]);
                    }
                }
                let whole = s@.subrange(from as int, to as int);
                assert(whole.subrange(0, i + 1 - from) =~= s@.subrange(from as int, i + 1));
                crate::text::lemma_digits_value_grows(whole, i + 1 - from);
            }
            return None;
        }
        i = i + 1;
    }
    Some(acc)
}

/// The last percentage (0 to 100) written in a line of archiver output.
pub fn extract_percent(line: &str) -> (r: Option<u8>)
    ensures
        r == last_percent(line@, line@.len() as int),
{
    let s = chars_of(line);
    let mut idx = s.len();
    while idx > 0
        invariant
            s@ == line@,
            idx <= s@.len(),
            last_percent(s@, idx as int) == last_percent(s@, s@.len() as int),
        decreases idx,
    {
        let k = idx - 1;
        if s[k] == '%' {
            let st = digits_before(s.as_slice(), k);
            if st < k {
                assert(all_digits(s@.subrange(st as int, k as int)));
                match capped_value(s.as_slice(), st, k, 100) {
                    Some(v) => {
                        return Some(v as u8);
                    },
                    None => {},
                }
            }
        }
        idx = k;
    }
    None
}

/// `s` without trailing `%` signs.
pub open spec fn strip_percents(s: Seq<char>) -> Seq<char>
    decreases s.len(),
{
    if s.len() > 0 && s.last() == '%' {
        strip_percents(s.drop_last())
    } else {
        s
    }
}

/// A line that is only a percentage: trimmed, it ends in `%`, and what stands
/// before its `%` signs is a non-empty run of digits worth at most 255.
pub open spec fn is_progress(line: Seq<char>) -> bool {
    let t = trim(line);
    let n = strip_percents(t);
    t.len() > 0 && t.last() == '%' && n.len() > 0 && all_digits(n) && digits_value(n) <= 255
}

/// Whether a line of archiver output is a bare progress percentage.
pub fn is_progress_line(line: &str) -> (r: bool)
    ensures
        r == is_progress(line@),
{
    let t = trim_chars(chars_of(line).as_slice());
    if t.len() == 0 || t[t.len() - 1] != '%' {
        return false;
    }
    let mut e = t.len();
    assert(t@.subrange(0, t@.len() as int) =~= t@);
    while e > 0 && t[e - 1] == '%'
        invariant
            e <= t@.len(),
            strip_percents(t@.subrange(0, e as int)) == strip_percents(t@),
        decreases e,
    {
        assert(t@.subrange(0, e as int).drop_last() =~= t@.subrange(0, e - 1));
        e = e - 1;
    }
    assert(t@.subrange(0, t@.len() as int) =~= t@);
    assert(strip_percents(t@.subrange(0, e as int)) == t@.subrange(0, e as int));
    if e == 0 {
        assert(strip_percents(t@).len() == 0);
        return false;
    }
    assert(is_progress(line@) == (all_digits(t@.subrange(0, e as int)) && digits_value(t@.subrange(0, e as int)) <= 255));
    let mut i: usize = 0;
    while i < e
        invariant
            e <= t@.len(),
            i <= e,
            is_progress(line@) == (all_digits(t@.subrange(0, e as int)) && digits_value(t@.subrange(0, e as int)) <= 255),
            forall|k: int| 0 <= k < i ==> is_ascii_digit(#[trigger] t@[k]),
        decreases e - i,
    {
        if !digit_at(t[i]) {
            assert(!all_digits(t@.subrange(0, e as int))) by {
                assert(!is_ascii_digit(t@.subrange(0, e as int)[i as int]));
            }
            return false;
        }
        i = i + 1;
    }
    assert(all_digits(t@.subrange(0, e as int))) by {
        assert forall|k: int| 0 <= k < e implies is_ascii_digit(#[trigger] t@.subrange(0, e as int)[k]) by {
            assert(t@.subrange(0, e as int)[k] == t@[k]);
        }
    }
    assert(t@.subrange(0, e as int) == t@.subrange(0 as int, e as int).subrange(0, e as int));
    capped_value(t.as_slice(), 0, e, 255).is_some()
}

} // verus!

verus! {

pub const MB: u64 = 1048576;
pub const GB: u64 = 1073741824;

/// What the machine offers a compression run.
#[derive(Clone, Copy, Debug)]
pub struct MachineLoad {
    /// Logical cores.
    pub cpu_cores: u64,
    /// Overall processor use, in whole percent.
    pub cpu_usage_percent: u32,
    /// Total memory in KiB.
    pub total_memory_kib: u64,
    /// Available memory in KiB.
    pub available_memory_kib: u64,
}

pub open spec fn sat_kib(kib: u64) -> int {
    if kib as int * 1024 > u64::MAX {
        u64::MAX as int
    } else {
        kib as int * 1024
    }
}

pub open spec fn max_i(a: int, b: int) -> int {
    if a >= b {
        a
    } else {
        b
    }
}

pub open spec fn min_i(a: int, b: int) -> int {
    if a <= b {
        a
    } else {
        b
    }
}

/// Threads by core count: leave headroom for the rest of the system.
pub open spec fn core_threads(cores: u64) -> int {
    if 1 <= cores <= 2 {
        1
    } else if 3 <= cores <= 4 {
        2
    } else if 5 <= cores <= 8 {
        4
    } else if 9 <= cores <= 16 {
        8
    } else {
        12
    }
}

/// Threads after a busy processor halves (from 80%) or cuts by a third (from 60%) them.
pub open spec fn load_threads(m: MachineLoad) -> int {
    let t = core_threads(m.cpu_cores);
    if m.cpu_usage_percent >= 80 {
        max_i(t / 2, 1)
    } else if m.cpu_usage_percent >= 60 {
        max_i((t * 2) / 3, 1)
    } else {
        t
    }
}

/// Memory is under high pressure: 80% used, or under 3 GiB available.
pub open spec fn high_pressure(m: MachineLoad) -> bool {
    let total = sat_kib(m.total_memory_kib);
    let avail = sat_kib(m.available_memory_kib);
    let used = max_i(total - avail, 0);
    (total > 0 && used * 100 >= total * 80) || avail < 3 * GB
}

/// Memory is under medium pressure: not high, but 60% used or under 6 GiB available.
pub open spec fn medium_pressure(m: MachineLoad) -> bool {
    let total = sat_kib(m.total_memory_kib);
    let avail = sat_kib(m.available_memory_kib);
    let used = max_i(total - avail, 0);
    !high_pressure(m) && ((total > 0 && used * 100 >= total * 60) || avail < 6 * GB)
}

/// Memory a run may use: what is available beyond a reserve.
pub open spec fn usable_memory(m: MachineLoad) -> int {
    let total = sat_kib(m.total_memory_kib);
    let avail = sat_kib(m.available_memory_kib);
    let base = max_i(512 * MB, total / 5);
    let reserved = if high_pressure(m) {
        max_i(base, avail / 2)
    } else if medium_pressure(m) {
        max_i(base, avail / 3)
    } else {
        max_i(base, avail / 4)
    };
    max_i(avail - reserved, 0)
}

/// Threads within the memory budget.
pub open spec fn memory_threads(m: MachineLoad) -> int {
    let t0 = load_threads(m);
    let t1 = if high_pressure(m) {
        min_i(t0, 2)
    } else if medium_pressure(m) {
        min_i(t0, 4)
    } else {
        t0
    };
    let per = if high_pressure(m) {
        GB as int
    } else if medium_pressure(m) {
        768 * MB
    } else {
        512 * MB
    };
    let u = usable_memory(m);
    let cap = if u >= per {
        u / per
    } else {
        1
    };
    max_i(min_i(t1, max_i(cap, 1)), 1)
}

/// The largest dictionary (8 MiB to 256 MiB, doubling) within `max_bytes`, in MiB.
pub open spec fn dict_fit(max_bytes: int) -> Option<int> {
    if 256 * MB <= max_bytes {
        Some(256)
    } else if 128 * MB <= max_bytes {
        Some(128)
    } else if 64 * MB <= max_bytes {
        Some(64)
    } else if 32 * MB <= max_bytes {
        Some(32)
    } else if 16 * MB <= max_bytes {
        Some(16)
    } else if 8 * MB <= max_bytes {
        Some(8)
    } else {
        None
    }
}

/// Threads and dictionary size (MiB): a third of each thread's share of
/// usable memory must hold the dictionary; threads are given up one by one
/// until one fits, and a single thread takes the smallest dictionary.
pub open spec fn threads_and_dict(usable: int, threads: int) -> (int, int)
    decreases threads,
{
    let per = if usable == 0 || threads <= 0 {
        0
    } else {
        usable / threads
    };
    match dict_fit(per / 3) {
        Some(d) => (threads, d),
        None => if threads <= 1 {
            (threads, 8)
        } else {
            threads_and_dict(usable, threads - 1)
        },
    }
}

/// The archiver's command line for compressing `source` into `archive`.
pub open spec fn compression_args(m: MachineLoad, archive: Seq<char>, source: Seq<char>, password: Option<Seq<char>>) -> Seq<Seq<char>> {
    let (threads, dict) = threads_and_dict(usable_memory(m), memory_threads(m));
    let pw: Seq<Seq<char>> = match password {
        Some(p) => if p.len() > 0 {
            seq!["-p"@ + p]
        } else {
            seq![]
        },
        None => seq![],
    };
    seq!["a"@, "-t7z"@, "-mx9"@, "-mmt"@ + crate::text::decimal(threads as nat), "-md="@ + crate::text::decimal(dict as nat) + "m"@, "-bsp1"@]
        + pw + seq![archive, source]
}

fn max_u(a: u64, b: u64) -> (r: u64)
    ensures
        r == max_i(a as int, b as int),
{
    if a >= b {
        a
    } else {
        b
    }
}

fn min_u(a: u64, b: u64) -> (r: u64)
    ensures
        r == min_i(a as int, b as int),
{
    if a <= b {
        a
    } else {
        b
    }
}

fn kib_bytes(kib: u64) -> (r: u64)
    ensures
        r == sat_kib(kib),
{
    if kib > u64::MAX / 1024 {
        u64::MAX
    } else {
        kib * 1024
    }
}

fn dict_fit_exec(max_bytes: u64) -> (r: Option<u64>)
    ensures
        r matches Some(v) ==> dict_fit(max_bytes as int) == Some(v as int),
        r is None ==> dict_fit(max_bytes as int) is None,
{
    if 256 * MB <= max_bytes {
        Some(256)
    } else if 128 * MB <= max_bytes {
        Some(128)
    } else if 64 * MB <= max_bytes {
        Some(64)
    } else if 32 * MB <= max_bytes {
        Some(32)
    } else if 16 * MB <= max_bytes {
        Some(16)
    } else if 8 * MB <= max_bytes {
        Some(8)
    } else {
        None
    }
}

fn pressure(m: &MachineLoad) -> (r: (bool, bool))
    ensures
        r.0 == high_pressure(*m),
        r.1 == medium_pressure(*m),
{
    let total = kib_bytes(m.total_memory_kib);
    let avail = kib_bytes(m.available_memory_kib);
    let used = total.saturating_sub(avail);
    let used_x = used as u128;
    let total_x = total as u128;
    let high = (total > 0 && used_x * 100 >= total_x * 80) || avail < 3 * GB;
    let medium = !high && ((total > 0 && used_x * 100 >= total_x * 60) || avail < 6 * GB);
    (high, medium)
}

fn usable_exec(m: &MachineLoad, high: bool, medium: bool) -> (r: u64)
    requires
        high == high_pressure(*m),
        medium == medium_pressure(*m),
    ensures
        r == usable_memory(*m),
{
    let total = kib_bytes(m.total_memory_kib);
    let avail = kib_bytes(m.available_memory_kib);
    let base = max_u(512 * MB, total / 5);
    let reserved = if high {
        max_u(base, avail / 2)
    } else if medium {
        max_u(base, avail / 3)
    } else {
        max_u(base, avail / 4)
    };
    avail.saturating_sub(reserved)
}

fn memory_threads_exec(m: &MachineLoad, high: bool, medium: bool, usable: u64) -> (r: u64)
    requires
        high == high_pressure(*m),
        medium == medium_pressure(*m),
        usable == usable_memory(*m),
    ensures
        r == memory_threads(*m),
        1 <= r <= 12,
{
    let c = m.cpu_cores;
    let t: u64 = if 1 <= c && c <= 2 {
        1
    } else if 3 <= c && c <= 4 {
        2
    } else if 5 <= c && c <= 8 {
        4
    } else if 9 <= c && c <= 16 {
        8
    } else {
        12
    };
    let t0 = if m.cpu_usage_percent >= 80 {
        max_u(t / 2, 1)
    } else if m.cpu_usage_percent >= 60 {
        max_u((t * 2) / 3, 1)
    } else {
        t
    };
    let t1 = if high {
        min_u(t0, 2)
    } else if medium {
        min_u(t0, 4)
    } else {
        t0
    };
    let per: u64 = if high {
        GB
    } else if medium {
        768 * MB
    } else {
        512 * MB
    };
    let cap = if usable >= per {
        usable / per
    } else {
        1
    };
    max_u(min_u(t1, max_u(cap, 1)), 1)
}

/// Works out the archiver's command line from the machine's load: ultra
/// compression, a thread count and dictionary size that fit the cores, the
/// processor load and the memory, and the password switch when a password is given.
pub fn calculate_7z_compression_args(source_dir: &str, output_archive: &str, password: Option<&str>, load: &MachineLoad) -> (r: Vec<String>)
    ensures
        strings_view(r@) == compression_args(*load, output_archive@, source_dir@, match password {
            Some(p) => Some(p@),
            None => None,
        }),
{
    let (high, medium) = pressure(load);
    let usable = usable_exec(load, high, medium);
    let mut threads = memory_threads_exec(load, high, medium, usable);
    let ghost start = threads;
    let mut dict: u64 = 8;
    loop
        invariant
            1 <= threads <= 12,
            usable == usable_memory(*load),
            threads_and_dict(usable as int, threads as int) == threads_and_dict(usable as int, start as int),
        ensures
            threads_and_dict(usable as int, start as int) == (threads as int, dict as int),
        decreases threads,
    {
        let per = if usable == 0 {
            0
        } else {
            usable / threads
        };
        match dict_fit_exec(per / 3) {
            Some(d) => {
                dict = d;
                break;
            },
            None => {
                if threads <= 1 {
                    dict = 8;
                    break;
                }
                threads = threads - 1;
            },
        }
    }
    let mut args: Vec<String> = Vec::new();
    args.push("a".to_string());
    args.push("-t7z".to_string());
    args.push("-mx9".to_string());
    let mut mmt: Vec<char> = Vec::new();
    push_str_chars(&mut mmt, "-mmt");
    push_decimal(&mut mmt, threads);
    args.push(string_of(&mmt));
    let mut md: Vec<char> = Vec::new();
    push_str_chars(&mut md, "-md=");
    push_decimal(&mut md, dict);
    push_str_chars(&mut md, "m");
    args.push(string_of(&md));
    args.push("-bsp1".to_string());
    let ghost before_pw = strings_view(args@);
    match password {
        Some(p) => {
            if !crate::text::str_is_empty(p) {
                let mut pw: Vec<char> = Vec::new();
                push_str_chars(&mut pw, "-p");
                push_str_chars(&mut pw, p);
                args.push(string_of(&pw));
            }
        },
        None => {},
    }
    args.push(output_archive.to_string());
    args.push(source_dir.to_string());
    assert(strings_view(args@) =~= compression_args(*load, output_archive@, source_dir@, match password {
        Some(p) => Some(p@),
        None => None,
    }));
    args
}

} // verus!

verus! {

/// What the archiver's output yields: a log line, or a new progress figure.
pub enum ArchiverEvent {
    Line(String),
    Progress(u8),
}

/// The view of an archiver event.
pub enum ArchiverNote {
    Line(Seq<char>),
    Progress(u8),
}

pub open spec fn note_of(e: ArchiverEvent) -> ArchiverNote {
    match e {
        ArchiverEvent::Line(s) => ArchiverNote::Line(s@),
        ArchiverEvent::Progress(p) => ArchiverNote::Progress(p),
    }
}

pub open spec fn notes_of(v: Seq<ArchiverEvent>) -> Seq<ArchiverNote> {
    v.map_values(|e: ArchiverEvent| note_of(e))
}

/// The archiver's output read so far: the line being built, whether the last
/// character was a carriage return, and the last progress figure reported.
pub struct ArchiverReader {
    pub line: Vec<char>,
    pub last_was_cr: bool,
    pub last_percent: Option<u8>,
}

/// The line event for a finished line: none for a bare progress figure.
pub open spec fn line_note(line: Seq<char>) -> Seq<ArchiverNote> {
    if is_progress(line) {
        seq![]
    } else {
        seq![ArchiverNote::Line(line)]
    }
}

/// One character of archiver output: a carriage return ends a non-empty line;
/// a line feed does too, unless it follows a carriage return; a backspace
/// removes the last character; anything else is added. After a character of
/// the line (not a line end), a changed progress figure is reported.
pub open spec fn archiver_step(line: Seq<char>, cr: bool, last: Option<u8>, c: char) -> (Seq<char>, bool, Option<u8>, Seq<ArchiverNote>) {
    if c == '\r' {
        if line.len() > 0 {
            (seq![], true, last, line_note(line))
        } else {
            (line, true, last, seq![])
        }
    } else if c == '\n' {
        if !cr && line.len() > 0 {
            (seq![], false, last, line_note(line))
        } else {
            (line, false, last, seq![])
        }
    } else {
        let l2 = if c == '\u{8}' {
            if line.len() > 0 {
                line.drop_last()
            } else {
                line
            }
        } else {
            line.push(c)
        };
        let p = last_percent(l2, l2.len() as int);
        if p is Some && p != last {
            (l2, false, p, seq![ArchiverNote::Progress(p->0)])
        } else {
            (l2, false, last, seq![])
        }
    }
}

/// The events of a run of characters.
pub open spec fn archiver_run(line: Seq<char>, cr: bool, last: Option<u8>, cs: Seq<char>) -> (Seq<char>, bool, Option<u8>, Seq<ArchiverNote>)
    decreases cs.len(),
{
    if cs.len() == 0 {
        (line, cr, last, seq![])
    } else {
        let (l1, c1, p1, n1) = archiver_run(line, cr, last, cs.drop_last());
        let (l2, c2, p2, n2) = archiver_step(l1, c1, p1, cs.last());
        (l2, c2, p2, n1 + n2)
    }
}

impl ArchiverReader {
    pub fn new() -> (r: Self)
        ensures
            r.line@ == Seq::<char>::empty(),
            !r.last_was_cr,
            r.last_percent is None,
    {
        ArchiverReader { line: Vec::new(), last_was_cr: false, last_percent: None }
    }

    fn emit_line(&mut self, out: &mut Vec<ArchiverEvent>)
        ensures
            notes_of(final(out)@) == notes_of(old(out)@) + line_note(old(self).line@),
            final(self).line@ == Seq::<char>::empty(),
            final(self).last_was_cr == old(self).last_was_cr,
            final(self).last_percent == old(self).last_percent,
    {
        let s = string_of(&self.line);
        self.line = Vec::new();
        let ghost before = notes_of(out@);
        if !is_progress_line(s.as_str()) {
            out.push(ArchiverEvent::Line(s));
        }
        assert(notes_of(out@) =~= before + line_note(old(self).line@));
    }

    /// Reads a decoded chunk of archiver output.
    pub fn feed(&mut self, chunk: &str) -> (r: Vec<ArchiverEvent>)
        ensures
            ({
                let (l, c, p, n) = archiver_run(old(self).line@, old(self).last_was_cr, old(self).last_percent, chunk@);
                &&& final(self).line@ == l
                &&& final(self).last_was_cr == c
                &&& final(self).last_percent == p
                &&& notes_of(r@) == n
            }),
    {
        let cs = chars_of(chunk);
        let mut out: Vec<ArchiverEvent> = Vec::new();
        let mut i: usize = 0;
        while i < cs.len()
            invariant
                i <= cs@.len(),
                cs@ == chunk@,
                ({
                    let (l, c, p, n) = archiver_run(old(self).line@, old(self).last_was_cr, old(self).last_percent, cs@.subrange(0, i as int));
                    &&& self.line@ == l
                    &&& self.last_was_cr == c
                    &&& self.last_percent == p
                    &&& notes_of(out@) == n
                }),
            decreases cs@.len() - i,
        {
            assert(cs@.subrange(0, i + 1).drop_last() =~= cs@.subrange(0, i as int));
            let ch = cs[i];
            let ghost before = notes_of(out@);
            if ch == '\r' {
                if self.line.len() > 0 {
                    self.emit_line(&mut out);
                }
                self.last_was_cr = true;
            } else if ch == '\n' {
                if !self.last_was_cr && self.line.len() > 0 {
                    self.emit_line(&mut out);
                }
                self.last_was_cr = false;
            } else {
                if ch == '\u{8}' {
                    if self.line.len() > 0 {
                        self.line.pop();
                    }
                } else {
                    self.line.push(ch);
                }
                self.last_was_cr = false;
                let current = string_of(&self.line);
                let p = extract_percent(current.as_str());
                match p {
                    Some(v) => {
                        if self.last_percent != Some(v) {
                            self.last_percent = Some(v);
                            out.push(ArchiverEvent::Progress(v));
                            assert(notes_of(out@) =~= before + seq![ArchiverNote::Progress(v)]);
                        }
                    },
                    None => {},
                }
            }
            i = i + 1;
        }
        assert(cs@.subrange(0, cs@.len() as int) =~= cs@);
        out
    }

    /// At the end of the output: the line still being built, without trailing
    /// carriage returns, unless it is empty or a bare progress figure.
    pub fn finish(&mut self) -> (r: Option<String>)
        ensures
            ({
                let t = crate::text::trim_end_cr(old(self).line@);
                &&& old(self).line@.len() > 0 && !is_progress(t) ==> (r matches Some(s) && s@ == t)
                &&& !(old(self).line@.len() > 0 && !is_progress(t)) ==> r is None
            }),
            final(self).line@ == Seq::<char>::empty(),
    {
        if self.line.len() == 0 {
            return None;
        }
        let t = crate::text::trim_end_cr_chars(self.line.as_slice());
        self.line = Vec::new();
        let s = string_of(&t);
        if is_progress_line(s.as_str()) {
            None
        } else {
            Some(s)
        }
    }
}

} // verus!
