//! The debug console switch and the escaping of a program path for a desktop
//! entry's `Exec` line.
use vstd::prelude::*;
use crate::text::{chars_of, str_equal, string_of};

verus! {

/// Whether log lines are echoed to the console.
pub struct DebugConsoleState {
    pub enabled: bool,
}

impl DebugConsoleState {
    pub fn new(enabled: bool) -> (r: Self)
        ensures
            r.enabled == enabled,
    {
        DebugConsoleState { enabled }
    }

    pub fn enabled(&self) -> (r: bool)
        ensures
            r == self.enabled,
    {
        self.enabled
    }
}

pub open spec fn strings_view(v: Seq<String>) -> Seq<Seq<char>> {
    v.map_values(|s: String| s@)
}

/// Whether the command line asks for the debug console.
pub fn debug_console_from_args(args: &[String]) -> (r: bool)
    ensures
        r == strings_view(args@).contains("--debug"@),
{
    let mut i: usize = 0;
    while i < args.len()
        invariant
            i <= args@.len(),
            forall|j: int| 0 <= j < i ==> args@[j]@ != "--debug"@,
        decreases args@.len() - i,
    {
        if str_equal(args[i].as_str(), "--debug") {
            assert(strings_view(args@)[i as int] == "--debug"@);
            return true;
        }
        i = i + 1;
    }
    assert(!strings_view(args@).contains("--debug"@)) by {
        if strings_view(args@).contains("--debug"@) {
            let j = choose|j: int| 0 <= j < strings_view(args@).len() && strings_view(args@)[j] == "--debug"@;
            assert(args@[j]@ == "--debug"@);
        }
    }
    false
}

/// `%` doubled.
pub open spec fn double_percent(s: Seq<char>) -> Seq<char>
    decreases s.len(),
{
    if s.len() == 0 {
        s
    } else {
        double_percent(s.drop_last()) + if s.last() == '%' {
            seq!['%', '%']
        } else {
            seq![s.last()]
        }
    }
}

/// Quotes and backslashes escaped with a backslash.
pub open spec fn escape_quoted(s: Seq<char>) -> Seq<char>
    decreases s.len(),
{
    if s.len() == 0 {
        s
    } else {
        escape_quoted(s.drop_last()) + if s.last() == '"' {
            seq!['\\', '"']
        } else if s.last() == '\\' {
            seq!['\\', '\\']
        } else {
            seq![s.last()]
        }
    }
}

/// A path as the `Exec` line of a desktop entry needs it: `%` doubled, and
/// when it holds a space, a tab or a quote, quoted with quotes and
/// backslashes escaped.
pub open spec fn desktop_exec(path: Seq<char>) -> Seq<char> {
    let d = double_percent(path);
    if d.contains(' ') || d.contains('\t') || d.contains('"') {
        seq!['"'] + escape_quoted(d) + seq!['"']
    } else {
        d
    }
}

/// Escapes a program path for a desktop entry's `Exec` line.
pub fn escape_desktop_exec(path: &str) -> (r: String)
    ensures
        r@ == desktop_exec(path@),
{
    let raw = chars_of(path);
    let mut d: Vec<char> = Vec::new();
    let mut needs = false;
    let mut i: usize = 0;
    while i < raw.len()
        invariant
            raw@ == path@,
            i <= raw@.len(),
            d@ == double_percent(raw@.subrange(0, i as int)),
            needs == (d@.contains(' ') || d@.contains('\t') || d@.contains('"')),
        decreases raw@.len() - i,
    {
        assert(raw@.subrange(0, i + 1).drop_last() =~= raw@.subrange(0, i as int));
        let ghost before = d@;
        let c = raw[i];
        if c == '%' {
            d.push('%');
            d.push('%');
        } else {
            d.push(c);
        }
        if c == ' ' || c == '\t' || c == '"' {
            needs = true;
            assert(d@[d@.len() - 1] == c);
        }
        assert forall|x: char| d@.contains(x) <==> (before.contains(x) || (c == '%' && x == '%') || (c != '%' && x == c)) by {
            if d@.contains(x) {
                let k = choose|k: int| 0 <= k < d@.len() && d@[k] == x;
                if k < before.len() {
                    assert(before[k] == x);
                }
            }
            if before.contains(x) {
                let k = choose|k: int| 0 <= k < before.len() && before[k] == x;
                assert(d@[k] == x);
            }
            if c != '%' && x == c {
                assert(d@[d@.len() - 1] == x);
            }
            if c == '%' && x == '%' {
                assert(d@[d@.len() - 1] == x);
            }
        }
        i = i + 1;
    }
    assert(raw@.subrange(0, raw@.len() as int) =~= raw@);
    if !needs {
        return string_of(&d);
    }
    let mut q: Vec<char> = Vec::new();
    q.push('"');
    let mut k: usize = 0;
    while k < d.len()
        invariant
            k <= d@.len(),
            q@ == seq!['"'] + escape_quoted(d@.subrange(0, k as int)),
        decreases d@.len() - k,
    {
        assert(d@.subrange(0, k + 1).drop_last() =~= d@.subrange(0, k as int));
        let c = d[k];
        if c == '"' {
            q.push('\\');
            q.push('"');
        } else if c == '\\' {
            q.push('\\');
            q.push('\\');
        } else {
            q.push(c);
        }
        k = k + 1;
        assert(q@ =~= seq!['"'] + escape_quoted(d@.subrange(0, k as int)));
    }
    assert(d@.subrange(0, d@.len() as int) =~= d@);
    q.push('"');
    string_of(&q)
}

} // verus!
