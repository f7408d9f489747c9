//! Splitting a child process's output bytes into lines as they arrive: a line
//! ends at a line feed (a carriage return before it is dropped), and a pending
//! partial line that holds the interactive code prompt is let out at once.
use vstd::prelude::*;

verus! {

/// The prompt the download tool prints, without a line feed, before it waits
/// for an emailed code.
pub const EMAIL_PROMPT: &'static str = "STEAM GUARD! Please enter the auth code sent to the email at";

/// `line` without one trailing carriage return.
pub open spec fn strip_cr(line: Seq<u8>) -> Seq<u8> {
    if line.len() > 0 && line.last() == 13u8 {
        line.drop_last()
    } else {
        line
    }
}

/// Bytes split at line feeds: the finished lines, and the unfinished rest.
pub open spec fn split_bytes(b: Seq<u8>) -> (Seq<Seq<u8>>, Seq<u8>)
    decreases b.len(),
{
    if b.len() == 0 {
        (seq![], seq![])
    } else {
        let (lines, cur) = split_bytes(b.drop_last());
        if b.last() == 10u8 {
            (lines.push(strip_cr(cur)), seq![])
        } else {
            (lines, cur.push(b.last()))
        }
    }
}

pub open spec fn bytes_has_at(s: Seq<u8>, at: int, p: Seq<u8>) -> bool {
    0 <= at && at + p.len() <= s.len() && s.subrange(at, at + p.len()) == p
}

pub open spec fn bytes_contain(s: Seq<u8>, p: Seq<u8>) -> bool {
    exists|i: int| #[trigger] bytes_has_at(s, i, p)
}

pub open spec fn prompt_bytes() -> Seq<u8> {
    vstd::utf8::encode_utf8(EMAIL_PROMPT@)
}

/// A byte stream being cut into lines.
pub struct LineSplitter {
    pub pending: Vec<u8>,
    pub prompt_emitted: bool,
}

fn bytes_match_at(s: &[u8], at: usize, p: &[u8]) -> (r: bool)
    ensures
        r == bytes_has_at(s@, at as int, p@),
{
    let n = s.len();
    if at > n || p.len() > n - at {
        return false;
    }
    let mut k: usize = 0;
    while k < p.len()
        invariant
            n == s@.len(),
            at + p@.len() <= n,
            k <= p@.len(),
            forall|j: int| 0 <= j < k ==> s@[at + j] == p@[j],
        decreases p@.len() - k,
    {
        if s[at + k] != p[k] {
            assert(s@.subrange(at as int, at + p@.len())[k as int] != p@[k as int]);
            return false;
        }
        k = k + 1;
    }
    assert(s@.subrange(at as int, at + p@.len()) =~= p@);
    true
}

fn bytes_contain_exec(s: &[u8], p: &[u8]) -> (r: bool)
    ensures
        r == bytes_contain(s@, p@),
{
    let n = s.len();
    let mut i: usize = 0;
    loop
        invariant
            n == s@.len(),
            i <= n,
            forall|j: int| 0 <= j < i ==> !#[trigger] bytes_has_at(s@, j, p@),
        decreases n - i,
    {
        if bytes_match_at(s, i, p) {
            return true;
        }
        if i == n {
            assert forall|j: int| !#[trigger] bytes_has_at(s@, j, p@) by {
                if 0 <= j && j + p@.len() <= s@.len() && j != i {
                    assert(j < i);
                }
            }
            return false;
        }
        i = i + 1;
    }
}

fn strip_cr_exec(mut line: Vec<u8>) -> (r: Vec<u8>)
    ensures
        r@ == strip_cr(line@),
{
    if line.len() > 0 && line[line.len() - 1] == 13u8 {
        line.pop();
    }
    line
}

impl LineSplitter {
    pub fn new() -> (r: Self)
        ensures
            r.pending@ == Seq::<u8>::empty(),
            !r.prompt_emitted,
    {
        LineSplitter { pending: Vec::new(), prompt_emitted: false }
    }

    /// Takes the next chunk of bytes and returns the lines it completes; when
    /// the prompt has not been let out yet and the unfinished rest holds it,
    /// that rest is returned as a line too.
    pub fn feed(&mut self, chunk: &[u8]) -> (r: Vec<Vec<u8>>)
        ensures
            ({
                let (lines, rest) = split_bytes(old(self).pending@ + chunk@);
                let flush = !old(self).prompt_emitted && bytes_contain(rest, prompt_bytes());
                &&& r@.len() == lines.len() + if flush { 1int } else { 0int }
                &&& forall|i: int| 0 <= i < lines.len() ==> (#[trigger] r@[i])@ == lines[i]
                &&& flush ==> r@[lines.len() as int]@ == strip_cr(rest)
                &&& final(self).pending@ == if flush { Seq::<u8>::empty() } else { rest }
                &&& final(self).prompt_emitted == (old(self).prompt_emitted || flush)
            }),
    {
        let ghost buf = old(self).pending@ + chunk@;
        let mut lines: Vec<Vec<u8>> = Vec::new();
        let mut cur: Vec<u8> = Vec::new();
        let mut i: usize = 0;
        let pend_len = self.pending.len();
        while i < pend_len
            invariant
                pend_len == self.pending@.len(),
                self.pending@ == old(self).pending@,
                self.prompt_emitted == old(self).prompt_emitted,
                i <= pend_len,
                buf == old(self).pending@ + chunk@,
                lines@.len() == split_bytes(buf.subrange(0, i as int)).0.len(),
                forall|k: int| 0 <= k < lines@.len() ==> (#[trigger] lines@[k])@ == split_bytes(buf.subrange(0, i as int)).0[k],
                cur@ == split_bytes(buf.subrange(0, i as int)).1,
            decreases pend_len - i,
        {
            assert(buf.subrange(0, i + 1).drop_last() =~= buf.subrange(0, i as int));
            assert(buf[i as int] == self.pending@[i as int]);
            let b = self.pending[i];
            if b == 10u8 {
                let done = strip_cr_exec(cur);
                lines.push(done);
                cur = Vec::new();
            } else {
                cur.push(b);
            }
            i = i + 1;
        }
        let mut j: usize = 0;
        while j < chunk.len()
            invariant
                pend_len == old(self).pending@.len(),
                self.prompt_emitted == old(self).prompt_emitted,
                j <= chunk@.len(),
                buf == old(self).pending@ + chunk@,
                lines@.len() == split_bytes(buf.subrange(0, pend_len + j)).0.len(),
                forall|k: int| 0 <= k < lines@.len() ==> (#[trigger] lines@[k])@ == split_bytes(buf.subrange(0, pend_len + j)).0[k],
                cur@ == split_bytes(buf.subrange(0, pend_len + j)).1,
            decreases chunk@.len() - j,
        {
            assert(buf.subrange(0, pend_len + j + 1).drop_last() =~= buf.subrange(0, pend_len + j));
            assert(buf[pend_len + j] == chunk@[j as int]);
            let b = chunk[j];
            if b == 10u8 {
                let done = strip_cr_exec(cur);
                lines.push(done);
                cur = Vec::new();
            } else {
                cur.push(b);
            }
            j = j + 1;
        }
        assert(buf.subrange(0, pend_len + chunk@.len()) =~= buf);
        let prompt = vstd::slice::slice_to_vec(EMAIL_PROMPT.as_bytes());
        if !self.prompt_emitted && bytes_contain_exec(cur.as_slice(), prompt.as_slice()) {
            lines.push(strip_cr_exec(cur));
            self.pending = Vec::new();
            self.prompt_emitted = true;
        } else {
            self.pending = cur;
        }
        lines
    }

    /// At the end of the stream (or on a read error): the unfinished rest as a
    /// last line, when there is one.
    pub fn finish(&mut self) -> (r: Option<Vec<u8>>)
        ensures
            old(self).pending@.len() == 0 ==> r is None,
            old(self).pending@.len() > 0 ==> (r matches Some(l) && l@ == strip_cr(old(self).pending@)),
            final(self).pending@ == Seq::<u8>::empty(),
    {
        if self.pending.len() == 0 {
            return None;
        }
        let rest = vstd::slice::slice_to_vec(self.pending.as_slice());
        self.pending = Vec::new();
        Some(strip_cr_exec(rest))
    }
}

/// The text of a byte string, with invalid UTF-8 replaced.
pub uninterp spec fn lossy_text(b: Seq<u8>) -> Seq<char>;

/// Relies on `String::from_utf8_lossy`: the text depends on the bytes alone,
/// and well-formed UTF-8 decodes as itself.
#[verifier::external_body]
fn decode_stream_bytes(bytes: &[u8]) -> (r: String)
    ensures
        r@ == lossy_text(bytes@),
        vstd::utf8::valid_utf8(bytes@) ==> r@ == vstd::utf8::decode_utf8(bytes@),
{
    String::from_utf8_lossy(bytes).into_owned()
}

impl LineSplitter {
    /// `feed`, each line decoded as text.
    pub fn feed_text(&mut self, chunk: &[u8]) -> (r: Vec<String>)
        ensures
            ({
                let (lines, rest) = split_bytes(old(self).pending@ + chunk@);
                let flush = !old(self).prompt_emitted && bytes_contain(rest, prompt_bytes());
                &&& r@.len() == lines.len() + if flush { 1int } else { 0int }
                &&& forall|i: int| 0 <= i < lines.len() ==> (#[trigger] r@[i])@ == lossy_text(lines[i])
                &&& flush ==> r@[lines.len() as int]@ == lossy_text(strip_cr(rest))
                &&& final(self).pending@ == if flush { Seq::<u8>::empty() } else { rest }
                &&& final(self).prompt_emitted == (old(self).prompt_emitted || flush)
            }),
    {
        let raw = self.feed(chunk);
        let mut out: Vec<String> = Vec::new();
        let mut i: usize = 0;
        while i < raw.len()
            invariant
                i <= raw@.len(),
                out@.len() == i,
                forall|k: int| 0 <= k < i ==> (#[trigger] out@[k])@ == lossy_text(raw@[k]@),
            decreases raw@.len() - i,
        {
            out.push(decode_stream_bytes(raw[i].as_slice()));
            i = i + 1;
        }
        out
    }

    /// `finish`, the line decoded as text.
    pub fn finish_text(&mut self) -> (r: Option<String>)
        ensures
            old(self).pending@.len() == 0 ==> r is None,
            old(self).pending@.len() > 0 ==> (r matches Some(l) && l@ == lossy_text(strip_cr(old(self).pending@))),
            final(self).pending@ == Seq::<u8>::empty(),
    {
        match self.finish() {
            Some(l) => Some(decode_stream_bytes(l.as_slice())),
            None => None,
        }
    }
}

} // verus!

verus! {

/// The code pages tried, in order, to decode console output where the console
/// is not UTF-8: the console's output code page, then the OEM code page, then
/// 437, 850 and 1252; zero (unknown) and repeats are left out.
pub open spec fn codepage_order(output_cp: u16, oem_cp: u16) -> Seq<u16> {
    let a: Seq<u16> = if output_cp != 0 {
        seq![output_cp]
    } else {
        seq![]
    };
    let b: Seq<u16> = if oem_cp != 0 && !a.contains(oem_cp) {
        a.push(oem_cp)
    } else {
        a
    };
    let c: Seq<u16> = if !b.contains(437u16) {
        b.push(437u16)
    } else {
        b
    };
    let d: Seq<u16> = if !c.contains(850u16) {
        c.push(850u16)
    } else {
        c
    };
    if !d.contains(1252u16) {
        d.push(1252u16)
    } else {
        d
    }
}

fn contains_u16(v: &Vec<u16>, x: u16) -> (r: bool)
    ensures
        r == v@.contains(x),
{
    let mut i: usize = 0;
    while i < v.len()
        invariant
            i <= v@.len(),
            forall|j: int| 0 <= j < i ==> v@[j] != x,
        decreases v@.len() - i,
    {
        if v[i] == x {
            return true;
        }
        i = i + 1;
    }
    false
}

/// The code pages to try, in order, for console output.
pub fn codepage_candidates(output_cp: u16, oem_cp: u16) -> (r: Vec<u16>)
    ensures
        r@ == codepage_order(output_cp, oem_cp),
{
    let mut v: Vec<u16> = Vec::new();
    if output_cp != 0 {
        v.push(output_cp);
    }
    if oem_cp != 0 && !contains_u16(&v, oem_cp) {
        v.push(oem_cp);
    }
    if !contains_u16(&v, 437) {
        v.push(437);
    }
    if !contains_u16(&v, 850) {
        v.push(850);
    }
    if !contains_u16(&v, 1252) {
        v.push(1252);
    }
    v
}

} // verus!
