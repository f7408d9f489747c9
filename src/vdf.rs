//! A writer for the nested key/value text format of app-manifest files:
//! tab-indented, quoted keys and values, brace-delimited sections.
use vstd::prelude::*;
use crate::text::string_of;

verus! {

pub open spec fn tabs(n: nat) -> Seq<char>
    decreases n,
{
    if n == 0 {
        seq![]
    } else {
        tabs((n - 1) as nat).push('\t')
    }
}

/// What one character becomes inside a quoted key or value: quotes,
/// backslashes, line feeds and tabs are written as backslash escapes.
pub open spec fn esc_char(c: char) -> Seq<char> {
    if c == '"' {
        seq!['\\', '"']
    } else if c == '\\' {
        seq!['\\', '\\']
    } else if c == '\n' {
        seq!['\\', 'n']
    } else if c == '\t' {
        seq!['\\', 't']
    } else {
        seq![c]
    }
}

/// A key or value escaped for quoting.
pub open spec fn vdf_escape(s: Seq<char>) -> Seq<char>
    decreases s.len(),
{
    if s.len() == 0 {
        seq![]
    } else {
        esc_char(s[0]) + vdf_escape(s.subrange(1, s.len() as int))
    }
}

/// A key or value in quotes, escaped.
pub open spec fn quoted(s: Seq<char>) -> Seq<char> {
    seq!['"'] + vdf_escape(s) + seq!['"']
}

pub proof fn lemma_escape_concat(a: Seq<char>, b: Seq<char>)
    ensures
        vdf_escape(a + b) == vdf_escape(a) + vdf_escape(b),
    decreases a.len(),
{
    if a.len() > 0 {
        assert((a + b).subrange(1, (a + b).len() as int) =~= a.subrange(1, a.len() as int) + b);
        lemma_escape_concat(a.subrange(1, a.len() as int), b);
        assert((a + b)[0] == a[0]);
        assert(vdf_escape(a + b) =~= vdf_escape(a) + vdf_escape(b));
    } else {
        assert(a + b =~= b);
    }
}

/// Escaped text holds no tab and no line feed.
pub proof fn lemma_escape_plain(s: Seq<char>)
    ensures
        forall|k: int| 0 <= k < vdf_escape(s).len() ==> #[trigger] vdf_escape(s)[k] != '\t' && vdf_escape(s)[k] != '\n',
    decreases s.len(),
{
    if s.len() > 0 {
        lemma_escape_plain(s.subrange(1, s.len() as int));
        let e = esc_char(s[0]);
        let r = vdf_escape(s.subrange(1, s.len() as int));
        assert forall|k: int| 0 <= k < (e + r).len() implies #[trigger] (e + r)[k] != '\t' && (e + r)[k] != '\n' by {
            if k >= e.len() {
                assert((e + r)[k] == r[k - e.len()]);
            }
        }
    }
}

/// Text without quotes, backslashes, line feeds or tabs is its own escape.
pub proof fn lemma_escape_unchanged(s: Seq<char>)
    requires
        forall|k: int| 0 <= k < s.len() ==> #[trigger] s[k] != '"' && s[k] != '\\' && s[k] != '\n' && s[k] != '\t',
    ensures
        vdf_escape(s) == s,
    decreases s.len(),
{
    if s.len() > 0 {
        let t = s.subrange(1, s.len() as int);
        assert forall|k: int| 0 <= k < t.len() implies #[trigger] t[k] != '"' && t[k] != '\\' && t[k] != '\n' && t[k] != '\t' by {
            assert(t[k] == s[k + 1]);
        }
        lemma_escape_unchanged(t);
        assert(s =~= seq![s[0]] + t);
        assert(vdf_escape(s) =~= s);
    }
}

/// Different texts escape differently.
pub proof fn lemma_escape_injective(a: Seq<char>, b: Seq<char>)
    requires
        vdf_escape(a) == vdf_escape(b),
    ensures
        a == b,
    decreases a.len(),
{
    if a.len() == 0 {
        if b.len() > 0 {
            assert(vdf_escape(b).len() >= 1);
        }
        assert(a =~= b);
    } else if b.len() == 0 {
        assert(vdf_escape(a).len() >= 1);
    } else {
        let ea = esc_char(a[0]);
        let eb = esc_char(b[0]);
        let ra = vdf_escape(a.subrange(1, a.len() as int));
        let rb = vdf_escape(b.subrange(1, b.len() as int));
        assert((ea + ra)[0] == (eb + rb)[0]);
        if ea.len() == 2 && eb.len() == 2 {
            assert((ea + ra)[1] == (eb + rb)[1]);
        }
        assert(a[0] == b[0]);
        assert(ra =~= (ea + ra).subrange(ea.len() as int, (ea + ra).len() as int));
        assert(rb =~= (eb + rb).subrange(eb.len() as int, (eb + rb).len() as int));
        lemma_escape_injective(a.subrange(1, a.len() as int), b.subrange(1, b.len() as int));
        assert(a =~= seq![a[0]] + a.subrange(1, a.len() as int));
        assert(b =~= seq![b[0]] + b.subrange(1, b.len() as int));
    }
}

/// `"key"\t\t"value"\n` at an indentation level.
pub open spec fn kv_text(level: nat, key: Seq<char>, value: Seq<char>) -> Seq<char> {
    tabs(level) + quoted(key) + seq!['\t', '\t'] + quoted(value) + seq!['\n']
}

/// `"name"\n{\n` at an indentation level.
pub open spec fn open_text(level: nat, name: Seq<char>) -> Seq<char> {
    tabs(level) + quoted(name) + seq!['\n'] + tabs(level) + seq!['{', '\n']
}

/// `}\n` closing a section whose content stood at `level`.
pub open spec fn close_text(level: nat) -> Seq<char> {
    tabs(if level > 0 {
        (level - 1) as nat
    } else {
        0
    }) + seq!['}', '\n']
}

/// Builds documents in the app-manifest key/value format.
pub struct VdfBuilder {
    pub content: Vec<char>,
    pub indent_level: usize,
}

impl VdfBuilder {
    pub fn new() -> (r: Self)
        ensures
            r.content@ == Seq::<char>::empty(),
            r.indent_level == 0,
    {
        VdfBuilder { content: Vec::new(), indent_level: 0 }
    }

    /// Adds indentation tabs for the current level.
    pub fn indent(&mut self)
        ensures
            final(self).content@ == old(self).content@ + tabs(old(self).indent_level as nat),
            final(self).indent_level == old(self).indent_level,
    {
        let mut i: usize = 0;
        while i < self.indent_level
            invariant
                i <= self.indent_level,
                self.indent_level == old(self).indent_level,
                self.content@ == old(self).content@ + tabs(i as nat),
            decreases self.indent_level - i,
        {
            self.content.push('\t');
            i = i + 1;
            assert(self.content@ =~= old(self).content@ + tabs(i as nat));
        }
    }

    fn push_quoted(&mut self, s: &str)
        ensures
            final(self).content@ == old(self).content@ + quoted(s@),
            final(self).indent_level == old(self).indent_level,
    {
        let cs = crate::text::chars_of(s);
        self.content.push('"');
        let ghost start = self.content@;
        let mut i: usize = 0;
        while i < cs.len()
            invariant
                i <= cs@.len(),
                cs@ == s@,
                self.indent_level == old(self).indent_level,
                self.content@ == start + vdf_escape(cs@.subrange(0, i as int)),
            decreases cs@.len() - i,
        {
            let c = cs[i];
            proof {
                lemma_escape_concat(cs@.subrange(0, i as int), seq![c]);
                assert(cs@.subrange(0, i + 1) =~= cs@.subrange(0, i as int) + seq![c]);
                assert(vdf_escape(seq![c]) =~= esc_char(c)) by {
                    assert(seq![c].subrange(1, 1) =~= Seq::<char>::empty());
                    assert(vdf_escape(Seq::<char>::empty()) =~= Seq::<char>::empty());
                    assert(seq![c][0] == c);
                    assert(vdf_escape(seq![c]) == esc_char(c) + vdf_escape(seq![c].subrange(1, 1)));
                }
            }
            let ghost before = self.content@;
            if c == '"' {
                self.content.push('\\');
                self.content.push('"');
            } else if c == '\\' {
                self.content.push('\\');
                self.content.push('\\');
            } else if c == '\n' {
                self.content.push('\\');
                self.content.push('n');
            } else if c == '\t' {
                self.content.push('\\');
                self.content.push('t');
            } else {
                self.content.push(c);
            }
            assert(self.content@ =~= before + esc_char(c));
            i = i + 1;
        }
        assert(cs@.subrange(0, cs@.len() as int) =~= cs@);
        self.content.push('"');
        assert(self.content@ =~= old(self).content@ + quoted(s@));
    }

    /// Writes a key-value pair: `"key"\t\t"value"`.
    pub fn key_value(&mut self, key: &str, value: &str)
        ensures
            final(self).content@ == old(self).content@ + kv_text(
                old(self).indent_level as nat,
                key@,
                value@,
            ),
            final(self).indent_level == old(self).indent_level,
    {
        let ghost c0 = self.content@;
        self.indent();
        self.push_quoted(key);
        self.content.push('\t');
        self.content.push('\t');
        self.push_quoted(value);
        self.content.push('\n');
        assert(self.content@ =~= c0 + kv_text(old(self).indent_level as nat, key@, value@));
    }

    /// Opens a section: `"name"`, then `{` on its own line; what follows is
    /// indented one level more.
    pub fn open_section(&mut self, name: &str)
        requires
            old(self).indent_level < usize::MAX,
        ensures
            final(self).content@ == old(self).content@ + open_text(
                old(self).indent_level as nat,
                name@,
            ),
            final(self).indent_level == old(self).indent_level + 1,
    {
        let ghost c0 = self.content@;
        self.indent();
        self.push_quoted(name);
        self.content.push('\n');
        self.indent();
        self.content.push('{');
        self.content.push('\n');
        assert(self.content@ =~= c0 + open_text(old(self).indent_level as nat, name@));
        self.indent_level = self.indent_level + 1;
    }

    /// Closes the current section with `}`.
    pub fn close_section(&mut self)
        ensures
            final(self).content@ == old(self).content@ + close_text(old(self).indent_level as nat),
            final(self).indent_level == (if old(self).indent_level > 0 {
                old(self).indent_level - 1
            } else {
                0
            }),
    {
        let ghost c0 = self.content@;
        if self.indent_level > 0 {
            self.indent_level = self.indent_level - 1;
        }
        self.indent();
        self.content.push('}');
        self.content.push('\n');
        assert(self.content@ =~= c0 + close_text(old(self).indent_level as nat));
    }

    /// The built document.
    pub fn build(self) -> (r: String)
        ensures
            r@ == self.content@,
    {
        string_of(&self.content)
    }
}

} // verus!
