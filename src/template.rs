//! Release-note templates: blocks of text whose `{{field}}` tokens are filled
//! from a job's metadata.
use vstd::prelude::*;
use crate::datetime::{month_name, month_name_spec, UtcDateTime};
use crate::job_metadata::JobMetadataFile;
use crate::text::{
    chars_of, decimal, decimal2, decimal_int, has_at, matches_at, push_all, push_decimal,
    push_decimal2, push_decimal_i64, push_str_chars, string_of,
};

verus! {

/// `s` with every occurrence of `p` replaced by `r`, scanning left to right
/// without overlaps.
pub open spec fn replace_spec(s: Seq<char>, p: Seq<char>, r: Seq<char>) -> Seq<char>
    decreases s.len(),
{
    if s.len() == 0 || p.len() == 0 {
        s
    } else if has_at(s, 0, p) {
        r + replace_spec(s.subrange(p.len() as int, s.len() as int), p, r)
    } else {
        seq![s[0]] + replace_spec(s.subrange(1, s.len() as int), p, r)
    }
}

/// Replaces every occurrence of `p` in `s` by `r`.
pub fn replace_chars(s: &[char], p: &[char], r: &[char]) -> (out: Vec<char>)
    ensures
        out@ == replace_spec(s@, p@, r@),
{
    let mut out: Vec<char> = Vec::new();
    if p.len() == 0 {
        push_all(&mut out, s);
        assert(out@ =~= s@);
        return out;
    }
    let n = s.len();
    let mut i: usize = 0;
    assert(s@.subrange(0, n as int) =~= s@);
    assert(out@ + s@ =~= s@);
    while i < n
        invariant
            n == s@.len(),
            p@.len() > 0,
            i <= n,
            out@ + replace_spec(s@.subrange(i as int, n as int), p@, r@) == replace_spec(s@, p@, r@),
        decreases n - i,
    {
        let ghost rest = s@.subrange(i as int, n as int);
        if matches_at(s, i, p) {
            assert(has_at(rest, 0, p@)) by {
                assert(rest.subrange(0, p@.len() as int) =~= s@.subrange(i as int, i + p@.len()));
            }
            assert(rest.subrange(p@.len() as int, rest.len() as int) =~= s@.subrange(i + p@.len(), n as int));
            let ghost o = out@;
            push_all(&mut out, r);
            assert(out@ + replace_spec(s@.subrange(i + p@.len(), n as int), p@, r@) =~= o + replace_spec(rest, p@, r@));
            i = i + p.len();
        } else {
            assert(!has_at(rest, 0, p@)) by {
                if has_at(rest, 0, p@) {
                    assert(rest.subrange(0, p@.len() as int) =~= s@.subrange(i as int, i + p@.len()));
                }
            }
            assert(rest.subrange(1, rest.len() as int) =~= s@.subrange(i + 1, n as int));
            let ghost o = out@;
            out.push(s[i]);
            assert(out@ + replace_spec(s@.subrange(i + 1, n as int), p@, r@) =~= o + replace_spec(rest, p@, r@));
            i = i + 1;
        }
    }
    assert(replace_spec(s@.subrange(n as int, n as int), p@, r@) =~= Seq::<char>::empty());
    assert(out@ =~= replace_spec(s@, p@, r@));
    out
}

/// The `{{key}}` token of a field.
pub open spec fn token(key: Seq<char>) -> Seq<char> {
    seq!['{', '{'] + key + seq!['}', '}']
}

/// `template` with each field's token replaced by its value, the fields taken in order.
pub open spec fn render_string_spec(template: Seq<char>, values: Seq<(Seq<char>, Seq<char>)>) -> Seq<char>
    decreases values.len(),
{
    if values.len() == 0 {
        template
    } else {
        replace_spec(
            render_string_spec(template, values.drop_last()),
            token(values.last().0),
            values.last().1,
        )
    }
}

pub open spec fn pairs_of(v: Seq<(String, String)>) -> Seq<(Seq<char>, Seq<char>)> {
    Seq::new(v.len(), |i: int| (v[i].0@, v[i].1@))
}

/// Renders a template string with field values, the fields taken in order.
pub fn render_template_string(template: &str, values: &Vec<(String, String)>) -> (r: String)
    ensures
        r@ == render_string_spec(template@, pairs_of(values@)),
{
    let mut result = chars_of(template);
    let mut i: usize = 0;
    while i < values.len()
        invariant
            i <= values@.len(),
            result@ == render_string_spec(template@, pairs_of(values@.subrange(0, i as int))),
        decreases values@.len() - i,
    {
        assert(pairs_of(values@.subrange(0, i + 1)).drop_last() =~= pairs_of(values@.subrange(0, i as int)));
        let mut tok: Vec<char> = Vec::new();
        tok.push('{');
        tok.push('{');
        push_str_chars(&mut tok, values[i].0.as_str());
        tok.push('}');
        tok.push('}');
        assert(tok@ =~= token(values[i as int].0@));
        let v = chars_of(values[i].1.as_str());
        result = replace_chars(result.as_slice(), tok.as_slice(), v.as_slice());
        i = i + 1;
    }
    assert(values@.subrange(0, values@.len() as int) =~= values@);
    string_of(&result)
}

} // verus!

verus! {

pub struct TitleConfig {
    pub template: String,
}

pub struct VersionConfig {
    pub template: String,
}

pub struct DepotListConfig {
    pub title: Option<String>,
    pub line_template: String,
    pub use_code_block: Option<bool>,
    pub max_depots: Option<usize>,
}

pub struct FreeTextConfig {
    pub text: String,
}

pub struct UploadedVersionConfig {
    pub template: String,
}

/// One block of a release-note template.
pub enum TemplateBlock {
    Title { config: TitleConfig },
    Version { config: VersionConfig },
    DepotList { config: DepotListConfig },
    FreeText { config: FreeTextConfig },
    UploadedVersion { config: UploadedVersionConfig },
}

/// A saved template.
pub struct TemplatePayload {
    pub version: u32,
    pub blocks: Vec<TemplateBlock>,
}

pub struct TemplateDepot {
    pub depot_id: String,
    pub depot_name: String,
    pub manifest_id: String,
}

/// The values a template is filled from.
pub struct TemplateMetadata {
    pub game_name: String,
    pub os: String,
    pub branch: String,
    pub build_datetime_utc: String,
    pub build_id: String,
    pub depots: Vec<TemplateDepot>,
}

/// The fields of the whole job, in the order they are filled.
pub open spec fn base_values(m: TemplateMetadata) -> Seq<(Seq<char>, Seq<char>)> {
    seq![
        ("game_name"@, m.game_name@),
        ("os"@, m.os@),
        ("branch"@, m.branch@),
        ("build_datetime_utc"@, m.build_datetime_utc@),
        ("build_id"@, m.build_id@),
    ]
}

/// The fields of one depot, in the order they are filled.
pub open spec fn depot_values(d: TemplateDepot) -> Seq<(Seq<char>, Seq<char>)> {
    seq![("depot_id"@, d.depot_id@), ("depot_name"@, d.depot_name@), ("manifest_id"@, d.manifest_id@)]
}

/// The depot lines, joined by line feeds.
pub open spec fn depot_lines(depots: Seq<TemplateDepot>, line_template: Seq<char>) -> Seq<char>
    decreases depots.len(),
{
    if depots.len() == 0 {
        seq![]
    } else {
        let prev = depot_lines(depots.drop_last(), line_template);
        prev + (if depots.len() > 1 {
            seq!['\n']
        } else {
            seq![]
        }) + render_string_spec(line_template, depot_values(depots.last()))
    }
}

pub open spec fn opt_bool(o: Option<bool>, d: bool) -> bool {
    match o {
        Some(b) => b,
        None => d,
    }
}

/// The depot list block: at most `max_depots` (default 100) lines in a
/// spoiler titled `title` (default "Depots"), optionally in a code block.
pub open spec fn depot_list_text(c: DepotListConfig, m: TemplateMetadata) -> Seq<char> {
    let max: int = match c.max_depots {
        Some(k) => k as int,
        None => 100,
    };
    let shown = if max < m.depots@.len() {
        m.depots@.subrange(0, max)
    } else {
        m.depots@
    };
    let title = match c.title {
        Some(t) => t@,
        None => "Depots"@,
    };
    let code = opt_bool(c.use_code_block, false);
    "[spoiler="@ + title + "]\n"@ + (if code {
        "[code=text]"@
    } else {
        seq![]
    }) + depot_lines(shown, c.line_template@) + (if code {
        "[/code]"@
    } else {
        seq![]
    }) + "\n[/spoiler]"@
}

/// The text of one block.
pub open spec fn block_text(b: TemplateBlock, m: TemplateMetadata) -> Seq<char> {
    match b {
        TemplateBlock::Title { config } => render_string_spec(config.template@, base_values(m)),
        TemplateBlock::Version { config } => render_string_spec(config.template@, base_values(m)),
        TemplateBlock::UploadedVersion { config } => render_string_spec(config.template@, base_values(m)),
        TemplateBlock::FreeText { config } => render_string_spec(config.text@, base_values(m)),
        TemplateBlock::DepotList { config } => depot_list_text(config, m),
    }
}

/// What stands between two consecutive blocks: a blank line between the
/// version and the depot list, nothing between the depot list and the
/// uploaded version, a line feed otherwise.
pub open spec fn separator(a: TemplateBlock, b: TemplateBlock) -> Seq<char> {
    if a is Version && b is DepotList {
        "\n\n"@
    } else if a is DepotList && b is UploadedVersion {
        seq![]
    } else {
        "\n"@
    }
}

/// The first `k` blocks rendered, each followed by its separator from the next.
pub open spec fn rendered_prefix(blocks: Seq<TemplateBlock>, m: TemplateMetadata, k: int) -> Seq<char>
    decreases k,
{
    if k <= 0 {
        seq![]
    } else {
        rendered_prefix(blocks, m, k - 1) + block_text(blocks[k - 1], m) + (if k < blocks.len() {
            separator(blocks[k - 1], blocks[k])
        } else {
            seq![]
        })
    }
}

/// The whole rendered template.
pub open spec fn render_spec(blocks: Seq<TemplateBlock>, m: TemplateMetadata) -> Seq<char> {
    rendered_prefix(blocks, m, blocks.len() as int)
}

} // verus!

verus! {

fn pair(k: &str, v: &String) -> (r: (String, String))
    ensures
        r.0@ == k@,
        r.1@ == v@,
{
    (k.to_string(), v.clone())
}

fn base_values_exec(m: &TemplateMetadata) -> (r: Vec<(String, String)>)
    ensures
        pairs_of(r@) == base_values(*m),
{
    let mut v: Vec<(String, String)> = Vec::new();
    v.push(pair("game_name", &m.game_name));
    v.push(pair("os", &m.os));
    v.push(pair("branch", &m.branch));
    v.push(pair("build_datetime_utc", &m.build_datetime_utc));
    v.push(pair("build_id", &m.build_id));
    assert(pairs_of(v@) =~= base_values(*m));
    v
}

fn depot_values_exec(d: &TemplateDepot) -> (r: Vec<(String, String)>)
    ensures
        pairs_of(r@) == depot_values(*d),
{
    let mut v: Vec<(String, String)> = Vec::new();
    v.push(pair("depot_id", &d.depot_id));
    v.push(pair("depot_name", &d.depot_name));
    v.push(pair("manifest_id", &d.manifest_id));
    assert(pairs_of(v@) =~= depot_values(*d));
    v
}

fn depot_list_exec(c: &DepotListConfig, m: &TemplateMetadata) -> (r: Vec<char>)
    ensures
        r@ == depot_list_text(*c, *m),
{
    let max: usize = match c.max_depots {
        Some(k) => k,
        None => 100,
    };
    let count = if max < m.depots.len() {
        max
    } else {
        m.depots.len()
    };
    let ghost shown = m.depots@.subrange(0, count as int);
    assert(shown =~= (if (max as int) < m.depots@.len() {
        m.depots@.subrange(0, max as int)
    } else {
        m.depots@
    }));
    let mut lines: Vec<char> = Vec::new();
    let mut i: usize = 0;
    while i < count
        invariant
            i <= count <= m.depots@.len(),
            lines@ == depot_lines(m.depots@.subrange(0, i as int), c.line_template@),
        decreases count - i,
    {
        assert(m.depots@.subrange(0, i + 1).drop_last() =~= m.depots@.subrange(0, i as int));
        if i > 0 {
            lines.push('\n');
        }
        let vals = depot_values_exec(&m.depots[i]);
        let line = render_template_string(c.line_template.as_str(), &vals);
        push_str_chars(&mut lines, line.as_str());
        i = i + 1;
    }
    let code = match c.use_code_block {
        Some(b) => b,
        None => false,
    };
    let mut out: Vec<char> = Vec::new();
    push_str_chars(&mut out, "[spoiler=");
    match &c.title {
        Some(t) => push_str_chars(&mut out, t.as_str()),
        None => push_str_chars(&mut out, "Depots"),
    }
    push_str_chars(&mut out, "]\n");
    if code {
        push_str_chars(&mut out, "[code=text]");
    }
    push_all(&mut out, lines.as_slice());
    if code {
        push_str_chars(&mut out, "[/code]");
    }
    push_str_chars(&mut out, "\n[/spoiler]");
    assert(out@ =~= depot_list_text(*c, *m));
    out
}

fn block_text_exec(b: &TemplateBlock, m: &TemplateMetadata) -> (r: Vec<char>)
    ensures
        r@ == block_text(*b, *m),
{
    match b {
        TemplateBlock::Title { config } => chars_of(render_template_string(config.template.as_str(), &base_values_exec(m)).as_str()),
        TemplateBlock::Version { config } => chars_of(render_template_string(config.template.as_str(), &base_values_exec(m)).as_str()),
        TemplateBlock::UploadedVersion { config } => chars_of(render_template_string(config.template.as_str(), &base_values_exec(m)).as_str()),
        TemplateBlock::FreeText { config } => chars_of(render_template_string(config.text.as_str(), &base_values_exec(m)).as_str()),
        TemplateBlock::DepotList { config } => depot_list_exec(config, m),
    }
}

/// The kind name of a block.
pub fn block_type_name(block: &TemplateBlock) -> (r: &'static str)
    ensures
        r@ == (match *block {
            TemplateBlock::Title { .. } => "title"@,
            TemplateBlock::Version { .. } => "version"@,
            TemplateBlock::DepotList { .. } => "depot_list"@,
            TemplateBlock::FreeText { .. } => "free_text"@,
            TemplateBlock::UploadedVersion { .. } => "uploaded_version"@,
        }),
{
    match block {
        TemplateBlock::Title { .. } => "title",
        TemplateBlock::Version { .. } => "version",
        TemplateBlock::DepotList { .. } => "depot_list",
        TemplateBlock::FreeText { .. } => "free_text",
        TemplateBlock::UploadedVersion { .. } => "uploaded_version",
    }
}

fn separator_exec(a: &TemplateBlock, b: &TemplateBlock) -> (r: &'static str)
    ensures
        r@ == separator(*a, *b),
{
    let a_version = match a {
        TemplateBlock::Version { .. } => true,
        _ => false,
    };
    let a_list = match a {
        TemplateBlock::DepotList { .. } => true,
        _ => false,
    };
    let b_list = match b {
        TemplateBlock::DepotList { .. } => true,
        _ => false,
    };
    let b_uploaded = match b {
        TemplateBlock::UploadedVersion { .. } => true,
        _ => false,
    };
    if a_version && b_list {
        "\n\n"
    } else if a_list && b_uploaded {
        proof {
            reveal_strlit("");
        }
        ""
    } else {
        "\n"
    }
}

/// Renders a complete template with metadata.
pub fn render_template(blocks: &[TemplateBlock], metadata: &TemplateMetadata) -> (r: Result<String, String>)
    ensures
        r matches Ok(s) && s@ == render_spec(blocks@, *metadata),
{
    let mut out: Vec<char> = Vec::new();
    let mut i: usize = 0;
    while i < blocks.len()
        invariant
            i <= blocks@.len(),
            out@ == rendered_prefix(blocks@, *metadata, i as int),
        decreases blocks@.len() - i,
    {
        let part = block_text_exec(&blocks[i], metadata);
        push_all(&mut out, part.as_slice());
        if i + 1 < blocks.len() {
            let sep = separator_exec(&blocks[i], &blocks[i + 1]);
            push_str_chars(&mut out, sep);
        } else {
            assert(out@ =~= out@ + Seq::<char>::empty());
        }
        i = i + 1;
    }
    Ok(string_of(&out))
}

} // verus!

verus! {

/// The default template: title, version, depot list, uploaded version, credit line.
pub fn create_default_template() -> (r: Vec<TemplateBlock>)
    ensures
        r@.len() == 5,
        r@[0] matches TemplateBlock::Title { config } && config.template@
            == "[url=][color=white][b]{{game_name}} [{{os}}] [Branch: {{branch}}] (Clean Steam Files)[/b][/color][/url]"@,
        r@[1] matches TemplateBlock::Version { config } && config.template@
            == "[size=85][color=white][b]Version:[/b] [i]{{build_datetime_utc}} [Build {{build_id}}][/i][/color][/size]"@,
        r@[2] matches TemplateBlock::DepotList { config } && config.title matches Some(t) && t@
            == "\"[color=white]Depots & Manifests[/color]\""@ && config.line_template@
            == "{{depot_id}} - {{depot_name}} [Manifest {{manifest_id}}]"@ && config.use_code_block
            == Some(true) && config.max_depots == Some(100usize),
        r@[3] matches TemplateBlock::UploadedVersion { config } && config.template@
            == "[color=white][b]Uploaded version:[/b] [i]{{build_datetime_utc}} [Build {{build_id}}][/i][/color]"@,
        r@[4] matches TemplateBlock::FreeText { config } && config.text@
            == "Made using [url=https://github.com/elgreams/OmniPacker]OmniPacker[/url]"@,
{
    let mut v: Vec<TemplateBlock> = Vec::new();
    v.push(TemplateBlock::Title {
        config: TitleConfig {
            template: "[url=][color=white][b]{{game_name}} [{{os}}] [Branch: {{branch}}] (Clean Steam Files)[/b][/color][/url]".to_string(),
        },
    });
    v.push(TemplateBlock::Version {
        config: VersionConfig {
            template: "[size=85][color=white][b]Version:[/b] [i]{{build_datetime_utc}} [Build {{build_id}}][/i][/color][/size]".to_string(),
        },
    });
    v.push(TemplateBlock::DepotList {
        config: DepotListConfig {
            title: Some("\"[color=white]Depots & Manifests[/color]\"".to_string()),
            line_template: "{{depot_id}} - {{depot_name}} [Manifest {{manifest_id}}]".to_string(),
            use_code_block: Some(true),
            max_depots: Some(100),
        },
    });
    v.push(TemplateBlock::UploadedVersion {
        config: UploadedVersionConfig {
            template: "[color=white][b]Uploaded version:[/b] [i]{{build_datetime_utc}} [Build {{build_id}}][/i][/color]".to_string(),
        },
    });
    v.push(TemplateBlock::FreeText {
        config: FreeTextConfig {
            text: "Made using [url=https://github.com/elgreams/OmniPacker]OmniPacker[/url]".to_string(),
        },
    });
    v
}

/// `February 24, 2025 - 22:02:36 UTC`.
pub open spec fn format_datetime(t: UtcDateTime) -> Seq<char> {
    month_name_spec(t.month as int) + seq![' '] + decimal(t.day as nat) + ", "@ + decimal_int(
        t.year as int,
    ) + " - "@ + decimal2(t.hour as nat) + seq![':'] + decimal2(t.minute as nat) + seq![':']
        + decimal2(t.second as nat) + " UTC"@
}

pub fn format_datetime_exec(t: &UtcDateTime) -> (r: String)
    ensures
        r@ == format_datetime(*t),
{
    let mut out: Vec<char> = Vec::new();
    push_str_chars(&mut out, month_name(t.month));
    out.push(' ');
    push_decimal(&mut out, t.day as u64);
    push_str_chars(&mut out, ", ");
    push_decimal_i64(&mut out, t.year as i64);
    push_str_chars(&mut out, " - ");
    push_decimal2(&mut out, t.hour as u64);
    out.push(':');
    push_decimal2(&mut out, t.minute as u64);
    out.push(':');
    push_decimal2(&mut out, t.second as u64);
    push_str_chars(&mut out, " UTC");
    assert(out@ =~= format_datetime(*t));
    string_of(&out)
}

/// The platform label as templates show it: the label itself.
pub fn map_platform_to_os(platform: &str) -> (r: String)
    ensures
        r@ == platform@,
{
    platform.to_string()
}

/// Two sets of template values hold the same text in every field.
pub open spec fn same_values(a: TemplateMetadata, b: TemplateMetadata) -> bool {
    &&& a.game_name@ == b.game_name@
    &&& a.os@ == b.os@
    &&& a.branch@ == b.branch@
    &&& a.build_datetime_utc@ == b.build_datetime_utc@
    &&& a.build_id@ == b.build_id@
    &&& a.depots@.len() == b.depots@.len()
    &&& forall|i: int|
        0 <= i < a.depots@.len() ==> (#[trigger] a.depots@[i]).depot_id@ == b.depots@[i].depot_id@
            && a.depots@[i].depot_name@ == b.depots@[i].depot_name@ && a.depots@[i].manifest_id@
            == b.depots@[i].manifest_id@
}

impl TemplateMetadata {
    /// The template values of a job record; the date-time shown is the build's,
    /// else the time the record was made.
    pub fn from_job_metadata(metadata: &JobMetadataFile) -> (r: Self)
        ensures
            r.game_name@ == metadata.game_name@,
            r.os@ == metadata.platform@,
            r.branch@ == metadata.branch@,
            r.build_id@ == metadata.build_id@,
            r.build_datetime_utc@ == format_datetime(
                match metadata.build_datetime_utc {
                    Some(t) => t,
                    None => metadata.appinfo_fetched_at,
                },
            ),
            r.depots@.len() == metadata.depots@.len(),
            forall|i: int|
                0 <= i < r.depots@.len() ==> (#[trigger] r.depots@[i]).depot_id@
                    == metadata.depots@[i].depot_id@ && r.depots@[i].depot_name@
                    == metadata.depots@[i].depot_name@ && r.depots@[i].manifest_id@
                    == metadata.depots@[i].manifest_id@,
    {
        let t = match metadata.build_datetime_utc {
            Some(t) => t,
            None => metadata.appinfo_fetched_at,
        };
        let mut depots: Vec<TemplateDepot> = Vec::new();
        let mut i: usize = 0;
        while i < metadata.depots.len()
            invariant
                i <= metadata.depots@.len(),
                depots@.len() == i,
                forall|k: int|
                    0 <= k < i ==> (#[trigger] depots@[k]).depot_id@ == metadata.depots@[k].depot_id@
                        && depots@[k].depot_name@ == metadata.depots@[k].depot_name@
                        && depots@[k].manifest_id@ == metadata.depots@[k].manifest_id@,
            decreases metadata.depots@.len() - i,
        {
            let d = &metadata.depots[i];
            depots.push(TemplateDepot {
                depot_id: d.depot_id.clone(),
                depot_name: d.depot_name.clone(),
                manifest_id: d.manifest_id.clone(),
            });
            i = i + 1;
        }
        TemplateMetadata {
            game_name: metadata.game_name.clone(),
            os: map_platform_to_os(metadata.platform.as_str()),
            branch: metadata.branch.clone(),
            build_datetime_utc: format_datetime_exec(&t),
            build_id: metadata.build_id.clone(),
            depots,
        }
    }

    /// A copy with the same values.
    pub fn duplicate(&self) -> (r: Self)
        ensures
            same_values(r, *self),
    {
        let mut depots: Vec<TemplateDepot> = Vec::new();
        let mut i: usize = 0;
        while i < self.depots.len()
            invariant
                i <= self.depots@.len(),
                depots@.len() == i,
                forall|k: int|
                    0 <= k < i ==> (#[trigger] depots@[k]).depot_id@ == self.depots@[k].depot_id@
                        && depots@[k].depot_name@ == self.depots@[k].depot_name@
                        && depots@[k].manifest_id@ == self.depots@[k].manifest_id@,
            decreases self.depots@.len() - i,
        {
            let d = &self.depots[i];
            depots.push(TemplateDepot {
                depot_id: d.depot_id.clone(),
                depot_name: d.depot_name.clone(),
                manifest_id: d.manifest_id.clone(),
            });
            i = i + 1;
        }
        TemplateMetadata {
            game_name: self.game_name.clone(),
            os: self.os.clone(),
            branch: self.branch.clone(),
            build_datetime_utc: self.build_datetime_utc.clone(),
            build_id: self.build_id.clone(),
            depots,
        }
    }
}

/// The template values of the last finalized job.
pub struct TemplateMetadataState {
    pub inner: Option<TemplateMetadata>,
}

impl TemplateMetadataState {
    pub fn new() -> (r: Self)
        ensures
            r.inner is None,
    {
        TemplateMetadataState { inner: None }
    }

    /// Replaces the stored values.
    pub fn set(&mut self, metadata: TemplateMetadata)
        ensures
            final(self).inner == Some(metadata),
    {
        self.inner = Some(metadata);
    }

    /// A copy of the stored values.
    pub fn get(&self) -> (r: Option<TemplateMetadata>)
        ensures
            r is Some == self.inner is Some,
            r matches Some(m) ==> same_values(m, self.inner->0),
    {
        match &self.inner {
            Some(m) => Some(m.duplicate()),
            None => None,
        }
    }
}

} // verus!
