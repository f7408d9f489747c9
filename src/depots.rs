//! Shared-redistributable depot table, depot naming and output-name sanitation.
use vstd::prelude::*;
use crate::text::{chars_of, push_str_chars, str_equal, string_of};

verus! {

/// Information fetched from the store's catalog lookup.
pub struct SteamAppInfo {
    /// Human-readable game name.
    pub name: String,
    /// Catalog id as returned by the lookup.
    pub steam_appid: u64,
}

/// Display name of a shared-redistributable depot; `None` for other depots.
pub open spec fn shared_name(id: Seq<char>) -> Option<Seq<char>> {
    if id == "228980"@ || id == "228989"@ || id == "228990"@ {
        Some("Steamworks Shared"@)
    } else if id == "228983"@ || id == "228984"@ || id == "228986"@ {
        Some("DirectX"@)
    } else if id == "228985"@ {
        Some("VC Redist"@)
    } else if id == "228987"@ {
        Some("OpenAL"@)
    } else if id == "1391110"@ {
        Some("SteamLinuxRuntime"@)
    } else if id == "1628210"@ {
        Some("SteamLinuxRuntime_soldier"@)
    } else if id == "1826330"@ {
        Some("SteamLinuxRuntime_sniper"@)
    } else {
        None
    }
}

/// Whether a depot id is one of the shared-redistributable depots.
pub open spec fn is_shared(id: Seq<char>) -> bool {
    shared_name(id) is Some
}

/// The catalog id that owns a shared-redistributable depot: the common
/// redistributables app for the redistributable depots, the runtime itself for
/// the runtime depots.
pub open spec fn shared_owner(id: Seq<char>) -> Seq<char> {
    if id == "1391110"@ || id == "1628210"@ || id == "1826330"@ {
        id
    } else {
        "228980"@
    }
}

/// The name a depot gets when no learned name is known.
pub open spec fn depot_name_spec(id: Seq<char>, is_primary: bool, game_name: Seq<char>) -> Seq<
    char,
> {
    if is_primary {
        game_name
    } else if is_shared(id) {
        shared_name(id)->0
    } else {
        "depot_"@ + id
    }
}

/// Checks if a depot id is a known shared depot (redistributables, runtimes).
pub fn is_shared_depot(depot_id: &str) -> (r: bool)
    ensures
        r == is_shared(depot_id@),
{
    get_shared_depot_name(depot_id).is_some()
}

/// Human-readable name of a shared depot.
pub fn get_shared_depot_name(depot_id: &str) -> (r: Option<String>)
    ensures
        r is Some == shared_name(depot_id@) is Some,
        r matches Some(n) ==> n@ == shared_name(depot_id@)->0,
{
    let d = depot_id;
    if str_equal(d, "228980") || str_equal(d, "228989") || str_equal(d, "228990") {
        Some("Steamworks Shared".to_string())
    } else if str_equal(d, "228983") || str_equal(d, "228984") || str_equal(d, "228986") {
        Some("DirectX".to_string())
    } else if str_equal(d, "228985") {
        Some("VC Redist".to_string())
    } else if str_equal(d, "228987") {
        Some("OpenAL".to_string())
    } else if str_equal(d, "1391110") {
        Some("SteamLinuxRuntime".to_string())
    } else if str_equal(d, "1628210") {
        Some("SteamLinuxRuntime_soldier".to_string())
    } else if str_equal(d, "1826330") {
        Some("SteamLinuxRuntime_sniper".to_string())
    } else {
        None
    }
}

/// The catalog id that owns a shared depot.
pub fn get_shared_depot_owner(depot_id: &str) -> (r: String)
    ensures
        r@ == shared_owner(depot_id@),
{
    if str_equal(depot_id, "1391110") || str_equal(depot_id, "1628210") || str_equal(
        depot_id,
        "1826330",
    ) {
        depot_id.to_string()
    } else {
        "228980".to_string()
    }
}

/// Name of a depot: the game name for the primary depot, the known name of a
/// shared depot, else `depot_<id>`.
pub fn get_depot_name(depot_id: &str, is_primary: bool, game_name: &str) -> (r: String)
    ensures
        r@ == depot_name_spec(depot_id@, is_primary, game_name@),
{
    if is_primary {
        return game_name.to_string();
    }
    match get_shared_depot_name(depot_id) {
        Some(name) => name,
        None => {
            let mut out: Vec<char> = Vec::new();
            push_str_chars(&mut out, "depot_");
            push_str_chars(&mut out, depot_id);
            string_of(&out)
        },
    }
}

/// Characters that name sanitation removes.
pub open spec fn is_dropped(c: char) -> bool {
    c == '\'' || c == ':' || c == '/' || c == '\\' || (c as u32) >= 128
}

/// What one character becomes in a sanitized name.
pub open spec fn sanitize_char(c: char) -> Seq<char> {
    if c == ' ' {
        seq!['.']
    } else if is_dropped(c) {
        seq![]
    } else {
        seq![c]
    }
}

/// A name made safe for a directory name: spaces become dots; apostrophes,
/// colons, slashes, backslashes and non-ASCII characters are dropped; the rest
/// is kept with its case.
pub open spec fn sanitize(s: Seq<char>) -> Seq<char>
    decreases s.len(),
{
    if s.len() == 0 {
        seq![]
    } else {
        sanitize(s.drop_last()) + sanitize_char(s.last())
    }
}

/// Sanitizes a game name for use in output folder names.
pub fn sanitize_game_name(name: &str) -> (r: String)
    ensures
        r@ == sanitize(name@),
{
    let chars = chars_of(name);
    let mut out: Vec<char> = Vec::new();
    let mut i: usize = 0;
    while i < chars.len()
        invariant
            i <= chars@.len(),
            chars@ == name@,
            out@ == sanitize(chars@.subrange(0, i as int)),
        decreases chars@.len() - i,
    {
        let c = chars[i];
        assert(chars@.subrange(0, i + 1).drop_last() =~= chars@.subrange(0, i as int));
        if c == ' ' {
            out.push('.');
        } else if c == '\'' || c == ':' || c == '/' || c == '\\' || (c as u32) >= 128 {
        } else {
            out.push(c);
        }
        i = i + 1;
        assert(out@ =~= sanitize(chars@.subrange(0, i as int)));
    }
    assert(chars@.subrange(0, chars@.len() as int) =~= chars@);
    string_of(&out)
}

/// Whether every character of `s` passes sanitation unchanged.
pub open spec fn is_clean(s: Seq<char>) -> bool {
    forall|k: int| 0 <= k < s.len() ==> #[trigger] s[k] != ' ' && !is_dropped(s[k])
}

proof fn lemma_sanitize_clean(s: Seq<char>)
    ensures
        is_clean(sanitize(s)),
    decreases s.len(),
{
    if s.len() > 0 {
        lemma_sanitize_clean(s.drop_last());
        let a = sanitize(s.drop_last());
        let b = sanitize_char(s.last());
        assert forall|k: int| 0 <= k < (a + b).len() implies #[trigger] (a + b)[k] != ' '
            && !is_dropped((a + b)[k]) by {
            if k >= a.len() {
                assert((a + b)[k] == b[k - a.len()]);
            } else {
                assert((a + b)[k] == a[k]);
            }
        }
    }
}

proof fn lemma_sanitize_fixes_clean(s: Seq<char>)
    requires
        is_clean(s),
    ensures
        sanitize(s) == s,
    decreases s.len(),
{
    if s.len() > 0 {
        assert(is_clean(s.drop_last()));
        lemma_sanitize_fixes_clean(s.drop_last());
        assert(s.last() == s[s.len() - 1]);
        assert(sanitize(s) =~= s);
    }
}

/// Sanitizing a sanitized name changes nothing.
pub proof fn lemma_sanitize_idempotent(s: Seq<char>)
    ensures
        sanitize(sanitize(s)) == sanitize(s),
{
    lemma_sanitize_clean(s);
    lemma_sanitize_fixes_clean(sanitize(s));
}

} // verus!
