//! The download request and the command line it turns into.
use vstd::prelude::*;
use crate::text::{str_equal, str_is_empty};

verus! {

/// A download request as the operator submitted it.
pub struct JobMetadata {
    pub app_id: String,
    pub os: String,
    pub branch: String,
    pub username: String,
    pub password: String,
    pub qr_enabled: bool,
    pub remember_password: bool,
    pub skip_compression: bool,
    pub compression_password_enabled: bool,
    pub compression_password: String,
}

/// The `-os` and `-osarch` values for a platform selector; unknown selectors
/// map to 64-bit Windows.
pub open spec fn os_arch(os: Seq<char>) -> (Seq<char>, Seq<char>) {
    if os == "Windows x64"@ {
        ("windows"@, "64"@)
    } else if os == "Windows x86"@ {
        ("windows"@, "32"@)
    } else if os == "Linux"@ {
        ("linux"@, "64"@)
    } else if os == "macOS x64"@ {
        ("macos"@, "64"@)
    } else if os == "macOS arm64"@ {
        ("macos"@, "arm64"@)
    } else if os == "macOS"@ {
        ("macos"@, "64"@)
    } else {
        ("windows"@, "64"@)
    }
}

/// The platform label used in output names for a platform selector.
pub open spec fn platform_label(os: Seq<char>) -> Seq<char> {
    if os == "Windows x64"@ {
        "Win64"@
    } else if os == "Windows x86"@ {
        "Win32"@
    } else if os == "Linux"@ {
        "Linux64"@
    } else if os == "macOS x64"@ {
        "MacOS64"@
    } else if os == "macOS arm64"@ {
        "MacOSArm64"@
    } else if os == "macOS"@ {
        "MacOS64"@
    } else {
        "Win64"@
    }
}

/// Arguments that select the app, the branch and the platform.
pub open spec fn target_args(app_id: Seq<char>, branch: Seq<char>, os: Seq<char>) -> Seq<
    Seq<char>,
> {
    let app: Seq<Seq<char>> = if app_id.len() > 0 && app_id != "unknown"@ {
        seq!["-app"@, app_id]
    } else {
        seq![]
    };
    let br: Seq<Seq<char>> = if branch.len() > 0 {
        seq!["-branch"@, branch]
    } else {
        seq![]
    };
    app + br + seq!["-os"@, os_arch(os).0, "-osarch"@, os_arch(os).1]
}

/// Arguments that select the authentication mode: interactive code first,
/// then user name and password, else none (anonymous).
pub open spec fn auth_args(username: Seq<char>, password: Seq<char>, qr: bool) -> Seq<
    Seq<char>,
> {
    if qr {
        seq!["-qr"@]
    } else if username.len() > 0 {
        let pw: Seq<Seq<char>> = if password.len() > 0 {
            seq!["-password"@, password]
        } else {
            seq![]
        };
        seq!["-username"@, username] + pw + seq!["-remember-password"@]
    } else {
        seq![]
    }
}

impl JobMetadata {
    /// The command line of the download tool for this request.
    pub open spec fn spec_args(&self) -> Seq<Seq<char>> {
        target_args(self.app_id@, self.branch@, self.os@) + auth_args(
            self.username@,
            self.password@,
            self.qr_enabled,
        )
    }
}

/// The views of a list of strings.
pub open spec fn strings_view(v: Seq<String>) -> Seq<Seq<char>> {
    v.map_values(|s: String| s@)
}

/// Maps a platform selector to the download tool's `-os` and `-osarch` values.
pub fn map_os_selection(os: &str) -> (r: (&'static str, &'static str))
    ensures
        (r.0@, r.1@) == os_arch(os@),
{
    if str_equal(os, "Windows x64") {
        ("windows", "64")
    } else if str_equal(os, "Windows x86") {
        ("windows", "32")
    } else if str_equal(os, "Linux") {
        ("linux", "64")
    } else if str_equal(os, "macOS x64") {
        ("macos", "64")
    } else if str_equal(os, "macOS arm64") {
        ("macos", "arm64")
    } else if str_equal(os, "macOS") {
        ("macos", "64")
    } else {
        ("windows", "64")
    }
}

/// Maps a platform selector to the label used in output names.
pub fn map_platform_for_output(os: &str) -> (r: String)
    ensures
        r@ == platform_label(os@),
{
    if str_equal(os, "Windows x64") {
        "Win64".to_string()
    } else if str_equal(os, "Windows x86") {
        "Win32".to_string()
    } else if str_equal(os, "Linux") {
        "Linux64".to_string()
    } else if str_equal(os, "macOS x64") {
        "MacOS64".to_string()
    } else if str_equal(os, "macOS arm64") {
        "MacOSArm64".to_string()
    } else if str_equal(os, "macOS") {
        "MacOS64".to_string()
    } else {
        "Win64".to_string()
    }
}

fn push_arg(args: &mut Vec<String>, a: &str)
    ensures
        strings_view(final(args)@) == strings_view(old(args)@).push(a@),
{
    let s = a.to_string();
    args.push(s);
    assert(strings_view(args@) =~= strings_view(old(args)@).push(a@));
}

fn push_args_for(args: &mut Vec<String>, job: &JobMetadata)
    ensures
        strings_view(final(args)@) == strings_view(old(args)@) + job.spec_args(),
{
    let ghost start = strings_view(args@);
    if !str_is_empty(job.app_id.as_str()) && !str_equal(job.app_id.as_str(), "unknown") {
        push_arg(args, "-app");
        push_arg(args, job.app_id.as_str());
    }
    if !str_is_empty(job.branch.as_str()) {
        push_arg(args, "-branch");
        push_arg(args, job.branch.as_str());
    }
    let (os, arch) = map_os_selection(job.os.as_str());
    push_arg(args, "-os");
    push_arg(args, os);
    push_arg(args, "-osarch");
    push_arg(args, arch);
    assert(strings_view(args@) =~= start + target_args(job.app_id@, job.branch@, job.os@));
    let ghost mid = strings_view(args@);
    if job.qr_enabled {
        push_arg(args, "-qr");
    } else if !str_is_empty(job.username.as_str()) {
        push_arg(args, "-username");
        push_arg(args, job.username.as_str());
        if !str_is_empty(job.password.as_str()) {
            push_arg(args, "-password");
            push_arg(args, job.password.as_str());
        }
        push_arg(args, "-remember-password");
    }
    assert(strings_view(args@) =~= mid + auth_args(job.username@, job.password@, job.qr_enabled));
    assert(strings_view(args@) =~= strings_view(old(args)@) + job.spec_args());
}

/// Builds the download tool's command line for a request.
pub fn build_depot_args(job: &JobMetadata) -> (r: Result<Vec<String>, String>)
    ensures
        r matches Ok(v) && strings_view(v@) == job.spec_args(),
{
    let mut args: Vec<String> = Vec::new();
    push_args_for(&mut args, job);
    assert(strings_view(Seq::<String>::empty()) =~= Seq::<Seq<char>>::empty());
    Ok(args)
}

/// Builds the command line of the metadata-only discovery run; the caller adds
/// the tool's manifest-only switch.
pub fn build_preflight_args(job: &JobMetadata) -> (r: Result<Vec<String>, String>)
    ensures
        r matches Ok(v) && strings_view(v@) == job.spec_args(),
{
    let mut args: Vec<String> = Vec::new();
    push_args_for(&mut args, job);
    assert(strings_view(Seq::<String>::empty()) =~= Seq::<Seq<char>>::empty());
    Ok(args)
}

} // verus!

verus! {

/// No request's command line holds both the interactive-code switch and the
/// user-name switch, provided no value the operator typed is itself one of them.
pub proof fn lemma_auth_switches_exclusive(job: JobMetadata)
    requires
        job.app_id@ != "-qr"@ && job.app_id@ != "-username"@,
        job.branch@ != "-qr"@ && job.branch@ != "-username"@,
        job.username@ != "-qr"@ && job.username@ != "-username"@,
        job.password@ != "-qr"@ && job.password@ != "-username"@,
    ensures
        !(job.spec_args().contains("-qr"@) && job.spec_args().contains("-username"@)),
{
    reveal_strlit("-qr");
    reveal_strlit("-username");
    reveal_strlit("-app");
    reveal_strlit("-branch");
    reveal_strlit("-os");
    reveal_strlit("-osarch");
    reveal_strlit("-password");
    reveal_strlit("-remember-password");
    reveal_strlit("windows");
    reveal_strlit("linux");
    reveal_strlit("macos");
    reveal_strlit("64");
    reveal_strlit("32");
    reveal_strlit("arm64");
    let args = job.spec_args();
    let t = target_args(job.app_id@, job.branch@, job.os@);
    let a = auth_args(job.username@, job.password@, job.qr_enabled);
    assert(forall|i: int| 0 <= i < t.len() ==> #[trigger] t[i] != "-qr"@ && t[i] != "-username"@)
        by {
        assert forall|i: int| 0 <= i < t.len() implies #[trigger] t[i] != "-qr"@ && t[i]
            != "-username"@ by {
            let x = t[i];
            if x == "-qr"@ || x == "-username"@ {
                let (o, r) = os_arch(job.os@);
                assert(o.len() == 5 || o.len() == 7);
                assert(x.len() == 3 ==> x[1] == 'q');
                assert(x.len() == 9 ==> x[1] == 'u');
            }
        }
    }
    if job.qr_enabled {
        assert forall|i: int| 0 <= i < args.len() implies args[i] != "-username"@ by {
            if i >= t.len() {
                assert(args[i] == a[i - t.len()]);
            } else {
                assert(args[i] == t[i]);
            }
        }
    } else {
        assert forall|i: int| 0 <= i < args.len() implies args[i] != "-qr"@ by {
            if i >= t.len() {
                assert(args[i] == a[i - t.len()]);
                let x = a[i - t.len()];
                if job.username@.len() > 0 {
                    let pw: Seq<Seq<char>> = if job.password@.len() > 0 {
                        seq!["-password"@, job.password@]
                    } else {
                        seq![]
                    };
                    assert(a == seq!["-username"@, job.username@] + pw + seq![
                        "-remember-password"@,
                    ]);
                    assert(x == "-username"@ || x == job.username@ || x == "-password"@ || x
                        == job.password@ || x == "-remember-password"@);
                    assert(x.len() == 3 ==> x == job.username@ || x == job.password@);
                }
            } else {
                assert(args[i] == t[i]);
            }
        }
    }
}

} // verus!
