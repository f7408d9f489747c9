//! The app-manifest descriptor of a finalized output. Its owner field is always
//! the sentinel "0", whatever the inputs hold.
use vstd::prelude::*;
use crate::assoc::{assoc_get, assoc_put, key_pos, key_pos_from, TextMap};
use crate::depots::{get_shared_depot_owner, is_shared, is_shared_depot, shared_owner};
use crate::job_metadata::{DepotInfo, JobMetadataFile};
use crate::text::{chars_equal, chars_of, decimal, decimal_int, has_at, string_of};
use crate::vdf::{close_text, kv_text, open_text, VdfBuilder};

verus! {

/// Depot id to the manifest id read from the depot's manifest file name.
pub struct ManifestMap {
    pub map: TextMap,
}

/// Depot id to the byte size of its rebuilt content directory.
pub struct DepotSizes {
    pub entries: Vec<(Vec<char>, u64)>,
}

impl View for DepotSizes {
    type V = Seq<(Seq<char>, u64)>;

    open spec fn view(&self) -> Seq<(Seq<char>, u64)> {
        Seq::new(self.entries@.len(), |i: int| (self.entries@[i].0@, self.entries@[i].1))
    }
}

impl ManifestMap {
    pub fn new() -> (r: Self)
        ensures
            r.map@ == Seq::<(Seq<char>, Seq<char>)>::empty(),
    {
        ManifestMap { map: TextMap::new() }
    }

    /// Records a depot's manifest id; a later record for the same depot replaces it.
    pub fn insert(&mut self, depot_id: &str, manifest_id: &str)
        ensures
            final(self).map@ == assoc_put(old(self).map@, depot_id@, manifest_id@),
    {
        let d = chars_of(depot_id);
        let m = chars_of(manifest_id);
        self.map.put(d.as_slice(), m.as_slice());
    }

    /// Records the manifest id that a `<id>.manifest` file name carries; other
    /// file names record nothing.
    pub fn record_manifest_file(&mut self, depot_id: &str, file_name: &str) -> (r: bool)
        ensures
            r == manifest_file_id(file_name@) is Some,
            r ==> final(self).map@ == assoc_put(
                old(self).map@,
                depot_id@,
                manifest_file_id(file_name@)->0,
            ),
            !r ==> final(self).map@ == old(self).map@,
    {
        let f = chars_of(file_name);
        let suffix = chars_of(".manifest");
        proof {
            reveal_strlit(".manifest");
        }
        let n = f.len();
        if n >= suffix.len() && crate::text::matches_at(f.as_slice(), n - suffix.len(), suffix.as_slice()) {
            let stem = crate::text::slice_chars(f.as_slice(), 0, n - suffix.len());
            let d = chars_of(depot_id);
            self.map.put(d.as_slice(), stem.as_slice());
            true
        } else {
            false
        }
    }

    pub fn get(&self, depot_id: &str) -> (r: Option<String>)
        ensures
            crate::preflight::opt_string_view(r) == assoc_get(self.map@, depot_id@),
    {
        let d = chars_of(depot_id);
        match self.map.get(d.as_slice()) {
            Some(m) => Some(string_of(&m)),
            None => None,
        }
    }
}

/// The manifest id of a `<id>.manifest` file name.
pub open spec fn manifest_file_id(name: Seq<char>) -> Option<Seq<char>> {
    if name.len() >= 9 && crate::text::has_at(name, name.len() - 9, ".manifest"@) {
        Some(name.subrange(0, name.len() - 9))
    } else {
        None
    }
}

impl DepotSizes {
    pub fn new() -> (r: Self)
        ensures
            r@ == Seq::<(Seq<char>, u64)>::empty(),
    {
        let r = DepotSizes { entries: Vec::new() };
        assert(r@ =~= Seq::<(Seq<char>, u64)>::empty());
        r
    }

    /// Records a depot's size; a later record for the same depot replaces it.
    pub fn insert(&mut self, depot_id: &str, size: u64)
        ensures
            final(self)@ == assoc_put(old(self)@, depot_id@, size),
    {
        let d = chars_of(depot_id);
        match self.find(d.as_slice()) {
            Some(i) => {
                self.entries.set(i, (d, size));
            },
            None => {
                self.entries.push((d, size));
            },
        }
        assert(self@ =~= assoc_put(old(self)@, depot_id@, size));
    }

    fn find(&self, k: &[char]) -> (r: Option<usize>)
        ensures
            r matches Some(i) ==> key_pos(self@, k@) == i && i < self@.len(),
            r is None ==> key_pos(self@, k@) == -1,
    {
        let mut i: usize = 0;
        while i < self.entries.len()
            invariant
                i <= self@.len(),
                self@.len() == self.entries@.len(),
                key_pos_from(self@, k@, i as int) == key_pos(self@, k@),
            decreases self@.len() - i,
        {
            if chars_equal(self.entries[i].0.as_slice(), k) {
                return Some(i);
            }
            i = i + 1;
        }
        None
    }

    /// A depot's recorded size, zero when none is.
    pub fn size_of(&self, depot_id: &str) -> (r: u64)
        ensures
            r == size_spec(self@, depot_id@),
    {
        let d = chars_of(depot_id);
        match self.find(d.as_slice()) {
            Some(i) => self.entries[i].1,
            None => 0,
        }
    }
}

pub open spec fn size_spec(sizes: Seq<(Seq<char>, u64)>, id: Seq<char>) -> u64 {
    match assoc_get(sizes, id) {
        Some(v) => v,
        None => 0,
    }
}

/// The manifest id written for a depot: the one read from its manifest file,
/// else the one actually used, else the recorded one.
pub open spec fn manifest_for(mm: Seq<(Seq<char>, Seq<char>)>, d: DepotInfo) -> Seq<char> {
    match assoc_get(mm, d.depot_id@) {
        Some(m) => m,
        None => match d.manifest_id_used {
            Some(u) => u@,
            None => d.manifest_id@,
        },
    }
}

/// Entries of the installed-depots section: regular depots only.
pub open spec fn installed_entries(
    depots: Seq<DepotInfo>,
    mm: Seq<(Seq<char>, Seq<char>)>,
    sizes: Seq<(Seq<char>, u64)>,
) -> Seq<char>
    decreases depots.len(),
{
    if depots.len() == 0 {
        seq![]
    } else {
        let d = depots.last();
        installed_entries(depots.drop_last(), mm, sizes) + if is_shared(d.depot_id@) {
            seq![]
        } else {
            open_text(2, d.depot_id@) + kv_text(3, "manifest"@, manifest_for(mm, d)) + kv_text(
                3,
                "size"@,
                decimal(size_spec(sizes, d.depot_id@) as nat),
            ) + close_text(3)
        }
    }
}

/// Entries of the shared-depots section: shared depots with their owner app.
pub open spec fn shared_entries(depots: Seq<DepotInfo>) -> Seq<char>
    decreases depots.len(),
{
    if depots.len() == 0 {
        seq![]
    } else {
        let d = depots.last();
        shared_entries(depots.drop_last()) + if is_shared(d.depot_id@) {
            kv_text(2, d.depot_id@, shared_owner(d.depot_id@))
        } else {
            seq![]
        }
    }
}

/// Entries of the mounted-depots section: every depot, regular and shared.
pub open spec fn mounted_entries(depots: Seq<DepotInfo>, mm: Seq<(Seq<char>, Seq<char>)>) -> Seq<
    char,
>
    decreases depots.len(),
{
    if depots.len() == 0 {
        seq![]
    } else {
        let d = depots.last();
        mounted_entries(depots.drop_last(), mm) + kv_text(2, d.depot_id@, manifest_for(mm, d))
    }
}

pub open spec fn has_shared(depots: Seq<DepotInfo>) -> bool {
    exists|i: int| 0 <= i < depots.len() && is_shared((#[trigger] depots[i]).depot_id@)
}

/// The fields of the app-state section before its subsections.
pub open spec fn acf_head(
    meta: JobMetadataFile,
    install_dir: Seq<char>,
    total_size: u64,
    last_updated: int,
) -> Seq<char> {
    open_text(0, "AppState"@) + kv_text(1, "appid"@, meta.appid@) + kv_text(1, "universe"@, "1"@)
        + kv_text(1, "name"@, meta.game_name@) + kv_text(1, "StateFlags"@, "4"@) + kv_text(
        1,
        "installdir"@,
        install_dir,
    ) + kv_text(1, "LastUpdated"@, decimal_int(last_updated)) + kv_text(1, "UpdateResult"@, "0"@)
        + kv_text(1, "SizeOnDisk"@, decimal(total_size as nat)) + kv_text(
        1,
        "buildid"@,
        meta.build_id@,
    ) + kv_text(1, "LastOwner"@, "0"@) + kv_text(1, "BytesToDownload"@, "0"@) + kv_text(
        1,
        "BytesDownloaded"@,
        "0"@,
    ) + kv_text(1, "AutoUpdateBehavior"@, "0"@) + kv_text(
        1,
        "AllowOtherDownloadsWhileRunning"@,
        "0"@,
    ) + kv_text(1, "ScheduledAutoUpdate"@, "0"@) + open_text(1, "UserConfig"@) + kv_text(
        2,
        "language"@,
        "english"@,
    ) + close_text(2)
}

/// The depot sections and the closing brace of the app-state section.
pub open spec fn acf_tail(
    depots: Seq<DepotInfo>,
    mm: Seq<(Seq<char>, Seq<char>)>,
    sizes: Seq<(Seq<char>, u64)>,
) -> Seq<char> {
    open_text(1, "InstalledDepots"@) + installed_entries(depots, mm, sizes) + close_text(2) + (if has_shared(depots) {
        open_text(1, "SharedDepots"@) + shared_entries(depots) + close_text(2)
    } else {
        seq![]
    }) + open_text(1, "MountedDepots"@) + mounted_entries(depots, mm) + close_text(2)
        + close_text(1)
}

/// The epoch seconds written as the last update: the build date-time's, else `fallback`.
pub open spec fn last_updated_of(meta: JobMetadataFile, fallback: i64) -> int {
    match meta.build_datetime_utc {
        Some(t) => t.epoch(),
        None => fallback as int,
    }
}

/// The whole app-manifest document.
pub open spec fn acf_document(
    meta: JobMetadataFile,
    install_dir: Seq<char>,
    mm: Seq<(Seq<char>, Seq<char>)>,
    sizes: Seq<(Seq<char>, u64)>,
    total_size: u64,
    fallback: i64,
) -> Seq<char> {
    acf_head(meta, install_dir, total_size, last_updated_of(meta, fallback)) + acf_tail(
        meta.depots@,
        mm,
        sizes,
    )
}

} // verus!

verus! {

fn manifest_for_exec(mm: &ManifestMap, d: &DepotInfo) -> (r: String)
    ensures
        r@ == manifest_for(mm.map@, *d),
{
    match mm.get(d.depot_id.as_str()) {
        Some(m) => m,
        None => match &d.manifest_id_used {
            Some(u) => u.clone(),
            None => d.manifest_id.clone(),
        },
    }
}

fn write_installed(vdf: &mut VdfBuilder, depots: &Vec<DepotInfo>, mm: &ManifestMap, sizes: &DepotSizes)
    requires
        old(vdf).indent_level == 2,
    ensures
        final(vdf).indent_level == 2,
        final(vdf).content@ == old(vdf).content@ + installed_entries(depots@, mm.map@, sizes@),
{
    let mut i: usize = 0;
    while i < depots.len()
        invariant
            i <= depots@.len(),
            vdf.indent_level == 2,
            vdf.content@ == old(vdf).content@ + installed_entries(
                depots@.subrange(0, i as int),
                mm.map@,
                sizes@,
            ),
        decreases depots@.len() - i,
    {
        assert(depots@.subrange(0, i + 1).drop_last() =~= depots@.subrange(0, i as int));
        let d = &depots[i];
        let ghost c0 = vdf.content@;
        if !is_shared_depot(d.depot_id.as_str()) {
            let m = manifest_for_exec(mm, d);
            let size = crate::text::decimal_string(sizes.size_of(d.depot_id.as_str()));
            vdf.open_section(d.depot_id.as_str());
            vdf.key_value("manifest", m.as_str());
            vdf.key_value("size", size.as_str());
            vdf.close_section();
            assert(vdf.content@ =~= c0 + (open_text(2, d.depot_id@) + kv_text(3, "manifest"@, manifest_for(mm.map@, *d)) + kv_text(
                3,
                "size"@,
                decimal(size_spec(sizes@, d.depot_id@) as nat),
            ) + close_text(3)));
        }
        i = i + 1;
        assert(vdf.content@ =~= old(vdf).content@ + installed_entries(
            depots@.subrange(0, i as int),
            mm.map@,
            sizes@,
        ));
    }
    assert(depots@.subrange(0, depots@.len() as int) =~= depots@);
}

fn write_shared(vdf: &mut VdfBuilder, depots: &Vec<DepotInfo>) -> (any: bool)
    requires
        old(vdf).indent_level == 2,
    ensures
        final(vdf).indent_level == 2,
        final(vdf).content@ == old(vdf).content@ + shared_entries(depots@),
        any == has_shared(depots@),
{
    let mut any = false;
    let mut i: usize = 0;
    while i < depots.len()
        invariant
            i <= depots@.len(),
            vdf.indent_level == 2,
            vdf.content@ == old(vdf).content@ + shared_entries(depots@.subrange(0, i as int)),
            any == exists|j: int| 0 <= j < i && is_shared((#[trigger] depots@[j]).depot_id@),
        decreases depots@.len() - i,
    {
        assert(depots@.subrange(0, i + 1).drop_last() =~= depots@.subrange(0, i as int));
        let d = &depots[i];
        if is_shared_depot(d.depot_id.as_str()) {
            let owner = get_shared_depot_owner(d.depot_id.as_str());
            vdf.key_value(d.depot_id.as_str(), owner.as_str());
            any = true;
        }
        i = i + 1;
        assert(vdf.content@ =~= old(vdf).content@ + shared_entries(depots@.subrange(0, i as int)));
    }
    assert(depots@.subrange(0, depots@.len() as int) =~= depots@);
    any
}

fn write_mounted(vdf: &mut VdfBuilder, depots: &Vec<DepotInfo>, mm: &ManifestMap)
    requires
        old(vdf).indent_level == 2,
    ensures
        final(vdf).indent_level == 2,
        final(vdf).content@ == old(vdf).content@ + mounted_entries(depots@, mm.map@),
{
    let mut i: usize = 0;
    while i < depots.len()
        invariant
            i <= depots@.len(),
            vdf.indent_level == 2,
            vdf.content@ == old(vdf).content@ + mounted_entries(depots@.subrange(0, i as int), mm.map@),
        decreases depots@.len() - i,
    {
        assert(depots@.subrange(0, i + 1).drop_last() =~= depots@.subrange(0, i as int));
        let d = &depots[i];
        let m = manifest_for_exec(mm, d);
        vdf.key_value(d.depot_id.as_str(), m.as_str());
        i = i + 1;
        assert(vdf.content@ =~= old(vdf).content@ + mounted_entries(depots@.subrange(0, i as int), mm.map@));
    }
    assert(depots@.subrange(0, depots@.len() as int) =~= depots@);
}

fn write_head(vdf: &mut VdfBuilder, metadata: &JobMetadataFile, install_dir_name: &str, total_size: u64, last_updated: i64)
    requires
        old(vdf).indent_level == 0,
        old(vdf).content@ == Seq::<char>::empty(),
    ensures
        final(vdf).indent_level == 1,
        final(vdf).content@ == acf_head(*metadata, install_dir_name@, total_size, last_updated as int),
{
    let mut lu: Vec<char> = Vec::new();
    crate::text::push_decimal_i64(&mut lu, last_updated);
    let lu_s = string_of(&lu);
    let size_s = crate::text::decimal_string(total_size);
    vdf.open_section("AppState");
    vdf.key_value("appid", metadata.appid.as_str());
    vdf.key_value("universe", "1");
    vdf.key_value("name", metadata.game_name.as_str());
    vdf.key_value("StateFlags", "4");
    vdf.key_value("installdir", install_dir_name);
    vdf.key_value("LastUpdated", lu_s.as_str());
    vdf.key_value("UpdateResult", "0");
    vdf.key_value("SizeOnDisk", size_s.as_str());
    vdf.key_value("buildid", metadata.build_id.as_str());
    vdf.key_value("LastOwner", "0");
    vdf.key_value("BytesToDownload", "0");
    vdf.key_value("BytesDownloaded", "0");
    vdf.key_value("AutoUpdateBehavior", "0");
    vdf.key_value("AllowOtherDownloadsWhileRunning", "0");
    vdf.key_value("ScheduledAutoUpdate", "0");
    vdf.open_section("UserConfig");
    vdf.key_value("language", "english");
    vdf.close_section();
    assert(vdf.content@ =~= acf_head(*metadata, install_dir_name@, total_size, last_updated as int));
}

fn write_tail(vdf: &mut VdfBuilder, depots: &Vec<DepotInfo>, mm: &ManifestMap, sizes: &DepotSizes)
    requires
        old(vdf).indent_level == 1,
    ensures
        final(vdf).content@ == old(vdf).content@ + acf_tail(depots@, mm.map@, sizes@),
{
    let ghost c0 = vdf.content@;
    vdf.open_section("InstalledDepots");
    write_installed(vdf, depots, mm, sizes);
    vdf.close_section();
    let ghost c1 = vdf.content@;
    assert(c1 =~= c0 + open_text(1, "InstalledDepots"@) + installed_entries(depots@, mm.map@, sizes@) + close_text(2));
    let mut shared = VdfBuilder { content: Vec::new(), indent_level: 2 };
    let any = write_shared(&mut shared, depots);
    if any {
        vdf.open_section("SharedDepots");
        crate::text::push_all(&mut vdf.content, shared.content.as_slice());
        vdf.close_section();
        assert(vdf.content@ =~= c1 + (open_text(1, "SharedDepots"@) + shared_entries(depots@) + close_text(2)));
    }
    let ghost c2 = vdf.content@;
    vdf.open_section("MountedDepots");
    write_mounted(vdf, depots, mm);
    vdf.close_section();
    vdf.close_section();
    assert(vdf.content@ =~= c2 + open_text(1, "MountedDepots"@) + mounted_entries(depots@, mm.map@) + close_text(2) + close_text(1));
    assert(vdf.content@ =~= c0 + acf_tail(depots@, mm.map@, sizes@));
}

/// Generates the app-manifest document of an output.
///
/// `total_size` is the byte size of the whole content directory, `sizes` the
/// size of each depot's content directory, `manifest_map` the manifest ids
/// read from the manifest files, and `fallback_last_updated` the epoch seconds
/// written when the record has no build date-time.
pub fn generate_acf_content(
    metadata: &JobMetadataFile,
    install_dir_name: &str,
    manifest_map: &ManifestMap,
    sizes: &DepotSizes,
    total_size: u64,
    fallback_last_updated: i64,
) -> (r: String)
    requires
        metadata.wf(),
    ensures
        r@ == acf_document(*metadata, install_dir_name@, manifest_map.map@, sizes@, total_size, fallback_last_updated),
{
    let last_updated: i64 = match &metadata.build_datetime_utc {
        Some(t) => t.timestamp(),
        None => fallback_last_updated,
    };
    let mut vdf = VdfBuilder::new();
    write_head(&mut vdf, metadata, install_dir_name, total_size, last_updated);
    write_tail(&mut vdf, &metadata.depots, manifest_map, sizes);
    vdf.build()
}

} // verus!

verus! {

/// The app-manifest document always holds the owner field with the sentinel
/// value "0", whatever the record, names, sizes or manifest ids hold.
pub proof fn lemma_owner_always_sentinel(
    meta: JobMetadataFile,
    install_dir: Seq<char>,
    mm: Seq<(Seq<char>, Seq<char>)>,
    sizes: Seq<(Seq<char>, u64)>,
    total_size: u64,
    fallback: i64,
)
    ensures
        crate::text::contains_seq(
            acf_document(meta, install_dir, mm, sizes, total_size, fallback),
            kv_text(1, "LastOwner"@, "0"@),
        ),
{
    let lu = last_updated_of(meta, fallback);
    let x = open_text(0, "AppState"@) + kv_text(1, "appid"@, meta.appid@) + kv_text(
        1,
        "universe"@,
        "1"@,
    ) + kv_text(1, "name"@, meta.game_name@) + kv_text(1, "StateFlags"@, "4"@) + kv_text(
        1,
        "installdir"@,
        install_dir,
    ) + kv_text(1, "LastUpdated"@, decimal_int(lu)) + kv_text(1, "UpdateResult"@, "0"@) + kv_text(
        1,
        "SizeOnDisk"@,
        decimal(total_size as nat),
    ) + kv_text(1, "buildid"@, meta.build_id@);
    let kv = kv_text(1, "LastOwner"@, "0"@);
    let y = kv_text(1, "BytesToDownload"@, "0"@) + kv_text(1, "BytesDownloaded"@, "0"@) + kv_text(
        1,
        "AutoUpdateBehavior"@,
        "0"@,
    ) + kv_text(1, "AllowOtherDownloadsWhileRunning"@, "0"@) + kv_text(
        1,
        "ScheduledAutoUpdate"@,
        "0"@,
    ) + open_text(1, "UserConfig"@) + kv_text(2, "language"@, "english"@) + close_text(2)
        + acf_tail(meta.depots@, mm, sizes);
    let doc = acf_document(meta, install_dir, mm, sizes, total_size, fallback);
    assert(doc =~= x + kv + y);
    assert(doc.subrange(x.len() as int, (x.len() + kv.len()) as int) =~= kv);
    assert(crate::text::has_at(doc, x.len() as int, kv));
}

} // verus!

verus! {

/// The start of an app-state owner line, up to its value's opening quote.
pub open spec fn owner_key_prefix() -> Seq<char> {
    seq!['\t'] + crate::vdf::quoted("LastOwner"@) + seq!['\t', '\t', '"']
}

/// The one owner line allowed: the sentinel value.
pub open spec fn owner_line() -> Seq<char> {
    kv_text(1, "LastOwner"@, "0"@)
}

/// Whether a line begins at `i`.
pub open spec fn line_start(t: Seq<char>, i: int) -> bool {
    0 <= i < t.len() && (i == 0 || t[i - 1] == '\n')
}

/// Every line of `t` that begins as an app-state owner line is the sentinel line.
pub open spec fn owner_lines_sentinel(t: Seq<char>) -> bool {
    forall|i: int| line_start(t, i) && #[trigger] has_at(t, i, owner_key_prefix()) ==> has_at(t, i, owner_line())
}

/// A run of whole lines in which the owner rule holds.
pub open spec fn owner_ok(t: Seq<char>) -> bool {
    owner_lines_sentinel(t) && (t.len() == 0 || t.last() == '\n')
}

proof fn lemma_prefix_shape()
    ensures
        forall|k: int| 0 <= k < owner_key_prefix().len() ==> #[trigger] owner_key_prefix()[k] != '\n',
{
    crate::vdf::lemma_escape_plain("LastOwner"@);
    let e = crate::vdf::vdf_escape("LastOwner"@);
    let p = owner_key_prefix();
    assert forall|k: int| 0 <= k < p.len() implies #[trigger] p[k] != '\n' by {
        if 2 <= k < 2 + e.len() {
            assert(p[k] == e[k - 2]);
        }
    }
}

proof fn lemma_join(a: Seq<char>, b: Seq<char>)
    requires
        owner_ok(a),
        owner_ok(b),
    ensures
        owner_ok(a + b),
{
    lemma_prefix_shape();
    let t = a + b;
    let p = owner_key_prefix();
    let f = owner_line();
    assert forall|i: int| line_start(t, i) && #[trigger] has_at(t, i, p) implies has_at(t, i, f) by {
        if i < a.len() {
            if i + p.len() > a.len() {
                let k = a.len() - 1 - i;
                assert(t.subrange(i, i + p.len())[k] == p[k]);
                assert(t[a.len() - 1] == a.last());
            }
            assert(a.subrange(i, i + p.len()) =~= t.subrange(i, i + p.len()));
            if i > 0 {
                assert(a[i - 1] == t[i - 1]);
            }
            assert(line_start(a, i));
            assert(has_at(a, i, p));
            assert(has_at(a, i, f));
            assert(t.subrange(i, i + f.len()) =~= a.subrange(i, i + f.len()));
        } else {
            let j = i - a.len();
            assert(b.subrange(j, j + p.len()) =~= t.subrange(i, i + p.len()));
            if j > 0 {
                assert(b[j - 1] == t[i - 1]);
            }
            assert(line_start(b, j));
            assert(has_at(b, j, p));
            assert(has_at(b, j, f));
            assert(t.subrange(i, i + f.len()) =~= b.subrange(j, j + f.len()));
        }
    }
    if b.len() > 0 {
        assert(t.last() == b.last());
    } else {
        assert(t =~= a);
    }
}

proof fn lemma_escape_owner_key()
    ensures
        crate::vdf::vdf_escape("LastOwner"@) == "LastOwner"@,
        forall|k: int| 0 <= k < 9 ==> #[trigger] "LastOwner"@[k] != '"',
        "LastOwner"@.len() == 9,
{
    reveal_strlit("LastOwner");
    let l = "LastOwner"@;
    assert(l =~= seq!['L', 'a', 's', 't', 'O', 'w', 'n', 'e', 'r']);
    crate::vdf::lemma_escape_unchanged(l);
}

/// A line `\t"<escaped key>"<rest>` that begins as an owner line has the owner
/// key, followed by two tabs and a quote.
proof fn lemma_key_forced(x: Seq<char>, k: Seq<char>, r: Seq<char>)
    requires
        x == seq!['\t', '"'] + crate::vdf::vdf_escape(k) + seq!['"'] + r,
        has_at(x, 0, owner_key_prefix()),
    ensures
        k == "LastOwner"@,
        r.len() >= 3 && r[0] == '\t' && r[1] == '\t' && r[2] == '"',
{
    let el = crate::vdf::vdf_escape("LastOwner"@);
    let ek = crate::vdf::vdf_escape(k);
    crate::vdf::lemma_escape_plain("LastOwner"@);
    crate::vdf::lemma_escape_plain(k);
    let p = owner_key_prefix();
    let n = ek.len() as int;
    let m = el.len() as int;
    assert(p =~= seq!['\t', '"'] + el + seq!['"', '\t', '\t', '"']);
    assert forall|j: int| 0 <= j < p.len() implies #[trigger] x[j] == p[j] by {
        assert(x.subrange(0, p.len() as int)[j] == p[j]);
    }
    lemma_escape_owner_key();
    if n < m {
        assert(x[2 + n] == '"');
        assert(x[2 + n] == p[2 + n]);
        assert(p[2 + n] == el[n]);
        assert(false);
    } else if n > m {
        assert(x[2 + m + 1] == p[2 + m + 1]);
        assert(p[2 + m + 1] == '\t');
        if m + 1 < n {
            assert(x[2 + m + 1] == ek[m + 1]);
        } else {
            assert(x[2 + m + 1] == '"');
        }
        assert(false);
    }
    assert forall|j: int| 0 <= j < n implies #[trigger] ek[j] == el[j] by {
        assert(x[2 + j] == p[2 + j]);
        assert(x[2 + j] == ek[j]);
        assert(p[2 + j] == el[j]);
    }
    assert(ek =~= el);
    crate::vdf::lemma_escape_injective(k, "LastOwner"@);
    assert(x[3 + n] == r[0] && p[3 + n] == '\t');
    assert(x[4 + n] == r[1] && p[4 + n] == '\t');
    assert(x[5 + n] == r[2] && p[5 + n] == '"');
}

} // verus!

verus! {

proof fn lemma_tabs(n: nat)
    ensures
        crate::vdf::tabs(n).len() == n,
        forall|k: int| 0 <= k < n ==> #[trigger] crate::vdf::tabs(n)[k] == '\t',
    decreases n,
{
    if n > 0 {
        lemma_tabs((n - 1) as nat);
    }
}

proof fn lemma_quoted_plain(s: Seq<char>)
    ensures
        forall|k: int| 0 <= k < crate::vdf::quoted(s).len() ==> #[trigger] crate::vdf::quoted(s)[k] != '\n',
        forall|k: int| 0 < k < crate::vdf::quoted(s).len() - 1 ==> #[trigger] crate::vdf::quoted(s)[k] != '\t',
        crate::vdf::quoted(s).len() >= 2,
        crate::vdf::quoted(s)[0] == '"',
{
    crate::vdf::lemma_escape_plain(s);
    let e = crate::vdf::vdf_escape(s);
    let q = crate::vdf::quoted(s);
    assert forall|k: int| 0 <= k < q.len() implies #[trigger] q[k] != '\n' by {
        if 1 <= k < 1 + e.len() {
            assert(q[k] == e[k - 1]);
        }
    }
    assert forall|k: int| 0 < k < q.len() - 1 implies #[trigger] q[k] != '\t' by {
        assert(q[k] == e[k - 1]);
    }
}

/// A key/value line keeps the owner rule unless it is an app-state owner line
/// with another value.
proof fn lemma_kv_ok(level: nat, k: Seq<char>, v: Seq<char>)
    requires
        level != 1 || k != "LastOwner"@ || v == "0"@,
    ensures
        owner_ok(kv_text(level, k, v)),
{
    let x = kv_text(level, k, v);
    let t = crate::vdf::tabs(level);
    let qk = crate::vdf::quoted(k);
    let qv = crate::vdf::quoted(v);
    lemma_tabs(level);
    lemma_quoted_plain(k);
    lemma_quoted_plain(v);
    let p = owner_key_prefix();
    assert(x =~= t + qk + seq!['\t', '\t'] + qv + seq!['\n']);
    assert forall|j: int| 0 <= j < x.len() - 1 implies #[trigger] x[j] != '\n' by {
        if j < t.len() {
            assert(x[j] == t[j]);
        } else if j < t.len() + qk.len() {
            assert(x[j] == qk[j - t.len()]);
        } else if j < t.len() + qk.len() + 2 {
        } else {
            assert(x[j] == qv[j - t.len() - qk.len() - 2]);
        }
    }
    assert forall|i: int| line_start(x, i) && #[trigger] has_at(x, i, p) implies has_at(x, i, owner_line()) by {
        if i > 0 {
            assert(x[i - 1] != '\n');
        }
        assert(x.subrange(0, p.len() as int)[0] == p[0]);
        assert(x.subrange(0, p.len() as int)[1] == p[1]);
        assert(p[0] == '\t' && p[1] == '"');
        if level == 0 {
            assert(x[0] == qk[0]);
        } else if level >= 2 {
            assert(x[1] == t[1]);
        }
        assert(level == 1);
        let r = seq!['\t', '\t'] + qv + seq!['\n'];
        assert(x =~= seq!['\t', '"'] + crate::vdf::vdf_escape(k) + seq!['"'] + r);
        lemma_key_forced(x, k, r);
        assert(x =~= owner_line());
        assert(x.subrange(0, x.len() as int) =~= x);
    }
}

/// A section opening keeps the owner rule.
proof fn lemma_open_ok(level: nat, name: Seq<char>)
    ensures
        owner_ok(open_text(level, name)),
{
    let x = open_text(level, name);
    let t = crate::vdf::tabs(level);
    let qn = crate::vdf::quoted(name);
    lemma_tabs(level);
    lemma_quoted_plain(name);
    let p = owner_key_prefix();
    let q = (t.len() + qn.len() + 1) as int;
    assert(x =~= t + qn + seq!['\n'] + t + seq!['{', '\n']);
    assert forall|i: int| line_start(x, i) && #[trigger] has_at(x, i, p) implies has_at(x, i, owner_line()) by {
        assert(x.subrange(i, i + p.len())[0] == p[0]);
        assert(x.subrange(i, i + p.len())[1] == p[1]);
        assert(p[0] == '\t' && p[1] == '"');
        if i == 0 {
            if level == 0 {
                assert(x[0] == qn[0]);
            } else if level >= 2 {
                assert(x[1] == t[1]);
            }
            let r = seq!['\n'] + t + seq!['{', '\n'];
            assert(x =~= seq!['\t', '"'] + crate::vdf::vdf_escape(name) + seq!['"'] + r);
            lemma_key_forced(x, name, r);
        } else if i < q {
            if i - 1 < t.len() {
                assert(x[i - 1] == t[i - 1]);
            } else {
                assert(x[i - 1] == qn[i - 1 - t.len()]);
            }
        } else if i == q {
            if level == 0 {
                assert(x[q] == '{');
            } else if level >= 2 {
                assert(x[q + 1] == t[1]);
            } else {
                assert(x[q + 1] == '{');
            }
        } else {
            if i - 1 < q + t.len() {
                assert(x[i - 1] == t[i - 1 - q]);
            } else {
                assert(x[i - 1] == '{');
            }
        }
    }
}

/// A section closing keeps the owner rule.
proof fn lemma_close_ok(level: nat)
    ensures
        owner_ok(close_text(level)),
{
    let x = close_text(level);
    let l: nat = if level > 0 {
        (level - 1) as nat
    } else {
        0
    };
    let t = crate::vdf::tabs(l);
    lemma_tabs(l);
    let p = owner_key_prefix();
    assert(x =~= t + seq!['}', '\n']);
    assert forall|i: int| line_start(x, i) && #[trigger] has_at(x, i, p) implies has_at(x, i, owner_line()) by {
        assert(x.subrange(i, i + p.len())[0] == p[0]);
        assert(x.subrange(i, i + p.len())[1] == p[1]);
        assert(p[0] == '\t' && p[1] == '"');
        if i > 0 {
            if i - 1 < t.len() {
                assert(x[i - 1] == t[i - 1]);
            } else {
                assert(x[i - 1] == '}');
            }
        } else if l == 0 {
            assert(x[0] == '}');
        } else if l == 1 {
            assert(x[1] == '}');
        } else {
            assert(x[1] == t[1]);
        }
    }
}

} // verus!

verus! {

proof fn lemma_empty_ok()
    ensures
        owner_ok(Seq::<char>::empty()),
{
}

proof fn lemma_installed_ok(depots: Seq<DepotInfo>, mm: Seq<(Seq<char>, Seq<char>)>, sizes: Seq<(Seq<char>, u64)>)
    ensures
        owner_ok(installed_entries(depots, mm, sizes)),
    decreases depots.len(),
{
    if depots.len() > 0 {
        lemma_installed_ok(depots.drop_last(), mm, sizes);
        let d = depots.last();
        let prev = installed_entries(depots.drop_last(), mm, sizes);
        if is_shared(d.depot_id@) {
            assert(prev + Seq::<char>::empty() =~= prev);
        } else {
            let a = open_text(2, d.depot_id@);
            let b = kv_text(3, "manifest"@, manifest_for(mm, d));
            let c = kv_text(3, "size"@, decimal(size_spec(sizes, d.depot_id@) as nat));
            let e = close_text(3);
            lemma_open_ok(2, d.depot_id@);
            lemma_kv_ok(3, "manifest"@, manifest_for(mm, d));
            lemma_kv_ok(3, "size"@, decimal(size_spec(sizes, d.depot_id@) as nat));
            lemma_close_ok(3);
            lemma_join(a, b);
            lemma_join(a + b, c);
            lemma_join(a + b + c, e);
            lemma_join(prev, a + b + c + e);
        }
    }
}

proof fn lemma_shared_ok(depots: Seq<DepotInfo>)
    ensures
        owner_ok(shared_entries(depots)),
    decreases depots.len(),
{
    if depots.len() > 0 {
        lemma_shared_ok(depots.drop_last());
        let d = depots.last();
        let prev = shared_entries(depots.drop_last());
        if is_shared(d.depot_id@) {
            lemma_kv_ok(2, d.depot_id@, crate::depots::shared_owner(d.depot_id@));
            lemma_join(prev, kv_text(2, d.depot_id@, crate::depots::shared_owner(d.depot_id@)));
        } else {
            assert(prev + Seq::<char>::empty() =~= prev);
        }
    }
}

proof fn lemma_mounted_ok(depots: Seq<DepotInfo>, mm: Seq<(Seq<char>, Seq<char>)>)
    ensures
        owner_ok(mounted_entries(depots, mm)),
    decreases depots.len(),
{
    if depots.len() > 0 {
        lemma_mounted_ok(depots.drop_last(), mm);
        let d = depots.last();
        lemma_kv_ok(2, d.depot_id@, manifest_for(mm, d));
        lemma_join(mounted_entries(depots.drop_last(), mm), kv_text(2, d.depot_id@, manifest_for(mm, d)));
    }
}

proof fn lemma_tail_ok(depots: Seq<DepotInfo>, mm: Seq<(Seq<char>, Seq<char>)>, sizes: Seq<(Seq<char>, u64)>)
    ensures
        owner_ok(acf_tail(depots, mm, sizes)),
{
    let a = open_text(1, "InstalledDepots"@);
    let b = installed_entries(depots, mm, sizes);
    let c = close_text(2);
    let s = if has_shared(depots) {
        open_text(1, "SharedDepots"@) + shared_entries(depots) + close_text(2)
    } else {
        seq![]
    };
    let m1 = open_text(1, "MountedDepots"@);
    let m2 = mounted_entries(depots, mm);
    lemma_open_ok(1, "InstalledDepots"@);
    lemma_installed_ok(depots, mm, sizes);
    lemma_close_ok(2);
    lemma_close_ok(1);
    lemma_open_ok(1, "MountedDepots"@);
    lemma_mounted_ok(depots, mm);
    if has_shared(depots) {
        lemma_open_ok(1, "SharedDepots"@);
        lemma_shared_ok(depots);
        lemma_join(open_text(1, "SharedDepots"@), shared_entries(depots));
        lemma_join(open_text(1, "SharedDepots"@) + shared_entries(depots), close_text(2));
    }
    lemma_join(a, b);
    lemma_join(a + b, c);
    lemma_join(a + b + c, s);
    lemma_join(a + b + c + s, m1);
    lemma_join(a + b + c + s + m1, m2);
    lemma_join(a + b + c + s + m1 + m2, c);
    lemma_join(a + b + c + s + m1 + m2 + c, close_text(1));
}

proof fn lemma_head_ok(meta: JobMetadataFile, install_dir: Seq<char>, total_size: u64, last_updated: int)
    ensures
        owner_ok(acf_head(meta, install_dir, total_size, last_updated)),
{
    reveal_strlit("LastOwner");
    reveal_strlit("appid");
    reveal_strlit("universe");
    reveal_strlit("name");
    reveal_strlit("StateFlags");
    reveal_strlit("installdir");
    reveal_strlit("LastUpdated");
    reveal_strlit("UpdateResult");
    reveal_strlit("SizeOnDisk");
    reveal_strlit("buildid");
    reveal_strlit("BytesToDownload");
    reveal_strlit("BytesDownloaded");
    reveal_strlit("AutoUpdateBehavior");
    reveal_strlit("AllowOtherDownloadsWhileRunning");
    reveal_strlit("ScheduledAutoUpdate");
    let x1 = open_text(0, "AppState"@);
    let x2 = kv_text(1, "appid"@, meta.appid@);
    let x3 = kv_text(1, "universe"@, "1"@);
    let x4 = kv_text(1, "name"@, meta.game_name@);
    let x5 = kv_text(1, "StateFlags"@, "4"@);
    let x6 = kv_text(1, "installdir"@, install_dir);
    let x7 = kv_text(1, "LastUpdated"@, decimal_int(last_updated));
    let x8 = kv_text(1, "UpdateResult"@, "0"@);
    let x9 = kv_text(1, "SizeOnDisk"@, decimal(total_size as nat));
    let x10 = kv_text(1, "buildid"@, meta.build_id@);
    let x11 = kv_text(1, "LastOwner"@, "0"@);
    let x12 = kv_text(1, "BytesToDownload"@, "0"@);
    let x13 = kv_text(1, "BytesDownloaded"@, "0"@);
    let x14 = kv_text(1, "AutoUpdateBehavior"@, "0"@);
    let x15 = kv_text(1, "AllowOtherDownloadsWhileRunning"@, "0"@);
    let x16 = kv_text(1, "ScheduledAutoUpdate"@, "0"@);
    let x17 = open_text(1, "UserConfig"@);
    let x18 = kv_text(2, "language"@, "english"@);
    let x19 = close_text(2);
    lemma_open_ok(0, "AppState"@);
    lemma_kv_ok(1, "appid"@, meta.appid@);
    lemma_kv_ok(1, "universe"@, "1"@);
    lemma_kv_ok(1, "name"@, meta.game_name@);
    lemma_kv_ok(1, "StateFlags"@, "4"@);
    lemma_kv_ok(1, "installdir"@, install_dir);
    lemma_kv_ok(1, "LastUpdated"@, decimal_int(last_updated));
    lemma_kv_ok(1, "UpdateResult"@, "0"@);
    lemma_kv_ok(1, "SizeOnDisk"@, decimal(total_size as nat));
    lemma_kv_ok(1, "buildid"@, meta.build_id@);
    lemma_kv_ok(1, "LastOwner"@, "0"@);
    lemma_kv_ok(1, "BytesToDownload"@, "0"@);
    lemma_kv_ok(1, "BytesDownloaded"@, "0"@);
    lemma_kv_ok(1, "AutoUpdateBehavior"@, "0"@);
    lemma_kv_ok(1, "AllowOtherDownloadsWhileRunning"@, "0"@);
    lemma_kv_ok(1, "ScheduledAutoUpdate"@, "0"@);
    lemma_open_ok(1, "UserConfig"@);
    lemma_kv_ok(2, "language"@, "english"@);
    lemma_close_ok(2);
    lemma_join(x1, x2);
    lemma_join(x1 + x2, x3);
    lemma_join(x1 + x2 + x3, x4);
    lemma_join(x1 + x2 + x3 + x4, x5);
    lemma_join(x1 + x2 + x3 + x4 + x5, x6);
    lemma_join(x1 + x2 + x3 + x4 + x5 + x6, x7);
    lemma_join(x1 + x2 + x3 + x4 + x5 + x6 + x7, x8);
    lemma_join(x1 + x2 + x3 + x4 + x5 + x6 + x7 + x8, x9);
    lemma_join(x1 + x2 + x3 + x4 + x5 + x6 + x7 + x8 + x9, x10);
    lemma_join(x1 + x2 + x3 + x4 + x5 + x6 + x7 + x8 + x9 + x10, x11);
    lemma_join(x1 + x2 + x3 + x4 + x5 + x6 + x7 + x8 + x9 + x10 + x11, x12);
    lemma_join(x1 + x2 + x3 + x4 + x5 + x6 + x7 + x8 + x9 + x10 + x11 + x12, x13);
    lemma_join(x1 + x2 + x3 + x4 + x5 + x6 + x7 + x8 + x9 + x10 + x11 + x12 + x13, x14);
    lemma_join(x1 + x2 + x3 + x4 + x5 + x6 + x7 + x8 + x9 + x10 + x11 + x12 + x13 + x14, x15);
    lemma_join(x1 + x2 + x3 + x4 + x5 + x6 + x7 + x8 + x9 + x10 + x11 + x12 + x13 + x14 + x15, x16);
    lemma_join(x1 + x2 + x3 + x4 + x5 + x6 + x7 + x8 + x9 + x10 + x11 + x12 + x13 + x14 + x15 + x16, x17);
    lemma_join(x1 + x2 + x3 + x4 + x5 + x6 + x7 + x8 + x9 + x10 + x11 + x12 + x13 + x14 + x15 + x16 + x17, x18);
    lemma_join(x1 + x2 + x3 + x4 + x5 + x6 + x7 + x8 + x9 + x10 + x11 + x12 + x13 + x14 + x15 + x16 + x17 + x18, x19);
}

/// The owner field cannot be forged: every line of the app-manifest document
/// that begins as the app-state owner field (`\t"LastOwner"\t\t"`) is the
/// sentinel line `\t"LastOwner"\t\t"0"`, whatever names, ids, sizes or
/// manifest ids the record holds. Keys and values are escaped, so no input
/// adds a line of its own.
pub proof fn lemma_owner_cannot_be_forged(
    meta: JobMetadataFile,
    install_dir: Seq<char>,
    mm: Seq<(Seq<char>, Seq<char>)>,
    sizes: Seq<(Seq<char>, u64)>,
    total_size: u64,
    fallback: i64,
)
    ensures
        owner_lines_sentinel(acf_document(meta, install_dir, mm, sizes, total_size, fallback)),
{
    lemma_head_ok(meta, install_dir, total_size, last_updated_of(meta, fallback));
    lemma_tail_ok(meta.depots@, mm, sizes);
    lemma_join(
        acf_head(meta, install_dir, total_size, last_updated_of(meta, fallback)),
        acf_tail(meta.depots@, mm, sizes),
    );
}

} // verus!
