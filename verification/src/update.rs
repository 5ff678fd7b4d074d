//! Self-update: which release to fetch, its checksum, and the report of a check or update.
use vstd::prelude::*;
use vstd::string::*;
use crate::error::ZocliError;
use crate::oauth::{sha256, sha256_digest};
use crate::text::{
    all_ws,
    cat,
    cat3,
    from_char_range,
    has_prefix,
    lines_of,
    spec_lines,
    spec_words,
    str_eq,
    text_views,
    to_chars,
    trim,
    trim_seq,
    words_of,
};
use crate::urls::url_path_segments;
use crate::versions::{has_newer_release, spec_has_newer};

verus! {

broadcast use vstd::string::group_string_axioms;

/// How a release archive is packed.
#[derive(PartialEq, Eq, Structural, Clone, Copy, Debug)]
pub enum ArchiveKind {
    TarGz,
    Zip,
}

/// The release archive for one platform.
#[derive(Debug)]
pub struct ReleaseAsset {
    pub archive_kind: ArchiveKind,
    pub binary_name: &'static str,
    pub file_name: &'static str,
    pub target: &'static str,
}

/// What an update fetches: the asset, where from, the versions and the expected checksum.
#[derive(Debug)]
pub struct ReleasePlan {
    pub asset: ReleaseAsset,
    pub base_url: String,
    pub requested_version: String,
    pub resolved_version: Option<String>,
    pub checksum: String,
}

/// The outcome of an update check or update.
#[derive(Debug)]
pub struct UpdateStatusReport {
    pub operation: String,
    pub status: String,
    pub current_version: String,
    pub target_version: String,
    pub requested_version: String,
    pub asset: String,
    pub target: String,
    pub base_url: String,
}

/// A version as requested: blank or `latest` means the latest release; otherwise a tag,
/// given a `v` prefix when it has none.
pub open spec fn spec_normalize_version(v: Seq<char>) -> Seq<char> {
    let t = trim_seq(v);
    if t.len() == 0 || t == "latest"@ {
        "latest"@
    } else if t.len() > 0 && t[0] == 'v' {
        t
    } else {
        seq!['v'] + t
    }
}

pub fn normalize_version(version: &str) -> (r: String)
    ensures
        r@ == spec_normalize_version(version@),
{
    let t = trim(version);
    if t.as_str().is_empty() || str_eq(t.as_str(), "latest") {
        return String::from_str("latest");
    }
    let v = to_chars(t.as_str());
    if v[0] == 'v' {
        t
    } else {
        let r = cat("v", t.as_str());
        proof {
            reveal_strlit("v");
        }
        r
    }
}

/// The text without its trailing `/`s (`trim_end_matches('/')`).
pub open spec fn strip_trailing_slashes(s: Seq<char>) -> Seq<char>
    decreases s.len(),
{
    if s.len() > 0 && s.last() == '/' {
        strip_trailing_slashes(s.drop_last())
    } else {
        s
    }
}

pub fn trim_slashes(s: &str) -> (r: String)
    ensures
        r@ == strip_trailing_slashes(s@),
{
    let v = to_chars(s);
    let mut j: usize = v.len();
    proof {
        assert(s@.take(s@.len() as int) =~= s@);
    }
    while j > 0 && v[j - 1] == '/'
        invariant
            v@ == s@,
            j <= v@.len(),
            strip_trailing_slashes(s@) == strip_trailing_slashes(s@.take(j as int)),
        decreases j,
    {
        proof {
            assert(s@.take(j as int).drop_last() =~= s@.take(j - 1));
        }
        j = j - 1;
    }
    proof {
        assert(s@.take(j as int) =~= s@.subrange(0, j as int));
    }
    from_char_range(&v, 0, j)
}

/// The release base URL an override gives: the explicit one, else the
/// `ZOCLI_UPDATE_BASE_URL` setting (`env_value`) unless it is empty; trailing `/` removed.
pub open spec fn spec_base_override(explicit: Option<Seq<char>>, env_value: Option<Seq<char>>) -> Option<
    Seq<char>,
> {
    match explicit {
        Some(b) => Some(strip_trailing_slashes(b)),
        None => match env_value {
            Some(e) => if strip_trailing_slashes(e).len() > 0 {
                Some(strip_trailing_slashes(e))
            } else {
                None
            },
            None => None,
        },
    }
}

pub open spec fn opt_view(o: Option<&str>) -> Option<Seq<char>> {
    match o {
        Some(s) => Some(s@),
        None => None,
    }
}

pub fn configured_base_url_override(override_base_url: Option<&str>, env_value: Option<&str>) -> (r:
    Option<String>)
    ensures
        match r {
            Some(s) => spec_base_override(opt_view(override_base_url), opt_view(env_value)) == Some(s@),
            None => spec_base_override(opt_view(override_base_url), opt_view(env_value)) is None,
        },
{
    if let Some(base_url) = override_base_url {
        return Some(trim_slashes(base_url));
    }
    match env_value {
        Some(value) => {
            let t = trim_slashes(value);
            if t.as_str().is_empty() {
                None
            } else {
                Some(t)
            }
        },
        None => None,
    }
}

/// Where release files are downloaded from: the override, else GitHub's latest release or
/// the tagged one.
pub open spec fn spec_release_base_url(
    version: Seq<char>,
    explicit: Option<Seq<char>>,
    env_value: Option<Seq<char>>,
) -> Seq<char> {
    match spec_base_override(explicit, env_value) {
        Some(b) => strip_trailing_slashes(b),
        None => if version == "latest"@ {
            "https://github.com/NextStat/zocli/releases/latest/download"@
        } else {
            "https://github.com/NextStat/zocli/releases/download/"@ + version
        },
    }
}

pub fn release_base_url(version: &str, override_base_url: Option<&str>, env_value: Option<&str>) -> (r:
    String)
    ensures
        r@ == spec_release_base_url(version@, opt_view(override_base_url), opt_view(env_value)),
{
    if let Some(base_url) = configured_base_url_override(override_base_url, env_value) {
        return trim_slashes(base_url.as_str());
    }
    if str_eq(version, "latest") {
        String::from_str("https://github.com/NextStat/zocli/releases/latest/download")
    } else {
        cat("https://github.com/NextStat/zocli/releases/download/", version)
    }
}

/// The published asset of a platform (`std::env::consts::OS` and `ARCH`).
pub open spec fn spec_asset(os: Seq<char>, arch: Seq<char>) -> Option<(bool, Seq<char>, Seq<char>, Seq<char>)> {
    if os == "macos"@ && arch == "aarch64"@ {
        Some((true, "zocli"@, "zocli-aarch64-apple-darwin.tar.gz"@, "aarch64-apple-darwin"@))
    } else if os == "macos"@ && arch == "x86_64"@ {
        Some((true, "zocli"@, "zocli-x86_64-apple-darwin.tar.gz"@, "x86_64-apple-darwin"@))
    } else if os == "linux"@ && arch == "aarch64"@ {
        Some(
            (
                true,
                "zocli"@,
                "zocli-aarch64-unknown-linux-gnu.tar.gz"@,
                "aarch64-unknown-linux-gnu"@,
            ),
        )
    } else if os == "linux"@ && arch == "x86_64"@ {
        Some(
            (true, "zocli"@, "zocli-x86_64-unknown-linux-gnu.tar.gz"@, "x86_64-unknown-linux-gnu"@),
        )
    } else if os == "windows"@ && arch == "x86_64"@ {
        Some((false, "zocli.exe"@, "zocli-x86_64-pc-windows-msvc.zip"@, "x86_64-pc-windows-msvc"@))
    } else {
        None
    }
}

pub open spec fn asset_view(a: ReleaseAsset) -> (bool, Seq<char>, Seq<char>, Seq<char>) {
    (a.archive_kind == ArchiveKind::TarGz, a.binary_name@, a.file_name@, a.target@)
}

fn asset(kind: ArchiveKind, binary_name: &'static str, file_name: &'static str, target: &'static str) -> (r:
    ReleaseAsset)
    ensures
        r.archive_kind == kind,
        r.binary_name == binary_name,
        r.file_name == file_name,
        r.target == target,
{
    ReleaseAsset { archive_kind: kind, binary_name, file_name, target }
}

/// The release asset for the platform; other platforms get no automatic updates.
pub fn current_release_asset(os: &str, arch: &str) -> (r: Result<ReleaseAsset, ZocliError>)
    ensures
        match spec_asset(os@, arch@) {
            Some(a) => r matches Ok(x) && asset_view(x) == a,
            None => r matches Err(ZocliError::UnsupportedOperation(m)) && m@
                == "auto-update is not published for target "@ + arch@ + "-"@ + os@,
        },
{
    if str_eq(os, "macos") && str_eq(arch, "aarch64") {
        Ok(asset(ArchiveKind::TarGz, "zocli", "zocli-aarch64-apple-darwin.tar.gz", "aarch64-apple-darwin"))
    } else if str_eq(os, "macos") && str_eq(arch, "x86_64") {
        Ok(asset(ArchiveKind::TarGz, "zocli", "zocli-x86_64-apple-darwin.tar.gz", "x86_64-apple-darwin"))
    } else if str_eq(os, "linux") && str_eq(arch, "aarch64") {
        Ok(
            asset(
                ArchiveKind::TarGz,
                "zocli",
                "zocli-aarch64-unknown-linux-gnu.tar.gz",
                "aarch64-unknown-linux-gnu",
            ),
        )
    } else if str_eq(os, "linux") && str_eq(arch, "x86_64") {
        Ok(
            asset(
                ArchiveKind::TarGz,
                "zocli",
                "zocli-x86_64-unknown-linux-gnu.tar.gz",
                "x86_64-unknown-linux-gnu",
            ),
        )
    } else if str_eq(os, "windows") && str_eq(arch, "x86_64") {
        Ok(
            asset(
                ArchiveKind::Zip,
                "zocli.exe",
                "zocli-x86_64-pc-windows-msvc.zip",
                "x86_64-pc-windows-msvc",
            ),
        )
    } else {
        let mut m = cat3("auto-update is not published for target ", arch, "-");
        m.append(os);
        Err(ZocliError::UnsupportedOperation(m))
    }
}

/// Index of the first line of a `SHA256SUMS` listing whose second word is the asset name.
pub open spec fn checksum_line(lines: Seq<Seq<char>>, name: Seq<char>, i: int) -> bool {
    &&& 0 <= i < lines.len()
    &&& spec_words(lines[i]).len() >= 2 && spec_words(lines[i])[1] == name
    &&& forall|j: int|
        0 <= j < i ==> !(spec_words(#[trigger] lines[j]).len() >= 2 && spec_words(lines[j])[1]
            == name)
}

/// The checksum a `SHA256SUMS` listing gives for an asset: the first word of the first line
/// whose second word is the asset name.
pub fn checksum_for_asset(checksums: &str, asset_name: &str) -> (r: Result<String, ZocliError>)
    ensures
        match r {
            Ok(sum) => exists|i: int| #[trigger]
                checksum_line(spec_lines(checksums@), asset_name@, i) && sum@ == spec_words(
                    spec_lines(checksums@)[i],
                )[0],
            Err(e) => (forall|i: int|
                0 <= i < spec_lines(checksums@).len() ==> !(spec_words(
                    #[trigger] spec_lines(checksums@)[i],
                ).len() >= 2 && spec_words(spec_lines(checksums@)[i])[1] == asset_name@)) && (e matches ZocliError::Integrity(
                m,
            ) && m@ == "missing checksum for release asset "@ + asset_name@),
        },
{
    let lines = lines_of(checksums);
    let ghost ls = spec_lines(checksums@);
    let mut i: usize = 0;
    while i < lines.len()
        invariant
            text_views(lines@) == ls,
            ls == spec_lines(checksums@),
            i <= lines@.len(),
            forall|j: int|
                0 <= j < i ==> !(spec_words(#[trigger] ls[j]).len() >= 2 && spec_words(ls[j])[1]
                    == asset_name@),
        decreases lines@.len() - i,
    {
        let words = words_of(lines[i].as_str());
        proof {
            assert(ls[i as int] == lines@[i as int]@);
        }
        if words.len() >= 2 && str_eq(words[1].as_str(), asset_name) {
            proof {
                assert(text_views(words@)[1] == words@[1]@);
                assert(checksum_line(ls, asset_name@, i as int));
            }
            let sum = words[0].clone();
            proof {
                assert(text_views(words@)[0] == words@[0]@);
            }
            return Ok(sum);
        }
        proof {
            if words@.len() >= 2 {
                assert(text_views(words@)[1] == words@[1]@);
            }
        }
        i = i + 1;
    }
    Err(ZocliError::Integrity(cat("missing checksum for release asset ", asset_name)))
}

/// Lower-case hex digits of bytes, two per byte.
pub open spec fn hex_lower(bytes: Seq<u8>) -> Seq<char>
    decreases bytes.len(),
{
    if bytes.len() == 0 {
        Seq::empty()
    } else {
        hex_lower(bytes.drop_last()) + seq![hex_digit(bytes.last() / 16), hex_digit(bytes.last() % 16)]
    }
}

pub open spec fn hex_digit(d: u8) -> char {
    if d < 10 {
        (48 + d) as char
    } else {
        (87 + d) as char
    }
}

fn hex_char(d: u8) -> (c: char)
    requires
        d < 16,
    ensures
        c == hex_digit(d),
{
    if d < 10 {
        (48 + d) as char
    } else {
        (87 + d) as char
    }
}

/// Bytes in lower-case hex (`format!("{:x}", ..)` of a digest).
pub fn hex_encode(bytes: &[u8]) -> (r: String)
    ensures
        r@ == hex_lower(bytes@),
{
    let mut r = String::new();
    let mut i: usize = 0;
    while i < bytes.len()
        invariant
            i <= bytes@.len(),
            r@ == hex_lower(bytes@.take(i as int)),
        decreases bytes@.len() - i,
    {
        let b = bytes[i];
        crate::text::push_char(&mut r, hex_char(b / 16));
        crate::text::push_char(&mut r, hex_char(b % 16));
        proof {
            assert(bytes@.take(i + 1).drop_last() =~= bytes@.take(i as int));
            assert(bytes@.take(i + 1).last() == b);
        }
        i = i + 1;
    }
    proof {
        assert(bytes@.take(bytes@.len() as int) =~= bytes@);
    }
    r
}

/// Checks a downloaded archive against its published SHA-256 checksum.
pub fn verify_checksum(bytes: &[u8], expected: &str, asset_name: &str) -> (r: Result<(), ZocliError>)
    ensures
        hex_lower(sha256_digest(bytes@)) == expected@ ==> r is Ok,
        hex_lower(sha256_digest(bytes@)) != expected@ ==> (r matches Err(ZocliError::Integrity(m))
            && m@ == "checksum mismatch for "@ + asset_name@ + ": expected "@ + expected@
            + ", got "@ + hex_lower(sha256_digest(bytes@))),
{
    let digest = sha256(bytes);
    let actual = hex_encode(digest.as_slice());
    if str_eq(actual.as_str(), expected) {
        Ok(())
    } else {
        let mut m = cat3("checksum mismatch for ", asset_name, ": expected ");
        m.append(expected);
        m.append(", got ");
        m.append(actual.as_str());
        Err(ZocliError::Integrity(m))
    }
}

/// Index of the first `download` segment.
pub open spec fn first_download(segs: Seq<Seq<char>>, i: int) -> bool {
    0 <= i < segs.len() && segs[i] == "download"@ && forall|j: int|
        0 <= j < i ==> #[trigger] segs[j] != "download"@
}

/// The release version a download URL names: the segment after the first `download` in its
/// path, without its leading `v` (None without one).
pub fn version_from_download_url(url: &str) -> (r: Option<String>)
    ensures
        match url_path_segments(url@) {
            None => r is None,
            Some(segs) => match r {
                Some(v) => exists|i: int| #[trigger]
                    first_download(segs, i) && i + 1 < segs.len() && has_prefix(segs[i + 1], "v"@)
                        && v@ == segs[i + 1].drop_first(),
                None => forall|i: int| #[trigger]
                    first_download(segs, i) ==> !(i + 1 < segs.len() && has_prefix(
                        segs[i + 1],
                        "v"@,
                    )),
            },
        },
{
    let segs = crate::urls::path_segments(url)?;
    let ghost sv = text_views(segs@);
    let mut i: usize = 0;
    while i < segs.len()
        invariant
            sv == text_views(segs@),
            url_path_segments(url@) == Some(sv),
            i <= segs@.len(),
            forall|j: int| 0 <= j < i ==> #[trigger] sv[j] != "download"@,
        decreases segs@.len() - i,
    {
        proof {
            assert(sv[i as int] == segs@[i as int]@);
        }
        if str_eq(segs[i].as_str(), "download") {
            proof {
                assert(first_download(sv, i as int));
                assert forall|k: int| #[trigger] first_download(sv, k) implies k == i by {
                    if k < i {
                        assert(sv[k] != "download"@);
                    } else if k > i {
                        assert(sv[i as int] != "download"@);
                    }
                }
            }
            if i + 1 >= segs.len() {
                return None;
            }
            let next = &segs[i + 1];
            proof {
                assert(sv[i + 1] == next@);
                reveal_strlit("v");
            }
            if crate::text::starts_with(next.as_str(), "v") {
                let v = to_chars(next.as_str());
                let tag = from_char_range(&v, 1, v.len());
                proof {
                    assert(next@.drop_first() =~= next@.subrange(1, next@.len() as int));
                }
                return Some(tag);
            }
            return None;
        }
        i = i + 1;
    }
    None
}

/// The status of a report: the explicit one, else whether the resolved release is newer.
pub open spec fn spec_report_status(
    current: Seq<char>,
    resolved: Option<Seq<char>>,
    explicit: Option<Seq<char>>,
) -> Seq<char> {
    match explicit {
        Some(s) => s,
        None => match resolved {
            Some(v) => if spec_has_newer(current, Some(v)) {
                "update_available"@
            } else {
                "already_up_to_date"@
            },
            None => "check_complete"@,
        },
    }
}

/// The version a report targets: the resolved one, else the requested one without its
/// leading `v`s.
pub open spec fn spec_target_version(requested: Seq<char>, resolved: Option<Seq<char>>) -> Seq<char> {
    match resolved {
        Some(v) => v,
        None => crate::versions::strip_leading_v(requested),
    }
}

pub open spec fn opt_string(o: Option<String>) -> Option<Seq<char>> {
    match o {
        Some(s) => Some(s@),
        None => None,
    }
}

pub fn build_update_report(
    operation: &str,
    current_version: &str,
    plan: &ReleasePlan,
    explicit_status: Option<&str>,
) -> (r: UpdateStatusReport)
    ensures
        r.operation@ == operation@,
        r.status@ == spec_report_status(
            current_version@,
            opt_string(plan.resolved_version),
            opt_view(explicit_status),
        ),
        r.current_version@ == current_version@,
        r.target_version@ == spec_target_version(
            plan.requested_version@,
            opt_string(plan.resolved_version),
        ),
        r.requested_version@ == plan.requested_version@,
        r.asset@ == plan.asset.file_name@,
        r.target@ == plan.asset.target@,
        r.base_url@ == plan.base_url@,
{
    let status: String = match explicit_status {
        Some(s) => s.to_owned(),
        None => match &plan.resolved_version {
            Some(version) => {
                if has_newer_release(current_version, Some(version.as_str())) {
                    String::from_str("update_available")
                } else {
                    String::from_str("already_up_to_date")
                }
            },
            None => String::from_str("check_complete"),
        },
    };
    let target_version = match &plan.resolved_version {
        Some(v) => v.clone(),
        None => crate::versions::strip_v(plan.requested_version.as_str()),
    };
    UpdateStatusReport {
        operation: operation.to_owned(),
        status,
        current_version: current_version.to_owned(),
        target_version,
        requested_version: plan.requested_version.clone(),
        asset: plan.asset.file_name.to_owned(),
        target: plan.asset.target.to_owned(),
        base_url: plan.base_url.clone(),
    }
}

/// The table text of an update report.
pub open spec fn spec_update_table(r: UpdateStatusReport) -> Seq<char> {
    if r.operation@ == "update.check"@ && r.status@ == "already_up_to_date"@ {
        "zocli is up to date ("@ + r.current_version@ + ")"@
    } else if r.operation@ == "update.check"@ && r.status@ == "update_available"@ {
        "Update available: "@ + r.current_version@ + " -> "@ + r.target_version@
            + "\nRun: zocli update"@
    } else if r.operation@ == "update.apply"@ && r.status@ == "updated"@ {
        "Updated zocli from "@ + r.current_version@ + " to "@ + r.target_version@
    } else if r.operation@ == "update.apply"@ && r.status@ == "already_up_to_date"@ {
        "zocli is already up to date ("@ + r.current_version@ + ")"@
    } else {
        "operation\t"@ + r.operation@ + "\nstatus\t"@ + r.status@ + "\ncurrent_version\t"@
            + r.current_version@ + "\ntarget_version\t"@ + r.target_version@ + "\nasset\t"@
            + r.asset@ + "\ntarget\t"@ + r.target@ + "\nbase_url\t"@ + r.base_url@
    }
}

pub fn update_table(r: &UpdateStatusReport) -> (t: String)
    ensures
        t@ == spec_update_table(*r),
{
    let op = r.operation.as_str();
    let st = r.status.as_str();
    if str_eq(op, "update.check") && str_eq(st, "already_up_to_date") {
        cat3("zocli is up to date (", r.current_version.as_str(), ")")
    } else if str_eq(op, "update.check") && str_eq(st, "update_available") {
        let mut t = cat3("Update available: ", r.current_version.as_str(), " -> ");
        t.append(r.target_version.as_str());
        t.append("\nRun: zocli update");
        t
    } else if str_eq(op, "update.apply") && str_eq(st, "updated") {
        let mut t = cat3("Updated zocli from ", r.current_version.as_str(), " to ");
        t.append(r.target_version.as_str());
        t
    } else if str_eq(op, "update.apply") && str_eq(st, "already_up_to_date") {
        cat3("zocli is already up to date (", r.current_version.as_str(), ")")
    } else {
        let mut t = cat("operation\t", op);
        t.append("\nstatus\t");
        t.append(st);
        t.append("\ncurrent_version\t");
        t.append(r.current_version.as_str());
        t.append("\ntarget_version\t");
        t.append(r.target_version.as_str());
        t.append("\nasset\t");
        t.append(r.asset.as_str());
        t.append("\ntarget\t");
        t.append(r.target.as_str());
        t.append("\nbase_url\t");
        t.append(r.base_url.as_str());
        t
    }
}

} // verus!
