//! The update flow: the release description, the persisted check result,
//! the state the background check reports, version comparison, and the
//! outcome rules of the installer download.
use crate::text::{
    chars_of, digit, lemma_zero_padded_four, lemma_zero_padded_len, lemma_zero_padded_two,
    push_zero_padded, string_of_range, text_eq, zero_padded,
};
use vstd::prelude::*;

verus! {

// ---------------------------------------------------------------------
// Wall-clock time
// ---------------------------------------------------------------------

/// Nanoseconds per second.
pub const NANOS_PER_SEC: u128 = 1_000_000_000;

/// A wall-clock instant: nanoseconds since the Unix epoch (negative before
/// it).
#[derive(Debug, Clone, Copy, PartialEq, Eq, Structural)]
pub struct WallTime {
    pub unix_nanos: i128,
}

/// A non-negative length of time, in nanoseconds.
#[derive(Debug, Clone, Copy, PartialEq, Eq, Structural)]
pub struct Span {
    pub nanos: u128,
}

/// The largest distance from the epoch, in nanoseconds, of an instant the
/// dashboard handles: the most whole seconds an `i64` counts.
pub const MAX_NANOS: i128 = 9_223_372_036_854_775_807_000_000_000;

/// Whether an instant lies within `MAX_NANOS` of the epoch, so that its
/// whole seconds fit the cache file and sums and differences of two such
/// instants stay representable.
pub open spec fn in_range(t: WallTime) -> bool {
    -MAX_NANOS <= t.unix_nanos <= MAX_NANOS
}

impl Span {
    pub fn from_secs(secs: u64) -> (r: Span)
        ensures
            r.nanos == secs * NANOS_PER_SEC,
    {
        Span { nanos: (secs as u128) * NANOS_PER_SEC }
    }
}

impl WallTime {
    /// `secs` whole seconds after the epoch.
    pub fn from_unix_secs(secs: u64) -> (r: WallTime)
        requires
            secs <= i64::MAX,
        ensures
            r.unix_nanos == secs * NANOS_PER_SEC,
            in_range(r),
    {
        WallTime { unix_nanos: ((secs as u128) * NANOS_PER_SEC) as i128 }
    }

    /// This instant moved later by `d`.
    pub fn plus(self, d: Span) -> (r: WallTime)
        requires
            in_range(self),
            d.nanos <= MAX_NANOS,
        ensures
            r.unix_nanos == self.unix_nanos + d.nanos,
    {
        WallTime { unix_nanos: self.unix_nanos + (d.nanos as i128) }
    }

    /// This instant moved earlier by `d`.
    pub fn minus(self, d: Span) -> (r: WallTime)
        requires
            in_range(self),
            d.nanos <= MAX_NANOS,
        ensures
            r.unix_nanos == self.unix_nanos - d.nanos,
    {
        WallTime { unix_nanos: self.unix_nanos - (d.nanos as i128) }
    }

    /// How long after `earlier` this instant is, or `None` when `earlier`
    /// is later (as `SystemTime::duration_since` fails).
    pub fn duration_since(self, earlier: WallTime) -> (r: Option<Span>)
        requires
            in_range(self),
            in_range(earlier),
        ensures
            self.unix_nanos >= earlier.unix_nanos <==> r is Some,
            r matches Some(d) ==> d.nanos == self.unix_nanos - earlier.unix_nanos,
    {
        if self.unix_nanos >= earlier.unix_nanos {
            Some(Span { nanos: (self.unix_nanos - earlier.unix_nanos) as u128 })
        } else {
            None
        }
    }

    /// The instant stored in the cache file as whole Unix seconds; a
    /// negative count reads as the epoch.
    pub fn from_persisted_secs(secs: i64) -> (r: WallTime)
        ensures
            r.unix_nanos == if secs >= 0 {
                secs * NANOS_PER_SEC
            } else {
                0
            },
            in_range(r),
    {
        if secs >= 0 {
            WallTime::from_unix_secs(secs as u64)
        } else {
            WallTime { unix_nanos: 0 }
        }
    }

    /// The whole Unix seconds the cache file stores for this instant; an
    /// instant before the epoch stores 0.
    pub fn persisted_secs(self) -> (r: i64)
        requires
            in_range(self),
        ensures
            self.unix_nanos >= 0 ==> r == (self.unix_nanos as int) / (NANOS_PER_SEC as int),
            self.unix_nanos < 0 ==> r == 0,
    {
        if self.unix_nanos >= 0 {
            let q: i128 = self.unix_nanos / 1_000_000_000;
            q as i64
        } else {
            0
        }
    }
}

/// Law: a whole-second instant after the epoch survives the cache file:
/// storing it as seconds and reading it back gives the same instant.
pub proof fn lemma_persisted_secs_round_trip(secs: i64)
    requires
        secs >= 0,
    ensures
        (secs * NANOS_PER_SEC) / (NANOS_PER_SEC as int) == secs,
{
    assert((secs * NANOS_PER_SEC) / (NANOS_PER_SEC as int) == secs) by (nonlinear_arith);
}

// ---------------------------------------------------------------------
// Releases
// ---------------------------------------------------------------------

/// The asset filename the installer downloader looks for.
pub const INSTALLER_ASSET_NAME: &'static str = "PerfWindow-Setup.exe";

/// One published asset on a release.
#[derive(Debug, Clone)]
pub struct Asset {
    pub name: String,
    pub browser_download_url: String,
    pub size: u64,
}

/// The fields of a published release that the update flow uses.
#[derive(Debug, Clone)]
pub struct Release {
    pub tag_name: String,
    pub name: String,
    pub body: String,
    pub html_url: String,
    pub assets: Vec<Asset>,
}

impl Release {
    /// The installer asset of this release, or `None` if it is missing
    /// (which the caller treats as a malformed release).
    pub fn installer_asset(&self) -> (r: Option<&Asset>)
        ensures
            r is Some <==> exists|i: int|
                0 <= i < self.assets@.len() && self.assets@[i].name@ == INSTALLER_ASSET_NAME@,
            r matches Some(a) ==> exists|i: int|
                0 <= i < self.assets@.len() && self.assets@[i] == *a && a.name@
                    == INSTALLER_ASSET_NAME@ && forall|j: int|
                    0 <= j < i ==> self.assets@[j].name@ != INSTALLER_ASSET_NAME@,
    {
        let mut i: usize = 0;
        while i < self.assets.len()
            invariant
                i <= self.assets@.len(),
                forall|j: int| 0 <= j < i ==> self.assets@[j].name@ != INSTALLER_ASSET_NAME@,
            decreases self.assets@.len() - i,
        {
            if text_eq(self.assets[i].name.as_str(), INSTALLER_ASSET_NAME) {
                return Some(&self.assets[i]);
            }
            i = i + 1;
        }
        None
    }
}

// ---------------------------------------------------------------------
// Version comparison
// ---------------------------------------------------------------------

#[verifier::external_type_specification]
#[verifier::external_body]
pub struct ExVersion(semver::Version);

/// The message `semver::Version::parse` fails with on `text`, or `None`
/// when `text` is a valid SemVer version.
pub uninterp spec fn semver_parse_error(text: Seq<char>) -> Option<Seq<char>>;

/// Whether the version written `a` orders after the version written `b`
/// under the ordering of `semver::Version` (SemVer precedence, then build
/// metadata).
pub uninterp spec fn semver_gt(a: Seq<char>, b: Seq<char>) -> bool;

/// A SemVer version together with the text it was parsed from.
pub struct ParsedVersion {
    text: String,
    version: semver::Version,
}

impl View for ParsedVersion {
    type V = Seq<char>;

    closed spec fn view(&self) -> Seq<char> {
        self.text@
    }
}

/// Parses `text` with `semver::Version::parse`. The contract claims that
/// the parse succeeds exactly when `semver_parse_error(text)` is `None`,
/// and that a failure carries that message (the error's `Display` text).
#[verifier::external_body]
fn parse_version(text: &str) -> (r: Result<ParsedVersion, String>)
    ensures
        match semver_parse_error(text@) {
            None => r matches Ok(p) && p@ == text@,
            Some(m) => r matches Err(e) && e@ == m,
        },
{
    match semver::Version::parse(text) {
        Ok(version) => Ok(ParsedVersion { text: text.to_owned(), version }),
        Err(e) => Err(e.to_string()),
    }
}

/// `a > b` on two parsed versions (the derived `Ord` of `semver::Version`,
/// a total order). The contract claims the result is `semver_gt` of the two
/// texts, that no version orders after itself, and that two versions never
/// order after each other.
#[verifier::external_body]
fn version_gt(a: &ParsedVersion, b: &ParsedVersion) -> (r: bool)
    ensures
        r == semver_gt(a@, b@),
        a@ == b@ ==> !r,
        r ==> !semver_gt(b@, a@),
{
    a.version > b.version
}

/// The error `is_newer` reports for a tag without the leading `v`.
pub open spec fn missing_prefix_message(tag: Seq<char>) -> Seq<char> {
    "release tag missing 'v' prefix: "@ + tag
}

/// What `is_newer` answers: an error from parsing `current`, a missing
/// `v`, or an error from parsing the tag's remainder, in that order of
/// precedence; otherwise whether the release orders after `current`.
pub open spec fn newer_outcome(current: Seq<char>, tag: Seq<char>) -> Result<bool, Seq<char>> {
    match semver_parse_error(current) {
        Some(m) => Err(m),
        None => if tag.len() == 0 || tag[0] != 'v' {
            Err(missing_prefix_message(tag))
        } else {
            match semver_parse_error(tag.drop_first()) {
                Some(m) => Err(m),
                None => Ok(semver_gt(tag.drop_first(), current)),
            }
        },
    }
}

/// Compare a current version (raw, as `CARGO_PKG_VERSION` writes it)
/// against a release tag (`v`-prefixed): `Ok(true)` if the release is newer
/// under SemVer ordering. Both must parse as SemVer after the tag's leading
/// `v` is stripped; anything else is an `Err` with the reason, so a
/// malformed release surfaces as a failed check rather than "no update".
pub fn is_newer(current: &str, release_tag: &str) -> (r: Result<bool, String>)
    ensures
        match newer_outcome(current@, release_tag@) {
            Ok(b) => r == Ok::<bool, String>(b),
            Err(m) => r matches Err(e) && e@ == m,
        },
        release_tag@ == seq!['v'] + current@ ==> r != Ok::<bool, String>(true),
{
    let cur = match parse_version(current) {
        Ok(p) => p,
        Err(e) => return Err(e),
    };
    let tag = chars_of(release_tag);
    if tag.len() == 0 || tag[0] != 'v' {
        let mut msg = String::new();
        msg.append("release tag missing 'v' prefix: ");
        msg.append(release_tag);
        assert(Seq::<char>::empty() + "release tag missing 'v' prefix: "@ =~= "release tag missing 'v' prefix: "@);
        return Err(msg);
    }
    let rest = string_of_range(&tag, 1, tag.len());
    assert(rest@ =~= release_tag@.drop_first());
    let rel = match parse_version(rest.as_str()) {
        Ok(p) => p,
        Err(e) => return Err(e),
    };
    proof {
        if release_tag@ == seq!['v'] + current@ {
            assert(release_tag@.drop_first() =~= current@);
        }
    }
    Ok(version_gt(&rel, &cur))
}

// ---------------------------------------------------------------------
// The persisted check result
// ---------------------------------------------------------------------

/// How long a successful check stays fresh, in seconds (six hours).
pub const TTL_SECS: u64 = 21_600;

/// How long a successful check stays fresh before the next startup checks
/// again.
pub fn ttl() -> (r: Span)
    ensures
        r.nanos == TTL_SECS * NANOS_PER_SEC,
{
    Span::from_secs(TTL_SECS)
}

/// One persisted update-check result.
#[derive(Debug, Clone)]
pub struct Cache {
    pub checked_at: WallTime,
    pub latest_tag: String,
    pub latest_name: String,
    pub latest_body: String,
    pub latest_asset_url: String,
    pub latest_asset_size: u64,
}

impl Cache {
    /// `true` if the cache is older than `ttl` relative to `now`. A
    /// `checked_at` in the future is also stale: a clock that stepped
    /// backwards must not freeze the cache as fresh.
    pub fn is_stale(&self, now: WallTime, ttl: Span) -> (r: bool)
        requires
            in_range(now),
            in_range(self.checked_at),
        ensures
            r == (now.unix_nanos < self.checked_at.unix_nanos || now.unix_nanos
                - self.checked_at.unix_nanos > ttl.nanos),
    {
        match now.duration_since(self.checked_at) {
            Some(age) => age.nanos > ttl.nanos,
            None => true,
        }
    }
}

/// Law: a cache is fresh exactly inside the window from its check time to
/// `ttl` after it; before the check time and after the window it is stale.
pub proof fn lemma_cache_fresh_window(checked: int, now: int, ttl: nat)
    ensures
        !(now < checked || now - checked > ttl) <==> (checked <= now <= checked + ttl),
{
}

// ---------------------------------------------------------------------
// Check state
// ---------------------------------------------------------------------

/// The state the background check reports. The checker starts `Idle`,
/// passes through `Checking` and ends in one of the three others.
#[derive(Debug, Clone)]
pub enum UpdateState {
    /// No check has been requested yet.
    Idle,
    /// A check is in flight.
    Checking,
    /// The latest release matches or precedes the running version.
    NoUpdate { checked_at: WallTime },
    /// A newer release was found.
    Available { release: Release, checked_at: WallTime },
    /// The check could not complete.
    Failed { reason: String, checked_at: WallTime },
}

impl Default for UpdateState {
    fn default() -> (r: Self)
        ensures
            r is Idle,
    {
        UpdateState::Idle
    }
}

/// When the last completed check finished, if any.
pub open spec fn completed_at(s: UpdateState) -> Option<WallTime> {
    match s {
        UpdateState::Idle | UpdateState::Checking => None,
        UpdateState::NoUpdate { checked_at } => Some(checked_at),
        UpdateState::Available { checked_at, .. } => Some(checked_at),
        UpdateState::Failed { checked_at, .. } => Some(checked_at),
    }
}

impl UpdateState {
    /// The timestamp of the last completed check, if any.
    pub fn checked_at(&self) -> (r: Option<WallTime>)
        ensures
            r == completed_at(*self),
    {
        match self {
            UpdateState::Idle | UpdateState::Checking => None,
            UpdateState::NoUpdate { checked_at } => Some(*checked_at),
            UpdateState::Available { checked_at, .. } => Some(*checked_at),
            UpdateState::Failed { checked_at, .. } => Some(*checked_at),
        }
    }
}

/// Whether the update banner shows: a newer release is available and the
/// user has not pressed `Later` this session.
pub fn update_banner_visible(dismissed: bool, state: &UpdateState) -> (r: bool)
    ensures
        r == (!dismissed && (*state is Available)),
{
    if dismissed {
        return false;
    }
    match state {
        UpdateState::Available { .. } => true,
        _ => false,
    }
}

/// A local date and time to the minute.
#[derive(Debug, Clone, Copy, PartialEq, Eq, Structural)]
pub struct LocalStamp {
    pub year: u32,
    pub month: u32,
    pub day: u32,
    pub hour: u32,
    pub minute: u32,
}

/// `YYYY-MM-DD HH:MM`, each field zero-padded.
pub open spec fn stamp_text(t: LocalStamp) -> Seq<char> {
    zero_padded(t.year as nat, 4) + "-"@ + zero_padded(t.month as nat, 2) + "-"@ + zero_padded(
        t.day as nat,
        2,
    ) + " "@ + zero_padded(t.hour as nat, 2) + ":"@ + zero_padded(t.minute as nat, 2)
}

/// Render a local time as `YYYY-MM-DD HH:MM`.
pub fn format_stamp(t: LocalStamp) -> (r: String)
    ensures
        r@ == stamp_text(t),
{
    let mut s = String::new();
    push_zero_padded(&mut s, t.year as u64, 4);
    s.append("-");
    push_zero_padded(&mut s, t.month as u64, 2);
    s.append("-");
    push_zero_padded(&mut s, t.day as u64, 2);
    s.append(" ");
    push_zero_padded(&mut s, t.hour as u64, 2);
    s.append(":");
    push_zero_padded(&mut s, t.minute as u64, 2);
    assert(s@ =~= stamp_text(t));
    s
}

/// The Settings line describing the last check: `local` is the local time
/// of the state's check timestamp (unused for `Idle` and `Checking`).
pub open spec fn checked_at_text(state: UpdateState, local: LocalStamp) -> Seq<char> {
    match state {
        UpdateState::Idle => "never"@,
        UpdateState::Checking => "checking now\u{2026}"@,
        UpdateState::NoUpdate { .. } | UpdateState::Available { .. } => stamp_text(local),
        UpdateState::Failed { reason, .. } => stamp_text(local) + " (failed: "@ + reason@ + ")"@,
    }
}

/// Whether every field of `t` fits its printed width (four year digits,
/// two for the rest).
pub open spec fn stamp_in_range(t: LocalStamp) -> bool {
    t.year < 10000 && t.month < 100 && t.day < 100 && t.hour < 100 && t.minute < 100
}

/// `YYYY-MM-DD HH:MM` written out character by character.
pub open spec fn stamp_chars(t: LocalStamp) -> Seq<char> {
    let (y, mo, d, h, mi) = (t.year as nat, t.month as nat, t.day as nat, t.hour as nat, t.minute as nat);
    seq![
        digit(y / 1000), digit((y / 100) % 10), digit((y / 10) % 10), digit(y % 10), '-',
        digit(mo / 10), digit(mo % 10), '-', digit(d / 10), digit(d % 10), ' ',
        digit(h / 10), digit(h % 10), ':', digit(mi / 10), digit(mi % 10),
    ]
}

/// Law: the Settings line says "never" exactly when no check has run. A
/// check that completed without failing (no update, or one available) is
/// shown as its local time, `YYYY-MM-DD HH:MM`, and nothing else; a failed
/// one as that time followed by the reason.
pub proof fn lemma_checked_at_line(state: UpdateState, local: LocalStamp)
    ensures
        (checked_at_text(state, local) == "never"@) <==> (state is Idle),
        stamp_in_range(local) ==> stamp_text(local) == stamp_chars(local),
        stamp_in_range(local) && (state is NoUpdate || state is Available) ==> checked_at_text(
            state,
            local,
        ) == stamp_chars(local),
        stamp_in_range(local) ==> (state matches UpdateState::Failed { reason, .. }
            ==> checked_at_text(state, local) == stamp_chars(local) + " (failed: "@ + reason@
            + ")"@),
{
    reveal_strlit("never");
    reveal_strlit("checking now\u{2026}");
    reveal_strlit("-");
    reveal_strlit(" ");
    reveal_strlit(":");
    lemma_zero_padded_len(local.year as nat, 4);
    lemma_zero_padded_len(local.month as nat, 2);
    lemma_zero_padded_len(local.day as nat, 2);
    lemma_zero_padded_len(local.hour as nat, 2);
    lemma_zero_padded_len(local.minute as nat, 2);
    assert(stamp_text(local).len() >= 16);
    if stamp_in_range(local) {
        lemma_zero_padded_four(local.year as nat);
        lemma_zero_padded_two(local.month as nat);
        lemma_zero_padded_two(local.day as nat);
        lemma_zero_padded_two(local.hour as nat);
        lemma_zero_padded_two(local.minute as nat);
        assert(stamp_text(local) =~= stamp_chars(local));
    }
    assert("never"@.len() == 5);
    match state {
        UpdateState::Idle => {},
        UpdateState::Checking => {
            assert("checking now\u{2026}"@.len() == 13);
        },
        UpdateState::NoUpdate { .. } | UpdateState::Available { .. } => {
            assert(checked_at_text(state, local).len() >= 16);
        },
        UpdateState::Failed { reason, .. } => {
            let t = stamp_text(local) + " (failed: "@ + reason@ + ")"@;
            assert(t.len() >= stamp_text(local).len());
            assert(checked_at_text(state, local).len() >= 16);
        },
    }
}

/// Describe the last update check for the Settings modal.
pub fn format_checked_at(state: &UpdateState, local: LocalStamp) -> (r: String)
    ensures
        r@ == checked_at_text(*state, local),
{
    match state {
        UpdateState::Idle => {
            let mut s = String::new();
            s.append("never");
            assert(s@ =~= checked_at_text(*state, local));
            s
        },
        UpdateState::Checking => {
            let mut s = String::new();
            s.append("checking now\u{2026}");
            assert(s@ =~= checked_at_text(*state, local));
            s
        },
        UpdateState::NoUpdate { .. } | UpdateState::Available { .. } => format_stamp(local),
        UpdateState::Failed { reason, .. } => {
            let mut s = format_stamp(local);
            s.append(" (failed: ");
            s.append(reason.as_str());
            s.append(")");
            s
        },
    }
}

// ---------------------------------------------------------------------
// Fetching and downloading
// ---------------------------------------------------------------------

/// Why a release fetch failed, in user-facing terms.
#[derive(Debug, Clone)]
pub enum FetchError {
    Network,
    HttpStatus(u16),
    RateLimited,
    Malformed,
    Other(String),
}

impl FetchError {
    /// The error for an HTTP failure: `status` is the response status, or
    /// `None` when no response arrived; `rate_limit_exhausted` says the
    /// response reported no remaining requests.
    pub fn from_http_failure(status: Option<u16>, rate_limit_exhausted: bool) -> (r: FetchError)
        ensures
            match status {
                None => r is Network,
                Some(code) => if code == 403 && rate_limit_exhausted {
                    r is RateLimited
                } else {
                    r matches FetchError::HttpStatus(c) && c == code
                },
            },
    {
        match status {
            None => FetchError::Network,
            Some(code) => {
                if code == 403 && rate_limit_exhausted {
                    FetchError::RateLimited
                } else {
                    FetchError::HttpStatus(code)
                }
            },
        }
    }

    /// The user-facing text of the error.
    pub fn message(&self) -> (r: String)
        ensures
            match self {
                FetchError::Network => r@ == "no network connection"@,
                FetchError::HttpStatus(code) => r@ == "GitHub returned status "@ + crate::text::decimal(
                    *code as nat,
                ),
                FetchError::RateLimited => r@ == "rate-limited by GitHub"@,
                FetchError::Malformed => r@ == "response was not valid release JSON"@,
                FetchError::Other(m) => r@ == m@,
            },
    {
        let mut s = String::new();
        match self {
            FetchError::Network => s.append("no network connection"),
            FetchError::HttpStatus(code) => {
                s.append("GitHub returned status ");
                crate::text::push_decimal(&mut s, *code as u64);
            },
            FetchError::RateLimited => s.append("rate-limited by GitHub"),
            FetchError::Malformed => s.append("response was not valid release JSON"),
            FetchError::Other(m) => s.append(m.as_str()),
        }
        proof {
            let e = Seq::<char>::empty();
            assert(e + "no network connection"@ =~= "no network connection"@);
            assert(e + "GitHub returned status "@ =~= "GitHub returned status "@);
            assert(e + "rate-limited by GitHub"@ =~= "rate-limited by GitHub"@);
            assert(e + "response was not valid release JSON"@ =~= "response was not valid release JSON"@);
            if let FetchError::Other(m) = self {
                assert(e + m@ =~= m@);
            }
        }
        s
    }
}

/// The running version, as sent in the `User-Agent` header.
pub const APP_VERSION: &'static str = "0.9.5";

/// The repository whose releases the update check reads.
pub struct GitHubReleaseSource {
    pub owner: &'static str,
    pub repo: &'static str,
    pub user_agent: String,
}

impl GitHubReleaseSource {
    pub fn new(owner: &'static str, repo: &'static str) -> (r: Self)
        ensures
            r.owner == owner,
            r.repo == repo,
            r.user_agent@ == "PerfWindow/"@ + APP_VERSION@,
    {
        let mut ua = String::new();
        ua.append("PerfWindow/");
        ua.append(APP_VERSION);
        assert(Seq::<char>::empty() + "PerfWindow/"@ =~= "PerfWindow/"@);
        GitHubReleaseSource { owner, repo, user_agent: ua }
    }

    /// The API address of the repository's latest release.
    pub fn latest_url(&self) -> (r: String)
        ensures
            r@ == "https://api.github.com/repos/"@ + self.owner@ + "/"@ + self.repo@
                + "/releases/latest"@,
    {
        let mut s = String::new();
        s.append("https://api.github.com/repos/");
        s.append(self.owner);
        s.append("/");
        s.append(self.repo);
        s.append("/releases/latest");
        assert(s@ =~= "https://api.github.com/repos/"@ + self.owner@ + "/"@ + self.repo@
            + "/releases/latest"@);
        s
    }
}

/// An in-memory release source for tests: either a pre-baked release body
/// or a pre-baked failure.
pub struct MockReleaseSource {
    outcome: Result<String, String>,
}

impl MockReleaseSource {
    /// The pre-baked outcome: `Ok(body)` or `Err(reason)`.
    pub closed spec fn outcome(&self) -> Result<Seq<char>, Seq<char>> {
        match self.outcome {
            Ok(j) => Ok(j@),
            Err(m) => Err(m@),
        }
    }

    pub fn with_release(json: &str) -> (r: Self)
        ensures
            r.outcome() == Ok::<Seq<char>, Seq<char>>(json@),
    {
        MockReleaseSource { outcome: Ok(json.to_owned()) }
    }

    pub fn failing(reason: &str) -> (r: Self)
        ensures
            r.outcome() == Err::<Seq<char>, Seq<char>>(reason@),
    {
        MockReleaseSource { outcome: Err(reason.to_owned()) }
    }

    /// The release body to parse, or the configured failure as
    /// `FetchError::Other`.
    pub fn fetch_body(&self) -> (r: Result<String, FetchError>)
        ensures
            match self.outcome() {
                Ok(j) => r matches Ok(b) && b@ == j,
                Err(m) => r matches Err(FetchError::Other(t)) && t@ == m,
            },
    {
        match &self.outcome {
            Ok(json) => Ok(json.clone()),
            Err(reason) => Err(FetchError::Other(reason.clone())),
        }
    }
}

/// Snapshot of an in-flight download.
#[derive(Debug, Clone, Copy, PartialEq, Eq, Structural)]
pub struct DownloadProgress {
    pub bytes: u64,
    pub total: u64,
}

impl Default for DownloadProgress {
    fn default() -> (r: Self)
        ensures
            r.bytes == 0 && r.total == 0,
    {
        DownloadProgress { bytes: 0, total: 0 }
    }
}

/// Why the installer download failed.
#[derive(Debug, Clone)]
pub enum DownloadError {
    Network(String),
    HttpStatus(u16),
    Io(String),
    SizeMismatch,
    Cancelled,
}

impl DownloadError {
    /// The user-facing text of the error.
    pub fn message(&self) -> (r: String)
        ensures
            match self {
                DownloadError::Network(m) => r@ == "network error: "@ + m@,
                DownloadError::HttpStatus(code) => r@ == "HTTP status "@ + crate::text::decimal(
                    *code as nat,
                ),
                DownloadError::Io(m) => r@ == "disk write failed: "@ + m@,
                DownloadError::SizeMismatch => r@ == "download size did not match the asset metadata"@,
                DownloadError::Cancelled => r@ == "cancelled"@,
            },
    {
        let mut s = String::new();
        match self {
            DownloadError::Network(m) => {
                s.append("network error: ");
                s.append(m.as_str());
            },
            DownloadError::HttpStatus(code) => {
                s.append("HTTP status ");
                crate::text::push_decimal(&mut s, *code as u64);
            },
            DownloadError::Io(m) => {
                s.append("disk write failed: ");
                s.append(m.as_str());
            },
            DownloadError::SizeMismatch => s.append(
                "download size did not match the asset metadata",
            ),
            DownloadError::Cancelled => s.append("cancelled"),
        }
        proof {
            let e = Seq::<char>::empty();
            assert(e + "network error: "@ =~= "network error: "@);
            assert(e + "HTTP status "@ =~= "HTTP status "@);
            assert(e + "disk write failed: "@ =~= "disk write failed: "@);
            assert(e + "download size did not match the asset metadata"@ =~= "download size did not match the asset metadata"@);
            assert(e + "cancelled"@ =~= "cancelled"@);
        }
        s
    }
}

/// The outcome of a finished download copy. The byte count is the copying
/// worker's own counter: the download succeeds only when it equals the
/// size the release announced, and every other outcome is a failure (after
/// which the partial file is removed).
pub fn download_verdict(copied: Result<u64, DownloadError>, expected_size: u64) -> (r: Result<
    (),
    DownloadError,
>)
    ensures
        match copied {
            Ok(bytes) => if bytes == expected_size {
                r is Ok
            } else {
                r matches Err(DownloadError::SizeMismatch)
            },
            Err(e) => r == Err::<(), DownloadError>(e),
        },
{
    match copied {
        Ok(bytes) => {
            if bytes == expected_size {
                Ok(())
            } else {
                Err(DownloadError::SizeMismatch)
            }
        },
        Err(e) => Err(e),
    }
}

/// What a finished download produced.
#[derive(Debug, Clone)]
pub enum DownloadOutcome {
    /// The installer was downloaded and is at this path; the UI launches it
    /// and quits.
    Ready(String),
    /// The download failed, for this reason.
    Failed(String),
}

/// What happened in one round of the download copy loop.
#[derive(Debug, Clone)]
pub enum CopyEvent {
    /// The user cancelled before the next read.
    Cancelled,
    /// The read failed with this message.
    ReadFailed(String),
    /// The stream ended.
    EndOfStream,
    /// A chunk of this many bytes was read and could not be written.
    WriteFailed(String),
    /// A chunk of this many bytes was read and written.
    Chunk(u64),
}

/// The copy loop's next move: keep copying with this many bytes written so
/// far, or stop with the loop's result.
#[derive(Debug)]
pub enum CopyNext {
    Continue(u64),
    Done(Result<u64, DownloadError>),
}

/// One round of the download copy: the running byte count advances by
/// each written chunk; a cancel, a failed read or a failed write ends the
/// copy with the matching error, and the end of the stream with the count.
pub fn copy_step(bytes: u64, event: CopyEvent) -> (r: CopyNext)
    requires
        event matches CopyEvent::Chunk(n) ==> bytes + n <= u64::MAX,
    ensures
        match event {
            CopyEvent::Cancelled => r matches CopyNext::Done(Err(DownloadError::Cancelled)),
            CopyEvent::ReadFailed(m) => r matches CopyNext::Done(Err(DownloadError::Network(e))) && e
                == m,
            CopyEvent::EndOfStream => r matches CopyNext::Done(Ok(b)) && b == bytes,
            CopyEvent::WriteFailed(m) => r matches CopyNext::Done(Err(DownloadError::Io(e))) && e
                == m,
            CopyEvent::Chunk(n) => r matches CopyNext::Continue(b) && b == bytes + n,
        },
{
    match event {
        CopyEvent::Cancelled => CopyNext::Done(Err(DownloadError::Cancelled)),
        CopyEvent::ReadFailed(m) => CopyNext::Done(Err(DownloadError::Network(m))),
        CopyEvent::EndOfStream => CopyNext::Done(Ok(bytes)),
        CopyEvent::WriteFailed(m) => CopyNext::Done(Err(DownloadError::Io(m))),
        CopyEvent::Chunk(n) => CopyNext::Continue(bytes + n),
    }
}

// ---------------------------------------------------------------------
// The check's outcome
// ---------------------------------------------------------------------

/// The state a finished check reports for `release`, compared against the
/// running version `current`, at `now`.
pub open spec fn checked_state_matches(r: UpdateState, current: Seq<char>, release: Release, now: WallTime) -> bool {
    match newer_outcome(current, release.tag_name@) {
        Ok(true) => r == UpdateState::Available { release, checked_at: now },
        Ok(false) => r == UpdateState::NoUpdate { checked_at: now },
        Err(m) => r matches UpdateState::Failed { reason, checked_at } && reason@ == m
            && checked_at == now,
    }
}

/// Law: a check succeeds exactly when both versions parse and the tag has
/// its `v`; it then answers whether the release orders after the running
/// version, and otherwise fails with the first problem found. Its state
/// records the check time in every case, announces the release exactly
/// when it is newer, and reports no update exactly when it is not.
pub proof fn lemma_check_outcome(r: UpdateState, current: Seq<char>, release: Release, now: WallTime)
    requires
        checked_state_matches(r, current, release, now),
    ensures
        ({
            let tag = release.tag_name@;
            let parses = semver_parse_error(current) is None && tag.len() > 0 && tag[0] == 'v'
                && semver_parse_error(tag.drop_first()) is None;
            &&& newer_outcome(current, tag) is Ok <==> parses
            &&& parses ==> newer_outcome(current, tag) == Ok::<bool, Seq<char>>(
                semver_gt(tag.drop_first(), current),
            )
            &&& semver_parse_error(current) matches Some(m) ==> newer_outcome(current, tag) == Err::<
                bool,
                Seq<char>,
            >(m)
            &&& semver_parse_error(current) is None && (tag.len() == 0 || tag[0] != 'v')
                ==> newer_outcome(current, tag) == Err::<bool, Seq<char>>(
                "release tag missing 'v' prefix: "@ + tag,
            )
            &&& (r is Available <==> parses && semver_gt(tag.drop_first(), current))
            &&& (r is NoUpdate <==> parses && !semver_gt(tag.drop_first(), current))
            &&& (r is Failed <==> !parses)
            &&& r matches UpdateState::Available { release: rel, checked_at } ==> rel == release
                && checked_at == now
            &&& r matches UpdateState::NoUpdate { checked_at } ==> checked_at == now
            &&& r matches UpdateState::Failed { checked_at, .. } ==> checked_at == now
        }),
{
}

/// The state a check ends in once the latest release is known: available
/// when it is newer than `current`, no update when it is not, failed (with
/// the reason) when either version does not parse.
pub fn state_after_check(current: &str, release: Release, now: WallTime) -> (r: UpdateState)
    ensures
        checked_state_matches(r, current@, release, now),
{
    match is_newer(current, release.tag_name.as_str()) {
        Ok(true) => UpdateState::Available { release, checked_at: now },
        Ok(false) => UpdateState::NoUpdate { checked_at: now },
        Err(reason) => UpdateState::Failed { reason, checked_at: now },
    }
}

/// Whether a check may answer from the cache instead of the network: only
/// when not forced and a cache exists that is still fresh at `now`.
pub fn answer_from_cache(force: bool, cache: Option<&Cache>, now: WallTime, ttl: Span) -> (r: bool)
    requires
        in_range(now),
        cache matches Some(c) ==> in_range(c.checked_at),
    ensures
        r == (!force && (cache matches Some(c) && !(now.unix_nanos < c.checked_at.unix_nanos
            || now.unix_nanos - c.checked_at.unix_nanos > ttl.nanos))),
{
    if force {
        return false;
    }
    match cache {
        Some(c) => !c.is_stale(now, ttl),
        None => false,
    }
}

impl Cache {
    /// The cache entry recording `release` as checked at `now`, with the
    /// download of its first installer asset, or `None` when the release has
    /// no installer asset.
    pub fn from_release(release: &Release, now: WallTime) -> (r: Option<Cache>)
        ensures
            r is Some <==> exists|i: int|
                0 <= i < release.assets@.len() && release.assets@[i].name@ == INSTALLER_ASSET_NAME@,
            r matches Some(c) ==> {
                &&& c.checked_at == now
                &&& c.latest_tag@ == release.tag_name@
                &&& c.latest_name@ == release.name@
                &&& c.latest_body@ == release.body@
                &&& exists|i: int|
                    0 <= i < release.assets@.len() && release.assets@[i].name@
                        == INSTALLER_ASSET_NAME@ && c.latest_asset_url@
                        == release.assets@[i].browser_download_url@ && c.latest_asset_size
                        == release.assets@[i].size && forall|j: int|
                        0 <= j < i ==> release.assets@[j].name@ != INSTALLER_ASSET_NAME@
            },
    {
        match release.installer_asset() {
            Some(a) => Some(
                Cache {
                    checked_at: now,
                    latest_tag: release.tag_name.clone(),
                    latest_name: release.name.clone(),
                    latest_body: release.body.clone(),
                    latest_asset_url: a.browser_download_url.clone(),
                    latest_asset_size: a.size,
                },
            ),
            None => None,
        }
    }

    /// The release this entry records, with its installer as the only asset.
    pub fn release(&self) -> (r: Release)
        ensures
            r.tag_name@ == self.latest_tag@,
            r.name@ == self.latest_name@,
            r.body@ == self.latest_body@,
            r.html_url@ == Seq::<char>::empty(),
            r.assets@.len() == 1,
            r.assets@[0].name@ == INSTALLER_ASSET_NAME@,
            r.assets@[0].browser_download_url@ == self.latest_asset_url@,
            r.assets@[0].size == self.latest_asset_size,
    {
        let mut assets: Vec<Asset> = Vec::new();
        assets.push(
            Asset {
                name: INSTALLER_ASSET_NAME.to_owned(),
                browser_download_url: self.latest_asset_url.clone(),
                size: self.latest_asset_size,
            },
        );
        Release {
            tag_name: self.latest_tag.clone(),
            name: self.latest_name.clone(),
            body: self.latest_body.clone(),
            html_url: String::new(),
            assets,
        }
    }
}

} // verus!
