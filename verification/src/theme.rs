//! Theme selection: which theme to show, the follow-the-OS light/dark
//! poll, and the title-bar theme cycle.
use crate::config::{Config, ThemeId};
use vstd::prelude::*;

verus! {

/// An sRGB colour with alpha, each channel 0–255.
#[derive(Debug, Clone, Copy, PartialEq, Eq, Structural)]
pub struct Color {
    pub r: u8,
    pub g: u8,
    pub b: u8,
    pub a: u8,
}

/// Which bundled font family a theme uses for a role.
#[derive(Debug, Clone, Copy, PartialEq, Eq, Structural)]
pub enum FontFamily {
    PlexMono,
    PlexMonoBold,
    ChakraPetch,
    SpaceMono,
}

/// The theme to display: Light when following the OS and the OS is light,
/// the configured theme otherwise.
pub open spec fn effective_theme(config: Config, os_is_light: bool) -> ThemeId {
    if config.follow_windows && os_is_light {
        ThemeId::Light
    } else {
        config.theme
    }
}

/// The theme to actually display, given the config and whether the OS is in
/// light mode.
pub fn effective_theme_id(config: &Config, os_is_light: bool) -> (r: ThemeId)
    ensures
        r == effective_theme(*config, os_is_light),
{
    if config.follow_windows && os_is_light {
        ThemeId::Light
    } else {
        config.theme
    }
}

/// Minimum interval between OS reads for the live follow-the-OS poll.
pub const POLL_INTERVAL_MS: u64 = 2_000;

/// `last_check_ms` value meaning "never checked": the first poll always
/// reads.
pub const NEVER_CHECKED: u64 = 0xFFFF_FFFF_FFFF_FFFF;

/// Throttle and cache around an OS theme reader, so a per-frame poll reads
/// the OS at most every [`POLL_INTERVAL_MS`].
pub struct OsThemePoll {
    pub last_check_ms: u64,
    pub cached_light: bool,
}

/// Whether a poll at `now_ms` after a read at `last` must read again.
pub open spec fn poll_due(last: u64, now_ms: u64) -> bool {
    last == NEVER_CHECKED || elapsed_ms(last, now_ms) >= POLL_INTERVAL_MS
}

/// Milliseconds from `last` to `now_ms`, zero when the clock went back.
pub open spec fn elapsed_ms(last: u64, now_ms: u64) -> int {
    if now_ms >= last {
        now_ms - last
    } else {
        0
    }
}

/// The poll's `(last_check_ms, cached_light)` after a poll at `now_ms`
/// from state `st`, where `reading` is what the OS read gives if the poll
/// makes one.
pub open spec fn poll_step(st: (u64, bool), now_ms: u64, reading: bool) -> (u64, bool) {
    if poll_due(st.0, now_ms) {
        (now_ms, reading)
    } else {
        st
    }
}

/// The state of a new poll after a run of polls, each given as its time
/// and what its OS read would give.
pub open spec fn poll_run(calls: Seq<(u64, bool)>) -> (u64, bool)
    decreases calls.len(),
{
    if calls.len() == 0 {
        (NEVER_CHECKED, false)
    } else {
        poll_step(poll_run(calls.drop_last()), calls.last().0, calls.last().1)
    }
}

/// Whether the `i`-th poll of a run reads the OS.
pub open spec fn run_reads(calls: Seq<(u64, bool)>, i: int) -> bool {
    poll_due(poll_run(calls.take(i)).0, calls[i].0)
}

/// A run whose poll times never go back and are real instants.
pub open spec fn ordered_run(calls: Seq<(u64, bool)>) -> bool {
    &&& forall|i: int| 0 <= i < calls.len() ==> #[trigger] calls[i].0 < NEVER_CHECKED
    &&& forall|i: int, j: int| 0 <= i <= j < calls.len() ==> calls[i].0 <= calls[j].0
}

impl OsThemePoll {
    pub fn new() -> (r: Self)
        ensures
            r.last_check_ms == NEVER_CHECKED,
            !r.cached_light,
    {
        OsThemePoll { last_check_ms: NEVER_CHECKED, cached_light: false }
    }

    /// The OS theme at `now_ms`: read through `read` when the throttle
    /// window has passed (or on the first call), the cached value otherwise.
    pub fn poll_at(&mut self, now_ms: u64, read: impl FnOnce() -> bool) -> (r: bool)
        requires
            call_requires(read, ()),
        ensures
            poll_due(old(self).last_check_ms, now_ms) ==> {
                &&& call_ensures(read, (), r)
                &&& final(self).last_check_ms == now_ms
                &&& final(self).cached_light == r
            },
            !poll_due(old(self).last_check_ms, now_ms) ==> {
                &&& r == old(self).cached_light
                &&& *final(self) == *old(self)
            },
            (final(self).last_check_ms, final(self).cached_light) == poll_step(
                (old(self).last_check_ms, old(self).cached_light),
                now_ms,
                r,
            ),
    {
        let last = self.last_check_ms;
        let elapsed = if now_ms >= last {
            now_ms - last
        } else {
            0
        };
        if last == NEVER_CHECKED || elapsed >= POLL_INTERVAL_MS {
            self.last_check_ms = now_ms;
            let light = read();
            self.cached_light = light;
            light
        } else {
            self.cached_light
        }
    }
}

/// Throttled change-detector for the follow-the-OS theme: polls the OS
/// theme through `poll` (reading with `read` only when the throttle window
/// has passed) and returns `Some(is_light)` when it no longer matches
/// `current`, `None` otherwise.
pub fn os_light_flipped(
    poll: &mut OsThemePoll,
    now_ms: u64,
    current: bool,
    read: impl FnOnce() -> bool,
) -> (r: Option<bool>)
    requires
        call_requires(read, ()),
    ensures
        poll_due(old(poll).last_check_ms, now_ms) ==> {
            &&& call_ensures(read, (), final(poll).cached_light)
            &&& final(poll).last_check_ms == now_ms
        },
        !poll_due(old(poll).last_check_ms, now_ms) ==> *final(poll) == *old(poll),
        r == if final(poll).cached_light != current {
            Some(final(poll).cached_light)
        } else {
            None
        },
{
    let light = poll.poll_at(now_ms, read);
    if light != current {
        Some(light)
    } else {
        None
    }
}

/// Law: the poll reads the OS at most once per interval. After a poll at
/// `t`, any later poll before `t + POLL_INTERVAL_MS` is served from the
/// cache.
pub proof fn lemma_poll_throttles(t: u64, now_ms: u64)
    requires
        t != NEVER_CHECKED,
        t <= now_ms,
        now_ms < t + POLL_INTERVAL_MS,
    ensures
        !poll_due(t, now_ms),
{
}

/// A run whose poll times are real instants (never the "never checked"
/// marker).
pub open spec fn valid_run(calls: Seq<(u64, bool)>) -> bool {
    forall|i: int| 0 <= i < calls.len() ==> #[trigger] calls[i].0 < NEVER_CHECKED
}

/// The last poll of a run that read the OS is poll `k`.
pub open spec fn last_read_at(calls: Seq<(u64, bool)>, k: int) -> bool {
    &&& 0 <= k < calls.len()
    &&& run_reads(calls, k)
    &&& forall|j: int| k < j < calls.len() ==> !#[trigger] run_reads(calls, j)
}

/// Poll `i` of a run reads the OS exactly when `POLL_INTERVAL_MS` have
/// passed since the last earlier poll that read, whose reading the poll
/// holds before it.
pub open spec fn read_rule(calls: Seq<(u64, bool)>, i: int) -> bool {
    exists|k: int|
        #[trigger] last_read_at(calls.take(i), k) && poll_run(calls.take(i)) == calls[k] && (
        run_reads(calls, i) <==> elapsed_ms(calls[k].0, calls[i].0) >= POLL_INTERVAL_MS)
}

/// Law: over a run of polls from a new poll, the first poll reads the OS;
/// each later poll reads exactly when `POLL_INTERVAL_MS` have passed
/// (saturating) since the last poll that read, and otherwise answers with
/// that poll's reading; what the poll holds at the end is the reading of
/// the last poll that read. When the times never go back, two polls that
/// read are at least `POLL_INTERVAL_MS` apart.
pub proof fn lemma_poll_run(calls: Seq<(u64, bool)>)
    requires
        calls.len() >= 1,
        valid_run(calls),
    ensures
        run_reads(calls, 0),
        exists|k: int| #[trigger] last_read_at(calls, k) && poll_run(calls) == calls[k],
        forall|i: int| 0 < i < calls.len() ==> #[trigger] read_rule(calls, i),
        ordered_run(calls) ==> forall|i: int, j: int|
            0 <= i < j < calls.len() && #[trigger] run_reads(calls, i) && #[trigger] run_reads(
                calls,
                j,
            ) ==> calls[j].0 >= calls[i].0 + POLL_INTERVAL_MS,
    decreases calls.len(),
{
    let n = calls.len() as int;
    assert(calls.take(0) =~= Seq::<(u64, bool)>::empty());
    if n == 1 {
        assert(calls.drop_last() =~= Seq::<(u64, bool)>::empty());
        assert(run_reads(calls, 0));
        assert(poll_run(calls) == calls[0]);
        assert(last_read_at(calls, 0));
        assert forall|i: int| 0 < i < calls.len() implies read_rule(calls, i) by {}
    } else {
        let p = calls.drop_last();
        lemma_poll_run(p);
        assert forall|i: int| 0 <= i < n - 1 implies run_reads(calls, i) == run_reads(p, i) by {
            assert(calls.take(i) =~= p.take(i));
        }
        assert(calls.take(n - 1) =~= p);
        let k0 = choose|k: int| #[trigger] last_read_at(p, k) && poll_run(p) == p[k];
        assert(run_reads(calls, k0));
        assert(run_reads(p, 0));
        assert(run_reads(calls, 0));
        if run_reads(calls, n - 1) {
            assert(poll_run(calls) == calls[n - 1]);
            assert(last_read_at(calls, n - 1));
        } else {
            assert(poll_run(calls) == calls[k0]);
            assert forall|j: int| k0 < j < calls.len() implies !#[trigger] run_reads(calls, j) by {
                if j < n - 1 {
                    assert(!run_reads(p, j));
                }
            }
            assert(last_read_at(calls, k0));
        }
        assert forall|i: int| 0 < i < calls.len() implies read_rule(calls, i) by {
            if i < n - 1 {
                assert(calls.take(i) =~= p.take(i));
                assert(run_reads(calls, i) == run_reads(p, i));
                assert(read_rule(p, i));
                let k = choose|k: int|
                    #[trigger] last_read_at(p.take(i), k) && poll_run(p.take(i)) == p[k] && (
                    run_reads(p, i) <==> elapsed_ms(p[k].0, p[i].0) >= POLL_INTERVAL_MS);
                assert(last_read_at(calls.take(i), k));
            } else {
                assert(calls.take(i) =~= p);
                assert(last_read_at(p, k0) && poll_run(p) == calls[k0]);
                assert(calls[k0].0 < NEVER_CHECKED);
                assert(last_read_at(calls.take(i), k0));
            }
        }
        if ordered_run(calls) {
            assert(ordered_run(p));
            assert forall|i: int, j: int|
                0 <= i < j < calls.len() && #[trigger] run_reads(calls, i) && #[trigger] run_reads(
                    calls,
                    j,
                ) implies calls[j].0 >= calls[i].0 + POLL_INTERVAL_MS by {
                if j < n - 1 {
                    assert(run_reads(p, i) && run_reads(p, j));
                } else {
                    assert(run_reads(p, i));
                    assert(i <= k0);
                    assert(calls[i].0 <= calls[k0].0);
                    assert(calls[k0].0 <= calls[n - 1].0);
                }
            }
        }
    }
}

/// Whether `id` is one of the four themes the title-bar chip cycles
/// through.
pub open spec fn in_theme_cycle(id: ThemeId) -> bool {
    id == ThemeId::Amber || id == ThemeId::Slate || id == ThemeId::Phosphor || id
        == ThemeId::Light
}

/// The theme after `id` in the title-bar cycle Amber → Slate → Phosphor →
/// Light → Amber.
pub open spec fn theme_after(id: ThemeId) -> ThemeId {
    match id {
        ThemeId::Amber => ThemeId::Slate,
        ThemeId::Slate => ThemeId::Phosphor,
        ThemeId::Phosphor => ThemeId::Light,
        _ => ThemeId::Amber,
    }
}

/// Advance a theme through the fixed four-theme cycle. The cycle covers
/// the four themes that shipped first; any other theme steps into the
/// cycle at Amber.
pub fn next_theme(id: ThemeId) -> (r: ThemeId)
    ensures
        r == theme_after(id),
        in_theme_cycle(r),
{
    match id {
        ThemeId::Amber => ThemeId::Slate,
        ThemeId::Slate => ThemeId::Phosphor,
        ThemeId::Phosphor => ThemeId::Light,
        _ => ThemeId::Amber,
    }
}

/// Law: four clicks on the theme chip come back to the starting theme.
pub proof fn lemma_theme_cycle_period(id: ThemeId)
    requires
        in_theme_cycle(id),
    ensures
        theme_after(theme_after(theme_after(theme_after(id)))) == id,
        theme_after(id) != id,
{
}


// ---------------------------------------------------------------------
// Palettes
// ---------------------------------------------------------------------

/// The value of one hexadecimal digit; anything else counts as 0.
pub open spec fn nibble(c: char) -> int {
    if '0' <= c && c <= '9' {
        c as int - '0' as int
    } else if 'a' <= c && c <= 'f' {
        c as int - 'a' as int + 10
    } else if 'A' <= c && c <= 'F' {
        c as int - 'A' as int + 10
    } else {
        0
    }
}

/// The opaque colour written `#rrggbb`.
pub open spec fn hex_value(s: Seq<char>) -> Color {
    Color {
        r: (nibble(s[1]) * 16 + nibble(s[2])) as u8,
        g: (nibble(s[3]) * 16 + nibble(s[4])) as u8,
        b: (nibble(s[5]) * 16 + nibble(s[6])) as u8,
        a: 255,
    }
}

fn nibble_of(c: char) -> (r: u8)
    ensures
        r == nibble(c),
{
    if '0' <= c && c <= '9' {
        ((c as u32) - 48) as u8
    } else if 'a' <= c && c <= 'f' {
        ((c as u32) - 87) as u8
    } else if 'A' <= c && c <= 'F' {
        ((c as u32) - 55) as u8
    } else {
        0
    }
}

/// The opaque colour of a `#rrggbb` literal (its first seven characters,
/// which must be ASCII; a character that is not a hex digit counts as 0).
pub fn hex_color(s: &str) -> (r: Color)
    requires
        s@.len() >= 7,
        forall|i: int| 0 <= i < 7 ==> (#[trigger] s@[i] as u32) < 128,
    ensures
        r == hex_value(s@),
{
    let c = crate::text::chars_of(s);
    Color {
        r: nibble_of(c[1]) * 16 + nibble_of(c[2]),
        g: nibble_of(c[3]) * 16 + nibble_of(c[4]),
        b: nibble_of(c[5]) * 16 + nibble_of(c[6]),
        a: 255,
    }
}

/// The thirteen colours of a theme.
#[derive(Debug, Clone, Copy, PartialEq, Eq, Structural)]
pub struct Palette {
    pub bg: Color,
    pub panel: Color,
    pub border: Color,
    pub track: Color,
    pub chrome: Color,
    pub ink: Color,
    pub dim: Color,
    pub faint: Color,
    pub accent: Color,
    pub accent_soft: Color,
    pub ok: Color,
    pub warn: Color,
    pub hot: Color,
}

/// A theme's identity, palette and fonts.
#[derive(Debug, Clone, Copy)]
pub struct ThemeStyle {
    pub id: ThemeId,
    pub name: &'static str,
    pub dark: bool,
    pub palette: Palette,
    pub font_display: FontFamily,
    pub font_data: FontFamily,
}

/// The display name of theme `id`.
pub open spec fn theme_name(id: ThemeId) -> Seq<char> {
    match id {
        ThemeId::Amber => "Amber Mainframe"@,
        ThemeId::Slate => "Cyber Slate"@,
        ThemeId::Phosphor => "Phosphor Tactical"@,
        ThemeId::Light => "Light"@,
        ThemeId::Synthwave => "Synthwave Neon"@,
        ThemeId::Crimson => "Crimson Terminal"@,
    }
}

/// The fonts theme `id` uses for display text and for data.
pub open spec fn theme_fonts(id: ThemeId) -> (FontFamily, FontFamily) {
    match id {
        ThemeId::Amber => (FontFamily::PlexMono, FontFamily::PlexMono),
        ThemeId::Slate => (FontFamily::ChakraPetch, FontFamily::PlexMono),
        ThemeId::Phosphor => (FontFamily::SpaceMono, FontFamily::SpaceMono),
        ThemeId::Light => (FontFamily::ChakraPetch, FontFamily::PlexMono),
        ThemeId::Synthwave => (FontFamily::ChakraPetch, FontFamily::SpaceMono),
        ThemeId::Crimson => (FontFamily::PlexMonoBold, FontFamily::PlexMono),
    }
}

/// The palette of theme `id`, colour by colour.
pub open spec fn theme_palette(id: ThemeId) -> Palette {
    match id {
        ThemeId::Amber => Palette {
            bg: hex_value("#100b04"@),
            panel: hex_value("#1c1409"@),
            border: hex_value("#48360f"@),
            track: hex_value("#2f2410"@),
            chrome: hex_value("#0a0703"@),
            ink: hex_value("#f1ddb0"@),
            dim: hex_value("#a98f57"@),
            faint: hex_value("#6f5a32"@),
            accent: hex_value("#ffa31a"@),
            accent_soft: hex_value("#ffce6e"@),
            ok: hex_value("#ffb733"@),
            warn: hex_value("#ffd277"@),
            hot: hex_value("#ff5535"@),
        },
        ThemeId::Slate => Palette {
            bg: hex_value("#0a0e15"@),
            panel: hex_value("#121823"@),
            border: hex_value("#243144"@),
            track: hex_value("#1c2530"@),
            chrome: hex_value("#070a10"@),
            ink: hex_value("#d6dde8"@),
            dim: hex_value("#6d7989"@),
            faint: hex_value("#48515f"@),
            accent: hex_value("#34e0d0"@),
            accent_soft: hex_value("#7af0e4"@),
            ok: hex_value("#3ed089"@),
            warn: hex_value("#f5a524"@),
            hot: hex_value("#fb5b4e"@),
        },
        ThemeId::Phosphor => Palette {
            bg: hex_value("#060a07"@),
            panel: hex_value("#0d150e"@),
            border: hex_value("#21401f"@),
            track: hex_value("#152119"@),
            chrome: hex_value("#040603"@),
            ink: hex_value("#c7e9c6"@),
            dim: hex_value("#5f8a62"@),
            faint: hex_value("#3f5e42"@),
            accent: hex_value("#3edc62"@),
            accent_soft: hex_value("#86f29a"@),
            ok: hex_value("#3edc62"@),
            warn: hex_value("#e8b53a"@),
            hot: hex_value("#ff4d3d"@),
        },
        ThemeId::Light => Palette {
            bg: hex_value("#eef0f3"@),
            panel: hex_value("#ffffff"@),
            border: hex_value("#d9dde3"@),
            track: hex_value("#e6e9ee"@),
            chrome: hex_value("#e7eaef"@),
            ink: hex_value("#222a35"@),
            dim: hex_value("#737d8c"@),
            faint: hex_value("#a2abb8"@),
            accent: hex_value("#0f8e83"@),
            accent_soft: hex_value("#3fb3a8"@),
            ok: hex_value("#2f9e57"@),
            warn: hex_value("#bd7d12"@),
            hot: hex_value("#d23f33"@),
        },
        ThemeId::Synthwave => Palette {
            bg: hex_value("#0a0612"@),
            panel: hex_value("#15102a"@),
            border: hex_value("#3d2a6e"@),
            track: hex_value("#1f1843"@),
            chrome: hex_value("#050208"@),
            ink: hex_value("#e8dcff"@),
            dim: hex_value("#8b78c4"@),
            faint: hex_value("#4d4068"@),
            accent: hex_value("#c44eff"@),
            accent_soft: hex_value("#d97aff"@),
            ok: hex_value("#4ade80"@),
            warn: hex_value("#f5a524"@),
            hot: hex_value("#ff4d6d"@),
        },
        ThemeId::Crimson => Palette {
            bg: hex_value("#0e0606"@),
            panel: hex_value("#1a0c0c"@),
            border: hex_value("#4a1818"@),
            track: hex_value("#261212"@),
            chrome: hex_value("#050202"@),
            ink: hex_value("#f4d8d8"@),
            dim: hex_value("#b07878"@),
            faint: hex_value("#6e4848"@),
            accent: hex_value("#dc2626"@),
            accent_soft: hex_value("#ef4444"@),
            ok: hex_value("#4ade80"@),
            warn: hex_value("#fbbf24"@),
            hot: hex_value("#ff8e3a"@),
        },
    }
}

/// The identity, palette and fonts of theme `id`. Every theme is dark but
/// Light.
pub fn theme_style(id: ThemeId) -> (r: ThemeStyle)
    ensures
        r.id == id,
        r.name@ == theme_name(id),
        r.dark == (id != ThemeId::Light),
        r.palette == theme_palette(id),
        (r.font_display, r.font_data) == theme_fonts(id),
{
    match id {
        ThemeId::Amber => {
            proof {
                reveal_strlit("#100b04");
                reveal_strlit("#1c1409");
                reveal_strlit("#48360f");
                reveal_strlit("#2f2410");
                reveal_strlit("#0a0703");
                reveal_strlit("#f1ddb0");
                reveal_strlit("#a98f57");
                reveal_strlit("#6f5a32");
                reveal_strlit("#ffa31a");
                reveal_strlit("#ffce6e");
                reveal_strlit("#ffb733");
                reveal_strlit("#ffd277");
                reveal_strlit("#ff5535");
            }
            ThemeStyle {
                id,
                name: "Amber Mainframe",
                dark: true,
                palette: Palette {
                    bg: hex_color("#100b04"),
                    panel: hex_color("#1c1409"),
                    border: hex_color("#48360f"),
                    track: hex_color("#2f2410"),
                    chrome: hex_color("#0a0703"),
                    ink: hex_color("#f1ddb0"),
                    dim: hex_color("#a98f57"),
                    faint: hex_color("#6f5a32"),
                    accent: hex_color("#ffa31a"),
                    accent_soft: hex_color("#ffce6e"),
                    ok: hex_color("#ffb733"),
                    warn: hex_color("#ffd277"),
                    hot: hex_color("#ff5535"),
                },
                font_display: FontFamily::PlexMono,
                font_data: FontFamily::PlexMono,
            }
        },
        ThemeId::Slate => {
            proof {
                reveal_strlit("#0a0e15");
                reveal_strlit("#121823");
                reveal_strlit("#243144");
                reveal_strlit("#1c2530");
                reveal_strlit("#070a10");
                reveal_strlit("#d6dde8");
                reveal_strlit("#6d7989");
                reveal_strlit("#48515f");
                reveal_strlit("#34e0d0");
                reveal_strlit("#7af0e4");
                reveal_strlit("#3ed089");
                reveal_strlit("#f5a524");
                reveal_strlit("#fb5b4e");
            }
            ThemeStyle {
                id,
                name: "Cyber Slate",
                dark: true,
                palette: Palette {
                    bg: hex_color("#0a0e15"),
                    panel: hex_color("#121823"),
                    border: hex_color("#243144"),
                    track: hex_color("#1c2530"),
                    chrome: hex_color("#070a10"),
                    ink: hex_color("#d6dde8"),
                    dim: hex_color("#6d7989"),
                    faint: hex_color("#48515f"),
                    accent: hex_color("#34e0d0"),
                    accent_soft: hex_color("#7af0e4"),
                    ok: hex_color("#3ed089"),
                    warn: hex_color("#f5a524"),
                    hot: hex_color("#fb5b4e"),
                },
                font_display: FontFamily::ChakraPetch,
                font_data: FontFamily::PlexMono,
            }
        },
        ThemeId::Phosphor => {
            proof {
                reveal_strlit("#060a07");
                reveal_strlit("#0d150e");
                reveal_strlit("#21401f");
                reveal_strlit("#152119");
                reveal_strlit("#040603");
                reveal_strlit("#c7e9c6");
                reveal_strlit("#5f8a62");
                reveal_strlit("#3f5e42");
                reveal_strlit("#3edc62");
                reveal_strlit("#86f29a");
                reveal_strlit("#3edc62");
                reveal_strlit("#e8b53a");
                reveal_strlit("#ff4d3d");
            }
            ThemeStyle {
                id,
                name: "Phosphor Tactical",
                dark: true,
                palette: Palette {
                    bg: hex_color("#060a07"),
                    panel: hex_color("#0d150e"),
                    border: hex_color("#21401f"),
                    track: hex_color("#152119"),
                    chrome: hex_color("#040603"),
                    ink: hex_color("#c7e9c6"),
                    dim: hex_color("#5f8a62"),
                    faint: hex_color("#3f5e42"),
                    accent: hex_color("#3edc62"),
                    accent_soft: hex_color("#86f29a"),
                    ok: hex_color("#3edc62"),
                    warn: hex_color("#e8b53a"),
                    hot: hex_color("#ff4d3d"),
                },
                font_display: FontFamily::SpaceMono,
                font_data: FontFamily::SpaceMono,
            }
        },
        ThemeId::Light => {
            proof {
                reveal_strlit("#eef0f3");
                reveal_strlit("#ffffff");
                reveal_strlit("#d9dde3");
                reveal_strlit("#e6e9ee");
                reveal_strlit("#e7eaef");
                reveal_strlit("#222a35");
                reveal_strlit("#737d8c");
                reveal_strlit("#a2abb8");
                reveal_strlit("#0f8e83");
                reveal_strlit("#3fb3a8");
                reveal_strlit("#2f9e57");
                reveal_strlit("#bd7d12");
                reveal_strlit("#d23f33");
            }
            ThemeStyle {
                id,
                name: "Light",
                dark: false,
                palette: Palette {
                    bg: hex_color("#eef0f3"),
                    panel: hex_color("#ffffff"),
                    border: hex_color("#d9dde3"),
                    track: hex_color("#e6e9ee"),
                    chrome: hex_color("#e7eaef"),
                    ink: hex_color("#222a35"),
                    dim: hex_color("#737d8c"),
                    faint: hex_color("#a2abb8"),
                    accent: hex_color("#0f8e83"),
                    accent_soft: hex_color("#3fb3a8"),
                    ok: hex_color("#2f9e57"),
                    warn: hex_color("#bd7d12"),
                    hot: hex_color("#d23f33"),
                },
                font_display: FontFamily::ChakraPetch,
                font_data: FontFamily::PlexMono,
            }
        },
        ThemeId::Synthwave => {
            proof {
                reveal_strlit("#0a0612");
                reveal_strlit("#15102a");
                reveal_strlit("#3d2a6e");
                reveal_strlit("#1f1843");
                reveal_strlit("#050208");
                reveal_strlit("#e8dcff");
                reveal_strlit("#8b78c4");
                reveal_strlit("#4d4068");
                reveal_strlit("#c44eff");
                reveal_strlit("#d97aff");
                reveal_strlit("#4ade80");
                reveal_strlit("#f5a524");
                reveal_strlit("#ff4d6d");
            }
            ThemeStyle {
                id,
                name: "Synthwave Neon",
                dark: true,
                palette: Palette {
                    bg: hex_color("#0a0612"),
                    panel: hex_color("#15102a"),
                    border: hex_color("#3d2a6e"),
                    track: hex_color("#1f1843"),
                    chrome: hex_color("#050208"),
                    ink: hex_color("#e8dcff"),
                    dim: hex_color("#8b78c4"),
                    faint: hex_color("#4d4068"),
                    accent: hex_color("#c44eff"),
                    accent_soft: hex_color("#d97aff"),
                    ok: hex_color("#4ade80"),
                    warn: hex_color("#f5a524"),
                    hot: hex_color("#ff4d6d"),
                },
                font_display: FontFamily::ChakraPetch,
                font_data: FontFamily::SpaceMono,
            }
        },
        ThemeId::Crimson => {
            proof {
                reveal_strlit("#0e0606");
                reveal_strlit("#1a0c0c");
                reveal_strlit("#4a1818");
                reveal_strlit("#261212");
                reveal_strlit("#050202");
                reveal_strlit("#f4d8d8");
                reveal_strlit("#b07878");
                reveal_strlit("#6e4848");
                reveal_strlit("#dc2626");
                reveal_strlit("#ef4444");
                reveal_strlit("#4ade80");
                reveal_strlit("#fbbf24");
                reveal_strlit("#ff8e3a");
            }
            ThemeStyle {
                id,
                name: "Crimson Terminal",
                dark: true,
                palette: Palette {
                    bg: hex_color("#0e0606"),
                    panel: hex_color("#1a0c0c"),
                    border: hex_color("#4a1818"),
                    track: hex_color("#261212"),
                    chrome: hex_color("#050202"),
                    ink: hex_color("#f4d8d8"),
                    dim: hex_color("#b07878"),
                    faint: hex_color("#6e4848"),
                    accent: hex_color("#dc2626"),
                    accent_soft: hex_color("#ef4444"),
                    ok: hex_color("#4ade80"),
                    warn: hex_color("#fbbf24"),
                    hot: hex_color("#ff8e3a"),
                },
                font_display: FontFamily::PlexMonoBold,
                font_data: FontFamily::PlexMono,
            }
        },
    }
}

} // verus!
