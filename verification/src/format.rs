//! Text formatting for the values the dashboard displays.
use crate::text::{
    chars_eq_ignore_ascii_case, chars_of, decimal, eq_ignore_ascii_case, push_char,
    push_decimal, push_signed_decimal, signed_decimal, trim, trimmed,
};
use vstd::prelude::*;

verus! {

/// Temperature display unit.
#[derive(Debug, Clone, Copy, PartialEq, Eq, Structural)]
pub enum TempUnit {
    Celsius,
    Fahrenheit,
}

/// The text of a link speed in bits per second.
pub open spec fn link_text(bps: Option<i64>) -> Seq<char> {
    match bps {
        Some(b) => if b >= 1_000_000_000 {
            decimal((b / 1_000_000_000) as nat) + " Gbps"@
        } else if b >= 1_000_000 {
            decimal((b / 1_000_000) as nat) + " Mbps"@
        } else {
            "\u{2014}"@
        },
        None => "\u{2014}"@,
    }
}

/// Render a link speed (bits/sec) as `"1 Gbps"` or `"100 Mbps"`. Truncates
/// toward zero so a `1_000_000_000` bps Ethernet link reads as `1 Gbps`.
/// Absent or sub-Mbps values render as `"—"`.
pub fn format_link(bps: Option<i64>) -> (r: String)
    ensures
        r@ == link_text(bps),
{
    let mut s = String::new();
    match bps {
        Some(b) if b >= 1_000_000_000 => {
            push_decimal(&mut s, (b / 1_000_000_000) as u64);
            s.append(" Gbps");
        },
        Some(b) if b >= 1_000_000 => {
            push_decimal(&mut s, (b / 1_000_000) as u64);
            s.append(" Mbps");
        },
        _ => {
            s.append("\u{2014}");
        },
    }
    assert(s@ =~= link_text(bps));
    s
}

/// The text of an uptime of `secs` seconds (negative counts as zero).
pub open spec fn uptime_text(secs: i64) -> Seq<char> {
    let s: int = if secs < 0 {
        0
    } else {
        secs as int
    };
    let d = s / 86_400;
    let h = (s % 86_400) / 3_600;
    let m = (s % 3_600) / 60;
    if d > 0 {
        decimal(d as nat) + "d "@ + decimal(h as nat) + "h"@
    } else if h > 0 {
        decimal(h as nat) + "h "@ + decimal(m as nat) + "m"@
    } else if m > 0 {
        decimal(m as nat) + "m"@
    } else {
        "<1m"@
    }
}

/// Render a seconds count as `"3d 14h"`, `"12h 30m"`, `"45m"` or `"<1m"`.
/// Negative input is clamped to zero.
pub fn format_uptime(secs: i64) -> (r: String)
    ensures
        r@ == uptime_text(secs),
{
    let s: i64 = if secs < 0 {
        0
    } else {
        secs
    };
    let d = s / 86_400;
    let h = (s % 86_400) / 3_600;
    let m = (s % 3_600) / 60;
    let mut out = String::new();
    if d > 0 {
        push_decimal(&mut out, d as u64);
        out.append("d ");
        push_decimal(&mut out, h as u64);
        out.append("h");
    } else if h > 0 {
        push_decimal(&mut out, h as u64);
        out.append("h ");
        push_decimal(&mut out, m as u64);
        out.append("m");
    } else if m > 0 {
        push_decimal(&mut out, m as u64);
        out.append("m");
    } else {
        out.append("<1m");
    }
    assert(out@ =~= uptime_text(secs));
    out
}

/// The thin space (U+2009) placed between letters.
pub open spec fn thin_space() -> char {
    '\u{2009}'
}

/// `t` with a thin space between every two consecutive characters.
pub open spec fn spaced_text(t: Seq<char>) -> Seq<char>
    decreases t.len(),
{
    if t.len() <= 1 {
        t
    } else {
        spaced_text(t.drop_last()).push(thin_space()).push(t.last())
    }
}

/// Insert thin spaces between characters to approximate CSS
/// `letter-spacing` on the wordmark, chips and arrow labels.
pub fn letter_spaced(text: &str) -> (r: String)
    ensures
        r@ == spaced_text(text@),
{
    let c = chars_of(text);
    let mut out = String::new();
    let mut i: usize = 0;
    while i < c.len()
        invariant
            i <= c@.len(),
            out@ == spaced_text(c@.subrange(0, i as int)),
        decreases c@.len() - i,
    {
        let ghost prev = c@.subrange(0, i as int);
        if i > 0 {
            push_char(&mut out, '\u{2009}');
        }
        push_char(&mut out, c[i]);
        proof {
            let next = c@.subrange(0, i + 1);
            assert(next.drop_last() =~= prev);
            if i == 0 {
                assert(next =~= seq![c@[0]]);
                assert(out@ =~= next);
            }
        }
        i = i + 1;
    }
    assert(c@.subrange(0, c@.len() as int) =~= c@);
    out
}

/// Law: letter spacing puts exactly one thin space between consecutive
/// characters: the result has `2n - 1` characters for an `n`-character
/// text, the text's own characters at the even positions and thin spaces at
/// the odd ones.
pub proof fn lemma_letter_spacing_shape(t: Seq<char>)
    ensures
        t.len() == 0 ==> spaced_text(t).len() == 0,
        t.len() > 0 ==> spaced_text(t).len() == 2 * t.len() - 1,
        forall|i: int| 0 <= i < t.len() ==> #[trigger] spaced_text(t)[2 * i] == t[i],
        forall|i: int| 0 <= i < t.len() - 1 ==> #[trigger] spaced_text(t)[2 * i + 1] == thin_space(),
    decreases t.len(),
{
    if t.len() > 1 {
        lemma_letter_spacing_shape(t.drop_last());
        let p = spaced_text(t.drop_last());
        assert forall|i: int| 0 <= i < t.len() implies #[trigger] spaced_text(t)[2 * i] == t[i] by {
            if i < t.len() - 1 {
                assert(spaced_text(t)[2 * i] == p[2 * i]);
                assert(t.drop_last()[i] == t[i]);
            }
        }
        assert forall|i: int| 0 <= i < t.len() - 1 implies #[trigger] spaced_text(t)[2 * i + 1]
            == thin_space() by {
            if i < t.len() - 2 {
                assert(spaced_text(t)[2 * i + 1] == p[2 * i + 1]);
            }
        }
    }
}

/// Severity bands for a temperature: CPUs and GPUs run hotter than disks
/// before they are "warn".
#[derive(Debug, Clone, Copy, PartialEq, Eq, Structural)]
pub enum TempKind {
    Processor,
    Disk,
    Board,
}

// ---------------------------------------------------------------------
// Storage details
// ---------------------------------------------------------------------

/// The whole days in `hours`, rounded to the nearest day (half a day
/// rounds up).
pub open spec fn rounded_days(hours: int) -> int {
    hours / 24 + if hours % 24 >= 12 { 1int } else { 0int }
}

/// The text of a cumulative power-on time: `"5057 h (≈ 0 y 211 d)"`,
/// the day count rounded to the nearest day and broken down into 365-day
/// years; zero or negative hours read plainly as `"0 h"`.
pub open spec fn power_on_text(hours: i64) -> Seq<char> {
    if hours <= 0 {
        signed_decimal(hours as int) + " h"@
    } else {
        let days_total = rounded_days(hours as int);
        decimal(hours as nat) + " h (\u{2248} "@ + decimal((days_total / 365) as nat) + " y "@
            + decimal((days_total % 365) as nat) + " d)"@
    }
}

/// Format cumulative power-on hours with a year/day breakdown.
pub fn format_power_on_hours(hours: i64) -> (r: String)
    ensures
        r@ == power_on_text(hours),
{
    let mut s = String::new();
    if hours <= 0 {
        push_signed_decimal(&mut s, hours);
        s.append(" h");
        assert(s@ =~= power_on_text(hours));
        return s;
    }
    let days_total: i64 = if hours % 24 >= 12 {
        hours / 24 + 1
    } else {
        hours / 24
    };
    push_decimal(&mut s, hours as u64);
    s.append(" h (\u{2248} ");
    push_decimal(&mut s, (days_total / 365) as u64);
    s.append(" y ");
    push_decimal(&mut s, (days_total % 365) as u64);
    s.append(" d)");
    assert(s@ =~= power_on_text(hours));
    s
}

/// What `str::to_uppercase` returns for `s` (full Unicode case mapping).
pub uninterp spec fn unicode_upper(s: Seq<char>) -> Seq<char>;

/// `str::to_uppercase`. The contract claims the result is
/// `unicode_upper` of the text and, for text that is all ASCII, the
/// text with `a`–`z` raised to `A`–`Z` and every other character kept.
#[verifier::external_body]
fn to_uppercase(s: &str) -> (r: String)
    ensures
        r@ == unicode_upper(s@),
        (forall|i: int| 0 <= i < s@.len() ==> (s@[i] as u32) < 128) ==> r@
            == crate::text::ascii_upper_text(s@),
{
    s.to_uppercase()
}

/// Display form of a disk kind tag. The conventional casings of `"nvme"`,
/// `"ssd"` and `"hdd"` (matched without regard to ASCII case); any other
/// tag upper-cased.
pub open spec fn kind_text(kind: Seq<char>) -> Seq<char> {
    if eq_ignore_ascii_case(kind, "nvme"@) {
        "NVMe"@
    } else if eq_ignore_ascii_case(kind, "ssd"@) {
        "SSD"@
    } else if eq_ignore_ascii_case(kind, "hdd"@) {
        "HDD"@
    } else {
        unicode_upper(kind)
    }
}

/// Display form of a disk `kind` tag as sensord emits it (`"nvme"`,
/// `"ssd"`, `"hdd"`), restoring the conventional casing.
pub fn kind_label(kind: &str) -> (r: String)
    ensures
        r@ == kind_text(kind@),
{
    let k = chars_of(kind);
    let nvme = chars_of("nvme");
    let ssd = chars_of("ssd");
    let hdd = chars_of("hdd");
    let mut s = String::new();
    if chars_eq_ignore_ascii_case(&k, &nvme) {
        s.append("NVMe");
    } else if chars_eq_ignore_ascii_case(&k, &ssd) {
        s.append("SSD");
    } else if chars_eq_ignore_ascii_case(&k, &hdd) {
        s.append("HDD");
    } else {
        return to_uppercase(kind);
    }
    proof {
        let e = Seq::<char>::empty();
        assert(e + "NVMe"@ =~= "NVMe"@);
        assert(e + "SSD"@ =~= "SSD"@);
        assert(e + "HDD"@ =~= "HDD"@);
    }
    s
}

// ---------------------------------------------------------------------
// Board identity
// ---------------------------------------------------------------------

/// The identity fields of the motherboard section.
#[derive(Debug, Clone)]
pub struct BoardIdentity {
    pub name: Option<String>,
    pub bios_version: Option<String>,
    pub bios_date: Option<String>,
}

/// A field's trimmed text, or `None` when it is absent or blank.
pub open spec fn present(field: Option<String>) -> Option<Seq<char>> {
    match field {
        Some(t) => if trim(t@).len() > 0 {
            Some(trim(t@))
        } else {
            None
        },
        None => None,
    }
}

/// `BIOS <version>`, followed by ` (<date>)` when the date is present.
pub open spec fn bios_text(version: Seq<char>, date: Option<Seq<char>>) -> Seq<char> {
    match date {
        Some(d) => "BIOS "@ + version + " ("@ + d + ")"@,
        None => "BIOS "@ + version,
    }
}

/// The one-line board identity: the board name and the BIOS part, each
/// only when present, joined with ` · `; `None` when neither is present.
/// A date without a version is dropped.
pub open spec fn identity_text(b: BoardIdentity) -> Option<Seq<char>> {
    match (present(b.name), present(b.bios_version)) {
        (Some(n), Some(v)) => Some(n + " \u{00b7} "@ + bios_text(v, present(b.bios_date))),
        (Some(n), None) => Some(n),
        (None, Some(v)) => Some(bios_text(v, present(b.bios_date))),
        (None, None) => None,
    }
}

/// A field's trimmed text, or `None` when it is absent or blank.
fn present_field(field: &Option<String>) -> (r: Option<String>)
    ensures
        match r {
            Some(t) => present(*field) == Some(t@),
            None => present(*field) is None,
        },
{
    match field {
        Some(t) => {
            let s = trimmed(t.as_str());
            if s.as_str().unicode_len() > 0 {
                Some(s)
            } else {
                None
            }
        },
        None => None,
    }
}

/// The board identity line for the Sensors card.
pub fn identity_line(board: &BoardIdentity) -> (r: Option<String>)
    ensures
        match r {
            Some(t) => identity_text(*board) == Some(t@),
            None => identity_text(*board) is None,
        },
{
    let name = present_field(&board.name);
    let version = present_field(&board.bios_version);
    let bios = match version {
        Some(v) => {
            let mut b = String::new();
            b.append("BIOS ");
            b.append(v.as_str());
            let date = present_field(&board.bios_date);
            match date {
                Some(d) => {
                    b.append(" (");
                    b.append(d.as_str());
                    b.append(")");
                },
                None => {},
            }
            assert(Seq::<char>::empty() + "BIOS "@ =~= "BIOS "@);
            assert(b@ =~= bios_text(v@, present(board.bios_date)));
            Some(b)
        },
        None => None,
    };
    match (name, bios) {
        (Some(n), Some(b)) => {
            let mut s = n;
            s.append(" \u{00b7} ");
            s.append(b.as_str());
            Some(s)
        },
        (Some(n), None) => Some(n),
        (None, Some(b)) => Some(b),
        (None, None) => None,
    }
}

/// The battery's time to empty while discharging, `"—"` otherwise (the
/// charging-side estimate is unreliable) or with no positive reading.
pub open spec fn time_remaining_text(secs: Option<i64>, discharging: bool) -> Seq<char> {
    match secs {
        Some(s) => if discharging && s > 0 {
            uptime_text(s)
        } else {
            "\u{2014}"@
        },
        None => "\u{2014}"@,
    }
}

/// Render the battery's time remaining; `discharging` says the battery is
/// draining.
pub fn format_time_remaining(secs: Option<i64>, discharging: bool) -> (r: String)
    ensures
        r@ == time_remaining_text(secs, discharging),
{
    match secs {
        Some(s) => {
            if discharging && s > 0 {
                return format_uptime(s);
            }
        },
        None => {},
    }
    let mut t = String::new();
    t.append("\u{2014}");
    assert(t@ =~= "\u{2014}"@);
    t
}

// ---------------------------------------------------------------------
// Wi-Fi summary
// ---------------------------------------------------------------------

/// `parts` joined with `sep` between consecutive parts.
pub open spec fn joined(parts: Seq<Seq<char>>, sep: Seq<char>) -> Seq<char>
    decreases parts.len(),
{
    if parts.len() == 0 {
        Seq::empty()
    } else if parts.len() == 1 {
        parts[0]
    } else {
        joined(parts.drop_last(), sep) + sep + parts.last()
    }
}

/// The parts of the Wi-Fi row that are present: the trimmed SSID when not
/// blank, the signal as `"<n> %"` and the PHY rate as `"<n> Mbps"`.
pub open spec fn wifi_parts(ssid: Option<Seq<char>>, signal_pct: Option<i64>, phy_mbps: Option<i64>) -> Seq<Seq<char>> {
    (match ssid {
        Some(t) => if trim(t).len() > 0 {
            seq![trim(t)]
        } else {
            Seq::empty()
        },
        None => Seq::empty(),
    }) + (match signal_pct {
        Some(p) => seq![signed_decimal(p as int) + " %"@],
        None => Seq::empty(),
    }) + (match phy_mbps {
        Some(r) => seq![signed_decimal(r as int) + " Mbps"@],
        None => Seq::empty(),
    })
}

/// The Wi-Fi row value, `"ssid · 87 % · 866 Mbps"`, from the SSID and the
/// signal and PHY rate already rounded to whole numbers (absent when not
/// finite); `None` when nothing is displayable.
pub fn wifi_value(ssid: Option<&str>, signal_pct: Option<i64>, phy_mbps: Option<i64>) -> (r: Option<String>)
    ensures
        ({
            let parts = wifi_parts(
                match ssid {
                    Some(t) => Some(t@),
                    None => None,
                },
                signal_pct,
                phy_mbps,
            );
            &&& r is None <==> parts.len() == 0
            &&& r matches Some(t) ==> t@ == joined(parts, " \u{00b7} "@)
        }),
{
    let ghost ssid_view: Option<Seq<char>> = match ssid {
        Some(t) => Some(t@),
        None => None,
    };
    let ghost parts = wifi_parts(ssid_view, signal_pct, phy_mbps);
    let mut out = String::new();
    let mut count: usize = 0;
    let ghost mut done: Seq<Seq<char>> = Seq::empty();
    match ssid {
        Some(t) => {
            let name = crate::text::trimmed(t);
            if name.as_str().unicode_len() > 0 {
                out.append(name.as_str());
                count = 1;
                proof {
                    done = seq![name@];
                    assert(Seq::<char>::empty() + name@ =~= name@);
                }
            }
        },
        None => {},
    }
    assert(out@ == joined(done, " \u{00b7} "@));
    match signal_pct {
        Some(p) => {
            let ghost before = done;
            let ghost text = signed_decimal(p as int) + " %"@;
            if count > 0 {
                out.append(" \u{00b7} ");
            }
            push_signed_decimal(&mut out, p);
            out.append(" %");
            count = count + 1;
            proof {
                done = before.push(text);
                assert(done.drop_last() =~= before);
                if before.len() == 0 {
                    assert(out@ =~= text);
                } else {
                    assert(out@ =~= joined(before, " \u{00b7} "@) + " \u{00b7} "@ + text);
                }
            }
        },
        None => {},
    }
    match phy_mbps {
        Some(m) => {
            let ghost before = done;
            let ghost text = signed_decimal(m as int) + " Mbps"@;
            if count > 0 {
                out.append(" \u{00b7} ");
            }
            push_signed_decimal(&mut out, m);
            out.append(" Mbps");
            count = count + 1;
            proof {
                done = before.push(text);
                assert(done.drop_last() =~= before);
                if before.len() == 0 {
                    assert(out@ =~= text);
                } else {
                    assert(out@ =~= joined(before, " \u{00b7} "@) + " \u{00b7} "@ + text);
                }
            }
        },
        None => {},
    }
    assert(done =~= parts);
    if count == 0 {
        None
    } else {
        Some(out)
    }
}

} // verus!
