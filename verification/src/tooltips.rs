//! Plain-language explanations for every metric the dashboard surfaces.
//!
//! Lookup is case-insensitive on the trimmed label, so one entry covers
//! `"TEMP"`, `"temp"` and `"Temp"`.
use crate::text::{
    ascii_lower, ascii_upper, ascii_upper_text, char_ascii_upper, chars_eq_ignore_ascii_case,
    chars_of, eq_ignore_ascii_case, is_ws, skip_ws_backward, skip_ws_forward, trim, trim_end,
    trim_start,
};
use vstd::prelude::*;

verus! {

/// The number of entries in the description table.
pub const DESCRIPTION_COUNT: usize = 35;

/// The canonical metric → description table, in lookup order.
pub open spec fn descriptions() -> Seq<(Seq<char>, Seq<char>)> {
    seq![
        ("LOAD"@, "CPU utilisation across every logical core, 0–100 %. 100 % means every core is executing instructions every cycle."@),
        ("TEMP"@, "Hottest temperature reported by the component, in °C. Sustained values above ~85 °C on a CPU or ~83 °C on a GPU usually trigger thermal throttling."@),
        ("CLOCK"@, "Highest current core frequency, in GHz. Modern CPUs and GPUs boost above their base clock when there is thermal and power headroom."@),
        ("POWER"@, "Component power draw, in watts. Combines every on-die power domain reported by the silicon (cores, cache, memory controller, platform)."@),
        ("VCORE"@, "CPU core voltage rail. Typical idle/load range is 0.8–1.4 V. Unstable voltage causes crashes and graphical artefacts."@),
        ("TJMAX"@, "Headroom to the CPU's thermal throttle point (TjMax), in °C. 0 = throttling right now. Smaller numbers mean the cooler is at its limit."@),
        ("HOTSPOT"@, "GPU die hot spot — the warmest single point on the GPU silicon. Usually 10–15 °C above the averaged core temperature."@),
        ("JUNCTION"@, "GDDR / VRAM memory die hot spot, in °C. The VRAM chips can exceed the GPU core in memory-heavy workloads (large textures, on-GPU inference)."@),
        ("VRAM"@, "GPU on-card video memory used out of the card's total. Split between dedicated and DXGI-shared system RAM where the driver reports it."@),
        ("MEM USE"@, "VRAM memory-controller load, 0–100 %. Independent of GPU core load: a saturated bus can throttle even an idle-looking GPU."@),
        ("PCIE"@, "GPU PCIe link throughput (receive + transmit), bytes per second. Sustained saturation can bottleneck game streaming or model loading."@),
        ("V"@, "GPU core voltage rail, in volts."@),
        ("USED"@, "Memory currently allocated by running processes. Does not include OS file cache (see CACHED)."@),
        ("FREE"@, "Memory immediately available for new allocations. Does not count reclaimable cache pages — Windows can release the cache on demand."@),
        ("CACHED"@, "OS file-system cache. The kernel treats this as free memory and reclaims it transparently when applications need RAM."@),
        ("PAGEFILE"@, "Windows swap file usage. Sustained high usage means physical RAM is under pressure and access latency suffers."@),
        ("DIMM"@, "Hottest DIMM temperature on the board, in °C. Some platforms expose per-module thermal sensors; sustained values above ~85 °C usually indicate weak case airflow."@),
        ("DIMM MAX"@, "Hottest of multiple DIMM temperature sensors, in °C. Reported when the platform exposes more than one DIMM thermal sensor."@),
        ("HEALTH"@, "Remaining drive life, 0–100 % (100 = new). Prefers vendor 'Remaining Life'; falls back to the NVMe-spec 'Available Spare' when only the latter is exposed."@),
        ("ACTIVITY"@, "Instantaneous busy time on the drive, 0–100 %. Spiking high while throughput stays low usually means many small random IOs."@),
        ("R/W"@, "Per-drive read and write throughput, bytes per second."@),
        ("HOURS"@, "Cumulative time the drive has spent powered on. A 24/7 server reaches 8 760 h per year."@),
        ("CYCLES"@, "Number of cold-start cycles the drive has seen. Useful for spotting drives moved between machines or used in laptops with frequent sleep cycles."@),
        ("SPARE"@, "NVMe Available Spare — percentage of the drive's spare flash blocks still untouched. Distinct from the Health figure: drops only when the firmware burns through its over-provisioning."@),
        ("DOWN"@, "Inbound throughput on the active network adapter, bytes per second."@),
        ("UP"@, "Outbound throughput on the active network adapter, bytes per second."@),
        ("LINK"@, "Adapter's negotiated link speed (for example 1 Gbit/s or 2.4 Gbit/s). Empty when the OS does not report it."@),
        ("IFACE"@, "Active network interface (Wi-Fi adapter name or Ethernet device). Selected as the interface currently passing traffic."@),
        ("STATE"@, "Battery charge / discharge state. Charging while plugged in; Discharging on battery; AC when fully charged."@),
        ("RATE"@, "Instantaneous power flow. Positive while charging, negative while discharging. A heavier load makes the discharge rate more negative."@),
        ("TIME"@, "OS estimate of remaining battery life at the current discharge rate. Updates lazily; treat short-term changes as noisy."@),
        ("REMAINING"@, "Current charge level, 0–100 %. Mirrors the donut on the left of the card."@),
        ("BOARD"@, "Motherboard temperature sensor, in °C. Tracks chipset / chassis warm-up; sustained values above 50 °C indicate poor case airflow."@),
        ("VRM"@, "Voltage Regulator Module temperature, in °C. Hot VRMs throttle CPU power delivery; values above 90 °C suggest a heatsink or airflow problem."@),
        ("UP"@, "Time since the OS last booted. Resets after a full shutdown or restart, not after sleep."@),
    ]
}

/// The key a label is looked up under: trimmed and upper-cased.
pub open spec fn lookup_key(label: Seq<char>) -> Seq<char> {
    ascii_upper_text(trim(label))
}

/// The first table entry at or after `i` whose key matches `key` up to
/// ASCII case.
pub open spec fn first_match(key: Seq<char>, i: int) -> Option<int>
    decreases descriptions().len() - i,
{
    if i < 0 || i >= descriptions().len() {
        None
    } else if eq_ignore_ascii_case(descriptions()[i].0, key) {
        Some(i)
    } else {
        first_match(key, i + 1)
    }
}

/// The description registered for `label`, if any.
pub open spec fn description_of(label: Seq<char>) -> Option<Seq<char>> {
    match first_match(lookup_key(label), 0) {
        Some(j) => Some(descriptions()[j].1),
        None => None,
    }
}

proof fn lemma_upper_of_same_lower(x: char, y: char)
    requires
        ascii_lower(x) == ascii_lower(y),
    ensures
        ascii_upper(x) == ascii_upper(y),
{
    assert((ascii_lower(x) as u32) == (ascii_lower(y) as u32));
    assert(('A' <= x && x <= 'Z') ==> (ascii_lower(x) as u32) == (x as u32) + 32);
    assert(('A' <= y && y <= 'Z') ==> (ascii_lower(y) as u32) == (y as u32) + 32);
    assert(('a' <= x && x <= 'z') ==> (ascii_upper(x) as u32) == (x as u32) - 32);
    assert(('a' <= y && y <= 'z') ==> (ascii_upper(y) as u32) == (y as u32) - 32);
}

/// Law: lookup ignores surrounding white space and ASCII letter case. Two
/// labels whose trimmed texts agree up to ASCII case get the same
/// description.
pub proof fn lemma_describe_ignores_case_and_padding(a: Seq<char>, b: Seq<char>)
    requires
        eq_ignore_ascii_case(trim(a), trim(b)),
    ensures
        description_of(a) == description_of(b),
{
    assert forall|i: int| 0 <= i < trim(a).len() implies ascii_upper(#[trigger] trim(a)[i])
        == ascii_upper(trim(b)[i]) by {
        lemma_upper_of_same_lower(trim(a)[i], trim(b)[i]);
    }
    assert(lookup_key(a) =~= lookup_key(b));
}

proof fn lemma_trim_start_edge(s: Seq<char>)
    ensures
        trim_start(s).len() > 0 ==> !is_ws(trim_start(s)[0]),
    decreases s.len(),
{
    if s.len() > 0 && is_ws(s[0]) {
        lemma_trim_start_edge(s.drop_first());
    }
}

proof fn lemma_trim_end_edge(s: Seq<char>)
    ensures
        trim_end(s).len() <= s.len(),
        trim_end(s) == s.subrange(0, trim_end(s).len() as int),
        trim_end(s).len() > 0 ==> !is_ws(trim_end(s).last()),
    decreases s.len(),
{
    if s.len() > 0 && is_ws(s.last()) {
        lemma_trim_end_edge(s.drop_last());
        assert(s.drop_last().subrange(0, trim_end(s).len() as int) =~= s.subrange(
            0,
            trim_end(s).len() as int,
        ));
    } else {
        assert(s.subrange(0, s.len() as int) =~= s);
    }
}

proof fn lemma_upper_keeps_ws(c: char)
    ensures
        is_ws(ascii_upper(c)) == is_ws(c),
        ascii_upper(ascii_upper(c)) == ascii_upper(c),
{
    if 'a' <= c && c <= 'z' {
        assert(97 <= (c as u32) <= 122);
        assert((ascii_upper(c) as u32) == (c as u32) - 32);
    }
}

/// Law: a label is described exactly as its trimmed, upper-cased form is.
pub proof fn lemma_describe_normalised(label: Seq<char>)
    ensures
        description_of(label) == description_of(ascii_upper_text(trim(label))),
{
    let t = trim(label);
    let u = ascii_upper_text(t);
    lemma_trim_start_edge(label);
    lemma_trim_end_edge(trim_start(label));
    if u.len() > 0 {
        assert(t[0] == trim_start(label)[0]);
        lemma_upper_keeps_ws(t[0]);
        lemma_upper_keeps_ws(t.last());
        assert(u[0] == ascii_upper(t[0]));
        assert(u.last() == ascii_upper(t.last()));
        assert(trim_start(u) == u);
        assert(trim_end(u) == u);
    }
    assert(trim(u) == u);
    assert forall|i: int| 0 <= i < t.len() implies #[trigger] ascii_upper(u[i]) == ascii_upper(t[i]) by {
        lemma_upper_keeps_ws(t[i]);
    }
    assert(lookup_key(u) =~= lookup_key(label));
}

/// Entry `i` of the description table.
pub fn description_entry(i: usize) -> (r: (&'static str, &'static str))
    requires
        i < DESCRIPTION_COUNT,
    ensures
        r.0@ == descriptions()[i as int].0,
        r.1@ == descriptions()[i as int].1,
{
    match i {
        0 => ("LOAD", "CPU utilisation across every logical core, 0–100 %. 100 % means every core is executing instructions every cycle."),
        1 => ("TEMP", "Hottest temperature reported by the component, in °C. Sustained values above ~85 °C on a CPU or ~83 °C on a GPU usually trigger thermal throttling."),
        2 => ("CLOCK", "Highest current core frequency, in GHz. Modern CPUs and GPUs boost above their base clock when there is thermal and power headroom."),
        3 => ("POWER", "Component power draw, in watts. Combines every on-die power domain reported by the silicon (cores, cache, memory controller, platform)."),
        4 => ("VCORE", "CPU core voltage rail. Typical idle/load range is 0.8–1.4 V. Unstable voltage causes crashes and graphical artefacts."),
        5 => ("TJMAX", "Headroom to the CPU's thermal throttle point (TjMax), in °C. 0 = throttling right now. Smaller numbers mean the cooler is at its limit."),
        6 => ("HOTSPOT", "GPU die hot spot — the warmest single point on the GPU silicon. Usually 10–15 °C above the averaged core temperature."),
        7 => ("JUNCTION", "GDDR / VRAM memory die hot spot, in °C. The VRAM chips can exceed the GPU core in memory-heavy workloads (large textures, on-GPU inference)."),
        8 => ("VRAM", "GPU on-card video memory used out of the card's total. Split between dedicated and DXGI-shared system RAM where the driver reports it."),
        9 => ("MEM USE", "VRAM memory-controller load, 0–100 %. Independent of GPU core load: a saturated bus can throttle even an idle-looking GPU."),
        10 => ("PCIE", "GPU PCIe link throughput (receive + transmit), bytes per second. Sustained saturation can bottleneck game streaming or model loading."),
        11 => ("V", "GPU core voltage rail, in volts."),
        12 => ("USED", "Memory currently allocated by running processes. Does not include OS file cache (see CACHED)."),
        13 => ("FREE", "Memory immediately available for new allocations. Does not count reclaimable cache pages — Windows can release the cache on demand."),
        14 => ("CACHED", "OS file-system cache. The kernel treats this as free memory and reclaims it transparently when applications need RAM."),
        15 => ("PAGEFILE", "Windows swap file usage. Sustained high usage means physical RAM is under pressure and access latency suffers."),
        16 => ("DIMM", "Hottest DIMM temperature on the board, in °C. Some platforms expose per-module thermal sensors; sustained values above ~85 °C usually indicate weak case airflow."),
        17 => ("DIMM MAX", "Hottest of multiple DIMM temperature sensors, in °C. Reported when the platform exposes more than one DIMM thermal sensor."),
        18 => ("HEALTH", "Remaining drive life, 0–100 % (100 = new). Prefers vendor 'Remaining Life'; falls back to the NVMe-spec 'Available Spare' when only the latter is exposed."),
        19 => ("ACTIVITY", "Instantaneous busy time on the drive, 0–100 %. Spiking high while throughput stays low usually means many small random IOs."),
        20 => ("R/W", "Per-drive read and write throughput, bytes per second."),
        21 => ("HOURS", "Cumulative time the drive has spent powered on. A 24/7 server reaches 8 760 h per year."),
        22 => ("CYCLES", "Number of cold-start cycles the drive has seen. Useful for spotting drives moved between machines or used in laptops with frequent sleep cycles."),
        23 => ("SPARE", "NVMe Available Spare — percentage of the drive's spare flash blocks still untouched. Distinct from the Health figure: drops only when the firmware burns through its over-provisioning."),
        24 => ("DOWN", "Inbound throughput on the active network adapter, bytes per second."),
        25 => ("UP", "Outbound throughput on the active network adapter, bytes per second."),
        26 => ("LINK", "Adapter's negotiated link speed (for example 1 Gbit/s or 2.4 Gbit/s). Empty when the OS does not report it."),
        27 => ("IFACE", "Active network interface (Wi-Fi adapter name or Ethernet device). Selected as the interface currently passing traffic."),
        28 => ("STATE", "Battery charge / discharge state. Charging while plugged in; Discharging on battery; AC when fully charged."),
        29 => ("RATE", "Instantaneous power flow. Positive while charging, negative while discharging. A heavier load makes the discharge rate more negative."),
        30 => ("TIME", "OS estimate of remaining battery life at the current discharge rate. Updates lazily; treat short-term changes as noisy."),
        31 => ("REMAINING", "Current charge level, 0–100 %. Mirrors the donut on the left of the card."),
        32 => ("BOARD", "Motherboard temperature sensor, in °C. Tracks chipset / chassis warm-up; sustained values above 50 °C indicate poor case airflow."),
        33 => ("VRM", "Voltage Regulator Module temperature, in °C. Hot VRMs throttle CPU power delivery; values above 90 °C suggest a heatsink or airflow problem."),
        34 => ("UP", "Time since the OS last booted. Resets after a full shutdown or restart, not after sleep."),
        _ => ("UP", "Time since the OS last booted. Resets after a full shutdown or restart, not after sleep."),
    }
}

/// Return the plain-language description for a metric label, if one is
/// registered. The label is trimmed and upper-cased before lookup.
pub fn describe(label: &str) -> (r: Option<&'static str>)
    ensures
        match r {
            Some(v) => description_of(label@) == Some(v@),
            None => description_of(label@) is None,
        },
{
    let c = chars_of(label);
    let n = c.len();
    let a = skip_ws_forward(&c, 0, n);
    let b = skip_ws_backward(&c, a, n);
    assert(c@.subrange(0, n as int) =~= c@);
    let mut key: Vec<char> = Vec::new();
    let mut k = a;
    while k < b
        invariant
            a <= k <= b <= n,
            n == c@.len(),
            key@ == ascii_upper_text(c@.subrange(a as int, k as int)),
        decreases b - k,
    {
        key.push(char_ascii_upper(c[k]));
        assert(ascii_upper_text(c@.subrange(a as int, k + 1)) =~= ascii_upper_text(
            c@.subrange(a as int, k as int),
        ).push(ascii_upper(c@[k as int])));
        k = k + 1;
    }
    assert(key@ == lookup_key(label@));
    let mut i: usize = 0;
    while i < DESCRIPTION_COUNT
        invariant
            i <= DESCRIPTION_COUNT,
            descriptions().len() == DESCRIPTION_COUNT,
            key@ == lookup_key(label@),
            first_match(key@, 0) == first_match(key@, i as int),
        decreases DESCRIPTION_COUNT - i,
    {
        let entry = description_entry(i);
        let entry_key = chars_of(entry.0);
        if chars_eq_ignore_ascii_case(&entry_key, &key) {
            return Some(entry.1);
        }
        i = i + 1;
    }
    None
}

} // verus!
