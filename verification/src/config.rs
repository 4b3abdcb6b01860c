//! Persisted user settings and the choices they are made from.
use crate::format::TempUnit;
use vstd::prelude::*;

verus! {

/// Identifies one of the six themes.
#[derive(Debug, Clone, Copy, PartialEq, Eq, Structural)]
pub enum ThemeId {
    Amber,
    Slate,
    Phosphor,
    Light,
    Synthwave,
    Crimson,
}

/// The fixed set of poll intervals offered in Settings.
#[derive(Debug, Clone, Copy, PartialEq, Eq, Structural)]
pub enum RefreshRate {
    Ms500,
    S1,
    S2,
    S5,
}

/// The poll interval of `r`, in milliseconds.
pub open spec fn millis_of(r: RefreshRate) -> u32 {
    match r {
        RefreshRate::Ms500 => 500,
        RefreshRate::S1 => 1000,
        RefreshRate::S2 => 2000,
        RefreshRate::S5 => 5000,
    }
}

/// The Settings label of `r`.
pub open spec fn label_of(r: RefreshRate) -> Seq<char> {
    match r {
        RefreshRate::Ms500 => "0.5 s"@,
        RefreshRate::S1 => "1 s"@,
        RefreshRate::S2 => "2 s"@,
        RefreshRate::S5 => "5 s"@,
    }
}

impl RefreshRate {
    /// Every rate, fastest first.
    pub const ALL: [RefreshRate; 4] = [
        RefreshRate::Ms500,
        RefreshRate::S1,
        RefreshRate::S2,
        RefreshRate::S5,
    ];

    pub fn as_millis(self) -> (r: u32)
        ensures
            r == millis_of(self),
    {
        match self {
            RefreshRate::Ms500 => 500,
            RefreshRate::S1 => 1000,
            RefreshRate::S2 => 2000,
            RefreshRate::S5 => 5000,
        }
    }

    pub fn label(self) -> (r: &'static str)
        ensures
            r@ == label_of(self),
    {
        match self {
            RefreshRate::Ms500 => "0.5 s",
            RefreshRate::S1 => "1 s",
            RefreshRate::S2 => "2 s",
            RefreshRate::S5 => "5 s",
        }
    }
}

/// Law: the rates are ordered. Each listed rate polls less often than the
/// one before it, so Settings offers them fastest first.
pub proof fn lemma_rates_ascending()
    ensures
        millis_of(RefreshRate::Ms500) < millis_of(RefreshRate::S1),
        millis_of(RefreshRate::S1) < millis_of(RefreshRate::S2),
        millis_of(RefreshRate::S2) < millis_of(RefreshRate::S5),
{
}

/// Persisted user settings. This is the only state the dashboard writes to
/// disk.
#[derive(Debug, Clone, PartialEq)]
pub struct Config {
    pub theme: ThemeId,
    pub follow_windows: bool,
    pub unit: TempUnit,
    pub refresh: RefreshRate,
    pub check_updates_on_startup: bool,
    pub cpu_heat_map: bool,
    pub always_on_top: bool,
}

/// The value a settings file without `check_updates_on_startup` gets.
pub fn default_check_updates() -> (r: bool)
    ensures
        r,
{
    true
}

/// The value a settings file without `cpu_heat_map` gets.
pub fn default_cpu_heat_map() -> (r: bool)
    ensures
        !r,
{
    false
}

/// The value a settings file without `always_on_top` gets.
pub fn default_always_on_top() -> (r: bool)
    ensures
        !r,
{
    false
}

impl Default for Config {
    fn default() -> (r: Self)
        ensures
            r.theme == ThemeId::Slate,
            !r.follow_windows,
            r.unit == TempUnit::Celsius,
            r.refresh == RefreshRate::S1,
            r.check_updates_on_startup,
            !r.cpu_heat_map,
            !r.always_on_top,
    {
        Self {
            theme: ThemeId::Slate,
            follow_windows: false,
            unit: TempUnit::Celsius,
            refresh: RefreshRate::S1,
            check_updates_on_startup: true,
            cpu_heat_map: false,
            always_on_top: false,
        }
    }
}

} // verus!
