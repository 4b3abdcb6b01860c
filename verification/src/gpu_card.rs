//! Which rows the GPU card shows. A discrete GPU always shows its headline
//! readings, even when one is missing from the current snapshot; an
//! integrated GPU hides the rows its hardware does not populate. Detail
//! readings show only on a card with room for the full layout.
use crate::stats::Capacity;
use crate::text::text_eq;
use vstd::prelude::*;

verus! {

/// The `kind` tag the sensor service gives an integrated GPU.
pub const INTEGRATED_KIND: &'static str = "integrated";

/// The least row budget at which the card shows its detail readings.
pub const FULL_LAYOUT_ROWS: usize = 6;

/// Which readings the snapshot carries for one GPU. `power_drawn` is set
/// when a finite power figure above the idle floor is reported.
#[derive(Debug, Clone, Copy, PartialEq, Eq, Structural)]
pub struct GpuReadings {
    pub temp: bool,
    pub clock: bool,
    pub hot_spot: bool,
    pub junction: bool,
    pub memory_load: bool,
    pub pcie: bool,
    pub power_drawn: bool,
    pub voltage: bool,
}

/// The rows the GPU card shows, beside its load donut. VRAM always shows:
/// dedicated memory for a discrete GPU, shared memory for an integrated one.
#[derive(Debug, Clone, Copy, PartialEq, Eq, Structural)]
pub struct GpuRows {
    pub temp: bool,
    pub hot_spot: bool,
    pub junction: bool,
    pub clock: bool,
    pub voltage: bool,
    pub mem_use: bool,
    pub vram: bool,
    pub shared_vram: bool,
    pub pcie: bool,
    pub power: bool,
}

/// Whether a GPU `kind` tag names an integrated GPU.
pub fn is_integrated(kind: &str) -> (r: bool)
    ensures
        r == (kind@ == INTEGRATED_KIND@),
{
    text_eq(kind, INTEGRATED_KIND)
}

/// The card title for a GPU of `kind`: `"iGPU"` for an integrated one,
/// `"GPU"` otherwise.
pub fn gpu_card_title(kind: &str) -> (r: &'static str)
    ensures
        r@ == if kind@ == INTEGRATED_KIND@ {
            "iGPU"@
        } else {
            "GPU"@
        },
{
    if is_integrated(kind) {
        "iGPU"
    } else {
        "GPU"
    }
}

/// The rows the GPU card shows for a GPU that is `integrated` or not, with
/// readings `got`, on a card with row budget `capacity`.
pub fn gpu_rows(integrated: bool, got: GpuReadings, capacity: Capacity) -> (r: GpuRows)
    ensures
        r.temp == (!integrated || got.temp),
        r.clock == (!integrated || got.clock),
        r.hot_spot == (capacity.rows >= FULL_LAYOUT_ROWS && got.hot_spot),
        r.junction == (capacity.rows >= FULL_LAYOUT_ROWS && got.junction),
        r.voltage == (capacity.rows >= FULL_LAYOUT_ROWS && got.voltage),
        r.pcie == (capacity.rows >= FULL_LAYOUT_ROWS && got.pcie),
        r.mem_use == (!integrated || got.memory_load),
        r.vram,
        r.shared_vram == integrated,
        r.power == (!integrated || got.power_drawn),
{
    let full = capacity.rows >= FULL_LAYOUT_ROWS;
    GpuRows {
        temp: !integrated || got.temp,
        hot_spot: full && got.hot_spot,
        junction: full && got.junction,
        clock: !integrated || got.clock,
        voltage: full && got.voltage,
        mem_use: !integrated || got.memory_load,
        vram: true,
        shared_vram: integrated,
        pcie: full && got.pcie,
        power: !integrated || got.power_drawn,
    }
}

} // verus!
