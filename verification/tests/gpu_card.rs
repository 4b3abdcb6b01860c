use perfwindow::gpu_card::{gpu_card_title, gpu_rows, is_integrated, GpuReadings};
use perfwindow::stats::Capacity;

fn none() -> GpuReadings {
    GpuReadings {
        temp: false,
        clock: false,
        hot_spot: false,
        junction: false,
        memory_load: false,
        pcie: false,
        power_drawn: false,
        voltage: false,
    }
}

fn all() -> GpuReadings {
    GpuReadings {
        temp: true,
        clock: true,
        hot_spot: true,
        junction: true,
        memory_load: true,
        pcie: true,
        power_drawn: true,
        voltage: true,
    }
}

#[test]
fn integrated_gpus_are_titled_igpu() {
    assert!(is_integrated("integrated"));
    assert!(!is_integrated("discrete"));
    assert_eq!(gpu_card_title("integrated"), "iGPU");
    assert_eq!(gpu_card_title("discrete"), "GPU");
    assert_eq!(gpu_card_title(""), "GPU");
}

#[test]
fn discrete_gpus_keep_the_headline_rows_without_readings() {
    let r = gpu_rows(false, none(), Capacity { rows: 8, columns: 2 });
    assert!(r.temp && r.clock && r.mem_use && r.power && r.vram);
    assert!(!r.hot_spot && !r.junction && !r.voltage && !r.pcie);
    assert!(!r.shared_vram);
}

#[test]
fn integrated_gpus_hide_rows_the_hardware_does_not_populate() {
    let r = gpu_rows(true, none(), Capacity { rows: 8, columns: 2 });
    assert!(!r.temp && !r.mem_use && !r.power && !r.clock);
    assert!(r.vram && r.shared_vram);
    let r = gpu_rows(true, GpuReadings { temp: true, power_drawn: true, ..none() }, Capacity { rows: 8, columns: 2 });
    assert!(r.temp && r.power && !r.mem_use);
}

#[test]
fn detail_rows_need_the_full_layout() {
    let full = gpu_rows(false, all(), Capacity { rows: 6, columns: 2 });
    assert!(full.hot_spot && full.junction && full.voltage && full.pcie);
    let compact = gpu_rows(false, all(), Capacity { rows: 5, columns: 1 });
    assert!(!compact.hot_spot && !compact.junction && !compact.voltage && !compact.pcie);
    assert!(compact.temp && compact.clock && compact.mem_use && compact.power);
}
