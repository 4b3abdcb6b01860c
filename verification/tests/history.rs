use perfwindow::history::{
    samples_or_empty, GpuSample, History, HistorySample, NetSample, RingBuffer, HISTORY_CAPACITY,
};

#[test]
fn keeps_only_the_last_capacity_samples() {
    let mut rb = RingBuffer::new(3);
    for v in [1.0f32, 2.0, 3.0, 4.0, 5.0] {
        rb.push(v);
    }
    let got: Vec<f32> = rb.iter_oldest_first();
    assert_eq!(got, vec![3.0, 4.0, 5.0]);
    assert_eq!(rb.len(), 3);
}

#[test]
fn iterates_oldest_to_newest_before_full() {
    let mut rb = RingBuffer::new(5);
    rb.push(10.0f32);
    rb.push(20.0);
    let got: Vec<f32> = rb.iter_oldest_first();
    assert_eq!(got, vec![10.0, 20.0]);
}

#[test]
fn empty_buffer_has_no_samples() {
    let rb: RingBuffer<f32> = RingBuffer::new(4);
    assert_eq!(rb.len(), 0);
    assert!(rb.is_empty());
    assert_eq!(rb.iter_oldest_first().len(), 0);
}

fn empty_sample() -> HistorySample<f32> {
    HistorySample { cpu: None, ram: None, gpus: None, net: None }
}

#[test]
fn network_buffer_records_both_directions() {
    let mut h: History<f32> = History::default();
    let snap = HistorySample {
        net: Some(NetSample { down: 1_000_000.0, up: 250_000.0 }),
        ..empty_sample()
    };
    h.record(&snap);
    h.record(&snap);
    let net = h.network.as_ref().expect("network history exists");
    assert_eq!(net.down.iter_oldest_first(), vec![1_000_000.0, 1_000_000.0]);
    assert_eq!(net.up.iter_oldest_first(), vec![250_000.0, 250_000.0]);
}

/// A sample holding only GPUs, one per `(name, load)` pair; `memory_load`
/// is fixed at 15.0.
fn gpu_snap(gpus: &[(&str, f32)]) -> HistorySample<f32> {
    HistorySample {
        gpus: Some(
            gpus.iter()
                .map(|&(name, load)| GpuSample { name: name.into(), load, memory_load: 15.0 })
                .collect(),
        ),
        ..empty_sample()
    }
}

#[test]
fn gpu_history_records_both_load_and_memory_load() {
    let mut h: History<f32> = History::default();
    let snap = gpu_snap(&[("G", 40.0)]);
    h.record(&snap);
    h.record(&snap);
    let gpu = h.gpu(0).expect("gpu history exists");
    assert_eq!(gpu.load.iter_oldest_first(), vec![40.0, 40.0]);
    assert_eq!(gpu.memory_load.iter_oldest_first(), vec![15.0, 15.0]);
}

#[test]
fn gpu_count_flicker_does_not_wipe_history() {
    let mut h: History<f32> = History::default();
    h.record(&gpu_snap(&[("A", 10.0), ("B", 20.0)]));
    h.record(&gpu_snap(&[("A", 11.0)]));
    h.record(&gpu_snap(&[("A", 12.0), ("B", 22.0)]));
    let a = h.gpu(0).expect("A exists").load.iter_oldest_first();
    let b = h.gpu(1).expect("B exists").load.iter_oldest_first();
    assert_eq!(a, vec![10.0, 11.0, 12.0]);
    assert_eq!(b, vec![20.0, 22.0]);
}

#[test]
fn twin_gpus_with_identical_names_keep_separate_buffers() {
    let mut h: History<f32> = History::default();
    h.record(&gpu_snap(&[("RTX 4090", 30.0), ("RTX 4090", 60.0)]));
    h.record(&gpu_snap(&[("RTX 4090", 31.0), ("RTX 4090", 61.0)]));
    assert_eq!(h.gpu(0).unwrap().load.iter_oldest_first(), vec![30.0, 31.0]);
    assert_eq!(h.gpu(1).unwrap().load.iter_oldest_first(), vec![60.0, 61.0]);
}

#[test]
fn gpu_lookup_is_none_before_first_record_and_out_of_range() {
    let mut h: History<f32> = History::default();
    assert!(h.gpu(0).is_none());
    h.record(&gpu_snap(&[("A", 1.0)]));
    assert!(h.gpu(0).is_some());
    assert!(h.gpu(1).is_none());
}

#[test]
fn samples_or_empty_yields_nothing_for_absent_history() {
    assert_eq!(samples_or_empty::<f32>(None).len(), 0);
    let mut rb = RingBuffer::new(3);
    rb.push(1.0f32);
    rb.push(2.0);
    assert_eq!(samples_or_empty(Some(&rb)), vec![1.0, 2.0]);
}

#[test]
fn samples_or_empty_matches_iter_oldest_first_when_full() {
    let mut rb = RingBuffer::new(3);
    for v in [1.0f32, 2.0, 3.0, 4.0, 5.0] {
        rb.push(v);
    }
    assert_eq!(rb.iter_oldest_first(), samples_or_empty(Some(&rb)));
}

#[test]
fn cpu_and_ram_buffers_appear_on_first_sight() {
    let mut h: History<f32> = History::new();
    assert!(h.cpu.is_none());
    h.record(&HistorySample { cpu: Some(12.5), ram: Some(40.0), ..empty_sample() });
    assert_eq!(h.cpu.as_ref().unwrap().iter_oldest_first(), vec![12.5]);
    assert_eq!(h.ram.as_ref().unwrap().iter_oldest_first(), vec![40.0]);
    for _ in 0..HISTORY_CAPACITY + 5 {
        h.record(&HistorySample { cpu: Some(1.0), ..empty_sample() });
    }
    assert_eq!(h.cpu.as_ref().unwrap().len(), HISTORY_CAPACITY);
    assert_eq!(h.ram.as_ref().unwrap().len(), 1);
}

#[test]
fn a_long_run_of_pushes_leaves_the_last_capacity_values() {
    let mut rb = RingBuffer::new(4);
    for x in 0..10u32 {
        rb.push(x);
    }
    assert_eq!(rb.iter_oldest_first(), vec![6, 7, 8, 9]);
    assert_eq!(rb.len(), 4);
    let mut one = RingBuffer::new(0);
    one.push(1u32);
    one.push(2u32);
    assert_eq!(one.iter_oldest_first(), vec![2]);
}
