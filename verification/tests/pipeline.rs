use hueflow::audio_processor::AudioProcessor;
use hueflow::loading::{build_runtime, LoadError, ModuleDesc, Plugin};
use hueflow::samples::decode_samples;
use hueflow::watcher::ReloadDebouncer;

fn desc(name: &str, slot: usize) -> ModuleDesc {
    ModuleDesc {
        name: name.as_bytes().to_vec(),
        slot,
        has_transform: true,
        time_divisor: None,
        time_dialation_range: None,
        intensity_range: None,
        lum_mod: None,
    }
}

fn names(plugins: &[Plugin]) -> Vec<String> {
    plugins.iter().map(|p| String::from_utf8(p.name.clone()).unwrap()).collect()
}

#[test]
fn build_runtime_sorts_by_filename() {
    let descs = vec![desc("3_waves", 0), desc("1_spiral", 1), desc("2_v2", 2)];
    let plugins = build_runtime(descs).unwrap();
    assert_eq!(names(&plugins), vec!["1_spiral", "2_v2", "3_waves"]);
    assert_eq!(plugins[0].slot, 1);
    assert_eq!(plugins[1].slot, 2);
    assert_eq!(plugins[2].slot, 0);
}

#[test]
fn build_runtime_is_stable_across_reloads() {
    let make = || vec![desc("5_solid", 0), desc("4_audio", 1), desc("1_spiral", 2)];
    let a = build_runtime(make()).unwrap();
    let b = build_runtime(make()).unwrap();
    assert_eq!(names(&a), names(&b));
    let slots_a: Vec<usize> = a.iter().map(|p| p.slot).collect();
    let slots_b: Vec<usize> = b.iter().map(|p| p.slot).collect();
    assert_eq!(slots_a, slots_b);
}

#[test]
fn build_runtime_applies_documented_defaults() {
    let plugins = build_runtime(vec![desc("1_spiral", 0)]).unwrap();
    assert_eq!(plugins[0].time_divisor, 1000000000.0f32.to_bits());
    assert_eq!(plugins[0].time_dialation_range, 100.0f32.to_bits());
    assert_eq!(plugins[0].intensity_range, 0.01f32.to_bits());
    assert_eq!(plugins[0].lum_mod, 100.0f32.to_bits());
}

#[test]
fn build_runtime_keeps_exported_constants() {
    let mut d = desc("2_v2", 0);
    d.intensity_range = Some(10.0f32.to_bits());
    d.lum_mod = Some(100.0f32.to_bits());
    let plugins = build_runtime(vec![d]).unwrap();
    assert_eq!(plugins[0].intensity_range, 10.0f32.to_bits());
    assert_eq!(plugins[0].lum_mod, 100.0f32.to_bits());
}

#[test]
fn build_runtime_missing_transform_is_fatal() {
    let mut bad = desc("2_v2", 1);
    bad.has_transform = false;
    let r = build_runtime(vec![desc("1_spiral", 0), bad]);
    match r {
        Err(LoadError::MissingTransform { name }) => assert_eq!(name, b"2_v2".to_vec()),
        Ok(_) => panic!("load must fail when transform is missing"),
    }
}

#[test]
fn empty_directory_loads_an_empty_runtime() {
    let plugins = build_runtime(Vec::new()).unwrap();
    assert!(plugins.is_empty());
}

#[test]
fn short_input_keeps_window_size() {
    // A buffer shorter than the analysis window still yields a full-size
    // window (zero-padding invariant).
    let mut engine = AudioProcessor::new(8);
    let samples: Vec<u32> = vec![1.0f32.to_bits(), 2.0f32.to_bits(), 3.0f32.to_bits()];
    engine.add_samples(&samples);
    assert_eq!(engine.buffer.len(), 8);
    // Oldest zeros were trimmed from the front, new samples sit at the end.
    assert_eq!(engine.buffer[5], 1.0f32.to_bits());
    assert_eq!(engine.buffer[6], 2.0f32.to_bits());
    assert_eq!(engine.buffer[7], 3.0f32.to_bits());
}

#[test]
fn long_input_is_trimmed_from_front() {
    let mut engine = AudioProcessor::new(4);
    let samples: Vec<u32> = (1..=10).map(|i| (i as f32).to_bits()).collect();
    engine.add_samples(&samples);
    assert_eq!(engine.buffer.len(), 4);
    let want: Vec<u32> = (7..=10).map(|i| (i as f32).to_bits()).collect();
    assert_eq!(engine.buffer, want);
}

#[test]
fn window_size_is_ceiling_of_rate_ratio() {
    assert_eq!(AudioProcessor::window_size(48000, 60), 800);
    assert_eq!(AudioProcessor::window_size(44100, 60), 735);
    assert_eq!(AudioProcessor::window_size(44101, 60), 736);
}

// The decay filter as the display sees it, with the floating-point work
// done here exactly as the shell does it per frame.
fn run_decay(engine: &mut AudioProcessor, raw_db: &[f32], decay: f32) -> Vec<f32> {
    let raw: Vec<u32> = raw_db.iter().map(|m| m.to_bits()).collect();
    let prev: Vec<f32> = engine.decay_state.iter().map(|b| f32::from_bits(*b)).collect();
    let released: Vec<u32> = prev.iter().map(|p| (p * decay).to_bits()).collect();
    let louder: Vec<bool> = raw_db.iter().zip(prev.iter()).map(|(r, p)| r > p).collect();
    let out = engine.select_magnitudes(&raw, &released, &louder);
    out.iter().map(|b| f32::from_bits(*b)).collect()
}

#[test]
fn decay_filter_attacks_instantly_and_releases_geometrically() {
    let mut engine = AudioProcessor::new(2);
    // First frame: raw magnitudes above the zeroed state pass through.
    let out = run_decay(&mut engine, &[6.0, 0.5], 0.5);
    assert_eq!(out, vec![6.0, 0.5]);
    // Second frame: a quieter bin falls back to previous * decay; a louder
    // bin is taken as is.
    let out = run_decay(&mut engine, &[1.0, 2.0], 0.5);
    assert_eq!(out[0], 3.0); // 6.0 * 0.5
    assert_eq!(out[1], 2.0); // attack
    // Third frame: release keeps multiplying.
    let out = run_decay(&mut engine, &[1.0, 0.0], 0.5);
    assert_eq!(out[0], 1.5); // 3.0 * 0.5
    assert_eq!(out[1], 1.0); // 2.0 * 0.5
}

#[test]
fn decay_filter_output_has_window_length() {
    let mut engine = AudioProcessor::new(5);
    let out = run_decay(&mut engine, &[0.0, 1.0, 2.0, 3.0, 4.0], 0.9);
    assert_eq!(out.len(), 5);
    assert_eq!(engine.decay_state.len(), 5);
}

#[test]
fn debouncer_triggers_exactly_once_per_full_burst() {
    // plugin_count * multiplier removal events fire exactly one reload.
    let mut w = ReloadDebouncer::new(3, 4);
    let mut reloads = 0;
    for _ in 0..11 {
        if w.on_remove() {
            reloads += 1;
        }
    }
    assert_eq!(reloads, 0); // one event short: nothing
    assert!(w.on_remove()); // the twelfth completes the burst
    assert_eq!(w.event_count, 0);
    // A second burst behaves the same.
    for _ in 0..11 {
        assert!(!w.on_remove());
    }
    assert!(w.on_remove());
}

#[test]
fn debouncer_with_zero_plugins_never_fires() {
    let mut w = ReloadDebouncer::new(0, 4);
    for _ in 0..100 {
        assert!(!w.on_remove());
    }
}

#[test]
fn queued_samples_reach_the_spectrum_window() {
    let (mut prod, mut cons) = hueflow::queue::new_sample_queue(4096);
    assert!(hueflow::queue::push_sample(&mut prod, 0.25f32.to_bits()));
    assert!(hueflow::queue::push_sample(&mut prod, (-0.5f32).to_bits()));
    let mut engine = AudioProcessor::new(8);
    let (chunk, count) = hueflow::queue::drain_into(&mut engine, &mut cons);
    // The drained chunk starts with the captured samples, zero-padded.
    assert_eq!(chunk.len(), hueflow::queue::DRAIN_CHUNK);
    assert_eq!(count, 2);
    assert_eq!(chunk[0], 0.25f32.to_bits());
    assert_eq!(chunk[1], (-0.5f32).to_bits());
    assert!(chunk[2..].iter().all(|s| *s == 0));
    // The window keeps its fixed size and ends with the chunk's tail.
    assert_eq!(engine.buffer.len(), 8);
    assert_eq!(engine.buffer, vec![0u32; 8]);
}

#[test]
fn full_queue_rejects_pushes() {
    let (mut prod, mut cons) = hueflow::queue::new_sample_queue(2);
    assert!(hueflow::queue::push_sample(&mut prod, 1));
    assert!(hueflow::queue::push_sample(&mut prod, 2));
    assert!(!hueflow::queue::push_sample(&mut prod, 3));
    let mut buf = vec![0u32; 4];
    let n = hueflow::queue::pop_samples(&mut cons, &mut buf);
    assert_eq!(n, 2);
    assert_eq!(&buf[..2], &[1, 2]);
}

#[test]
fn decode_samples_reads_little_endian_and_zero_fills() {
    let mut buf: Vec<u8> = Vec::new();
    buf.extend_from_slice(&123456789i32.to_le_bytes());
    buf.extend_from_slice(&(-98765i32).to_le_bytes());
    buf.extend_from_slice(&[0xAA, 0xBB]); // incomplete trailing group
    let out = decode_samples(&buf, 4);
    assert_eq!(out, vec![123456789, -98765, 0, 0]);
}

#[test]
fn decode_samples_truncates_at_count() {
    let mut buf: Vec<u8> = Vec::new();
    for i in 0..10i32 {
        buf.extend_from_slice(&i.to_le_bytes());
    }
    let out = decode_samples(&buf, 3);
    assert_eq!(out, vec![0, 1, 2]);
}
