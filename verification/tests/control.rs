use hueflow::loading::{build_runtime, ModuleDesc};
use hueflow::midi::{
    classify_msg, controller_profile, dispatch_msg, handle_msg, pick_input_device,
    ControllerProfile, DeviceConfig, MidiDeviceInfo, MidiRoute, ParamKind, DECAY_FACTOR_RANGE,
    DECAY_PARAM_RANGE, MODULO_PARAM_RANGE,
};
use hueflow::mutstate::{KeyCmd, MutState, PresetWrites};
use hueflow::save_state::SaveState;
use hueflow::{parse_args, Args};

fn test_config() -> DeviceConfig {
    DeviceConfig {
        backwards: 10,
        intensity: 11,
        time_dialation: 12,
        decay_factor: 13,
        lum_mod: 14,
        reset: 15,
        is_fft: 16,
        modulo_param: 17,
        decay_param: 18,
        is_listening_midi: 19,
        is_saving_preset: 20,
        fns: vec![30, 31, 32, 33, 34],
        name: String::from("XONE:K2 "),
    }
}

fn state_with_plugins(n: usize) -> MutState {
    let descs: Vec<ModuleDesc> = (0..n)
        .map(|i| ModuleDesc {
            name: format!("{}_mod", i).into_bytes(),
            slot: i,
            has_transform: true,
            time_divisor: None,
            time_dialation_range: None,
            intensity_range: Some(10.0f32.to_bits()),
            lum_mod: None,
        })
        .collect();
    MutState {
        is_backwards: false,
        is_reset: false,
        is_saving_preset: false,
        is_listening_midi: false,
        is_listening_keys: false,
        plugins: build_runtime(descs).unwrap(),
        controller_name: String::from("XONE:K2 "),
        save_state: SaveState::default(),
        preset_map: Vec::new(),
        well_known_ccs: vec![100, 101, 102],
    }
}

/// The rescale the shell applies, exactly as the renderer computes it.
fn lerp_float(input: u8, minout: f32, maxout: f32, minin: u8, maxin: u8) -> f32 {
    (maxout - minout) * ((input - minin) as f32) / ((maxin - minin) as f32) + minout
}

#[test]
fn select_in_range_sets_active_index() {
    // MIDI value 127 on plugin-select channel 2 with 5 plugins loaded.
    let cfg = test_config();
    let mut ms = state_with_plugins(5);
    let route = handle_msg(&cfg, &mut ms, 32, 127, 0);
    assert_eq!(route, MidiRoute::SelectPlugin { idx: 2 });
    assert_eq!(ms.save_state.active_func, 2);
}

#[test]
fn select_out_of_range_is_rejected() {
    // The same message with only 2 plugins loaded leaves the index alone.
    let cfg = test_config();
    let mut ms = state_with_plugins(2);
    ms.save_state.active_func = 1;
    let route = handle_msg(&cfg, &mut ms, 32, 127, 0);
    assert_eq!(route, MidiRoute::SelectPlugin { idx: 2 });
    assert_eq!(ms.save_state.active_func, 1);
}

#[test]
fn continuous_value_is_rescaled_into_plugin_range() {
    // Value 64 out of range [0, 10.0] lands near 5.04.
    let cfg = test_config();
    let mut ms = state_with_plugins(1);
    let route = classify_msg(&cfg, &ms, cfg.intensity, 64);
    let range = match route {
        MidiRoute::Continuous { param: ParamKind::Intensity, value: 64, range } => range,
        other => panic!("wrong route {:?}", other),
    };
    assert_eq!(range, 10.0f32.to_bits());
    let lerped = lerp_float(64, 0.0, f32::from_bits(range), 0, 127);
    assert!((lerped - 5.04).abs() < 0.01);
    handle_msg(&cfg, &mut ms, cfg.intensity, 64, lerped.to_bits());
    assert_eq!(ms.save_state.current_intensity, lerped.to_bits());
    assert_eq!(f32::from_bits(ms.save_state.current_intensity), 10.0 * 64.0 / 127.0);
}

#[test]
fn stale_active_index_rejects_plugin_ranged_messages() {
    // After a reload shrinks the runtime list, a message whose rescale
    // range would be read from the active plugin is dropped instead of
    // crashing; fixed-range parameters and the momentary switches still
    // work.
    let cfg = test_config();
    let mut ms = state_with_plugins(2);
    ms.save_state.active_func = 1;
    ms.plugins.truncate(1);
    let route = handle_msg(&cfg, &mut ms, cfg.intensity, 64, 9.0f32.to_bits());
    assert_eq!(route, MidiRoute::Ignore);
    assert_eq!(ms.save_state.current_intensity, 0);
    let route = handle_msg(&cfg, &mut ms, cfg.decay_factor, 64, 0.5f32.to_bits());
    assert!(matches!(route, MidiRoute::Continuous { param: ParamKind::DecayFactor, .. }));
    assert_eq!(ms.save_state.decay_factor, 0.5f32.to_bits());
    // Momentary recompute happens on every message, the rejected one too.
    ms.plugins.truncate(0);
    handle_msg(&cfg, &mut ms, cfg.reset, 90, 0);
    assert!(ms.is_reset);
    let route = handle_msg(&cfg, &mut ms, cfg.lum_mod, 40, 1.0f32.to_bits());
    assert_eq!(route, MidiRoute::Ignore);
    assert!(!ms.is_reset);
}

#[test]
fn unimplemented_profiles_drop_messages() {
    let cfg = test_config();
    let mut ms = state_with_plugins(1);
    let before = ms.save_state;
    for profile in [
        ControllerProfile::AbletonBridge,
        ControllerProfile::XdjRx2,
        ControllerProfile::Unknown,
    ] {
        let r = dispatch_msg(profile, &cfg, &mut ms, cfg.intensity, 64, 5.0f32.to_bits());
        assert!(r.is_none());
        assert_eq!(ms.save_state, before);
    }
    let r = dispatch_msg(ControllerProfile::XoneK2, &cfg, &mut ms, cfg.backwards, 127, 0);
    assert_eq!(r, Some(MidiRoute::ToggleBackwards));
    assert!(ms.is_backwards);
}

#[test]
fn zero_on_continuous_channel_is_ignored() {
    let cfg = test_config();
    let mut ms = state_with_plugins(1);
    ms.save_state.current_intensity = 7.0f32.to_bits();
    let route = handle_msg(&cfg, &mut ms, cfg.intensity, 0, 0);
    assert_eq!(route, MidiRoute::Ignore);
    assert_eq!(ms.save_state.current_intensity, 7.0f32.to_bits());
}

#[test]
fn fixed_ranges_match_their_constants() {
    assert_eq!(DECAY_FACTOR_RANGE, 1.0f32.to_bits());
    assert_eq!(MODULO_PARAM_RANGE, 368.0f32.to_bits());
    assert_eq!(DECAY_PARAM_RANGE, 0.9999f32.to_bits());
}

#[test]
fn latched_booleans_flip_on_full_value_only() {
    let cfg = test_config();
    let mut ms = state_with_plugins(1);
    assert_eq!(handle_msg(&cfg, &mut ms, cfg.backwards, 127, 0), MidiRoute::ToggleBackwards);
    assert!(ms.is_backwards);
    assert_eq!(handle_msg(&cfg, &mut ms, cfg.backwards, 64, 0), MidiRoute::Ignore);
    assert!(ms.is_backwards);
    assert_eq!(handle_msg(&cfg, &mut ms, cfg.is_fft, 127, 0), MidiRoute::ToggleFft);
    assert!(ms.save_state.is_fft);
    assert_eq!(handle_msg(&cfg, &mut ms, cfg.is_listening_midi, 127, 0), MidiRoute::ToggleListening);
    assert!(ms.is_listening_midi);
}

#[test]
fn momentary_reset_follows_value() {
    let cfg = test_config();
    let mut ms = state_with_plugins(1);
    handle_msg(&cfg, &mut ms, cfg.reset, 90, 0);
    assert!(ms.is_reset);
    handle_msg(&cfg, &mut ms, cfg.reset, 0, 0);
    assert!(!ms.is_reset);
    handle_msg(&cfg, &mut ms, cfg.is_saving_preset, 127, 0);
    assert!(ms.is_saving_preset);
    handle_msg(&cfg, &mut ms, cfg.is_saving_preset, 0, 0);
    assert!(!ms.is_saving_preset);
}

#[test]
fn unmapped_channel_binds_save_slot_in_listening_mode() {
    let cfg = test_config();
    let mut ms = state_with_plugins(1);
    ms.is_listening_midi = true;
    let route = handle_msg(&cfg, &mut ms, 77, 127, 0);
    assert_eq!(route, MidiRoute::BindCc { channel: 77 });
    assert_eq!(ms.save_state.cc, 77);
}

#[test]
fn well_known_channel_selects_by_position() {
    let cfg = test_config();
    let mut ms = state_with_plugins(3);
    let route = handle_msg(&cfg, &mut ms, 101, 127, 0);
    assert_eq!(route, MidiRoute::SelectPlugin { idx: 1 });
    assert_eq!(ms.save_state.active_func, 1);
}

#[test]
fn preset_round_trip_is_bit_exact() {
    // Save under a bound control-change number, then recall it: every
    // continuous parameter and the active index come back bit for bit.
    let mut ms = state_with_plugins(3);
    ms.save_state = SaveState {
        cc: 42,
        active_func: 2,
        is_fft: true,
        current_intensity: 5.0393705f32.to_bits(),
        time_dialation: 0.1f32.to_bits(),
        decay_factor: 0.30000001f32.to_bits(),
        lum_mod: (-17.25f32).to_bits(),
        modulo_param: 368.0f32.to_bits(),
        decay_param: 0.9999f32.to_bits(),
    };
    let saved = ms.save_state;
    ms.is_saving_preset = true;
    ms.is_listening_midi = true;
    let writes: PresetWrites = ms.save_preset();
    assert!(!ms.is_listening_midi);
    let (name, cc, snap) = writes.controller_preset.expect("bound preset must be written out");
    assert_eq!(name, "XONE:K2 ");
    assert_eq!(cc, 42);
    assert_eq!(snap, saved);
    assert_eq!(ms.find_preset(42), Some(saved));
    // An unmapped full-value message on the bound channel recalls it.
    ms.save_state = SaveState::default();
    let cfg = test_config();
    let route = handle_msg(&cfg, &mut ms, 42, 127, 0);
    assert_eq!(route, MidiRoute::RecallPreset { state: saved });
    assert_eq!(ms.save_state, saved);
}

#[test]
fn saving_twice_under_one_slot_recalls_the_newest() {
    let mut ms = state_with_plugins(1);
    ms.save_state.cc = 7;
    ms.save_state.current_intensity = 1.0f32.to_bits();
    ms.is_saving_preset = true;
    ms.is_listening_midi = true;
    ms.save_preset();
    let newer = SaveState { current_intensity: 2.0f32.to_bits(), ..ms.save_state };
    ms.save_state = newer;
    ms.is_listening_midi = true;
    ms.save_preset();
    assert_eq!(ms.preset_map.len(), 1);
    assert_eq!(ms.preset_map[0].1.len(), 2);
    assert_eq!(ms.find_preset(7), Some(newer));
}

#[test]
fn save_without_pending_request_does_nothing() {
    let mut ms = state_with_plugins(1);
    ms.is_listening_midi = true;
    let writes = ms.save_preset();
    assert!(writes.controller_preset.is_none());
    assert!(writes.default_preset.is_none());
    assert!(ms.is_listening_midi);
    assert!(ms.preset_map.is_empty());
}

#[test]
fn keyboard_save_writes_default_preset() {
    let mut ms = state_with_plugins(1);
    ms.save_state.current_intensity = 1.5f32.to_bits();
    ms.is_saving_preset = true;
    ms.is_listening_keys = true;
    let writes = ms.save_preset();
    assert_eq!(writes.default_preset, Some(ms.save_state));
    assert!(writes.controller_preset.is_none());
    assert!(!ms.is_listening_keys);
}

#[test]
fn unbound_preset_is_stored_but_not_persisted() {
    let mut ms = state_with_plugins(1);
    ms.save_state.cc = 0;
    ms.is_saving_preset = true;
    ms.is_listening_midi = true;
    let writes = ms.save_preset();
    assert!(writes.controller_preset.is_none());
    assert_eq!(ms.preset_map.len(), 1);
}

#[test]
fn set_active_func_validates_index() {
    let mut ms = state_with_plugins(2);
    ms.set_active_func(1);
    assert_eq!(ms.save_state.active_func, 1);
    ms.set_active_func(2);
    assert_eq!(ms.save_state.active_func, 1);
}

#[test]
fn key_cycling_wraps_both_ways() {
    let mut ms = state_with_plugins(3);
    ms.handle_key(KeyCmd::NextFunc);
    assert_eq!(ms.save_state.active_func, 1);
    ms.handle_key(KeyCmd::NextFunc);
    assert_eq!(ms.save_state.active_func, 2);
    ms.handle_key(KeyCmd::NextFunc);
    assert_eq!(ms.save_state.active_func, 0);
    ms.handle_key(KeyCmd::PrevFunc);
    assert_eq!(ms.save_state.active_func, 2);
    ms.handle_key(KeyCmd::SelectFunc { idx: 9 });
    assert_eq!(ms.save_state.active_func, 2);
    ms.handle_key(KeyCmd::ToggleFft);
    assert!(ms.save_state.is_fft);
}

#[test]
fn active_plugin_guards_stale_indices() {
    let mut ms = state_with_plugins(2);
    ms.save_state.active_func = 1;
    assert_eq!(ms.active_plugin().unwrap().slot, ms.plugins[1].slot);
    // A reload that shrinks the list invalidates the index: no call handle
    // is handed out until the index is selected again.
    ms.plugins.truncate(1);
    assert!(ms.active_plugin().is_none());
}

#[test]
fn device_config_lookup_by_field_name() {
    let cfg = test_config();
    assert_eq!(cfg.get(String::from("intensity")), Some(11));
    assert_eq!(cfg.get(String::from("decay_param")), Some(18));
    assert_eq!(cfg.get(String::from("is_saving_preset")), Some(20));
    // The two non-channel fields and unknown keys have no channel role.
    assert_eq!(cfg.get(String::from("name")), None);
    assert_eq!(cfg.get(String::from("fns")), None);
    assert_eq!(cfg.get(String::from("bogus")), None);
    let keys = cfg.keys();
    assert_eq!(keys.len(), 13);
    assert_eq!(keys[0], "backwards");
    assert_eq!(keys[4], "intensity");
    assert_eq!(keys[12], "time_dialation");
}

#[test]
fn controller_names_map_to_profiles() {
    assert_eq!(controller_profile(&String::from("XONE:K2 ")), ControllerProfile::XoneK2);
    assert_eq!(controller_profile(&String::from("XONE:K2")), ControllerProfile::XoneK2);
    assert_eq!(
        controller_profile(&String::from("WINE ALSA Output #1")),
        ControllerProfile::AbletonBridge
    );
    assert_eq!(
        controller_profile(&String::from("Pioneer DJ XDJ-RX2")),
        ControllerProfile::XdjRx2
    );
    assert_eq!(controller_profile(&String::from("nanoKONTROL2")), ControllerProfile::Unknown);
}

#[test]
fn first_configured_input_device_is_picked() {
    let devices = vec![
        MidiDeviceInfo { name: String::from("XONE:K2 "), is_input: false },
        MidiDeviceInfo { name: String::from("Through Port-0"), is_input: true },
        MidiDeviceInfo { name: String::from("XONE:K2 "), is_input: true },
    ];
    let names = vec![String::from("XONE:K2 "), String::from("Pioneer DJ XDJ-RX2")];
    assert_eq!(pick_input_device(&devices, &names), Some(2));
    assert_eq!(pick_input_device(&devices, &vec![String::from("other")]), None);
}

#[test]
fn args_words_accumulate_and_list_stops() {
    let (args, list) = parse_args(&vec![String::from("hmr"), String::from("logupdate")]);
    assert_eq!(args, Args { hmr_enable: true, log_update: true });
    assert!(!list);
    let (args, list) = parse_args(&vec![String::from("bogus"), String::from("list"), String::from("hmr")]);
    assert_eq!(args, Args { hmr_enable: false, log_update: false });
    assert!(list);
    let (args, list) = parse_args(&Vec::new());
    assert_eq!(args, Args::default());
    assert!(!list);
}
