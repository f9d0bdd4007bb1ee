use vstd::prelude::*;

verus! {

use vstd::string::StringExecFns;
use crate::save_state::SaveState;
use crate::mutstate::MutState;
use crate::mutstate::pm_model;
use crate::mutstate::spec_find_preset;

/// Bit pattern of the single-precision value one: the rescale range of the
/// decay-factor control.
pub const DECAY_FACTOR_RANGE: u32 = 0x3F800000;

/// Bit pattern of the single-precision value 368: the rescale range of the
/// modulo-parameter control.
pub const MODULO_PARAM_RANGE: u32 = 0x43B80000;

/// Bit pattern of the largest single-precision decay below one that the
/// decay-parameter control may reach (9999/10000, rounded to single
/// precision): keeps the spectrum release strictly geometric.
pub const DECAY_PARAM_RANGE: u32 = 0x3F7FF972;

/// Per-controller-name profile: which control-change channel plays which
/// semantic role, plus the channels that select plugins by position
/// (`fns`).  Loaded once from configuration, immutable thereafter.
#[derive(Clone, Debug)]
pub struct DeviceConfig {
    pub backwards: u8,
    pub intensity: u8,
    pub time_dialation: u8,
    pub decay_factor: u8,
    pub lum_mod: u8,
    pub reset: u8,
    pub is_fft: u8,
    pub modulo_param: u8,
    pub decay_param: u8,
    pub is_listening_midi: u8,
    pub is_saving_preset: u8,
    pub fns: Vec<u8>,
    pub name: String,
}

/// The channel-role field a key names, `None` for the two non-channel
/// fields (`fns`, `name`) and for unknown keys.
pub open spec fn spec_get(cfg: DeviceConfig, key: Seq<char>) -> Option<u8> {
    if key == "backwards"@ {
        Some(cfg.backwards)
    } else if key == "intensity"@ {
        Some(cfg.intensity)
    } else if key == "time_dialation"@ {
        Some(cfg.time_dialation)
    } else if key == "decay_factor"@ {
        Some(cfg.decay_factor)
    } else if key == "lum_mod"@ {
        Some(cfg.lum_mod)
    } else if key == "reset"@ {
        Some(cfg.reset)
    } else if key == "is_fft"@ {
        Some(cfg.is_fft)
    } else if key == "modulo_param"@ {
        Some(cfg.modulo_param)
    } else if key == "decay_param"@ {
        Some(cfg.decay_param)
    } else if key == "is_listening_midi"@ {
        Some(cfg.is_listening_midi)
    } else if key == "is_saving_preset"@ {
        Some(cfg.is_saving_preset)
    } else {
        None
    }
}

impl Default for DeviceConfig {
    fn default() -> (r: Self)
        ensures
            r.backwards == 0 && r.intensity == 0 && r.time_dialation == 0
                && r.decay_factor == 0 && r.lum_mod == 0 && r.reset == 0
                && r.is_fft == 0 && r.modulo_param == 0 && r.decay_param == 0
                && r.is_listening_midi == 0 && r.is_saving_preset == 0,
            r.fns@ == Seq::<u8>::empty(),
            r.name@ == Seq::<char>::empty(),
    {
        DeviceConfig {
            backwards: 0,
            intensity: 0,
            time_dialation: 0,
            decay_factor: 0,
            lum_mod: 0,
            reset: 0,
            is_fft: 0,
            modulo_param: 0,
            decay_param: 0,
            is_listening_midi: 0,
            is_saving_preset: 0,
            fns: Vec::new(),
            name: String::new(),
        }
    }
}

impl DeviceConfig {
    /// Looks a channel-role field up by its name: `None` for the two
    /// non-channel fields and for unknown keys.
    pub fn get(&self, key: String) -> (r: Option<u8>)
        ensures
            r == spec_get(*self, key@),
    {
        if key == String::from_str("backwards") {
            Some(self.backwards)
        } else if key == String::from_str("intensity") {
            Some(self.intensity)
        } else if key == String::from_str("time_dialation") {
            Some(self.time_dialation)
        } else if key == String::from_str("decay_factor") {
            Some(self.decay_factor)
        } else if key == String::from_str("lum_mod") {
            Some(self.lum_mod)
        } else if key == String::from_str("reset") {
            Some(self.reset)
        } else if key == String::from_str("is_fft") {
            Some(self.is_fft)
        } else if key == String::from_str("modulo_param") {
            Some(self.modulo_param)
        } else if key == String::from_str("decay_param") {
            Some(self.decay_param)
        } else if key == String::from_str("is_listening_midi") {
            Some(self.is_listening_midi)
        } else if key == String::from_str("is_saving_preset") {
            Some(self.is_saving_preset)
        } else {
            None
        }
    }

    /// Every field name of the profile, in ascending name order.
    pub fn keys(&self) -> (r: Vec<String>)
        ensures
            r@.len() == 13,
            r@[0]@ == "backwards"@,
            r@[1]@ == "decay_factor"@,
            r@[2]@ == "decay_param"@,
            r@[3]@ == "fns"@,
            r@[4]@ == "intensity"@,
            r@[5]@ == "is_fft"@,
            r@[6]@ == "is_listening_midi"@,
            r@[7]@ == "is_saving_preset"@,
            r@[8]@ == "lum_mod"@,
            r@[9]@ == "modulo_param"@,
            r@[10]@ == "name"@,
            r@[11]@ == "reset"@,
            r@[12]@ == "time_dialation"@,
    {
        let mut r: Vec<String> = Vec::new();
        r.push(String::from_str("backwards"));
        r.push(String::from_str("decay_factor"));
        r.push(String::from_str("decay_param"));
        r.push(String::from_str("fns"));
        r.push(String::from_str("intensity"));
        r.push(String::from_str("is_fft"));
        r.push(String::from_str("is_listening_midi"));
        r.push(String::from_str("is_saving_preset"));
        r.push(String::from_str("lum_mod"));
        r.push(String::from_str("modulo_param"));
        r.push(String::from_str("name"));
        r.push(String::from_str("reset"));
        r.push(String::from_str("time_dialation"));
        r
    }
}

/// The known controller identities.
#[derive(Clone, Copy, PartialEq, Eq, Structural, Debug)]
pub enum ControllerProfile {
    XoneK2,
    AbletonBridge,
    XdjRx2,
    Unknown,
}

/// Which handler a controller name selects.  Unknown controllers are
/// ignored rather than fatal: their messages are logged and dropped.
pub open spec fn spec_profile(n: Seq<char>) -> ControllerProfile {
    if n == "XONE:K2 "@ || n == "XONE:K2"@ {
        ControllerProfile::XoneK2
    } else if n == "WINE ALSA Output #1"@ {
        ControllerProfile::AbletonBridge
    } else if n == "Pioneer DJ XDJ-RX2"@ {
        ControllerProfile::XdjRx2
    } else {
        ControllerProfile::Unknown
    }
}

/// Resolves a controller name to its profile.
pub fn controller_profile(name: &String) -> (r: ControllerProfile)
    ensures
        r == spec_profile(name@),
{
    if *name == String::from_str("XONE:K2 ") || *name == String::from_str("XONE:K2") {
        ControllerProfile::XoneK2
    } else if *name == String::from_str("WINE ALSA Output #1") {
        ControllerProfile::AbletonBridge
    } else if *name == String::from_str("Pioneer DJ XDJ-RX2") {
        ControllerProfile::XdjRx2
    } else {
        ControllerProfile::Unknown
    }
}

/// One device as the device picker sees it.
pub struct MidiDeviceInfo {
    pub name: String,
    pub is_input: bool,
}

/// Whether some configured controller name reads as `nm`.
pub open spec fn has_name(names: Seq<String>, nm: Seq<char>) -> bool {
    exists|j: int| 0 <= j < names.len() && #[trigger] names[j]@ == nm
}

/// Whether a device is an input device with a configured profile.
pub open spec fn device_usable(d: MidiDeviceInfo, names: Seq<String>) -> bool {
    d.is_input && has_name(names, d.name@)
}

/// Picks the first input device whose name has a configured profile;
/// `None` (keyboard-only mode) when no device qualifies.
pub fn pick_input_device(devices: &Vec<MidiDeviceInfo>, names: &Vec<String>) -> (r: Option<usize>)
    ensures
        match r {
            Some(i) => i < devices@.len() && device_usable(devices@[i as int], names@)
                && forall|k: int| 0 <= k < i ==> !device_usable(#[trigger] devices@[k], names@),
            None => forall|k: int| 0 <= k < devices@.len()
                ==> !device_usable(#[trigger] devices@[k], names@),
        },
{
    let mut i: usize = 0;
    while i < devices.len()
        invariant
            0 <= i <= devices@.len(),
            forall|k: int| 0 <= k < i ==> !device_usable(#[trigger] devices@[k], names@),
        decreases devices@.len() - i,
    {
        if devices[i].is_input {
            let mut j: usize = 0;
            let mut hit = false;
            while j < names.len() && !hit
                invariant
                    0 <= j <= names@.len(),
                    i < devices@.len(),
                    !hit ==> forall|k: int| 0 <= k < j
                        ==> (#[trigger] names@[k]@) != devices@[i as int].name@,
                    hit ==> has_name(names@, devices@[i as int].name@),
                decreases names@.len() - j + (if hit { 0int } else { 1int }),
            {
                if names[j] == devices[i].name {
                    hit = true;
                } else {
                    j = j + 1;
                }
            }
            if hit {
                return Some(i);
            }
            proof {
                assert(!has_name(names@, devices@[i as int].name@));
            }
        }
        i = i + 1;
    }
    None
}

/// The continuous parameters a control-change can drive.
#[derive(Clone, Copy, PartialEq, Eq, Structural, Debug)]
pub enum ParamKind {
    Intensity,
    DecayFactor,
    TimeDialation,
    LumMod,
    ModuloParam,
    DecayParam,
}

/// What one control-change message means, resolved against the profile
/// and the current state.
#[derive(Clone, Copy, PartialEq, Eq, Structural, Debug)]
pub enum MidiRoute {
    /// Flip the reverse-time flag.
    ToggleBackwards,
    /// Flip the FFT-enable flag.
    ToggleFft,
    /// Flip the MIDI listening mode.
    ToggleListening,
    /// The save-preset channel at full or zero value: logged only; the
    /// momentary update carries the actual effect.
    SaveSwitch,
    /// Rescale `value` into `[0, range]` (both ends as single-precision
    /// bit patterns) and store it in the parameter.
    Continuous { param: ParamKind, value: u8, range: u32 },
    /// Select the plugin at this position, if that many are loaded.
    SelectPlugin { idx: usize },
    /// Bind this channel as the save slot of the current preset.
    BindCc { channel: u8 },
    /// Restore a previously saved snapshot.
    RecallPreset { state: SaveState },
    /// Nothing to do (unknown channel, or zero on a continuous channel).
    Ignore,
}

/// First position of a value in a channel list, or -1.
pub open spec fn first_pos(s: Seq<u8>, x: u8) -> int
    decreases s.len(),
{
    if s.len() == 0 {
        -1
    } else if s[0] == x {
        0
    } else {
        let r = first_pos(s.drop_first(), x);
        if r < 0 {
            -1
        } else {
            r + 1
        }
    }
}

/// Helper: a scan that found nothing before `i` may forget the prefix.
proof fn lemma_first_pos_skip(s: Seq<u8>, x: u8, i: int)
    requires
        0 <= i <= s.len(),
        forall|j: int| 0 <= j < i ==> s[j] != x,
    ensures
        first_pos(s, x) == (if first_pos(s.skip(i), x) < 0 {
            -1int
        } else {
            first_pos(s.skip(i), x) + i
        }),
    decreases i,
{
    if i > 0 {
        lemma_first_pos_skip(s.drop_first(), x, i - 1);
        assert(s.drop_first().skip(i - 1) =~= s.skip(i));
    } else {
        assert(s.skip(0) =~= s);
    }
}

/// First position of a channel in a list, as code.
pub fn find_pos(s: &Vec<u8>, x: u8) -> (r: Option<usize>)
    ensures
        r matches Some(i) ==> first_pos(s@, x) == i,
        r is None ==> first_pos(s@, x) == -1,
{
    let mut i: usize = 0;
    while i < s.len()
        invariant
            0 <= i <= s@.len(),
            forall|j: int| 0 <= j < i ==> s@[j] != x,
        decreases s@.len() - i,
    {
        if s[i] == x {
            proof {
                lemma_first_pos_skip(s@, x, i as int);
                assert(s@.skip(i as int)[0] == s@[i as int]);
            }
            return Some(i);
        }
        i = i + 1;
    }
    proof {
        lemma_first_pos_skip(s@, x, i as int);
        assert(s@.skip(i as int) =~= Seq::<u8>::empty());
    }
    None
}

/// Whether a channel drives a continuous parameter under this profile.
pub open spec fn is_continuous(cfg: DeviceConfig, channel: u8) -> bool {
    ||| channel == cfg.intensity
    ||| channel == cfg.decay_factor
    ||| channel == cfg.time_dialation
    ||| channel == cfg.lum_mod
    ||| channel == cfg.modulo_param
    ||| channel == cfg.decay_param
}

/// The continuous route a channel resolves to, in profile priority order.
/// Ranges that depend on the active plugin's exported constants are read
/// from the runtime list; when the active index is stale (a reload may
/// have shrunk the list), such a message is rejected — re-validated by the
/// consumer, never a crash — and the previous parameter value retained.
pub open spec fn spec_continuous_route(
    cfg: DeviceConfig,
    ms: MutState,
    channel: u8,
    value: u8,
) -> MidiRoute {
    let valid = ms.save_state.active_func < ms.plugins@.len();
    let active = ms.plugins@[ms.save_state.active_func as int];
    if channel == cfg.intensity {
        if valid {
            MidiRoute::Continuous {
                param: ParamKind::Intensity,
                value,
                range: active.intensity_range,
            }
        } else {
            MidiRoute::Ignore
        }
    } else if channel == cfg.decay_factor {
        MidiRoute::Continuous { param: ParamKind::DecayFactor, value, range: DECAY_FACTOR_RANGE }
    } else if channel == cfg.time_dialation {
        if valid {
            MidiRoute::Continuous {
                param: ParamKind::TimeDialation,
                value,
                range: active.time_dialation_range,
            }
        } else {
            MidiRoute::Ignore
        }
    } else if channel == cfg.lum_mod {
        if valid {
            MidiRoute::Continuous { param: ParamKind::LumMod, value, range: active.lum_mod }
        } else {
            MidiRoute::Ignore
        }
    } else if channel == cfg.modulo_param {
        MidiRoute::Continuous { param: ParamKind::ModuloParam, value, range: MODULO_PARAM_RANGE }
    } else {
        MidiRoute::Continuous { param: ParamKind::DecayParam, value, range: DECAY_PARAM_RANGE }
    }
}

/// What one control-change message means: the latched booleans on a full
/// value, the continuous parameters on any non-zero value, plugin
/// selection by role position or well-known channel on a full value, and —
/// for an unmapped channel at full value — either binding a save slot
/// (listening mode) or recalling the preset saved under that channel.
pub open spec fn spec_route(cfg: DeviceConfig, ms: MutState, channel: u8, value: u8) -> MidiRoute {
    if channel == cfg.backwards && value == 127 {
        MidiRoute::ToggleBackwards
    } else if channel == cfg.is_fft && value == 127 {
        MidiRoute::ToggleFft
    } else if channel == cfg.is_listening_midi && value == 127 {
        MidiRoute::ToggleListening
    } else if channel == cfg.is_saving_preset && (value == 127 || value == 0) {
        MidiRoute::SaveSwitch
    } else if is_continuous(cfg, channel) {
        if value == 0 {
            MidiRoute::Ignore
        } else {
            spec_continuous_route(cfg, ms, channel, value)
        }
    } else if value == 127 {
        if first_pos(cfg.fns@, channel) >= 0 {
            MidiRoute::SelectPlugin { idx: first_pos(cfg.fns@, channel) as usize }
        } else if first_pos(ms.well_known_ccs@, channel) >= 0 {
            MidiRoute::SelectPlugin { idx: first_pos(ms.well_known_ccs@, channel) as usize }
        } else if ms.is_listening_midi {
            MidiRoute::BindCc { channel }
        } else {
            match spec_find_preset(pm_model(ms.preset_map@), ms.controller_name@, channel) {
                Some(st) => MidiRoute::RecallPreset { state: st },
                None => MidiRoute::Ignore,
            }
        }
    } else {
        MidiRoute::Ignore
    }
}

/// Routes one control-change message against the profile and the current
/// state, without applying it.  Total over messages: a bad message is
/// routed to `Ignore`, never a failure.
pub fn classify_msg(cfg: &DeviceConfig, ms: &MutState, channel: u8, value: u8) -> (r: MidiRoute)
    ensures
        r == spec_route(*cfg, *ms, channel, value),
{
    if channel == cfg.backwards && value == 127 {
        MidiRoute::ToggleBackwards
    } else if channel == cfg.is_fft && value == 127 {
        MidiRoute::ToggleFft
    } else if channel == cfg.is_listening_midi && value == 127 {
        MidiRoute::ToggleListening
    } else if channel == cfg.is_saving_preset && (value == 127 || value == 0) {
        MidiRoute::SaveSwitch
    } else if channel == cfg.intensity || channel == cfg.decay_factor
        || channel == cfg.time_dialation || channel == cfg.lum_mod
        || channel == cfg.modulo_param || channel == cfg.decay_param {
        let valid = ms.save_state.active_func < ms.plugins.len();
        if value == 0 {
            MidiRoute::Ignore
        } else if channel == cfg.intensity {
            if valid {
                let range = active_intensity_range(ms);
                MidiRoute::Continuous { param: ParamKind::Intensity, value, range }
            } else {
                MidiRoute::Ignore
            }
        } else if channel == cfg.decay_factor {
            MidiRoute::Continuous { param: ParamKind::DecayFactor, value, range: DECAY_FACTOR_RANGE }
        } else if channel == cfg.time_dialation {
            if valid {
                let range = active_time_dialation_range(ms);
                MidiRoute::Continuous { param: ParamKind::TimeDialation, value, range }
            } else {
                MidiRoute::Ignore
            }
        } else if channel == cfg.lum_mod {
            if valid {
                let range = active_lum_mod(ms);
                MidiRoute::Continuous { param: ParamKind::LumMod, value, range }
            } else {
                MidiRoute::Ignore
            }
        } else if channel == cfg.modulo_param {
            MidiRoute::Continuous { param: ParamKind::ModuloParam, value, range: MODULO_PARAM_RANGE }
        } else {
            MidiRoute::Continuous { param: ParamKind::DecayParam, value, range: DECAY_PARAM_RANGE }
        }
    } else if value == 127 {
        if let Some(i) = find_pos(&cfg.fns, channel) {
            MidiRoute::SelectPlugin { idx: i }
        } else if let Some(i) = find_pos(&ms.well_known_ccs, channel) {
            MidiRoute::SelectPlugin { idx: i }
        } else if ms.is_listening_midi {
            MidiRoute::BindCc { channel }
        } else {
            match ms.find_preset(channel) {
                Some(st) => MidiRoute::RecallPreset { state: st },
                None => MidiRoute::Ignore,
            }
        }
    } else {
        MidiRoute::Ignore
    }
}

/// Intensity range of the active plugin.
fn active_intensity_range(ms: &MutState) -> (r: u32)
    requires
        ms.save_state.active_func < ms.plugins@.len(),
    ensures
        r == ms.plugins@[ms.save_state.active_func as int].intensity_range,
{
    ms.plugins[ms.save_state.active_func].intensity_range
}

/// Time-dilation range of the active plugin.
fn active_time_dialation_range(ms: &MutState) -> (r: u32)
    requires
        ms.save_state.active_func < ms.plugins@.len(),
    ensures
        r == ms.plugins@[ms.save_state.active_func as int].time_dialation_range,
{
    ms.plugins[ms.save_state.active_func].time_dialation_range
}

/// Luminance-modifier range of the active plugin.
fn active_lum_mod(ms: &MutState) -> (r: u32)
    requires
        ms.save_state.active_func < ms.plugins@.len(),
    ensures
        r == ms.plugins@[ms.save_state.active_func as int].lum_mod,
{
    ms.plugins[ms.save_state.active_func].lum_mod
}

/// A snapshot with one continuous parameter replaced.
pub open spec fn spec_set_param(st: SaveState, param: ParamKind, bits: u32) -> SaveState {
    match param {
        ParamKind::Intensity => SaveState { current_intensity: bits, ..st },
        ParamKind::DecayFactor => SaveState { decay_factor: bits, ..st },
        ParamKind::TimeDialation => SaveState { time_dialation: bits, ..st },
        ParamKind::LumMod => SaveState { lum_mod: bits, ..st },
        ParamKind::ModuloParam => SaveState { modulo_param: bits, ..st },
        ParamKind::DecayParam => SaveState { decay_param: bits, ..st },
    }
}

/// The state after a routed message is applied.  `lerped` is the rescaled
/// parameter value (computed in floating point outside the core) and is
/// read only by the continuous routes.  An out-of-range plugin selection is
/// rejected and the previous index kept.
pub open spec fn spec_apply(ms: MutState, route: MidiRoute, lerped: u32) -> MutState {
    match route {
        MidiRoute::ToggleBackwards => MutState { is_backwards: !ms.is_backwards, ..ms },
        MidiRoute::ToggleFft => MutState {
            save_state: SaveState { is_fft: !ms.save_state.is_fft, ..ms.save_state },
            ..ms
        },
        MidiRoute::ToggleListening => MutState {
            is_listening_midi: !ms.is_listening_midi,
            ..ms
        },
        MidiRoute::SaveSwitch => ms,
        MidiRoute::Continuous { param, value, range } => MutState {
            save_state: spec_set_param(ms.save_state, param, lerped),
            ..ms
        },
        MidiRoute::SelectPlugin { idx } => if idx < ms.plugins@.len() {
            MutState {
                save_state: SaveState { active_func: idx, ..ms.save_state },
                ..ms
            }
        } else {
            ms
        },
        MidiRoute::BindCc { channel } => MutState {
            save_state: SaveState { cc: channel, ..ms.save_state },
            ..ms
        },
        MidiRoute::RecallPreset { state } => MutState { save_state: state, ..ms },
        MidiRoute::Ignore => ms,
    }
}

/// Applies a routed message to the shared state.
pub fn apply_route(ms: &mut MutState, route: &MidiRoute, lerped: u32)
    ensures
        *final(ms) == spec_apply(*old(ms), *route, lerped),
{
    match route {
        MidiRoute::ToggleBackwards => {
            toggle_backwards(ms);
        },
        MidiRoute::ToggleFft => {
            ms.save_state.is_fft = !ms.save_state.is_fft;
        },
        MidiRoute::ToggleListening => {
            ms.is_listening_midi = !ms.is_listening_midi;
        },
        MidiRoute::SaveSwitch => {},
        MidiRoute::Continuous { param, value: _, range: _ } => {
            match param {
                ParamKind::Intensity => {
                    ms.save_state.current_intensity = lerped;
                },
                ParamKind::DecayFactor => {
                    ms.save_state.decay_factor = lerped;
                },
                ParamKind::TimeDialation => {
                    ms.save_state.time_dialation = lerped;
                },
                ParamKind::LumMod => {
                    ms.save_state.lum_mod = lerped;
                },
                ParamKind::ModuloParam => {
                    ms.save_state.modulo_param = lerped;
                },
                ParamKind::DecayParam => {
                    ms.save_state.decay_param = lerped;
                },
            }
        },
        MidiRoute::SelectPlugin { idx } => {
            if *idx < ms.plugins.len() {
                ms.save_state.active_func = *idx;
            }
        },
        MidiRoute::BindCc { channel } => {
            ms.save_state.cc = *channel;
        },
        MidiRoute::RecallPreset { state } => {
            ms.save_state = *state;
        },
        MidiRoute::Ignore => {},
    }
}

fn toggle_backwards(ms: &mut MutState)
    ensures
        *final(ms) == (MutState { is_backwards: !old(ms).is_backwards, ..*old(ms) }),
{
    ms.is_backwards = !ms.is_backwards;
}

/// The state after the momentary switches are recomputed, as they are on
/// every message: reset and save are held exactly while their channel
/// carries a non-zero value.
pub open spec fn spec_momentary(
    ms: MutState,
    cfg: DeviceConfig,
    channel: u8,
    value: u8,
) -> MutState {
    MutState {
        is_reset: channel == cfg.reset && value > 0,
        is_saving_preset: channel == cfg.is_saving_preset && value > 0,
        ..ms
    }
}

/// Recomputes the momentary switches from this message.
pub fn update_momentary(ms: &mut MutState, cfg: &DeviceConfig, channel: u8, value: u8)
    ensures
        *final(ms) == spec_momentary(*old(ms), *cfg, channel, value),
{
    ms.is_reset = channel == cfg.reset && value > 0;
    ms.is_saving_preset = channel == cfg.is_saving_preset && value > 0;
}

/// Handles one control-change message end to end: routes it, applies the
/// route, recomputes the momentary switches, and reports the route taken.
/// `lerped` is the rescaled value for the continuous routes, computed by
/// the caller from the range that routing reports.
pub fn handle_msg(
    cfg: &DeviceConfig,
    ms: &mut MutState,
    channel: u8,
    value: u8,
    lerped: u32,
) -> (route: MidiRoute)
    ensures
        route == spec_route(*cfg, *old(ms), channel, value),
        *final(ms) == spec_momentary(
            spec_apply(*old(ms), route, lerped),
            *cfg,
            channel,
            value,
        ),
{
    let route = classify_msg(cfg, ms, channel, value);
    apply_route(ms, &route, lerped);
    update_momentary(ms, cfg, channel, value);
    route
}

/// Routes one message by controller profile, as the device dispatcher
/// does: the profile with an implemented mapping handles the message;
/// a message from any other profile is dropped — the caller logs it, and
/// nothing fails, since one bad message must not crash a live performance.
pub fn dispatch_msg(
    profile: ControllerProfile,
    cfg: &DeviceConfig,
    ms: &mut MutState,
    channel: u8,
    value: u8,
    lerped: u32,
) -> (r: Option<MidiRoute>)
    ensures
        profile == ControllerProfile::XoneK2 ==> {
            &&& r == Some(spec_route(*cfg, *old(ms), channel, value))
            &&& *final(ms) == spec_momentary(
                spec_apply(*old(ms), spec_route(*cfg, *old(ms), channel, value), lerped),
                *cfg,
                channel,
                value,
            )
        },
        profile != ControllerProfile::XoneK2 ==> r is None && *final(ms) == *old(ms),
{
    match profile {
        ControllerProfile::XoneK2 => Some(handle_msg(cfg, ms, channel, value, lerped)),
        ControllerProfile::AbletonBridge => None,
        ControllerProfile::XdjRx2 => None,
        ControllerProfile::Unknown => None,
    }
}

} // verus!
