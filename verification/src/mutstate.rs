use vstd::prelude::*;

verus! {

use crate::save_state::SaveState;
use crate::loading::Plugin;

/// The preset store as mathematics: controller name (as characters) to the
/// row of snapshots saved under it, in the order they were saved.
pub open spec fn pm_model(m: Seq<(String, Vec<SaveState>)>) -> Seq<(Seq<char>, Seq<SaveState>)> {
    m.map_values(|p: (String, Vec<SaveState>)| (p.0@, p.1@))
}

/// The most recently saved snapshot bound to a control-change number:
/// rows are searched newest first.
pub open spec fn last_with_cc(s: Seq<SaveState>, cc: u8) -> Option<SaveState>
    decreases s.len(),
{
    if s.len() == 0 {
        None
    } else if s.last().cc == cc {
        Some(s.last())
    } else {
        last_with_cc(s.drop_last(), cc)
    }
}

/// Loading a preset: the first row whose controller name matches is
/// searched for the newest snapshot bound to the control-change number.
pub open spec fn spec_find_preset(
    m: Seq<(Seq<char>, Seq<SaveState>)>,
    name: Seq<char>,
    cc: u8,
) -> Option<SaveState>
    decreases m.len(),
{
    if m.len() == 0 {
        None
    } else if m[0].0 == name {
        last_with_cc(m[0].1, cc)
    } else {
        spec_find_preset(m.drop_first(), name, cc)
    }
}

/// Saving a preset: the snapshot is appended to the first row whose
/// controller name matches, or a fresh row is added at the end.
pub open spec fn spec_save_preset(
    m: Seq<(Seq<char>, Seq<SaveState>)>,
    name: Seq<char>,
    st: SaveState,
) -> Seq<(Seq<char>, Seq<SaveState>)>
    decreases m.len(),
{
    if m.len() == 0 {
        seq![(name, seq![st])]
    } else if m[0].0 == name {
        seq![(m[0].0, m[0].1.push(st))] + m.drop_first()
    } else {
        seq![m[0]] + spec_save_preset(m.drop_first(), name, st)
    }
}

/// Law: the preset store round-trips.  Saving a snapshot under a
/// controller name and then loading under the same name and the snapshot's
/// own control-change number reproduces the snapshot exactly — and since a
/// snapshot carries its continuous parameters as IEEE-754 bit patterns,
/// "exactly" is bit for bit.
pub proof fn lemma_preset_round_trip(
    m: Seq<(Seq<char>, Seq<SaveState>)>,
    name: Seq<char>,
    st: SaveState,
)
    ensures
        spec_find_preset(spec_save_preset(m, name, st), name, st.cc) == Some(st),
    decreases m.len(),
{
    if m.len() == 0 {
        let saved = spec_save_preset(m, name, st);
        assert(saved[0].0 == name);
        assert(saved[0].1.last() == st);
    } else if m[0].0 == name {
        let saved = spec_save_preset(m, name, st);
        assert(saved[0].0 == name);
        assert(saved[0].1 == m[0].1.push(st));
        assert(saved[0].1.last() == st);
    } else {
        lemma_preset_round_trip(m.drop_first(), name, st);
        let saved = spec_save_preset(m, name, st);
        assert(saved[0] == m[0]);
        assert(saved.drop_first() =~= spec_save_preset(m.drop_first(), name, st));
    }
}

/// The keyboard commands the window forwards to the shared state.  The
/// arrow-key parameter nudges stay outside the verified core: they step a
/// parameter by a floating-point increment, which the shell computes
/// before storing the new bit pattern.
#[derive(Clone, Copy, PartialEq, Eq, Structural, Debug)]
pub enum KeyCmd {
    /// Flip the FFT-enable flag.
    ToggleFft,
    /// Hold the reset switch down.
    ResetDown,
    /// Release the reset switch.
    ResetUp,
    /// Hold the save-preset switch down.
    SaveDown,
    /// Release the save-preset switch.
    SaveUp,
    /// Enter keyboard listening mode: the next save tick writes the
    /// default preset.
    ListenKeys,
    /// Select the plugin at this position, if that many are loaded.
    SelectFunc { idx: usize },
    /// Step to the previous plugin, wrapping to the last.
    PrevFunc,
    /// Step to the next plugin, wrapping to the first.
    NextFunc,
}

/// The state after one keyboard command.
pub open spec fn spec_handle_key(ms: MutState, key: KeyCmd) -> MutState {
    match key {
        KeyCmd::ToggleFft => MutState {
            save_state: SaveState { is_fft: !ms.save_state.is_fft, ..ms.save_state },
            ..ms
        },
        KeyCmd::ResetDown => MutState { is_reset: true, ..ms },
        KeyCmd::ResetUp => MutState { is_reset: false, ..ms },
        KeyCmd::SaveDown => MutState { is_saving_preset: true, ..ms },
        KeyCmd::SaveUp => MutState { is_saving_preset: false, ..ms },
        KeyCmd::ListenKeys => MutState { is_listening_keys: true, ..ms },
        KeyCmd::SelectFunc { idx } => if idx < ms.plugins@.len() {
            MutState {
                save_state: SaveState { active_func: idx, ..ms.save_state },
                ..ms
            }
        } else {
            ms
        },
        KeyCmd::PrevFunc => {
            let id = if ms.save_state.active_func == 0 {
                (ms.plugins@.len() - 1) as usize
            } else {
                (ms.save_state.active_func - 1) as usize
            };
            if id < ms.plugins@.len() {
                MutState {
                    save_state: SaveState { active_func: id, ..ms.save_state },
                    ..ms
                }
            } else {
                ms
            }
        },
        KeyCmd::NextFunc => {
            let next = if ms.plugins@.len() == 0 {
                0usize
            } else if ms.save_state.active_func >= ms.plugins@.len() - 1 {
                0usize
            } else {
                (ms.save_state.active_func + 1) as usize
            };
            MutState {
                save_state: SaveState { active_func: next, ..ms.save_state },
                ..ms
            }
        },
    }
}

/// What the caller must persist after a save tick: a controller-bound
/// preset file (controller name, control-change number, snapshot) and/or
/// the default startup snapshot.
pub struct PresetWrites {
    pub controller_preset: Option<(String, u8, SaveState)>,
    pub default_preset: Option<SaveState>,
}

/// The one mutable structure all threads share, guarded by a single lock
/// outside the verified core: flags, the active snapshot, the loaded
/// plugin runtime and the preset store.
pub struct MutState {
    /// Whether display time runs backwards.
    pub is_backwards: bool,
    /// Momentary reset switch: held true only while its control is down.
    pub is_reset: bool,
    /// Whether a save was requested and is pending.
    pub is_saving_preset: bool,
    /// MIDI listening mode: the next unmapped control binds a save slot.
    pub is_listening_midi: bool,
    /// Keyboard listening mode: the next save tick writes the default preset.
    pub is_listening_keys: bool,
    /// The loaded plugin runtime, in ascending filename order.
    pub plugins: Vec<Plugin>,
    /// Identity of the connected controller, `default` when none matched.
    pub controller_name: String,
    /// The live snapshot of the continuous render parameters.
    pub save_state: SaveState,
    /// Saved presets per controller name.
    pub preset_map: Vec<(String, Vec<SaveState>)>,
    /// Control-change numbers that always select plugins by position.
    pub well_known_ccs: Vec<u8>,
}

/// Helper: a search that skipped rows without a name match may forget the
/// skipped prefix.
proof fn lemma_find_preset_skip(
    m: Seq<(Seq<char>, Seq<SaveState>)>,
    name: Seq<char>,
    cc: u8,
    i: int,
)
    requires
        0 <= i <= m.len(),
        forall|j: int| 0 <= j < i ==> #[trigger] m[j].0 != name,
    ensures
        spec_find_preset(m, name, cc) == spec_find_preset(m.skip(i), name, cc),
    decreases i,
{
    if i > 0 {
        lemma_find_preset_skip(m.drop_first(), name, cc, i - 1);
        assert(m.drop_first().skip(i - 1) =~= m.skip(i));
    } else {
        assert(m.skip(0) =~= m);
    }
}

/// Helper: a backwards scan that has ruled out every snapshot at or after
/// position `k` may forget them.
proof fn lemma_last_with_cc_take(s: Seq<SaveState>, cc: u8, k: int)
    requires
        0 <= k <= s.len(),
        forall|j: int| k <= j < s.len() ==> (#[trigger] s[j].cc) != cc,
    ensures
        last_with_cc(s, cc) == last_with_cc(s.take(k), cc),
    decreases s.len() - k,
{
    if k < s.len() {
        lemma_last_with_cc_take(s.drop_last(), cc, k);
        assert(s.drop_last().take(k) =~= s.take(k));
    } else {
        assert(s.take(k) =~= s);
    }
}

/// Helper: saving under a name already present updates exactly the first
/// matching row.
proof fn lemma_save_preset_hit(
    m: Seq<(Seq<char>, Seq<SaveState>)>,
    name: Seq<char>,
    st: SaveState,
    i: int,
)
    requires
        0 <= i < m.len(),
        m[i].0 == name,
        forall|j: int| 0 <= j < i ==> #[trigger] m[j].0 != name,
    ensures
        spec_save_preset(m, name, st) =~= m.update(i, (m[i].0, m[i].1.push(st))),
    decreases i,
{
    if i == 0 {
        assert(spec_save_preset(m, name, st) =~= seq![(m[0].0, m[0].1.push(st))] + m.drop_first());
    } else {
        lemma_save_preset_hit(m.drop_first(), name, st, i - 1);
        assert(m.drop_first().update(i - 1, (m[i].0, m[i].1.push(st)))
            =~= m.update(i, (m[i].0, m[i].1.push(st))).drop_first());
        assert(spec_save_preset(m, name, st)
            =~= seq![m[0]] + spec_save_preset(m.drop_first(), name, st));
    }
}

/// Helper: saving under an unknown name appends a fresh row.
proof fn lemma_save_preset_miss(
    m: Seq<(Seq<char>, Seq<SaveState>)>,
    name: Seq<char>,
    st: SaveState,
)
    requires
        forall|j: int| 0 <= j < m.len() ==> #[trigger] m[j].0 != name,
    ensures
        spec_save_preset(m, name, st) =~= m.push((name, seq![st])),
    decreases m.len(),
{
    if m.len() > 0 {
        lemma_save_preset_miss(m.drop_first(), name, st);
        assert(m.drop_first().push((name, seq![st])) =~= m.push((name, seq![st])).drop_first());
    }
}

/// Scans a row of snapshots newest first for one bound to `cc`.
fn last_preset_with_cc(states: &Vec<SaveState>, cc: u8) -> (r: Option<SaveState>)
    ensures
        r == last_with_cc(states@, cc),
{
    let mut k: usize = states.len();
    while k > 0
        invariant
            0 <= k <= states@.len(),
            forall|j: int| k <= j < states@.len() ==> (#[trigger] states@[j].cc) != cc,
        decreases k,
    {
        if states[k - 1].cc == cc {
            proof {
                lemma_last_with_cc_take(states@, cc, k as int);
                assert(states@.take(k as int).last() == states@[k - 1]);
            }
            return Some(states[k - 1]);
        }
        k = k - 1;
    }
    proof {
        lemma_last_with_cc_take(states@, cc, 0);
        assert(states@.take(0) =~= Seq::<SaveState>::empty());
    }
    None
}

impl MutState {
    /// Looks up the newest preset this controller saved under a
    /// control-change number.
    pub fn find_preset(&self, cc: u8) -> (r: Option<SaveState>)
        ensures
            r == spec_find_preset(pm_model(self.preset_map@), self.controller_name@, cc),
    {
        let ghost model = pm_model(self.preset_map@);
        let n = self.preset_map.len();
        let mut i: usize = 0;
        while i < n
            invariant
                0 <= i <= n,
                n == self.preset_map@.len(),
                model == pm_model(self.preset_map@),
                model.len() == n,
                forall|j: int| 0 <= j < i ==> #[trigger] model[j].0 != self.controller_name@,
            decreases n - i,
        {
            proof {
                assert(model[i as int] == (self.preset_map@[i as int].0@, self.preset_map@[i as int].1@));
            }
            if self.preset_map[i].0 == self.controller_name {
                let r = last_preset_with_cc(&self.preset_map[i].1, cc);
                proof {
                    lemma_find_preset_skip(model, self.controller_name@, cc, i as int);
                    assert(model.skip(i as int)[0] == model[i as int]);
                }
                return r;
            }
            i = i + 1;
        }
        proof {
            lemma_find_preset_skip(model, self.controller_name@, cc, n as int);
            assert(model.skip(n as int) =~= Seq::<(Seq<char>, Seq<SaveState>)>::empty());
        }
        None
    }

    /// One save tick.  Does nothing unless a save is pending.  In MIDI
    /// listening mode the live snapshot is stored in the preset map under
    /// the connected controller, and, when it is bound to a control-change
    /// number, handed back for persistence; in keyboard listening mode the
    /// snapshot is handed back as the new default preset.  Either listening
    /// mode is consumed by the save.
    pub fn save_preset(&mut self) -> (r: PresetWrites)
        ensures
            !old(self).is_saving_preset ==> {
                &&& *final(self) == *old(self)
                &&& r.controller_preset is None
                &&& r.default_preset is None
            },
            old(self).is_saving_preset ==> {
                &&& pm_model(final(self).preset_map@) =~= (if old(self).is_listening_midi {
                    spec_save_preset(
                        pm_model(old(self).preset_map@),
                        old(self).controller_name@,
                        old(self).save_state,
                    )
                } else {
                    pm_model(old(self).preset_map@)
                })
                &&& final(self).is_listening_midi == false
                &&& final(self).is_listening_keys == false
                &&& r.controller_preset matches Some(w) ==> (old(self).is_listening_midi
                    && old(self).save_state.cc != 0
                    && w.0 == old(self).controller_name
                    && w.1 == old(self).save_state.cc
                    && w.2 == old(self).save_state)
                &&& (old(self).is_listening_midi && old(self).save_state.cc != 0)
                    <==> r.controller_preset is Some
                &&& r.default_preset == (if old(self).is_listening_keys {
                    Some(old(self).save_state)
                } else {
                    None
                })
            },
            final(self).is_backwards == old(self).is_backwards,
            final(self).is_reset == old(self).is_reset,
            final(self).is_saving_preset == old(self).is_saving_preset,
            final(self).plugins == old(self).plugins,
            final(self).controller_name == old(self).controller_name,
            final(self).save_state == old(self).save_state,
            final(self).well_known_ccs == old(self).well_known_ccs,
    {
        if !self.is_saving_preset {
            return PresetWrites { controller_preset: None, default_preset: None };
        }
        let mut controller_preset: Option<(String, u8, SaveState)> = None;
        let mut default_preset: Option<SaveState> = None;

        if self.is_listening_midi {
            let ghost model = pm_model(self.preset_map@);
            let n = self.preset_map.len();
            let mut i: usize = 0;
            let mut found = false;
            while i < n && !found
                invariant
                    0 <= i <= n,
                    n == self.preset_map@.len(),
                    model == pm_model(self.preset_map@),
                    model.len() == n,
                    !found ==> forall|j: int| 0 <= j < i
                        ==> #[trigger] model[j].0 != self.controller_name@,
                    found ==> i < n && model[i as int].0 == self.controller_name@
                        && forall|j: int| 0 <= j < i
                            ==> #[trigger] model[j].0 != self.controller_name@,
                decreases n - i + (if found { 0int } else { 1int }),
            {
                proof {
                    assert(model[i as int]
                        == (self.preset_map@[i as int].0@, self.preset_map@[i as int].1@));
                }
                if self.preset_map[i].0 == self.controller_name {
                    found = true;
                } else {
                    i = i + 1;
                }
            }
            let ghost old_map = self.preset_map@;
            if found {
                let (nm, mut states) = self.preset_map.remove(i);
                states.push(self.save_state);
                self.preset_map.insert(i, (nm, states));
                proof {
                    lemma_save_preset_hit(model, self.controller_name@, self.save_state, i as int);
                    assert(self.preset_map@
                        =~= old_map.update(i as int, self.preset_map@[i as int]));
                    assert(pm_model(self.preset_map@) =~= spec_save_preset(
                        model,
                        self.controller_name@,
                        self.save_state,
                    ));
                }
            } else {
                let mut states: Vec<SaveState> = Vec::new();
                states.push(self.save_state);
                let nm = self.controller_name.clone();
                self.preset_map.push((nm, states));
                proof {
                    lemma_save_preset_miss(model, self.controller_name@, self.save_state);
                    assert(pm_model(self.preset_map@) =~= spec_save_preset(
                        model,
                        self.controller_name@,
                        self.save_state,
                    ));
                }
            }

            if self.save_state.cc != 0 {
                controller_preset = Some((self.controller_name.clone(), self.save_state.cc, self.save_state));
            }
            self.is_listening_midi = false;
        }

        if self.is_listening_keys {
            default_preset = Some(self.save_state);
            self.is_listening_keys = false;
        }

        PresetWrites { controller_preset, default_preset }
    }

    /// Selects the active plugin by index; a selection beyond the loaded
    /// plugin count is rejected and the previous index kept.
    pub fn set_active_func(&mut self, afn: usize)
        ensures
            afn < old(self).plugins@.len() ==> *final(self) == (MutState {
                save_state: (SaveState { active_func: afn, ..old(self).save_state }),
                ..*old(self)
            }),
            afn >= old(self).plugins@.len() ==> *final(self) == *old(self),
    {
        if afn < self.plugins.len() {
            self.save_state.active_func = afn;
        }
    }

    /// Applies one keyboard command.  Selection commands are validated
    /// against the loaded plugin count; cycling wraps around the runtime
    /// list.
    pub fn handle_key(&mut self, key: KeyCmd)
        requires
            key matches KeyCmd::PrevFunc ==> old(self).plugins@.len() > 0,
        ensures
            *final(self) == spec_handle_key(*old(self), key),
    {
        match key {
            KeyCmd::ToggleFft => {
                self.save_state.is_fft = !self.save_state.is_fft;
            },
            KeyCmd::ResetDown => {
                self.is_reset = true;
            },
            KeyCmd::ResetUp => {
                self.is_reset = false;
            },
            KeyCmd::SaveDown => {
                self.is_saving_preset = true;
            },
            KeyCmd::SaveUp => {
                self.is_saving_preset = false;
            },
            KeyCmd::ListenKeys => {
                self.is_listening_keys = true;
            },
            KeyCmd::SelectFunc { idx } => {
                self.set_active_func(idx);
            },
            KeyCmd::PrevFunc => {
                let id = if self.save_state.active_func == 0 {
                    self.plugins.len() - 1
                } else {
                    self.save_state.active_func - 1
                };
                self.set_active_func(id);
            },
            KeyCmd::NextFunc => {
                let len = self.plugins.len();
                let next = if len == 0 {
                    0
                } else if self.save_state.active_func >= len - 1 {
                    0
                } else {
                    self.save_state.active_func + 1
                };
                self.save_state.active_func = next;
            },
        }
    }

    /// The plugin a transform call may go through right now: the active
    /// index is re-validated against the current runtime list, so a caller
    /// can never reach a plugin that is not in the live list — after a
    /// reload a stale index yields `None` instead of a dangling module.
    pub fn active_plugin(&self) -> (r: Option<&Plugin>)
        ensures
            match r {
                Some(p) => self.save_state.active_func < self.plugins@.len()
                    && *p == self.plugins@[self.save_state.active_func as int],
                None => self.save_state.active_func >= self.plugins@.len(),
            },
    {
        if self.save_state.active_func < self.plugins.len() {
            Some(&self.plugins[self.save_state.active_func])
        } else {
            None
        }
    }
}

} // verus!
