use vstd::prelude::*;

verus! {

/// A snapshot of the continuous render parameters, the active plugin index
/// and the FFT flag, keyed by the MIDI control-change number `cc` it was
/// bound to.
///
/// Every continuous parameter is an IEEE-754 single-precision value carried
/// by its exact bit pattern (`u32`), so a snapshot that is stored and later
/// restored reproduces each parameter bit for bit.  All floating-point
/// arithmetic on these values happens outside the verified core; the core
/// only stores, compares and moves the patterns.
#[derive(Clone, Copy, PartialEq, Eq, Structural, Debug)]
pub struct SaveState {
    /// Control-change number this snapshot is bound to; 0 means unbound.
    pub cc: u8,
    /// Index of the active plugin in the runtime's ordered list.
    pub active_func: usize,
    /// Whether the spectrum pipeline feeds the luminance channel.
    pub is_fft: bool,
    /// Bit pattern of the current intensity.
    pub current_intensity: u32,
    /// Bit pattern of the time-dilation factor.
    pub time_dialation: u32,
    /// Bit pattern of the decay factor.
    pub decay_factor: u32,
    /// Bit pattern of the luminance modifier.
    pub lum_mod: u32,
    /// Bit pattern of the modulo parameter.
    pub modulo_param: u32,
    /// Bit pattern of the per-frame spectrum decay parameter.
    pub decay_param: u32,
}

impl Default for SaveState {
    /// The all-zero snapshot: index 0, FFT off, every parameter +0.0
    /// (bit pattern 0).
    fn default() -> (r: Self)
        ensures
            r == (SaveState {
                cc: 0u8,
                active_func: 0usize,
                is_fft: false,
                current_intensity: 0u32,
                time_dialation: 0u32,
                decay_factor: 0u32,
                lum_mod: 0u32,
                modulo_param: 0u32,
                decay_param: 0u32,
            }),
    {
        SaveState {
            cc: 0,
            active_func: 0,
            is_fft: false,
            current_intensity: 0,
            time_dialation: 0,
            decay_factor: 0,
            lum_mod: 0,
            modulo_param: 0,
            decay_param: 0,
        }
    }
}

} // verus!
