use vstd::prelude::*;

verus! {

/// The next value of the removal counter after one file-removal event.
pub open spec fn step_count(count: nat, threshold: nat) -> nat {
    if count + 1 == threshold {
        0
    } else {
        count + 1
    }
}

/// Whether one more file-removal event reaches the threshold and so
/// triggers a plugin reload.
pub open spec fn step_reload(count: nat, threshold: nat) -> bool {
    count + 1 == threshold
}

/// How many reloads a burst of `n` file-removal events triggers, starting
/// from a given counter value.
pub open spec fn reloads_in_burst(count: nat, threshold: nat, n: nat) -> nat
    decreases n,
{
    if n == 0 {
        0
    } else {
        (if step_reload(count, threshold) { 1nat } else { 0nat })
            + reloads_in_burst(step_count(count, threshold), threshold, (n - 1) as nat)
    }
}

/// Debounces the burst of file-removal events an external rebuild emits.
///
/// The rebuild deletes and recreates every module file, firing one removal
/// event per artifact file, so a reload in mid-burst would load a
/// partially replaced directory.  The watcher counts removals and asks for
/// a reload exactly when the count reaches `plugs_count * multiplier`,
/// then starts over.  The multiplier is an explicit parameter because it
/// encodes how many artifact files the external build emits per module.
pub struct ReloadDebouncer {
    /// Removal events seen since the last reload.
    pub event_count: u64,
    /// Number of plugin modules in the watched directory.
    pub plugs_count: u8,
    /// Artifact files the external rebuild removes per module.
    pub multiplier: u8,
}

impl ReloadDebouncer {
    /// The number of removal events that make up one full rebuild burst.
    pub open spec fn threshold(self) -> nat {
        (self.plugs_count * self.multiplier) as nat
    }

    /// A fresh debouncer with an idle counter.
    pub fn new(plugs_count: u8, multiplier: u8) -> (r: Self)
        ensures
            r.event_count == 0,
            r.plugs_count == plugs_count,
            r.multiplier == multiplier,
    {
        ReloadDebouncer { event_count: 0, plugs_count, multiplier }
    }

    /// Records one file-removal event.  Returns whether the caller must
    /// reload the plugin directory now: true exactly when this event
    /// completes a full burst, and the counter starts over on that event.
    pub fn on_remove(&mut self) -> (reload: bool)
        requires
            old(self).event_count < u64::MAX,
        ensures
            reload == step_reload(old(self).event_count as nat, old(self).threshold()),
            final(self).event_count == step_count(old(self).event_count as nat, old(self).threshold()),
            final(self).plugs_count == old(self).plugs_count,
            final(self).multiplier == old(self).multiplier,
    {
        self.event_count = self.event_count + 1;
        proof {
            let p = self.plugs_count as u64;
            let m = self.multiplier as u64;
            assert(p * m <= 65025) by (nonlinear_arith)
                requires
                    p <= 255,
                    m <= 255,
            {}
        }
        let threshold = (self.plugs_count as u64) * (self.multiplier as u64);
        if self.event_count == threshold {
            self.event_count = 0;
            true
        } else {
            false
        }
    }
}

/// Helper: a burst too short to reach the threshold triggers nothing.
proof fn lemma_short_burst_quiet(count: nat, threshold: nat, n: nat)
    requires
        count + n < threshold,
    ensures
        reloads_in_burst(count, threshold, n) == 0,
    decreases n,
{
    if n > 0 {
        lemma_short_burst_quiet(count + 1, threshold, (n - 1) as nat);
    }
}

/// Helper: a burst that lands exactly on the threshold triggers exactly
/// one reload, on its last event.
proof fn lemma_exact_burst_once(count: nat, threshold: nat, n: nat)
    requires
        n >= 1,
        count + n == threshold,
    ensures
        reloads_in_burst(count, threshold, n) == 1,
    decreases n,
{
    if n == 1 {
        assert(step_reload(count, threshold));
        assert(reloads_in_burst(step_count(count, threshold), threshold, 0) == 0);
    } else {
        assert(!step_reload(count, threshold));
        assert(step_count(count, threshold) == count + 1);
        lemma_exact_burst_once(count + 1, threshold, (n - 1) as nat);
    }
}

/// Law: starting idle, a burst of exactly `plugin_count * multiplier`
/// file-removal events triggers exactly one reload, and a burst one event
/// short of that triggers none.
pub proof fn lemma_debounce_exactly_one(threshold: nat)
    requires
        threshold >= 1,
    ensures
        reloads_in_burst(0, threshold, threshold) == 1,
        reloads_in_burst(0, threshold, (threshold - 1) as nat) == 0,
{
    lemma_exact_burst_once(0, threshold, threshold);
    if threshold > 1 {
        lemma_short_burst_quiet(0, threshold, (threshold - 1) as nat);
    }
}

} // verus!
