use vstd::prelude::*;

verus! {

/// Whether an alert fires on observing `level` while the monitor is `armed`.
pub open spec fn alert_fires(armed: bool, level: u64, threshold: u64) -> bool {
    armed && level <= threshold
}

/// Whether the monitor is armed after observing `level`: only stock above the
/// threshold re-arms it, so the alert fires once per downward crossing.
pub open spec fn alert_armed_after(level: u64, threshold: u64) -> bool {
    level > threshold
}

/// The low-stock alert monitor for one finished-stock container. It observes
/// the stock level on every wake-up and fires exactly when the level crosses
/// from above the configured threshold to at or below it: while the stock
/// stays at or below the threshold it keeps quiet, and it re-arms only once
/// the stock has risen above the threshold again.
pub struct AlertMonitor {
    threshold: u64,
    armed: bool,
}

impl AlertMonitor {
    /// The level at or below which the monitored stock is low.
    pub closed spec fn spec_threshold(self) -> u64 {
        self.threshold
    }

    /// Whether the monitor would fire on the next low observation.
    pub closed spec fn spec_armed(self) -> bool {
        self.armed
    }

    /// Creates a monitor for a stock that starts above `threshold`.
    pub fn new(threshold: u64) -> (r: Self)
        ensures
            r.spec_threshold() == threshold,
            r.spec_armed(),
    {
        Self { threshold, armed: true }
    }

    /// Observes the current stock level, and reports whether a low-stock
    /// alert fires: exactly when the level sits at or below the threshold
    /// while the monitor is armed. Observing never mutates the stock itself.
    pub fn observe(&mut self, level: u64) -> (fired: bool)
        ensures
            fired == alert_fires(old(self).spec_armed(), level, old(self).spec_threshold()),
            final(self).spec_armed() == alert_armed_after(level, old(self).spec_threshold()),
            final(self).spec_threshold() == old(self).spec_threshold(),
    {
        let fired = self.armed && level <= self.threshold;
        self.armed = level > self.threshold;
        fired
    }
}

/// Whether the monitor is armed before the `k`-th observation of `levels`,
/// starting from a freshly created monitor (stock above threshold).
pub open spec fn armed_before(levels: Seq<u64>, threshold: u64, k: int) -> bool {
    if k == 0 {
        true
    } else {
        alert_armed_after(levels[k - 1], threshold)
    }
}

/// Threshold law: over any run of observed levels, the monitor fires at the
/// `k`-th observation if and only if the stock crosses there from above the
/// threshold to at or below it.
pub proof fn lemma_alert_fires_iff_crossing(levels: Seq<u64>, threshold: u64, k: int)
    requires
        0 <= k < levels.len(),
    ensures
        alert_fires(armed_before(levels, threshold, k), levels[k], threshold) <==> (levels[k]
            <= threshold && (k == 0 || levels[k - 1] > threshold)),
{
}

/// No alert storm: while the stock stays at or below the threshold, the
/// monitor stays silent after its first firing; it fires again only once the
/// stock has risen above the threshold and dropped again.
pub proof fn lemma_no_alert_storm(levels: Seq<u64>, threshold: u64, k: int)
    requires
        0 <= k,
        k + 1 < levels.len(),
        levels[k + 1] <= threshold,
    ensures
        levels[k] <= threshold ==> !alert_fires(
            armed_before(levels, threshold, k + 1),
            levels[k + 1],
            threshold,
        ),
        levels[k] > threshold ==> alert_fires(
            armed_before(levels, threshold, k + 1),
            levels[k + 1],
            threshold,
        ),
{
}

} // verus!
