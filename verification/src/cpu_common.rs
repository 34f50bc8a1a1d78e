//! The frequency controller: owns the CPU clusters, their supported
//! frequency steps and the single requested frequency, and turns a control
//! signal into a bounded, weighted per-cluster frequency request.
//!
//! Frequency requests are recorded per cluster and queued as pending writes;
//! the sysfs writer outside the verified core drains the queue and performs
//! the actual file writes, logging and skipping individual failures.

use vstd::arithmetic::div_mod::{
    lemma_basic_div, lemma_div_by_self, lemma_div_is_ordered, lemma_div_nonincreasing,
    lemma_div_pos_is_pos,
};
use vstd::prelude::*;

use crate::extension::{broadcast3, ApiEvent, ApiVersion, Extension};

verus! {

/// The base frequency step, in kHz, that a control factor of one full unit
/// adds to the requested frequency.
pub const BASE_FREQ: i64 = 600_000;

/// Control factors are carried in fixed point: this many factor units stand
/// for a factor of one.
pub const FACTOR_SCALE: i128 = 1_000_000;

/// A magnitude bound on control factors; every factor computed by
/// `scale_factor` stays within it.
pub const FACTOR_LIMIT: i128 = 1_000_000_000_000_000_000_000_000_000_000;

/// Cluster weights are carried in fixed point: this many weight units stand
/// for a weight of one, the fallback when no thread-affinity data is known.
pub const WEIGHT_SCALE: u64 = 1000;

/// How many control ticks pass between two refreshes of the cluster weights.
pub const WEIGHT_REFRESH_TICKS: u64 = 10;

/// What a cluster was last asked to run at: its system default, or a
/// frequency bound scaled by the cluster's weight.
#[derive(Clone, Copy, Debug, PartialEq, Eq, Structural)]
pub enum FreqRequest {
    Default,
    Limited { freq: i64, weight: u64 },
}

/// One queued write towards the per-cluster frequency file.
#[derive(Clone, Copy, Debug, PartialEq, Eq, Structural)]
pub struct FreqWrite {
    pub policy: i32,
    pub request: FreqRequest,
}

/// The weight of one cluster, in `WEIGHT_SCALE` units.
#[derive(Clone, Copy, Debug, PartialEq, Eq, Structural)]
pub struct WeightEntry {
    pub policy: i32,
    pub weight: u64,
}

/// A recent estimate of how much each cluster matters to the monitored
/// process, refreshed every `WEIGHT_REFRESH_TICKS` control ticks from a
/// thread-affinity snapshot when one is available.
pub struct WeightedCalculator {
    pub weights: Vec<WeightEntry>,
    pub ticks: u64,
}

/// The weight recorded for a cluster, or the equal-weight fallback when the
/// cluster has no entry.
pub open spec fn weight_of(entries: Seq<WeightEntry>, policy: i32) -> u64
    decreases entries.len(),
{
    if entries.len() == 0 {
        WEIGHT_SCALE
    } else if entries[0].policy == policy {
        entries[0].weight
    } else {
        weight_of(entries.drop_first(), policy)
    }
}

impl WeightedCalculator {
    /// The calculator state after one tick fed with `snapshot`.
    pub open spec fn spec_updated(self, snapshot: Option<Vec<WeightEntry>>) -> WeightedCalculator {
        if self.ticks == 0 {
            (WeightedCalculator {
                weights: match snapshot {
                    Some(s) => s,
                    None => self.weights,
                },
                ticks: (WEIGHT_REFRESH_TICKS - 1) as u64,
            })
        } else {
            (WeightedCalculator { weights: self.weights, ticks: (self.ticks - 1) as u64 })
        }
    }

    pub fn new() -> (c: WeightedCalculator)
        ensures
            c.weights@ == Seq::<WeightEntry>::empty(),
            c.ticks == 0,
    {
        WeightedCalculator { weights: Vec::new(), ticks: 0 }
    }

    /// Drop all accumulated weight data, so the next tick refreshes.
    pub fn clear(&mut self)
        ensures
            final(self).weights@ == Seq::<WeightEntry>::empty(),
            final(self).ticks == 0,
    {
        self.weights.clear();
        self.ticks = 0;
    }

    /// One control tick: when the refresh cadence is due and a snapshot is
    /// available, replace the cached weights; otherwise keep them.
    pub fn update(&mut self, snapshot: Option<Vec<WeightEntry>>)
        ensures
            *final(self) == old(self).spec_updated(snapshot),
    {
        if self.ticks == 0 {
            match snapshot {
                Some(s) => {
                    self.weights = s;
                },
                None => {},
            }
            self.ticks = WEIGHT_REFRESH_TICKS - 1;
        } else {
            self.ticks = self.ticks - 1;
        }
    }

    /// Look a cluster's weight up, falling back to equal weighting.
    pub fn weight(&self, policy: i32) -> (w: u64)
        ensures
            w == weight_of(self.weights@, policy),
    {
        let mut i: usize = 0;
        proof {
            assert(self.weights@.skip(0) =~= self.weights@);
        }
        while i < self.weights.len()
            invariant
                0 <= i <= self.weights@.len(),
                weight_of(self.weights@, policy) == weight_of(
                    self.weights@.skip(i as int),
                    policy,
                ),
            decreases self.weights@.len() - i,
        {
            proof {
                assert(self.weights@.skip(i as int)[0] == self.weights@[i as int]);
            }
            if self.weights[i].policy == policy {
                return self.weights[i].weight;
            }
            proof {
                assert(self.weights@.skip(i as int).drop_first() =~= self.weights@.skip(
                    i as int + 1,
                ));
            }
            i = i + 1;
        }
        proof {
            assert(self.weights@.skip(i as int) =~= Seq::<WeightEntry>::empty());
        }
        WEIGHT_SCALE
    }
}

/// One CPU cluster: its policy identity, its member logical CPUs, its
/// supported frequency steps (sorted and deduplicated, fixed at startup) and
/// what it was last asked to run at.
pub struct CpuInfo {
    pub policy: i32,
    pub cpus: Vec<i32>,
    pub freqs: Vec<i64>,
    pub request: FreqRequest,
}

/// Strictly ascending: sorted with no duplicates.
pub open spec fn strictly_sorted(s: Seq<i64>) -> bool {
    forall|i: int, j: int| 0 <= i < j < s.len() ==> s[i] < s[j]
}

proof fn lemma_push_contains(s: Seq<i64>, x: i64, v: i64)
    ensures
        s.push(x).contains(v) <==> (s.contains(v) || v == x),
{
    if s.push(x).contains(v) {
        let i = choose|i: int| 0 <= i < s.push(x).len() && s.push(x)[i] == v;
        if i < s.len() {
            assert(s[i] == v);
        }
    }
    if s.contains(v) {
        let i = choose|i: int| 0 <= i < s.len() && s[i] == v;
        assert(s.push(x)[i] == v);
    }
    if v == x {
        assert(s.push(x)[s.len() as int] == v);
    }
}

proof fn lemma_insert_contains(s: Seq<i64>, pos: int, x: i64, v: i64)
    requires
        0 <= pos <= s.len(),
    ensures
        s.insert(pos, x).contains(v) <==> (s.contains(v) || v == x),
{
    s.insert_ensures(pos, x);
    if s.insert(pos, x).contains(v) {
        let i = choose|i: int| 0 <= i < s.insert(pos, x).len() && s.insert(pos, x)[i] == v;
        if i < pos {
            assert(s[i] == v);
        } else if i > pos {
            assert(s.insert(pos, x)[(i - 1) + 1] == s[i - 1]);
            assert(s[i - 1] == v);
        }
    }
    if s.contains(v) {
        let i = choose|i: int| 0 <= i < s.len() && s[i] == v;
        if i < pos {
            assert(s.insert(pos, x)[i] == v);
        } else {
            assert(s.insert(pos, x)[i + 1] == v);
        }
    }
    if v == x {
        assert(s.insert(pos, x)[pos] == v);
    }
}

impl CpuInfo {
    /// The frequency list is non-empty and strictly ascending; both bounds
    /// below are then well defined and never change.
    pub open spec fn wf(&self) -> bool {
        &&& self.freqs@.len() >= 1
        &&& strictly_sorted(self.freqs@)
    }

    /// The lowest supported frequency step.
    pub open spec fn min_freq(&self) -> i64 {
        self.freqs@[0]
    }

    /// The highest supported frequency step.
    pub open spec fn max_freq(&self) -> i64 {
        self.freqs@[self.freqs@.len() - 1]
    }

    /// Build a cluster from a raw list of supported frequency steps, sorting
    /// and deduplicating it; `None` when the list is empty.
    pub fn new(policy: i32, cpus: Vec<i32>, freqs: &Vec<i64>) -> (r: Option<CpuInfo>)
        ensures
            r is Some <==> freqs@.len() > 0,
            r matches Some(c) ==> {
                &&& c.wf()
                &&& c.policy == policy
                &&& c.cpus@ == cpus@
                &&& c.request == FreqRequest::Default
                &&& forall|v: i64| c.freqs@.contains(v) <==> freqs@.contains(v)
            },
    {
        let mut sorted_freqs: Vec<i64> = Vec::new();
        let mut k: usize = 0;
        proof {
            assert(freqs@.take(0) =~= Seq::<i64>::empty());
        }
        while k < freqs.len()
            invariant
                0 <= k <= freqs@.len(),
                strictly_sorted(sorted_freqs@),
                forall|v: i64|
                    sorted_freqs@.contains(v) <==> freqs@.take(k as int).contains(v),
            decreases freqs@.len() - k,
        {
            let x = freqs[k];
            let mut pos: usize = 0;
            while pos < sorted_freqs.len() && sorted_freqs[pos] < x
                invariant
                    0 <= pos <= sorted_freqs@.len(),
                    forall|j: int| 0 <= j < pos ==> sorted_freqs@[j] < x,
                decreases sorted_freqs@.len() - pos,
            {
                pos = pos + 1;
            }
            let ghost pre = sorted_freqs@;
            let already_there = pos < sorted_freqs.len() && sorted_freqs[pos] == x;
            if !already_there {
                sorted_freqs.insert(pos, x);
                proof {
                    pre.insert_ensures(pos as int, x);
                    assert forall|v: i64|
                        sorted_freqs@.contains(v) <==> (pre.contains(v) || v == x) by {
                        lemma_insert_contains(pre, pos as int, x, v);
                    }
                    assert(strictly_sorted(sorted_freqs@)) by {
                        assert forall|a: int, b: int|
                            0 <= a < b < sorted_freqs@.len() implies sorted_freqs@[a]
                            < sorted_freqs@[b] by {
                            if b < pos {
                            } else if a < pos && b == pos {
                                assert(sorted_freqs@[a] == pre[a]);
                            } else if a < pos && b > pos {
                                assert(sorted_freqs@[b] == pre[b - 1]);
                                if pos < pre.len() {
                                    assert(pre[pos as int] > x || pre[pos as int] == x || pre[pos as int] < x);
                                }
                                assert(pre[a] < x);
                                if b - 1 == pos {
                                    assert(pre[pos as int] > x);
                                } else {
                                    assert(pre[pos as int] > x);
                                    assert(pre[pos as int] <= pre[b - 1]);
                                }
                            } else if a == pos {
                                assert(sorted_freqs@[b] == pre[b - 1]);
                                assert(pre[pos as int] > x);
                                if b - 1 == pos {
                                } else {
                                    assert(pre[pos as int] <= pre[b - 1]);
                                }
                            } else {
                                assert(sorted_freqs@[a] == pre[a - 1]);
                                assert(sorted_freqs@[b] == pre[b - 1]);
                            }
                        }
                    }
                }
            }
            proof {
                assert(x == freqs@[k as int]);
                assert(freqs@.take(k as int + 1) =~= freqs@.take(k as int).push(freqs@[k as int]));
                assert forall|v: i64|
                    sorted_freqs@.contains(v) <==> freqs@.take(k as int + 1).contains(v) by {
                    lemma_push_contains(freqs@.take(k as int), x, v);
                    if !already_there {
                        lemma_insert_contains(pre, pos as int, x, v);
                    } else {
                        assert(pre[pos as int] == x);
                        assert(pre.contains(x));
                    }
                }
            }
            k = k + 1;
        }
        proof {
            assert(freqs@.take(freqs@.len() as int) =~= freqs@);
        }
        if sorted_freqs.len() == 0 {
            proof {
                if freqs@.len() > 0 {
                    assert(freqs@.take(freqs@.len() as int).contains(freqs@[0])) by {
                        assert(freqs@.take(freqs@.len() as int)[0] == freqs@[0]);
                    }
                    assert(sorted_freqs@.contains(freqs@[0]));
                    assert(false);
                }
            }
            None
        } else {
            proof {
                assert(sorted_freqs@.contains(sorted_freqs@[0]));
                assert(freqs@.take(freqs@.len() as int).contains(sorted_freqs@[0]));
            }
            Some(CpuInfo { policy, cpus, freqs: sorted_freqs, request: FreqRequest::Default })
        }
    }
}

/// A value that is the frequency of some cluster step, and at least as high
/// as every cluster's highest step.
pub open spec fn is_global_max(m: i64, clusters: Seq<CpuInfo>) -> bool {
    &&& exists|i: int| 0 <= i < clusters.len() && m == clusters[i].max_freq()
    &&& forall|i: int| 0 <= i < clusters.len() ==> clusters[i].max_freq() <= m
}

/// A value that is the frequency of some cluster step, and no higher than
/// any cluster's lowest step.
pub open spec fn is_global_min(m: i64, clusters: Seq<CpuInfo>) -> bool {
    &&& exists|i: int| 0 <= i < clusters.len() && m == clusters[i].min_freq()
    &&& forall|i: int| 0 <= i < clusters.len() ==> m <= clusters[i].min_freq()
}

/// The same cluster with only its request replaced.
pub open spec fn cluster_with_request(c: CpuInfo, r: FreqRequest) -> CpuInfo {
    (CpuInfo { policy: c.policy, cpus: c.cpus, freqs: c.freqs, request: r })
}

/// The frequency delta, in kHz, that a fixed-point control factor asks for.
pub open spec fn spec_freq_delta(factor: int) -> int {
    if factor >= 0 {
        (BASE_FREQ * factor) / (FACTOR_SCALE as int)
    } else {
        -((BASE_FREQ * (-factor)) / (FACTOR_SCALE as int))
    }
}

/// The requested frequency after applying a control factor: the delta is
/// added, then the result clamped to the global bounds.
pub open spec fn spec_next_freq(policy_freq: int, factor: int, min: int, max: int) -> int {
    let sum = policy_freq + spec_freq_delta(factor);
    if sum < min {
        min
    } else if sum > max {
        max
    } else {
        sum
    }
}

/// The control factor for the last frame against the target frame duration,
/// in `FACTOR_SCALE` units: positive when the frame ran long (raise the
/// frequency), negative when it ran short (allow lowering), with magnitude
/// `|frame - target| / target * (120 / target_fps)`. The fixed-point
/// magnitude rounds up, so any nonzero deviation keeps its sign.
pub open spec fn spec_scale_factor(target_fps: u32, frame: u64, target: u64) -> int {
    let den = target * target_fps;
    if frame >= target {
        ((frame - target) * 120 * FACTOR_SCALE + den - 1) / den
    } else {
        -(((target - frame) * 120 * FACTOR_SCALE + den - 1) / den)
    }
}

/// The control factor is an odd function of the frame's deviation from the
/// target: overshooting by `d` and undershooting by `d` give factors of the
/// same magnitude and opposite sign.
pub proof fn lemma_scale_factor_odd(target_fps: u32, target: u64, d: u64)
    requires
        1 <= target_fps,
        1 <= target,
        d <= target,
        target + d <= u64::MAX,
    ensures
        spec_scale_factor(target_fps, (target + d) as u64, target) == -spec_scale_factor(
            target_fps,
            (target - d) as u64,
            target,
        ),
{
    let frame_hi = (target + d) as u64;
    let frame_lo = (target - d) as u64;
    let den = target as int * target_fps as int;
    assert(target as int * target_fps as int >= 1) by (nonlinear_arith)
        requires
            target >= 1,
            target_fps >= 1,
    ;
    if d == 0 {
        assert((frame_hi - target) * 120 * FACTOR_SCALE == 0);
        assert((target - frame_lo) * 120 * FACTOR_SCALE == 0);
        lemma_basic_div(den - 1, den);
    } else {
        assert((frame_hi - target) * 120 * FACTOR_SCALE == (target - frame_lo) * 120
            * FACTOR_SCALE);
    }
}

/// The write that `init_game` queues for cluster `j`: the global maximum at
/// weight one.
pub open spec fn game_write(pre: Controller, j: int) -> FreqWrite {
    (FreqWrite {
        policy: pre.cpu_infos@[j].policy,
        request: (FreqRequest::Limited { freq: pre.max_freq, weight: WEIGHT_SCALE }),
    })
}

/// The write that `init_default` queues for cluster `j`: its system default.
pub open spec fn default_write(pre: Controller, j: int) -> FreqWrite {
    (FreqWrite { policy: pre.cpu_infos@[j].policy, request: FreqRequest::Default })
}

/// The write that `fas_update_freq` queues for cluster `j`: the clamped new
/// requested frequency at the cluster's refreshed weight.
pub open spec fn fas_write(
    pre: Controller,
    factor: i128,
    snapshot: Option<Vec<WeightEntry>>,
    j: int,
) -> FreqWrite {
    (FreqWrite {
        policy: pre.cpu_infos@[j].policy,
        request: (FreqRequest::Limited {
            freq: spec_next_freq(
                pre.policy_freq as int,
                factor as int,
                pre.min_freq as int,
                pre.max_freq as int,
            ) as i64,
            weight: weight_of(
                pre.weighted_calculator.spec_updated(snapshot).weights@,
                pre.cpu_infos@[j].policy,
            ),
        }),
    })
}

/// The relation between a controller before and after `fas_update_freq`:
/// the requested frequency moves by the factor's delta and stays clamped to
/// the global bounds, the weights tick once, and every cluster is asked for
/// the new frequency at its weight.
pub open spec fn fas_update_rel(
    pre: Controller,
    post: Controller,
    factor: i128,
    snapshot: Option<Vec<WeightEntry>>,
) -> bool {
    &&& post.max_freq == pre.max_freq
    &&& post.min_freq == pre.min_freq
    &&& post.policy_freq as int == spec_next_freq(
        pre.policy_freq as int,
        factor as int,
        pre.min_freq as int,
        pre.max_freq as int,
    )
    &&& post.weighted_calculator == pre.weighted_calculator.spec_updated(snapshot)
    &&& post.cpu_infos@.len() == pre.cpu_infos@.len()
    &&& forall|j: int|
        0 <= j < pre.cpu_infos@.len() ==> post.cpu_infos@[j] == cluster_with_request(
            pre.cpu_infos@[j],
            fas_write(pre, factor, snapshot, j).request,
        )
    &&& post.pending_writes@ == pre.pending_writes@ + Seq::new(
        pre.cpu_infos@.len(),
        |j: int| fas_write(pre, factor, snapshot, j),
    )
}

/// The relation between a controller before and after `init_game`: the
/// weight estimator is cleared, the requested frequency returns to the
/// global maximum and every cluster is asked for it at weight one.
pub open spec fn init_game_rel(pre: Controller, post: Controller) -> bool {
    &&& post.max_freq == pre.max_freq
    &&& post.min_freq == pre.min_freq
    &&& post.policy_freq == pre.max_freq
    &&& post.weighted_calculator.weights@ == Seq::<WeightEntry>::empty()
    &&& post.weighted_calculator.ticks == 0
    &&& post.cpu_infos@.len() == pre.cpu_infos@.len()
    &&& forall|i: int|
        0 <= i < pre.cpu_infos@.len() ==> post.cpu_infos@[i] == cluster_with_request(
            pre.cpu_infos@[i],
            (FreqRequest::Limited { freq: pre.max_freq, weight: WEIGHT_SCALE }),
        )
    &&& post.pending_writes@ == pre.pending_writes@ + Seq::new(
        pre.cpu_infos@.len(),
        |i: int| game_write(pre, i),
    )
}

/// The relation between a controller before and after `init_default`: the
/// weight estimator is cleared and every cluster is sent back to its system
/// default.
pub open spec fn init_default_rel(pre: Controller, post: Controller) -> bool {
    &&& post.max_freq == pre.max_freq
    &&& post.min_freq == pre.min_freq
    &&& post.policy_freq == pre.max_freq
    &&& post.weighted_calculator.weights@ == Seq::<WeightEntry>::empty()
    &&& post.weighted_calculator.ticks == 0
    &&& post.cpu_infos@.len() == pre.cpu_infos@.len()
    &&& forall|i: int|
        0 <= i < pre.cpu_infos@.len() ==> post.cpu_infos@[i] == cluster_with_request(
            pre.cpu_infos@[i],
            FreqRequest::Default,
        )
    &&& post.pending_writes@ == pre.pending_writes@ + Seq::new(
        pre.cpu_infos@.len(),
        |i: int| default_write(pre, i),
    )
}

/// The frequency controller. `policy_freq` is the single requested
/// frequency, always within the global `[min_freq, max_freq]` bounds derived
/// once from the union of all clusters' supported steps.
pub struct Controller {
    pub max_freq: i64,
    pub min_freq: i64,
    pub policy_freq: i64,
    pub cpu_infos: Vec<CpuInfo>,
    pub pending_writes: Vec<FreqWrite>,
    pub weighted_calculator: WeightedCalculator,
}

impl Controller {
    pub open spec fn wf(&self) -> bool {
        &&& self.cpu_infos@.len() >= 1
        &&& forall|i: int| 0 <= i < self.cpu_infos@.len() ==> self.cpu_infos@[i].wf()
        &&& self.min_freq <= self.policy_freq <= self.max_freq
    }

    /// Build the controller over a non-empty set of clusters; the global
    /// bounds are the extremes over all clusters' steps and the initial
    /// request is the maximum.
    pub fn new(cpu_infos: Vec<CpuInfo>) -> (r: Controller)
        requires
            cpu_infos@.len() >= 1,
            forall|i: int| 0 <= i < cpu_infos@.len() ==> cpu_infos@[i].wf(),
        ensures
            r.wf(),
            r.cpu_infos@ == cpu_infos@,
            is_global_max(r.max_freq, cpu_infos@),
            is_global_min(r.min_freq, cpu_infos@),
            r.policy_freq == r.max_freq,
            r.pending_writes@ == Seq::<FreqWrite>::empty(),
            r.weighted_calculator.weights@ == Seq::<WeightEntry>::empty(),
            r.weighted_calculator.ticks == 0,
    {
        let first = &cpu_infos[0];
        let mut max_freq: i64 = first.freqs[first.freqs.len() - 1];
        let mut min_freq: i64 = first.freqs[0];
        let mut i: usize = 1;
        proof {
            assert(cpu_infos@.take(1)[0] == cpu_infos@[0]);
            assert(max_freq == cpu_infos@.take(1)[0].max_freq());
            assert(min_freq == cpu_infos@.take(1)[0].min_freq());
        }
        while i < cpu_infos.len()
            invariant
                1 <= i <= cpu_infos@.len(),
                forall|j: int| 0 <= j < cpu_infos@.len() ==> cpu_infos@[j].wf(),
                is_global_max(max_freq, cpu_infos@.take(i as int)),
                is_global_min(min_freq, cpu_infos@.take(i as int)),
            decreases cpu_infos@.len() - i,
        {
            let c = &cpu_infos[i];
            let c_max = c.freqs[c.freqs.len() - 1];
            let c_min = c.freqs[0];
            let ghost old_max = max_freq;
            let ghost old_min = min_freq;
            if c_max > max_freq {
                max_freq = c_max;
            }
            if c_min < min_freq {
                min_freq = c_min;
            }
            proof {
                let k = i as int;
                assert(cpu_infos@.take(k + 1) =~= cpu_infos@.take(k).push(cpu_infos@[k]));
                assert(cpu_infos@.take(k + 1)[k] == cpu_infos@[k]);
                if c_max > old_max {
                    assert(max_freq == cpu_infos@.take(k + 1)[k].max_freq());
                } else {
                    let w = choose|j: int|
                        0 <= j < k && old_max == cpu_infos@.take(k)[j].max_freq();
                    assert(cpu_infos@.take(k + 1)[w] == cpu_infos@.take(k)[w]);
                    assert(max_freq == cpu_infos@.take(k + 1)[w].max_freq());
                }
                if c_min < old_min {
                    assert(min_freq == cpu_infos@.take(k + 1)[k].min_freq());
                } else {
                    let w = choose|j: int|
                        0 <= j < k && old_min == cpu_infos@.take(k)[j].min_freq();
                    assert(cpu_infos@.take(k + 1)[w] == cpu_infos@.take(k)[w]);
                    assert(min_freq == cpu_infos@.take(k + 1)[w].min_freq());
                }
                assert forall|j: int|
                    0 <= j < k + 1 implies #[trigger] cpu_infos@.take(k + 1)[j].max_freq()
                    <= max_freq by {
                    if j < k {
                        assert(cpu_infos@.take(k)[j] == cpu_infos@.take(k + 1)[j]);
                    }
                }
                assert forall|j: int|
                    0 <= j < k + 1 implies min_freq <= #[trigger] cpu_infos@.take(
                    k + 1,
                )[j].min_freq() by {
                    if j < k {
                        assert(cpu_infos@.take(k)[j] == cpu_infos@.take(k + 1)[j]);
                    }
                }
            }
            i = i + 1;
        }
        proof {
            assert(cpu_infos@.take(cpu_infos@.len() as int) =~= cpu_infos@);
            assert(cpu_infos@[0].min_freq() <= cpu_infos@[0].max_freq());
        }
        Controller {
            max_freq,
            min_freq,
            policy_freq: max_freq,
            cpu_infos,
            pending_writes: Vec::new(),
            weighted_calculator: WeightedCalculator::new(),
        }
    }

    /// Game start: clear the weight estimator and request the global
    /// maximum on every cluster at weight one, announcing `InitCpuFreq` to
    /// the extensions before the writes.
    pub fn init_game(&mut self, extension: &mut Extension)
        requires
            old(self).wf(),
        ensures
            final(self).wf(),
            init_game_rel(*old(self), *final(self)),
            final(extension).events@ == old(extension).events@ + broadcast3(ApiEvent::InitCpuFreq),
    {
        let ghost pre = *old(self);
        self.weighted_calculator.clear();
        self.policy_freq = self.max_freq;
        extension.trigger_extensions(ApiVersion::V0, ApiEvent::InitCpuFreq);
        extension.trigger_extensions(ApiVersion::V1, ApiEvent::InitCpuFreq);
        extension.trigger_extensions(ApiVersion::V2, ApiEvent::InitCpuFreq);
        proof {
            assert(extension.events@ =~= old(extension).events@ + broadcast3(
                ApiEvent::InitCpuFreq,
            ));
        }
        let target: i64 = self.max_freq;
        let n: usize = self.cpu_infos.len();
        let mut i: usize = 0;
        proof {
            assert(self.pending_writes@ =~= pre.pending_writes@ + Seq::new(
                0,
                |j: int| game_write(pre, j),
            ));
        }
        while i < n
            invariant
                0 <= i <= n,
                n == self.cpu_infos@.len(),
                self.cpu_infos@.len() == pre.cpu_infos@.len(),
                forall|j: int| 0 <= j < pre.cpu_infos@.len() ==> pre.cpu_infos@[j].wf(),
                pre.min_freq <= pre.max_freq,
                target == pre.max_freq,
                self.max_freq == pre.max_freq,
                self.min_freq == pre.min_freq,
                self.policy_freq == pre.max_freq,
                self.weighted_calculator.weights@ == Seq::<WeightEntry>::empty(),
                self.weighted_calculator.ticks == 0,
                forall|j: int|
                    0 <= j < i ==> self.cpu_infos@[j] == cluster_with_request(
                        pre.cpu_infos@[j],
                        (FreqRequest::Limited { freq: pre.max_freq, weight: WEIGHT_SCALE }),
                    ),
                forall|j: int| i <= j < n ==> self.cpu_infos@[j] == pre.cpu_infos@[j],
                self.pending_writes@ == pre.pending_writes@ + Seq::new(
                    i as nat,
                    |j: int| game_write(pre, j),
                ),
            decreases n - i,
        {
            let policy = self.cpu_infos[i].policy;
            let elem = &mut self.cpu_infos[i];
            elem.request = FreqRequest::Limited { freq: target, weight: WEIGHT_SCALE };
            self.pending_writes.push(
                FreqWrite {
                    policy,
                    request: FreqRequest::Limited { freq: target, weight: WEIGHT_SCALE },
                },
            );
            proof {
                assert(self.pending_writes@ =~= pre.pending_writes@ + Seq::new(
                    (i + 1) as nat,
                    |j: int| game_write(pre, j),
                ));
            }
            i = i + 1;
        }
    }

    /// Game stop: clear the weight estimator and send every cluster back to
    /// its system default, announcing `ResetCpuFreq` before the writes.
    pub fn init_default(&mut self, extension: &mut Extension)
        requires
            old(self).wf(),
        ensures
            final(self).wf(),
            init_default_rel(*old(self), *final(self)),
            final(extension).events@ == old(extension).events@ + broadcast3(
                ApiEvent::ResetCpuFreq,
            ),
    {
        let ghost pre = *old(self);
        self.weighted_calculator.clear();
        self.policy_freq = self.max_freq;
        extension.trigger_extensions(ApiVersion::V0, ApiEvent::ResetCpuFreq);
        extension.trigger_extensions(ApiVersion::V1, ApiEvent::ResetCpuFreq);
        extension.trigger_extensions(ApiVersion::V2, ApiEvent::ResetCpuFreq);
        proof {
            assert(extension.events@ =~= old(extension).events@ + broadcast3(
                ApiEvent::ResetCpuFreq,
            ));
        }
        let n: usize = self.cpu_infos.len();
        let mut i: usize = 0;
        proof {
            assert(self.pending_writes@ =~= pre.pending_writes@ + Seq::new(
                0,
                |j: int| default_write(pre, j),
            ));
        }
        while i < n
            invariant
                0 <= i <= n,
                n == self.cpu_infos@.len(),
                self.cpu_infos@.len() == pre.cpu_infos@.len(),
                forall|j: int| 0 <= j < pre.cpu_infos@.len() ==> pre.cpu_infos@[j].wf(),
                pre.min_freq <= pre.max_freq,
                self.max_freq == pre.max_freq,
                self.min_freq == pre.min_freq,
                self.policy_freq == pre.max_freq,
                self.weighted_calculator.weights@ == Seq::<WeightEntry>::empty(),
                self.weighted_calculator.ticks == 0,
                forall|j: int|
                    0 <= j < i ==> self.cpu_infos@[j] == cluster_with_request(
                        pre.cpu_infos@[j],
                        FreqRequest::Default,
                    ),
                forall|j: int| i <= j < n ==> self.cpu_infos@[j] == pre.cpu_infos@[j],
                self.pending_writes@ == pre.pending_writes@ + Seq::new(
                    i as nat,
                    |j: int| default_write(pre, j),
                ),
            decreases n - i,
        {
            let policy = self.cpu_infos[i].policy;
            let elem = &mut self.cpu_infos[i];
            elem.request = FreqRequest::Default;
            self.pending_writes.push(FreqWrite { policy, request: FreqRequest::Default });
            proof {
                assert(self.pending_writes@ =~= pre.pending_writes@ + Seq::new(
                    (i + 1) as nat,
                    |j: int| default_write(pre, j),
                ));
            }
            i = i + 1;
        }
    }

    /// One control step: move the requested frequency by the factor's delta,
    /// clamped to the global bounds, tick the weight estimator with the
    /// given thread-affinity snapshot, and queue a weighted write for every
    /// cluster. The requested frequency never leaves `[min_freq, max_freq]`,
    /// however large the factor.
    pub fn fas_update_freq(&mut self, factor: i128, snapshot: Option<Vec<WeightEntry>>)
        requires
            old(self).wf(),
            -FACTOR_LIMIT <= factor <= FACTOR_LIMIT,
        ensures
            final(self).wf(),
            fas_update_rel(*old(self), *final(self), factor, snapshot),
            old(self).min_freq <= final(self).policy_freq <= old(self).max_freq,
    {
        let ghost pre = *old(self);
        self.weighted_calculator.update(snapshot);
        let neg: bool = factor < 0;
        let mag: u128 = if factor >= 0 {
            factor as u128
        } else {
            (-factor) as u128
        };
        proof {
            assert((BASE_FREQ as u128) * mag <= 600_000_000_000_000_000_000_000_000_000_000_000u128)
                by (nonlinear_arith)
                requires
                    BASE_FREQ as u128 == 600_000u128,
                    mag <= 1_000_000_000_000_000_000_000_000_000_000u128,
            ;
        }
        let num: u128 = (BASE_FREQ as u128) * mag;
        proof {
            lemma_div_nonincreasing(num as int, FACTOR_SCALE as int);
            lemma_div_pos_is_pos(num as int, FACTOR_SCALE as int);
        }
        let dmag: u128 = num / (FACTOR_SCALE as u128);
        let delta: i128 = if neg {
            -(dmag as i128)
        } else {
            dmag as i128
        };
        let sum: i128 = (self.policy_freq as i128) + delta;
        let lo: i64 = self.min_freq;
        let hi: i64 = self.max_freq;
        let nf: i64 = if sum < lo as i128 {
            lo
        } else if sum > hi as i128 {
            hi
        } else {
            sum as i64
        };
        self.policy_freq = nf;
        let ghost calc = self.weighted_calculator;
        let n: usize = self.cpu_infos.len();
        let mut i: usize = 0;
        proof {
            assert(self.pending_writes@ =~= pre.pending_writes@ + Seq::new(
                0,
                |j: int| fas_write(pre, factor, snapshot, j),
            ));
        }
        while i < n
            invariant
                0 <= i <= n,
                n == self.cpu_infos@.len(),
                self.cpu_infos@.len() == pre.cpu_infos@.len(),
                forall|j: int| 0 <= j < pre.cpu_infos@.len() ==> pre.cpu_infos@[j].wf(),
                pre.min_freq <= pre.max_freq,
                self.max_freq == pre.max_freq,
                self.min_freq == pre.min_freq,
                self.weighted_calculator == calc,
                calc == pre.weighted_calculator.spec_updated(snapshot),
                nf as int == spec_next_freq(
                    pre.policy_freq as int,
                    factor as int,
                    pre.min_freq as int,
                    pre.max_freq as int,
                ),
                pre.min_freq <= nf <= pre.max_freq,
                self.policy_freq == nf,
                forall|j: int|
                    0 <= j < i ==> self.cpu_infos@[j] == cluster_with_request(
                        pre.cpu_infos@[j],
                        fas_write(pre, factor, snapshot, j).request,
                    ),
                forall|j: int| i <= j < n ==> self.cpu_infos@[j] == pre.cpu_infos@[j],
                self.pending_writes@ == pre.pending_writes@ + Seq::new(
                    i as nat,
                    |j: int| fas_write(pre, factor, snapshot, j),
                ),
            decreases n - i,
        {
            let policy = self.cpu_infos[i].policy;
            let w: u64 = self.weighted_calculator.weight(policy);
            let elem = &mut self.cpu_infos[i];
            elem.request = FreqRequest::Limited { freq: nf, weight: w };
            self.pending_writes.push(
                FreqWrite { policy, request: FreqRequest::Limited { freq: nf, weight: w } },
            );
            proof {
                assert(self.pending_writes@ =~= pre.pending_writes@ + Seq::new(
                    (i + 1) as nat,
                    |j: int| fas_write(pre, factor, snapshot, j),
                ));
            }
            i = i + 1;
        }
    }

    /// The control factor for the last frame against the target frame
    /// duration, both in nanoseconds, in `FACTOR_SCALE` units: positive
    /// exactly when the frame ran long (raise the frequency), negative
    /// exactly when it ran short (allow lowering), zero on target, with the
    /// magnitude proportional to the deviation and normalised by the target
    /// frame rate.
    pub fn scale_factor(target_fps: u32, frame: u64, target: u64) -> (r: i128)
        requires
            1 <= target_fps,
            1 <= target,
        ensures
            r == spec_scale_factor(target_fps, frame, target),
            frame > target ==> r > 0,
            frame < target ==> r < 0,
            frame == target ==> r == 0,
            -FACTOR_LIMIT <= r <= FACTOR_LIMIT,
    {
        proof {
            assert((target as int) * (target_fps as int) >= 1) by (nonlinear_arith)
                requires
                    target >= 1,
                    target_fps >= 1,
            ;
            assert((target as int) * (target_fps as int) <= (u64::MAX as int) * (
            u32::MAX as int)) by (nonlinear_arith)
                requires
                    target <= u64::MAX,
                    target_fps <= u32::MAX,
            ;
        }
        let den: u128 = (target as u128) * (target_fps as u128);
        if frame > target {
            let diff: u64 = frame - target;
            let num: u128 = (diff as u128) * 120 * 1_000_000;
            proof {
                lemma_div_nonincreasing((num + den - 1) as int, den as int);
                lemma_div_pos_is_pos((num + den - 1) as int, den as int);
                lemma_div_is_ordered(den as int, (num + den - 1) as int, den as int);
                lemma_div_by_self(den as int);
            }
            let q: u128 = (num + den - 1) / den;
            q as i128
        } else if frame < target {
            let diff: u64 = target - frame;
            let num: u128 = (diff as u128) * 120 * 1_000_000;
            proof {
                lemma_div_nonincreasing((num + den - 1) as int, den as int);
                lemma_div_pos_is_pos((num + den - 1) as int, den as int);
                lemma_div_is_ordered(den as int, (num + den - 1) as int, den as int);
                lemma_div_by_self(den as int);
            }
            let q: u128 = (num + den - 1) / den;
            -(q as i128)
        } else {
            proof {
                lemma_basic_div(den as int - 1, den as int);
            }
            0
        }
    }

    /// Hand out the queued per-cluster writes, so the unverified sysfs
    /// writer can perform them.
    pub fn take_pending_writes(&mut self) -> (r: Vec<FreqWrite>)
        ensures
            r@ == old(self).pending_writes@,
            final(self).pending_writes@ == Seq::<FreqWrite>::empty(),
            final(self).max_freq == old(self).max_freq,
            final(self).min_freq == old(self).min_freq,
            final(self).policy_freq == old(self).policy_freq,
            final(self).cpu_infos == old(self).cpu_infos,
            final(self).weighted_calculator == old(self).weighted_calculator,
    {
        let mut out: Vec<FreqWrite> = Vec::new();
        core::mem::swap(&mut out, &mut self.pending_writes);
        out
    }
}

} // verus!
