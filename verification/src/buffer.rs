//! The frame-timing buffer for the monitored process: a time-bounded window
//! of frame durations plus a usability state that turns on once enough
//! samples have accumulated.

use vstd::prelude::*;

verus! {

/// The span of the sliding window, in nanoseconds: samples are kept while
/// the frame time accumulated after them stays within this span, so the
/// window's length varies with the actual frame cadence.
pub const BUFFER_WINDOW_NS: u64 = 1_000_000_000;

/// Whether the buffer has accumulated enough samples to steer on.
#[derive(Clone, Copy, Debug, PartialEq, Eq, Structural)]
pub enum BufferState {
    Unusable,
    Usable,
}

/// The total frame time held in a window.
pub open spec fn seq_sum(s: Seq<u64>) -> int
    decreases s.len(),
{
    if s.len() == 0 {
        0
    } else {
        s[0] + seq_sum(s.drop_first())
    }
}

proof fn lemma_seq_sum_nonneg(s: Seq<u64>)
    ensures
        seq_sum(s) >= 0,
    decreases s.len(),
{
    if s.len() > 0 {
        lemma_seq_sum_nonneg(s.drop_first());
    }
}

proof fn lemma_seq_sum_push(s: Seq<u64>, x: u64)
    ensures
        seq_sum(s.push(x)) == seq_sum(s) + x,
    decreases s.len(),
{
    assert(s.push(x).len() == s.len() + 1);
    if s.len() == 0 {
        assert(s.push(x).drop_first() =~= Seq::<u64>::empty());
        assert(s.push(x)[0] == x);
        assert(seq_sum(s.push(x)) == s.push(x)[0] + seq_sum(s.push(x).drop_first()));
        assert(seq_sum(s.push(x).drop_first()) == 0);
        assert(seq_sum(s) == 0);
    } else {
        assert(s.push(x).drop_first() =~= s.drop_first().push(x));
        lemma_seq_sum_push(s.drop_first(), x);
        assert(s.push(x)[0] == s[0]);
        assert(seq_sum(s.push(x)) == s.push(x)[0] + seq_sum(s.push(x).drop_first()));
        assert(seq_sum(s) == s[0] + seq_sum(s.drop_first()));
    }
}

/// The window after trimming: the oldest samples are dropped until the
/// total frame time fits the span.
pub open spec fn spec_trim(s: Seq<u64>) -> Seq<u64>
    decreases s.len(),
{
    if seq_sum(s) <= BUFFER_WINDOW_NS {
        s
    } else if s.len() == 0 {
        s
    } else {
        spec_trim(s.drop_first())
    }
}

proof fn lemma_trim_all(s: Seq<u64>, x: u64)
    requires
        x > BUFFER_WINDOW_NS,
    ensures
        spec_trim(s.push(x)) == Seq::<u64>::empty(),
    decreases s.len(),
{
    lemma_seq_sum_push(s, x);
    lemma_seq_sum_nonneg(s);
    assert(seq_sum(s.push(x)) > BUFFER_WINDOW_NS);
    assert(s.push(x).len() > 0);
    assert(spec_trim(s.push(x)) == spec_trim(s.push(x).drop_first()));
    if s.len() == 0 {
        assert(s.push(x).drop_first() =~= Seq::<u64>::empty());
        assert(seq_sum(s.push(x).drop_first()) == 0);
        assert(spec_trim(s.push(x).drop_first()) == s.push(x).drop_first());
    } else {
        assert(s.push(x).drop_first() =~= s.drop_first().push(x));
        lemma_trim_all(s.drop_first(), x);
    }
}

/// The buffer before and after one pushed sample: identity fields are kept,
/// the window gains the sample and is trimmed to the span, the sample count
/// rises by one (saturating), and the state is usable exactly once the
/// count has reached the target frame rate.
pub open spec fn push_rel(pre: Buffer, post: Buffer, frametime: u64) -> bool {
    &&& post.pid == pre.pid
    &&& post.pkg == pre.pkg
    &&& post.target_fps == pre.target_fps
    &&& post.frametimes@ == spec_trim(pre.frametimes@.push(frametime))
    &&& post.pushed_count == (if pre.pushed_count < u64::MAX {
        pre.pushed_count + 1
    } else {
        pre.pushed_count as int
    })
    &&& post.state == (if post.pushed_count >= post.target_fps {
        BufferState::Usable
    } else {
        BufferState::Unusable
    })
}

/// The frame buffer for one monitored process.
pub struct Buffer {
    pub pid: i32,
    pub pkg: String,
    pub target_fps: u32,
    pub frametimes: Vec<u64>,
    pub window_total: u64,
    pub pushed_count: u64,
    pub state: BufferState,
}

impl Buffer {
    /// `window_total` caches the window's total frame time, which always
    /// fits the span; the state follows the sample count against the
    /// (positive) target frame rate.
    pub open spec fn wf(&self) -> bool {
        &&& self.window_total == seq_sum(self.frametimes@)
        &&& seq_sum(self.frametimes@) <= BUFFER_WINDOW_NS
        &&& 1 <= self.target_fps
        &&& self.state == (if self.pushed_count >= self.target_fps {
            BufferState::Usable
        } else {
            BufferState::Unusable
        })
    }

    /// A fresh, unusable buffer for one process with its configured target
    /// frame rate.
    pub fn new(target_fps: u32, pid: i32, pkg: String) -> (b: Buffer)
        requires
            1 <= target_fps,
        ensures
            b.wf(),
            b.pid == pid,
            b.pkg == pkg,
            b.target_fps == target_fps,
            b.frametimes@ == Seq::<u64>::empty(),
            b.pushed_count == 0,
            b.state == BufferState::Unusable,
    {
        Buffer {
            pid,
            pkg,
            target_fps,
            frametimes: Vec::new(),
            window_total: 0,
            pushed_count: 0,
            state: BufferState::Unusable,
        }
    }

    /// Append one sample, trim samples older than the window span, and
    /// refresh the usability state. Never fails; zero durations are
    /// filtered out by the caller before they reach the buffer.
    pub fn push_frametime(&mut self, frametime: u64)
        requires
            old(self).wf(),
        ensures
            final(self).wf(),
            push_rel(*old(self), *final(self), frametime),
    {
        let ghost orig = self.frametimes@.push(frametime);
        if frametime > BUFFER_WINDOW_NS {
            proof {
                lemma_trim_all(self.frametimes@, frametime);
            }
            self.frametimes.clear();
            self.window_total = 0;
        } else {
            proof {
                lemma_seq_sum_push(self.frametimes@, frametime);
            }
            self.frametimes.push(frametime);
            self.window_total = self.window_total + frametime;
            while self.window_total > BUFFER_WINDOW_NS
                invariant
                    self.window_total == seq_sum(self.frametimes@),
                    spec_trim(self.frametimes@) == spec_trim(orig),
                    self.pid == old(self).pid,
                    self.pkg == old(self).pkg,
                    self.target_fps == old(self).target_fps,
                    self.pushed_count == old(self).pushed_count,
                    self.state == old(self).state,
                decreases self.frametimes@.len(),
            {
                let ghost before = self.frametimes@;
                proof {
                    assert(before.len() > 0) by {
                        if before.len() == 0 {
                            assert(seq_sum(before) == 0);
                        }
                    }
                    lemma_seq_sum_nonneg(before.drop_first());
                }
                let front = self.frametimes.remove(0);
                proof {
                    assert(self.frametimes@ =~= before.drop_first());
                }
                self.window_total = self.window_total - front;
            }
        }
        if self.pushed_count < u64::MAX {
            self.pushed_count = self.pushed_count + 1;
        }
        if self.pushed_count >= self.target_fps as u64 {
            self.state = BufferState::Usable;
        } else {
            self.state = BufferState::Unusable;
        }
    }
}

} // verus!
