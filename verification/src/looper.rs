//! The lifecycle state machine: tracks whether the monitored foreground app
//! is present and past the settling delay, owns the single frame buffer,
//! and drives the frequency controller's resets around activation
//! boundaries. Wall-clock instants and resolved process names are handed in
//! as plain values by the surrounding, unverified loop.

use vstd::prelude::*;

use crate::buffer::{push_rel, spec_trim, Buffer, BufferState};
use crate::config::{lemma_target_fps_positive, spec_target_fps, Config};
use crate::cpu_common::{init_default_rel, init_game_rel, Controller};
use crate::extension::{broadcast3, ApiEvent, ApiVersion, Extension, FiredEvent};

verus! {

/// The settling delay, in milliseconds, between a monitored app becoming
/// eligible and the start of active steering; it absorbs brief foreground
/// flickers before the controller commits.
pub const DELAY_TIME_MS: u64 = 3000;

/// Whether the controller is steering frequencies for the foreground app.
#[derive(Clone, Copy, Debug, PartialEq, Eq, Structural)]
pub enum State {
    NotWorking,
    Waiting,
    Working,
}

/// One frame event: the process it belongs to and the frame's duration in
/// nanoseconds. A zero duration means "no data" and is discarded.
pub struct FasData {
    pub pid: i32,
    pub frametime: u64,
}

/// Stands for the cleanup-prevention hooks that are applied while actively
/// steering; the hooks themselves run outside the verified core.
pub struct Cleaner {
    pub applied: bool,
}

impl Cleaner {
    pub fn new() -> (c: Cleaner)
        ensures
            !c.applied,
    {
        Cleaner { applied: false }
    }

    pub fn cleanup(&mut self)
        ensures
            final(self).applied,
    {
        self.applied = true;
    }

    pub fn undo_cleanup(&mut self)
        ensures
            !final(self).applied,
    {
        self.applied = false;
    }
}

/// The orchestrator: at most one buffer exists system-wide at any time.
pub struct Looper {
    pub buffer: Option<Buffer>,
    pub state: State,
    pub delay_timer: u64,
    pub topapp_pids: Vec<i32>,
    pub config: Config,
    pub controller: Controller,
    pub extension: Extension,
    pub cleaner: Cleaner,
}

/// What `disable_fas` does, by prior state: from `Working` it undoes the
/// cleanup hooks, resets the controller to defaults and fires the reset and
/// stop notifications; from `Waiting` it falls back silently; from
/// `NotWorking` it changes nothing. `pre_events` is the event log before
/// the step.
pub open spec fn disabled_core(pre: Looper, post: Looper, pre_events: Seq<FiredEvent>) -> bool {
    match pre.state {
        State::Working => {
            &&& post.state == State::NotWorking
            &&& post.cleaner.applied == false
            &&& init_default_rel(pre.controller, post.controller)
            &&& post.extension.events@ == pre_events + broadcast3(ApiEvent::ResetCpuFreq)
                + broadcast3(ApiEvent::StopFas)
        },
        State::Waiting => {
            &&& post.state == State::NotWorking
            &&& post.cleaner == pre.cleaner
            &&& post.controller == pre.controller
            &&& post.extension.events@ == pre_events
        },
        State::NotWorking => {
            &&& post.state == State::NotWorking
            &&& post.cleaner == pre.cleaner
            &&& post.controller == pre.controller
            &&& post.extension.events@ == pre_events
        },
    }
}

/// What `enable_fas` does, by prior state: from `NotWorking` it records the
/// activation instant and fires the start notifications, without touching
/// the controller; from `Waiting` it begins steering — cleanup hooks plus a
/// reset to maximum — only once the settling delay has elapsed; from
/// `Working` it changes nothing.
pub open spec fn enabled_core(
    pre: Looper,
    post: Looper,
    pre_events: Seq<FiredEvent>,
    now_ms: u64,
) -> bool {
    match pre.state {
        State::NotWorking => {
            &&& post.state == State::Waiting
            &&& post.delay_timer == now_ms
            &&& post.cleaner == pre.cleaner
            &&& post.controller == pre.controller
            &&& post.extension.events@ == pre_events + broadcast3(ApiEvent::StartFas)
        },
        State::Waiting => {
            if now_ms - pre.delay_timer > DELAY_TIME_MS {
                &&& post.state == State::Working
                &&& post.delay_timer == pre.delay_timer
                &&& post.cleaner.applied == true
                &&& init_game_rel(pre.controller, post.controller)
                &&& post.extension.events@ == pre_events + broadcast3(ApiEvent::InitCpuFreq)
            } else {
                &&& post.state == pre.state
                &&& post.delay_timer == pre.delay_timer
                &&& post.cleaner == pre.cleaner
                &&& post.controller == pre.controller
                &&& post.extension.events@ == pre_events
            }
        },
        State::Working => {
            &&& post.state == pre.state
            &&& post.delay_timer == pre.delay_timer
            &&& post.cleaner == pre.cleaner
            &&& post.controller == pre.controller
            &&& post.extension.events@ == pre_events
        },
    }
}

/// Hysteresis of activation: from `NotWorking`, one `enable_fas` call
/// leaves the controller untouched; the controller resets to maximum only
/// on a second call made after the settling delay has elapsed, and stays
/// untouched on an earlier one.
pub proof fn lemma_enable_fas_hysteresis(l0: Looper, l1: Looper, l2: Looper, t0: u64, t1: u64)
    requires
        l0.state == State::NotWorking,
        enabled_core(l0, l1, l0.extension.events@, t0),
        enabled_core(l1, l2, l1.extension.events@, t1),
    ensures
        l1.controller == l0.controller,
        t1 - t0 > DELAY_TIME_MS ==> l2.state == State::Working && init_game_rel(
            l1.controller,
            l2.controller,
        ),
        t1 - t0 <= DELAY_TIME_MS ==> l2.state == State::Waiting && l2.controller
            == l0.controller,
{
}

/// Idempotence of deactivation: from `NotWorking`, two `disable_fas` calls
/// in a row fire no notifications and leave the controller untouched.
pub proof fn lemma_disable_fas_idempotent(l0: Looper, l1: Looper, l2: Looper)
    requires
        l0.state == State::NotWorking,
        disabled_core(l0, l1, l0.extension.events@),
        disabled_core(l1, l2, l1.extension.events@),
    ensures
        l1.extension.events@ == l0.extension.events@,
        l2.extension.events@ == l0.extension.events@,
        l1.controller == l0.controller,
        l2.controller == l0.controller,
        l1.cleaner == l0.cleaner,
        l2.cleaner == l0.cleaner,
{
}

/// Whether a pid is in the foreground snapshot.
pub fn contains_pid(pids: &Vec<i32>, pid: i32) -> (r: bool)
    ensures
        r == pids@.contains(pid),
{
    let mut i: usize = 0;
    while i < pids.len()
        invariant
            0 <= i <= pids@.len(),
            forall|j: int| 0 <= j < i ==> pids@[j] != pid,
        decreases pids@.len() - i,
    {
        if pids[i] == pid {
            return true;
        }
        i = i + 1;
    }
    proof {
        if pids@.contains(pid) {
            let j = choose|j: int| 0 <= j < pids@.len() && pids@[j] == pid;
            assert(false);
        }
    }
    false
}

impl Looper {
    pub open spec fn wf(&self) -> bool {
        &&& self.controller.wf()
        &&& self.config.wf()
        &&& (self.buffer matches Some(b) ==> b.wf())
    }

    /// A fresh, inactive orchestrator with an empty foreground snapshot.
    pub fn new(config: Config, controller: Controller) -> (l: Looper)
        requires
            controller.wf(),
            config.wf(),
        ensures
            l.wf(),
            l.buffer is None,
            l.state == State::NotWorking,
            l.delay_timer == 0,
            l.topapp_pids@ == Seq::<i32>::empty(),
            l.config == config,
            l.controller == controller,
            l.extension.events@ == Seq::<FiredEvent>::empty(),
            !l.cleaner.applied,
    {
        Looper {
            buffer: None,
            state: State::NotWorking,
            delay_timer: 0,
            topapp_pids: Vec::new(),
            config,
            controller,
            extension: Extension::new(),
            cleaner: Cleaner::new(),
        }
    }

    /// Install a fresh foreground snapshot, produced by the external
    /// window watcher.
    pub fn set_topapp_pids(&mut self, pids: Vec<i32>)
        ensures
            final(self).topapp_pids == pids,
            final(self).buffer == old(self).buffer,
            final(self).state == old(self).state,
            final(self).delay_timer == old(self).delay_timer,
            final(self).config == old(self).config,
            final(self).controller == old(self).controller,
            final(self).extension == old(self).extension,
            final(self).cleaner == old(self).cleaner,
    {
        self.topapp_pids = pids;
    }

    /// Deactivate steering. From `NotWorking` this is a no-op, so calling
    /// it twice in a row produces no side effects beyond the first call.
    pub fn disable_fas(&mut self)
        requires
            old(self).wf(),
        ensures
            final(self).wf(),
            disabled_core(*old(self), *final(self), old(self).extension.events@),
            final(self).buffer == old(self).buffer,
            final(self).delay_timer == old(self).delay_timer,
            final(self).topapp_pids == old(self).topapp_pids,
            final(self).config == old(self).config,
            old(self).state == State::NotWorking ==> *final(self) == *old(self),
    {
        match self.state {
            State::Working => {
                self.state = State::NotWorking;
                self.cleaner.undo_cleanup();
                self.controller.init_default(&mut self.extension);
                self.extension.trigger_extensions(ApiVersion::V0, ApiEvent::StopFas);
                self.extension.trigger_extensions(ApiVersion::V1, ApiEvent::StopFas);
                self.extension.trigger_extensions(ApiVersion::V2, ApiEvent::StopFas);
                proof {
                    assert(self.extension.events@ =~= old(self).extension.events@ + broadcast3(
                        ApiEvent::ResetCpuFreq,
                    ) + broadcast3(ApiEvent::StopFas));
                }
            },
            State::Waiting => {
                self.state = State::NotWorking;
            },
            State::NotWorking => {},
        }
    }

    /// Activate steering, with hysteresis: the first call only starts the
    /// settling delay; the controller resets to maximum only on a call made
    /// after the delay has elapsed.
    pub fn enable_fas(&mut self, now_ms: u64)
        requires
            old(self).wf(),
            old(self).state == State::Waiting ==> now_ms >= old(self).delay_timer,
        ensures
            final(self).wf(),
            enabled_core(*old(self), *final(self), old(self).extension.events@, now_ms),
            final(self).buffer == old(self).buffer,
            final(self).topapp_pids == old(self).topapp_pids,
            final(self).config == old(self).config,
    {
        match self.state {
            State::NotWorking => {
                self.state = State::Waiting;
                self.delay_timer = now_ms;
                self.extension.trigger_extensions(ApiVersion::V0, ApiEvent::StartFas);
                self.extension.trigger_extensions(ApiVersion::V1, ApiEvent::StartFas);
                self.extension.trigger_extensions(ApiVersion::V2, ApiEvent::StartFas);
                proof {
                    assert(self.extension.events@ =~= old(self).extension.events@ + broadcast3(
                        ApiEvent::StartFas,
                    ));
                }
            },
            State::Waiting => {
                if now_ms - self.delay_timer > DELAY_TIME_MS {
                    self.state = State::Working;
                    self.cleaner.cleanup();
                    self.controller.init_game(&mut self.extension);
                }
            },
            State::Working => {},
        }
    }

    /// One orchestration step against the foreground snapshot: when the
    /// buffered process has left the foreground, fire the unload
    /// notifications and drop the buffer; then deactivate when no buffer
    /// remains, else keep activating.
    pub fn retain_topapp(&mut self, now_ms: u64)
        requires
            old(self).wf(),
            old(self).state == State::Waiting ==> now_ms >= old(self).delay_timer,
        ensures
            final(self).wf(),
            final(self).topapp_pids == old(self).topapp_pids,
            final(self).config == old(self).config,
            match old(self).buffer {
                Some(b) => {
                    if old(self).topapp_pids@.contains(b.pid) {
                        &&& final(self).buffer == old(self).buffer
                        &&& enabled_core(
                            *old(self),
                            *final(self),
                            old(self).extension.events@,
                            now_ms,
                        )
                    } else {
                        &&& final(self).buffer is None
                        &&& final(self).delay_timer == old(self).delay_timer
                        &&& disabled_core(
                            *old(self),
                            *final(self),
                            old(self).extension.events@ + broadcast3(
                                (ApiEvent::UnloadFas { pid: b.pid, pkg: b.pkg }),
                            ),
                        )
                    }
                },
                None => {
                    &&& final(self).buffer is None
                    &&& final(self).delay_timer == old(self).delay_timer
                    &&& disabled_core(*old(self), *final(self), old(self).extension.events@)
                },
            },
    {
        let mut drop_it: bool = false;
        match &self.buffer {
            Some(b) => {
                if !contains_pid(&self.topapp_pids, b.pid) {
                    drop_it = true;
                }
            },
            None => {},
        }
        if drop_it {
            let mut tmp: Option<Buffer> = None;
            core::mem::swap(&mut tmp, &mut self.buffer);
            match tmp {
                Some(b) => {
                    let ghost gone = b;
                    self.extension.trigger_extensions(
                        ApiVersion::V0,
                        ApiEvent::UnloadFas { pid: b.pid, pkg: b.pkg.clone() },
                    );
                    self.extension.trigger_extensions(
                        ApiVersion::V1,
                        ApiEvent::UnloadFas { pid: b.pid, pkg: b.pkg.clone() },
                    );
                    self.extension.trigger_extensions(
                        ApiVersion::V2,
                        ApiEvent::UnloadFas { pid: b.pid, pkg: b.pkg },
                    );
                    proof {
                        assert(self.extension.events@ =~= old(self).extension.events@
                            + broadcast3((ApiEvent::UnloadFas { pid: gone.pid, pkg: gone.pkg })));
                    }
                },
                None => {},
            }
        }
        let has_buffer = match &self.buffer {
            Some(_) => true,
            None => false,
        };
        if !has_buffer {
            self.disable_fas();
        } else {
            self.enable_fas(now_ms);
        }
    }

    /// Feed one frame event in. Nothing happens for a process outside the
    /// foreground snapshot or for a zero duration. An existing buffer for
    /// the event's process absorbs the sample and reports its usability; a
    /// first event for a tracked process (resolved name handed in as `pkg`,
    /// configured target frame rate present) creates the buffer, fires the
    /// load notifications and reports it as not yet usable.
    pub fn buffer_update(&mut self, d: &FasData, pkg: Option<String>) -> (r: Option<
        BufferState,
    >)
        requires
            old(self).wf(),
        ensures
            final(self).wf(),
            final(self).state == old(self).state,
            final(self).delay_timer == old(self).delay_timer,
            final(self).topapp_pids == old(self).topapp_pids,
            final(self).config == old(self).config,
            final(self).controller == old(self).controller,
            final(self).cleaner == old(self).cleaner,
            (!old(self).topapp_pids@.contains(d.pid) || d.frametime == 0) ==> (r is None
                && *final(self) == *old(self)),
            (old(self).topapp_pids@.contains(d.pid) && d.frametime != 0) ==> match old(
                self,
            ).buffer {
                Some(b) => {
                    if b.pid == d.pid {
                        &&& final(self).extension == old(self).extension
                        &&& match final(self).buffer {
                            Some(nb) => push_rel(b, nb, d.frametime) && r == Some(nb.state),
                            None => false,
                        }
                    } else {
                        &&& r is None
                        &&& *final(self) == *old(self)
                    }
                },
                None => match pkg {
                    Some(p) => match spec_target_fps(old(self).config.data.game_list@, p@) {
                        Some(tf) => {
                            &&& final(self).extension.events@ == old(self).extension.events@
                                + broadcast3((ApiEvent::LoadFas { pid: d.pid, pkg: p }))
                            &&& match final(self).buffer {
                                Some(nb) => {
                                    &&& nb.pid == d.pid
                                    &&& nb.pkg == p
                                    &&& nb.target_fps == tf
                                    &&& nb.frametimes@ == spec_trim(seq![d.frametime])
                                    &&& nb.pushed_count == 1
                                },
                                None => false,
                            }
                            &&& r == Some(BufferState::Unusable)
                        },
                        None => r is None && *final(self) == *old(self),
                    },
                    None => r is None && *final(self) == *old(self),
                },
            },
    {
        let in_top = contains_pid(&self.topapp_pids, d.pid);
        if !in_top || d.frametime == 0 {
            return None;
        }
        let which: u8 = match &self.buffer {
            Some(b) => {
                if b.pid == d.pid {
                    0
                } else {
                    1
                }
            },
            None => 2,
        };
        if which == 0 {
            let st = match &mut self.buffer {
                Some(b) => {
                    b.push_frametime(d.frametime);
                    b.state
                },
                None => {
                    proof {
                        assert(false);
                    }
                    BufferState::Unusable
                },
            };
            return Some(st);
        }
        if which == 1 {
            return None;
        }
        let p = match pkg {
            Some(p) => p,
            None => {
                return None;
            },
        };
        let tf = match self.config.target_fps(&p) {
            Some(t) => t,
            None => {
                return None;
            },
        };
        proof {
            lemma_target_fps_positive(self.config.data.game_list@, p@, tf);
        }
        self.extension.trigger_extensions(
            ApiVersion::V0,
            ApiEvent::LoadFas { pid: d.pid, pkg: p.clone() },
        );
        self.extension.trigger_extensions(
            ApiVersion::V1,
            ApiEvent::LoadFas { pid: d.pid, pkg: p.clone() },
        );
        self.extension.trigger_extensions(
            ApiVersion::V2,
            ApiEvent::LoadFas { pid: d.pid, pkg: p.clone() },
        );
        proof {
            assert(self.extension.events@ =~= old(self).extension.events@ + broadcast3(
                (ApiEvent::LoadFas { pid: d.pid, pkg: p }),
            ));
        }
        let mut buffer = Buffer::new(tf, d.pid, p);
        buffer.push_frametime(d.frametime);
        proof {
            assert(Seq::<u64>::empty().push(d.frametime) =~= seq![d.frametime]);
        }
        self.buffer = Some(buffer);
        Some(BufferState::Unusable)
    }
}

} // verus!
