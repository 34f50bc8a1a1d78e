//! The read side of the configuration: the immutable snapshot the control
//! core looks target frame rates up in, the default profile values, and the
//! retry / rollback rules of the hot-reload loop. The watching, parsing and
//! rewriting of the files happens outside the verified core.

use vstd::prelude::*;

verus! {

/// How many consecutive failed reads or parses are tolerated before the
/// standard profile replaces the user configuration.
pub const MAX_CONFIG_RETRIES: u8 = 10;

/// How many consecutive parse failures are tolerated before the last good
/// configuration is written back over the broken file.
pub const ROLLBACK_RETRY_THRESHOLD: u8 = 3;

/// One configured game: its package name and target frame rate.
#[derive(Clone)]
pub struct GameEntry {
    pub pkg: String,
    pub fps: u32,
}

/// The configuration snapshot: the profile switches and the game lists.
#[derive(Clone)]
pub struct ConfigData {
    pub keep_std: bool,
    pub userspace_governor: bool,
    pub scene_game_list: bool,
    pub game_list: Vec<GameEntry>,
    pub scene_games: Vec<String>,
}

impl ConfigData {
    /// Every configured target frame rate is positive.
    pub open spec fn wf(&self) -> bool {
        forall|i: int| 0 <= i < self.game_list@.len() ==> self.game_list@[i].fps >= 1
    }
}

/// The read-only configuration handle of the control core.
#[derive(Clone)]
pub struct Config {
    pub data: ConfigData,
}

/// The target frame rate of the first entry for the package, if any.
pub open spec fn spec_target_fps(entries: Seq<GameEntry>, pkg: Seq<char>) -> Option<u32>
    decreases entries.len(),
{
    if entries.len() == 0 {
        None
    } else if entries[0].pkg@ == pkg {
        Some(entries[0].fps)
    } else {
        spec_target_fps(entries.drop_first(), pkg)
    }
}

/// A looked-up target frame rate out of a well-formed list is positive.
pub proof fn lemma_target_fps_positive(entries: Seq<GameEntry>, pkg: Seq<char>, fps: u32)
    requires
        forall|i: int| 0 <= i < entries.len() ==> entries[i].fps >= 1,
        spec_target_fps(entries, pkg) == Some(fps),
    ensures
        fps >= 1,
    decreases entries.len(),
{
    if entries.len() == 0 {
    } else if entries[0].pkg@ == pkg {
    } else {
        assert forall|i: int|
            0 <= i < entries.drop_first().len() implies entries.drop_first()[i].fps >= 1 by {
            assert(entries.drop_first()[i] == entries[i + 1]);
        }
        lemma_target_fps_positive(entries.drop_first(), pkg, fps);
    }
}

impl Config {
    pub open spec fn wf(&self) -> bool {
        self.data.wf()
    }

    /// The configured target frame rate for a package, absent when the
    /// process is not tracked.
    pub fn target_fps(&self, pkg: &String) -> (r: Option<u32>)
        ensures
            r == spec_target_fps(self.data.game_list@, pkg@),
    {
        let entries = &self.data.game_list;
        let mut i: usize = 0;
        proof {
            assert(entries@.skip(0) =~= entries@);
        }
        while i < entries.len()
            invariant
                0 <= i <= entries@.len(),
                entries@ == self.data.game_list@,
                spec_target_fps(entries@, pkg@) == spec_target_fps(entries@.skip(i as int), pkg@),
            decreases entries@.len() - i,
        {
            proof {
                assert(entries@.skip(i as int)[0] == entries@[i as int]);
            }
            let e = &entries[i];
            if e.pkg == *pkg {
                proof {
                    assert(entries@.skip(i as int)[0].pkg@ == pkg@);
                    assert(spec_target_fps(entries@.skip(i as int), pkg@) == Some(
                        entries@[i as int].fps,
                    ));
                }
                return Some(e.fps);
            }
            proof {
                assert(entries@.skip(i as int).drop_first() =~= entries@.skip(i as int + 1));
            }
            i = i + 1;
        }
        proof {
            assert(entries@.skip(i as int) =~= Seq::<GameEntry>::empty());
        }
        None
    }

    /// Whether the standard profile stays applied alongside the user one.
    pub fn default_value_keep_std() -> (r: bool)
        ensures
            r == true,
    {
        true
    }

    /// Whether the userspace governor is used by default.
    pub fn default_value_userspace_governor() -> (r: bool)
        ensures
            r == false,
    {
        false
    }

    /// Whether the external game-list profile is merged by default.
    pub fn default_value_scene_game_list() -> (r: bool)
        ensures
            r == true,
    {
        true
    }
}

/// After too many consecutive failed reads or parses, the standard profile
/// takes over: reports whether the caller must install it, and resets the
/// counter exactly when it does.
pub fn check_counter_final(retry_count: &mut u8) -> (use_std: bool)
    ensures
        use_std == (*old(retry_count) > MAX_CONFIG_RETRIES),
        *final(retry_count) == (if use_std {
            0u8
        } else {
            *old(retry_count)
        }),
{
    if *retry_count > MAX_CONFIG_RETRIES {
        *retry_count = 0;
        true
    } else {
        false
    }
}

/// On a parse failure, whether the last good configuration should be
/// written back over the broken file.
pub fn should_rollback(retry_count: u8) -> (r: bool)
    ensures
        r == (retry_count > ROLLBACK_RETRY_THRESHOLD),
{
    retry_count > ROLLBACK_RETRY_THRESHOLD
}

/// One entry of the external game-list profile.
pub struct SceneApp {
    pub pkg: String,
    pub is_game: bool,
}

/// The package names of the entries marked as games, in order.
pub open spec fn spec_game_pkgs(apps: Seq<SceneApp>) -> Seq<String>
    decreases apps.len(),
{
    if apps.len() == 0 {
        Seq::empty()
    } else {
        spec_game_pkgs(apps.drop_last()) + (if apps.last().is_game {
            seq![apps.last().pkg]
        } else {
            Seq::<String>::empty()
        })
    }
}

/// Keep exactly the packages marked as games, in their profile order.
pub fn filter_scene_games(apps: &Vec<SceneApp>) -> (r: Vec<String>)
    ensures
        r@ == spec_game_pkgs(apps@),
{
    let mut out: Vec<String> = Vec::new();
    let mut i: usize = 0;
    proof {
        assert(apps@.take(0) =~= Seq::<SceneApp>::empty());
    }
    while i < apps.len()
        invariant
            0 <= i <= apps@.len(),
            out@ == spec_game_pkgs(apps@.take(i as int)),
        decreases apps@.len() - i,
    {
        let a = &apps[i];
        if a.is_game {
            out.push(a.pkg.clone());
        }
        proof {
            let k = i as int;
            assert(apps@.take(k + 1).drop_last() =~= apps@.take(k));
            assert(apps@.take(k + 1).last() == apps@[k]);
            if apps@[k].is_game {
                assert(out@ =~= spec_game_pkgs(apps@.take(k)) + seq![apps@[k].pkg]);
            } else {
                assert(spec_game_pkgs(apps@.take(k)) + Seq::<String>::empty() =~= spec_game_pkgs(
                    apps@.take(k),
                ));
            }
        }
        i = i + 1;
    }
    proof {
        assert(apps@.take(apps@.len() as int) =~= apps@);
    }
    out
}

} // verus!
