//! Aiming and firing: what each pointer event does to the aim target, when
//! the reticle shows, and how long a projectile lives.
use crate::input::PointerPhase;
use crate::timer::{OnceTimer, TimerView};
use vstd::prelude::*;

verus! {

/// How long a projectile flies before it is removed: 1.2 seconds as an
/// `f32` gives it, 1.200000048 s (`Duration::from_secs_f32(1.2)` rounds the
/// `f32` nearest to 1.2 to whole nanoseconds).
pub const PROJECTILE_LIFETIME_NANOS: u64 = 1_200_000_048;

/// One pointer event of the frame as the aiming logic sees it: its phase,
/// whether the pointer ray meets the ground, and whether the direction from
/// the hero to that ground point is long enough to fire along.
#[derive(Clone, Copy, Debug, PartialEq, Eq, Structural)]
pub struct PointerSample {
    pub phase: PointerPhase,
    pub ground_hit: bool,
    pub can_fire: bool,
}

/// What to do to the aim target.
#[derive(Clone, Copy, Debug, PartialEq, Eq, Structural)]
pub enum AimCommand {
    /// The aim target becomes invalid.
    Clear,
    /// The aim target moves to the ground point of pointer event `event`,
    /// becomes valid, the hero turns toward it, and a projectile is fired
    /// when `fire` is set.
    Aim { event: usize, fire: bool },
}

/// How the reticle is shown.
#[derive(Clone, Copy, Debug, PartialEq, Eq, Structural)]
pub enum ReticlePose {
    /// Full size at the aim target.
    Shown,
    /// Shrunk out of sight.
    Hidden,
}

/// The command that pointer event number `i` yields, if any: ending or
/// cancelling clears the aim; any other event that meets the ground aims
/// there, and a start also fires when it can.
pub open spec fn command_for(sample: PointerSample, i: int) -> Option<AimCommand> {
    match sample.phase {
        PointerPhase::End | PointerPhase::Cancel => Some(AimCommand::Clear),
        _ => if sample.ground_hit {
            Some(
                AimCommand::Aim {
                    event: i as usize,
                    fire: sample.phase == PointerPhase::Start && sample.can_fire,
                },
            )
        } else {
            None
        },
    }
}

/// The commands that a frame's pointer events yield, in order.
pub open spec fn planned_commands(samples: Seq<PointerSample>) -> Seq<AimCommand>
    decreases samples.len(),
{
    if samples.len() == 0 {
        Seq::empty()
    } else {
        let rest = planned_commands(samples.drop_last());
        match command_for(samples.last(), samples.len() - 1) {
            Some(c) => rest.push(c),
            None => rest,
        }
    }
}

/// Whether the aim target is valid after `commands`, starting from `valid`.
pub open spec fn aim_valid_after(valid: bool, commands: Seq<AimCommand>) -> bool {
    if commands.len() == 0 {
        valid
    } else {
        match commands.last() {
            AimCommand::Clear => false,
            AimCommand::Aim { .. } => true,
        }
    }
}

/// The aim follows the latest decisive event: after one more pointer event,
/// an end or a cancel leaves the aim invalid, an event that meets the ground
/// leaves it valid, and any other event leaves it as it was.
pub proof fn lemma_aim_follows_latest_event(valid: bool, samples: Seq<PointerSample>, e: PointerSample)
    ensures
        aim_valid_after(valid, planned_commands(samples.push(e))) == (match e.phase {
            PointerPhase::End | PointerPhase::Cancel => false,
            _ => if e.ground_hit {
                true
            } else {
                aim_valid_after(valid, planned_commands(samples))
            },
        }),
{
    assert(samples.push(e).drop_last() =~= samples);
}

/// There are no more commands than events; an aim command names an event
/// of the frame that is a start or a move whose ray meets the ground; and a
/// projectile is fired exactly when that event is a start that can fire.
pub proof fn lemma_commands_follow_events(samples: Seq<PointerSample>)
    requires
        samples.len() <= usize::MAX,
    ensures
        ({
            let cmds = planned_commands(samples);
            &&& cmds.len() <= samples.len()
            &&& forall|a: int|
                0 <= a < cmds.len() ==> (#[trigger] cmds[a] matches AimCommand::Aim { event, fire } ==> {
                    &&& event < samples.len()
                    &&& samples[event as int].ground_hit
                    &&& samples[event as int].phase == PointerPhase::Start || samples[event as int].phase
                        == PointerPhase::Move
                    &&& fire == (samples[event as int].phase == PointerPhase::Start
                        && samples[event as int].can_fire)
                })
        }),
    decreases samples.len(),
{
    if samples.len() > 0 {
        let rest = samples.drop_last();
        lemma_commands_follow_events(rest);
        let cmds = planned_commands(samples);
        assert forall|a: int|
            0 <= a < cmds.len() implies (#[trigger] cmds[a] matches AimCommand::Aim { event, fire } ==> {
                &&& event < samples.len()
                &&& samples[event as int].ground_hit
                &&& samples[event as int].phase == PointerPhase::Start || samples[event as int].phase
                    == PointerPhase::Move
                &&& fire == (samples[event as int].phase == PointerPhase::Start
                    && samples[event as int].can_fire)
            }) by {
            if a < planned_commands(rest).len() {
                assert(cmds[a] == planned_commands(rest)[a]);
            }
        }
    }
}

/// Aim commands name their events in strictly increasing order: no event
/// is aimed at twice, and no command repeats an earlier event.
pub proof fn lemma_aim_events_strictly_increase(samples: Seq<PointerSample>)
    requires
        samples.len() <= usize::MAX,
    ensures
        forall|a: int, b: int|
            0 <= a < b < planned_commands(samples).len() && (#[trigger] planned_commands(samples)[a])
                is Aim && (#[trigger] planned_commands(samples)[b]) is Aim
                ==> planned_commands(samples)[a]->event < planned_commands(samples)[b]->event,
    decreases samples.len(),
{
    if samples.len() > 0 {
        let rest = samples.drop_last();
        lemma_aim_events_strictly_increase(rest);
        lemma_commands_follow_events(rest);
        let cmds = planned_commands(samples);
        let old_cmds = planned_commands(rest);
        assert forall|a: int, b: int|
            0 <= a < b < cmds.len() && (#[trigger] cmds[a]) is Aim && (#[trigger] cmds[b]) is Aim
                implies cmds[a]->event < cmds[b]->event by {
            assert(cmds[a] == old_cmds[a]);
            assert(old_cmds[a]->event < rest.len());
            if b < old_cmds.len() {
                assert(cmds[b] == old_cmds[b]);
            } else {
                assert(cmds[b]->event == rest.len());
            }
        }
    }
}

/// One more pointer event changes the frame's commands only by its own
/// command: an end or a cancel appends a `Clear`; a start or a move that
/// meets the ground appends an aim at that very event (firing only for a
/// start that can fire); a start or a move whose ray misses the ground adds
/// nothing.
pub proof fn lemma_one_more_event(samples: Seq<PointerSample>, e: PointerSample)
    ensures
        planned_commands(samples.push(e)) == (match e.phase {
            PointerPhase::End | PointerPhase::Cancel => planned_commands(samples).push(
                AimCommand::Clear,
            ),
            _ => if e.ground_hit {
                planned_commands(samples).push(
                    AimCommand::Aim {
                        event: samples.len() as usize,
                        fire: e.phase == PointerPhase::Start && e.can_fire,
                    },
                )
            } else {
                planned_commands(samples)
            },
        }),
        (e.phase == PointerPhase::Start || e.phase == PointerPhase::Move) && !e.ground_hit
            ==> planned_commands(samples.push(e)).len() == planned_commands(samples).len(),
{
    assert(samples.push(e).drop_last() =~= samples);
}

/// Decides what this frame's pointer events do. Without a camera or the
/// gameplay assets (`scene_ready` false) the aim is cleared and no event is
/// read; otherwise each event yields its command in order.
pub fn process_pointer_inputs(scene_ready: bool, samples: &Vec<PointerSample>) -> (commands: Vec<
    AimCommand,
>)
    ensures
        commands@ == (if scene_ready {
            planned_commands(samples@)
        } else {
            seq![AimCommand::Clear]
        }),
        forall|a: int, b: int|
            0 <= a < b < commands@.len() && (#[trigger] commands@[a]) is Aim
                && (#[trigger] commands@[b]) is Aim ==> commands@[a]->event < commands@[b]->event,
{
    let mut commands: Vec<AimCommand> = Vec::new();
    if !scene_ready {
        commands.push(AimCommand::Clear);
        proof {
            assert(commands@ =~= seq![AimCommand::Clear]);
        }
        return commands;
    }
    let n = samples.len();
    proof {
        lemma_aim_events_strictly_increase(samples@);
    }
    let mut i: usize = 0;
    while i < n
        invariant
            n == samples@.len(),
            i <= n,
            commands@ == planned_commands(samples@.take(i as int)),
        decreases n - i,
    {
        let sample = samples[i];
        proof {
            assert(samples@.take(i + 1).drop_last() =~= samples@.take(i as int));
        }
        match sample.phase {
            PointerPhase::Cancel | PointerPhase::End => {
                commands.push(AimCommand::Clear);
            },
            _ => {
                if sample.ground_hit {
                    let fire = match sample.phase {
                        PointerPhase::Start => sample.can_fire,
                        _ => false,
                    };
                    commands.push(AimCommand::Aim { event: i, fire });
                }
            },
        }
        i = i + 1;
    }
    proof {
        assert(samples@.take(n as int) =~= samples@);
    }
    commands
}

/// The reticle follows the aim target: nothing to do when the target did
/// not change; otherwise shown when the target is valid and hidden when not.
pub fn update_aim_reticle(changed: bool, valid: bool) -> (pose: Option<ReticlePose>)
    ensures
        pose == (if !changed {
            None
        } else if valid {
            Some(ReticlePose::Shown)
        } else {
            Some(ReticlePose::Hidden)
        }),
{
    if !changed {
        return None;
    }
    if valid {
        Some(ReticlePose::Shown)
    } else {
        Some(ReticlePose::Hidden)
    }
}

/// The lifetime timer of a newly fired projectile.
pub fn projectile_lifetime() -> (t: OnceTimer)
    ensures
        t@ == TimerView::fresh(PROJECTILE_LIFETIME_NANOS as nat),
{
    OnceTimer::new(PROJECTILE_LIFETIME_NANOS)
}

/// Ages a projectile by the frame's `delta_nanos`; returns whether its
/// lifetime is over, in which case it is removed.
pub fn integrate_projectile_lifetime(lifetime: &mut OnceTimer, delta_nanos: u64) -> (expired:
    bool)
    ensures
        final(lifetime)@ == old(lifetime)@.after_tick(delta_nanos as nat),
        expired == final(lifetime)@.finished,
{
    lifetime.tick(delta_nanos);
    lifetime.finished()
}

} // verus!
