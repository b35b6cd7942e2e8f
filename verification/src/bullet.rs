use crate::timer::{finished, reset, restarted, tick, ticked, timer_finished};
use bevy::time::Timer;
use core::time::Duration;
use vstd::prelude::*;

verus! {

/// Collision groups by their bits: the player, bullets aimed at enemies,
/// enemies, the graze zone, and bullets aimed at the player.
pub const GROUP_1: u32 = 0x01;

pub const GROUP_2: u32 = 0x02;

pub const GROUP_4: u32 = 0x08;

pub const GROUP_7: u32 = 0x40;

pub const GROUP_8: u32 = 0x80;

/// Collision membership and filter bits of a physics body. Two bodies touch
/// when each one's memberships meet the other's filters.
#[derive(Debug, Clone, Copy, PartialEq, Eq, Structural)]
pub struct CollisionGroups {
    pub memberships: u32,
    pub filters: u32,
}

/// Which side a bullet is meant to hit.
#[derive(Debug, Clone, Copy, PartialEq, Eq, Structural)]
pub enum BulletTarget {
    Player,
    Enemy,
}

impl BulletTarget {
    /// Bullets aimed at the player live in group 8 and meet the player
    /// (group 1) and the graze zone (group 7); bullets aimed at enemies
    /// live in group 2 and meet enemies (group 4).
    pub open spec fn spec_collision_groups(self) -> CollisionGroups {
        match self {
            BulletTarget::Player => CollisionGroups { memberships: 0x80, filters: 0x41 },
            BulletTarget::Enemy => CollisionGroups { memberships: 0x02, filters: 0x08 },
        }
    }

    /// The collision groups of a bullet with this target.
    pub fn collision_groups(&self) -> (groups: CollisionGroups)
        ensures
            groups == self.spec_collision_groups(),
    {
        match self {
            BulletTarget::Player => {
                assert(GROUP_1 | GROUP_7 == 0x41u32) by (bit_vector);
                CollisionGroups { memberships: GROUP_8, filters: GROUP_1 | GROUP_7 }
            },
            BulletTarget::Enemy => CollisionGroups { memberships: GROUP_2, filters: GROUP_4 },
        }
    }
}

/// What a shooter does on one frame.
#[derive(Debug, Clone, Copy, PartialEq, Eq, Structural)]
pub enum ShotOutcome {
    /// The cooldown has not run out.
    Idle,
    /// No volley is left: the shooter stops for good.
    Exhausted,
    /// A volley leaves now.
    Fired,
}

/// Volleys left after one is fired. A negative count never runs out.
pub open spec fn shots_after(times: int) -> int {
    if times > 0 {
        times - 1
    } else {
        times
    }
}

/// What a shooter does on a frame on which its cooldown is `ready` or not
/// and `times` volleys are left.
pub open spec fn shot_outcome(ready: bool, times: int) -> ShotOutcome {
    if !ready {
        ShotOutcome::Idle
    } else if times == 0 {
        ShotOutcome::Exhausted
    } else {
        ShotOutcome::Fired
    }
}

/// Decides one frame of a shooter whose cooldown is `ready` or not, and
/// counts the volley down.
pub fn shoot_when_ready(ready: bool, times: &mut i32) -> (outcome: ShotOutcome)
    ensures
        outcome == shot_outcome(ready, *old(times) as int),
        *final(times) == (if ready {
            shots_after(*old(times) as int)
        } else {
            *old(times) as int
        }),
{
    if !ready {
        ShotOutcome::Idle
    } else if *times > 0 {
        *times = *times - 1;
        ShotOutcome::Fired
    } else if *times == 0 {
        ShotOutcome::Exhausted
    } else {
        ShotOutcome::Fired
    }
}

/// The cooldown after a frame: it is advanced by `delta`, and starts over
/// where a volley left.
pub open spec fn cooldown_after(cooldown: Timer, delta: Duration, times: int) -> Timer {
    let advanced = ticked(cooldown, delta);
    if shot_outcome(timer_finished(advanced), times) == ShotOutcome::Fired {
        restarted(advanced)
    } else {
        advanced
    }
}

/// Advances a shooter's cooldown by `delta` and decides the frame. After a
/// volley the cooldown starts over; a shooter that waits or stops keeps the
/// cooldown as the tick left it.
pub fn single_shoot(cooldown: &mut Timer, delta: Duration, times: &mut i32) -> (outcome:
    ShotOutcome)
    ensures
        outcome == shot_outcome(
            timer_finished(ticked(*old(cooldown), delta)),
            *old(times) as int,
        ),
        *final(cooldown) == cooldown_after(*old(cooldown), delta, *old(times) as int),
        *final(times) == (if outcome == ShotOutcome::Fired {
            shots_after(*old(times) as int)
        } else {
            *old(times) as int
        }),
{
    tick(cooldown, delta);
    let ready = finished(cooldown);
    let outcome = shoot_when_ready(ready, times);
    if outcome == ShotOutcome::Fired {
        reset(cooldown);
    }
    outcome
}

/// Place of bullet `index` in a fan of `num_bullets`, counted from the
/// middle: the fan's axis has offset zero.
pub open spec fn fan_offset(index: int, num_bullets: int) -> int {
    index - (num_bullets - 1) / 2
}

/// The offsets of a whole fan, in firing order. A fan of no bullets, or of
/// a negative number, is empty.
pub fn fan_offsets(num_bullets: i32) -> (offsets: Vec<i32>)
    ensures
        offsets@.len() == (if num_bullets > 0 {
            num_bullets as int
        } else {
            0
        }),
        forall|i: int|
            0 <= i < offsets@.len() ==> #[trigger] offsets@[i] as int == fan_offset(
                i,
                num_bullets as int,
            ),
{
    let mut offsets: Vec<i32> = Vec::new();
    let mut i: i32 = 0;
    while i < num_bullets
        invariant
            0 <= i,
            num_bullets > 0 ==> i <= num_bullets,
            num_bullets <= 0 ==> i == 0,
            offsets@.len() == i,
            forall|j: int|
                0 <= j < offsets@.len() ==> #[trigger] offsets@[j] as int == fan_offset(
                    j,
                    num_bullets as int,
                ),
        decreases num_bullets - i,
    {
        offsets.push(i - (num_bullets - 1) / 2);
        i = i + 1;
    }
    offsets
}

/// A fan volley: the outcome of the frame and, when a volley leaves, the
/// offset of each bullet.
pub struct FanVolley {
    pub outcome: ShotOutcome,
    pub offsets: Vec<i32>,
}

/// Advances a fan shooter's cooldown by `delta` and decides the frame, as
/// [`single_shoot`] does; a volley that leaves carries one offset per bullet.
pub fn fan_shoot(cooldown: &mut Timer, delta: Duration, times: &mut i32, num_bullets: i32) -> (volley:
    FanVolley)
    ensures
        volley.outcome == shot_outcome(
            timer_finished(ticked(*old(cooldown), delta)),
            *old(times) as int,
        ),
        *final(cooldown) == cooldown_after(*old(cooldown), delta, *old(times) as int),
        *final(times) == (if volley.outcome == ShotOutcome::Fired {
            shots_after(*old(times) as int)
        } else {
            *old(times) as int
        }),
        volley.offsets@.len() == (if volley.outcome == ShotOutcome::Fired && num_bullets > 0 {
            num_bullets as int
        } else {
            0
        }),
        forall|i: int|
            0 <= i < volley.offsets@.len() ==> #[trigger] volley.offsets@[i] as int == fan_offset(
                i,
                num_bullets as int,
            ),
{
    let outcome = single_shoot(cooldown, delta, times);
    let offsets = if outcome == ShotOutcome::Fired {
        fan_offsets(num_bullets)
    } else {
        Vec::new()
    };
    FanVolley { outcome, offsets }
}

/// The player's volley for a given power: how many bullets and how many
/// degrees lie between neighbours.
pub open spec fn spec_player_shot_pattern(powers: int) -> (int, int) {
    if powers > 50 {
        (5, 10)
    } else if powers > 30 {
        (3, 10)
    } else {
        (1, 0)
    }
}

/// The player's volley for a given power.
pub fn player_shot_pattern(powers: i32) -> (pattern: (i32, i32))
    ensures
        (pattern.0 as int, pattern.1 as int) == spec_player_shot_pattern(powers as int),
{
    if powers > 50 {
        (5, 10)
    } else if powers > 30 {
        (3, 10)
    } else {
        (1, 0)
    }
}

/// The three clocks of a laser: the warning before it fires, the time it
/// stays, and the sweep that draws it.
pub struct LaserBullet {
    pub telegraph_duration: Timer,
    pub duration: Timer,
    pub animation_timer: Timer,
}

/// What a laser does on one frame.
#[derive(Debug, Clone, Copy, PartialEq, Eq, Structural)]
pub enum LaserStep {
    /// Still warning; `armed` tells that the warning ended on this frame and
    /// the laser starts to collide.
    Telegraph { armed: bool },
    /// Firing: the beam is redrawn.
    Fire,
    /// The laser has run its time and leaves.
    Despawn,
}

/// The laser after `delta` has passed. Only the clock of the current phase
/// moves: the warning while it lasts, then the duration, together with the
/// sweep until the sweep is done. A laser whose duration is over is left
/// alone.
pub open spec fn laser_after(laser: LaserBullet, delta: Duration) -> LaserBullet {
    if !timer_finished(laser.telegraph_duration) {
        LaserBullet { telegraph_duration: ticked(laser.telegraph_duration, delta), ..laser }
    } else if timer_finished(laser.duration) {
        laser
    } else {
        LaserBullet {
            telegraph_duration: laser.telegraph_duration,
            duration: ticked(laser.duration, delta),
            animation_timer: if timer_finished(laser.animation_timer) {
                laser.animation_timer
            } else {
                ticked(laser.animation_timer, delta)
            },
        }
    }
}

/// What the laser does on the frame on which `delta` passes.
pub open spec fn laser_step(laser: LaserBullet, delta: Duration) -> LaserStep {
    if !timer_finished(laser.telegraph_duration) {
        LaserStep::Telegraph { armed: timer_finished(ticked(laser.telegraph_duration, delta)) }
    } else if timer_finished(laser.duration) {
        LaserStep::Despawn
    } else {
        LaserStep::Fire
    }
}

/// Advances a laser by `delta` and tells what it does on this frame.
pub fn laser_bullet(laser: &mut LaserBullet, delta: Duration) -> (step: LaserStep)
    ensures
        step == laser_step(*old(laser), delta),
        *final(laser) == laser_after(*old(laser), delta),
{
    if !finished(&laser.telegraph_duration) {
        tick(&mut laser.telegraph_duration, delta);
        LaserStep::Telegraph { armed: finished(&laser.telegraph_duration) }
    } else if finished(&laser.duration) {
        LaserStep::Despawn
    } else {
        tick(&mut laser.duration, delta);
        if !finished(&laser.animation_timer) {
            tick(&mut laser.animation_timer, delta);
        }
        LaserStep::Fire
    }
}

} // verus!
