use crate::timer::{finished, tick, ticked, timer_finished};
use bevy::time::Timer;
use core::time::Duration;
use vstd::prelude::*;

verus! {

/// Orders a colliding pair as (bullet, target). Each entity comes with two
/// answers: whether it is a bullet, and whether it is one of the targets
/// asked about. The first entity is tried as the bullet first.
pub fn match_bullet_hit_pair(
    entity1: u64,
    entity2: u64,
    bullet1: bool,
    target1: bool,
    bullet2: bool,
    target2: bool,
) -> (pair: Option<(u64, u64)>)
    ensures
        pair == (if bullet1 && target2 {
            Some((entity1, entity2))
        } else if bullet2 && target1 {
            Some((entity2, entity1))
        } else {
            None::<(u64, u64)>
        }),
{
    if bullet1 && target2 {
        Some((entity1, entity2))
    } else if bullet2 && target1 {
        Some((entity2, entity1))
    } else {
        None
    }
}

/// Picks the bullet out of a pair in which the other entity is the graze
/// zone. The first entity is tried as the zone first.
pub fn match_graze_bullet_pair(
    entity1: u64,
    entity2: u64,
    zone1: bool,
    bullet1: bool,
    zone2: bool,
    bullet2: bool,
) -> (bullet: Option<u64>)
    ensures
        bullet == (if zone1 && bullet2 {
            Some(entity2)
        } else if zone2 && bullet1 {
            Some(entity1)
        } else {
            None::<u64>
        }),
{
    if zone1 && bullet2 {
        Some(entity2)
    } else if zone2 && bullet1 {
        Some(entity1)
    } else {
        None
    }
}

/// Picks the item out of a pair in which the other entity is the player.
/// The first entity is tried as the player first.
pub fn match_item_hit_pair(entity1: u64, entity2: u64, player1: bool, player2: bool) -> (item:
    Option<u64>)
    ensures
        item == (if player1 {
            Some(entity2)
        } else if player2 {
            Some(entity1)
        } else {
            None::<u64>
        }),
{
    if player1 {
        Some(entity2)
    } else if player2 {
        Some(entity1)
    } else {
        None
    }
}

/// What a bullet does to an enemy.
#[derive(Debug, Clone, Copy, PartialEq, Eq, Structural)]
pub enum EnemyHit {
    /// The enemy is invincible: nothing happens, and the bullet flies on.
    Ignored,
    /// The enemy loses one health and lives on.
    Damaged { health: i32 },
    /// The enemy loses its last health.
    Destroyed { health: i32 },
}

/// What a bullet does to an enemy with `health` left.
pub open spec fn spec_enemy_hit(health: int, invincible: bool) -> EnemyHit {
    if invincible {
        EnemyHit::Ignored
    } else if health - 1 <= 0 {
        EnemyHit::Destroyed { health: (health - 1) as i32 }
    } else {
        EnemyHit::Damaged { health: (health - 1) as i32 }
    }
}

/// A bullet meets an enemy: one health is lost, and at zero the enemy is
/// destroyed.
pub fn enemy_hit(health: i32, invincible: bool) -> (hit: EnemyHit)
    requires
        health > i32::MIN,
    ensures
        hit == spec_enemy_hit(health as int, invincible),
{
    if invincible {
        EnemyHit::Ignored
    } else if health - 1 <= 0 {
        EnemyHit::Destroyed { health: health - 1 }
    } else {
        EnemyHit::Damaged { health: health - 1 }
    }
}

/// Power items that fall out of a player who is hit: half of the power
/// held, rounded up, and nothing where none is held.
pub open spec fn dropped_power(powers: int) -> int {
    if powers <= 0 {
        0
    } else {
        (powers + 1) / 2
    }
}

/// What a bullet does to the player.
#[derive(Debug, Clone, Copy, PartialEq, Eq, Structural)]
pub enum PlayerHit {
    /// The player is invincible: nothing happens, and the bullet flies on.
    Ignored,
    /// The player goes down: `lives` are left, all power is lost and
    /// `dropped_power` items of it fall out.
    Down { lives: i32, dropped_power: u32 },
}

/// What a bullet does to a player with `lives` and `powers`.
pub open spec fn spec_player_hit(lives: int, powers: int, invincible: bool) -> PlayerHit {
    if invincible {
        PlayerHit::Ignored
    } else {
        PlayerHit::Down {
            lives: (if lives - 1 > 0 {
                lives - 1
            } else {
                0
            }) as i32,
            dropped_power: dropped_power(powers) as u32,
        }
    }
}

/// A bullet meets the player: a life is lost, but never below zero, and
/// half of the power falls out.
pub fn player_hit(lives: i32, powers: i32, invincible: bool) -> (hit: PlayerHit)
    requires
        lives > i32::MIN,
    ensures
        hit == spec_player_hit(lives as int, powers as int, invincible),
{
    if invincible {
        PlayerHit::Ignored
    } else {
        let left: i32 = if lives - 1 > 0 {
            lives - 1
        } else {
            0
        };
        let dropped: u32 = if powers <= 0 {
            0
        } else {
            ((powers - 1) / 2 + 1) as u32
        };
        PlayerHit::Down { lives: left, dropped_power: dropped }
    }
}

/// Bombs left after one is used; the stock never goes below zero.
pub fn player_bomb(bombs: i32) -> (left: i32)
    requires
        bombs > i32::MIN,
    ensures
        left == (if bombs - 1 > 0 {
            bombs - 1
        } else {
            0
        }),
{
    if bombs - 1 > 0 {
        bombs - 1
    } else {
        0
    }
}

/// The two kinds of item that enemies leave behind.
#[derive(Debug, Clone, Copy, PartialEq, Eq, Structural)]
pub enum ItemKind {
    Power,
    Point,
}

/// The player touches an entity: a power item adds one to the power, a
/// point item one to the points, anything else changes nothing. Returns
/// whether the entity was picked up and leaves the field.
pub fn item_hit(kind: Option<ItemKind>, powers: &mut i32, points: &mut i32) -> (picked: bool)
    requires
        kind == Some(ItemKind::Power) ==> *old(powers) < i32::MAX,
        kind == Some(ItemKind::Point) ==> *old(points) < i32::MAX,
    ensures
        picked == kind.is_some(),
        *final(powers) == *old(powers) + (if kind == Some(ItemKind::Power) {
            1int
        } else {
            0int
        }),
        *final(points) == *old(points) + (if kind == Some(ItemKind::Point) {
            1int
        } else {
            0int
        }),
{
    match kind {
        Some(ItemKind::Power) => {
            *powers = *powers + 1;
            true
        },
        Some(ItemKind::Point) => {
            *points = *points + 1;
            true
        },
        None => false,
    }
}

/// What a contact between the graze zone and a bullet leads to.
#[derive(Debug, Clone, Copy, PartialEq, Eq, Structural)]
pub enum GrazeStep {
    /// The bullet enters the zone: it slows down, lights up, and counts.
    Begin,
    /// The bullet leaves the zone: speed and colour come back.
    End,
    /// A contact that changes nothing.
    Nothing,
}

/// Decides a contact between the graze zone and a bullet. `started` tells
/// whether the contact begins or ends, `grazing` whether the bullet is
/// already marked. A bullet counts once, when it enters unmarked.
pub fn player_graze(started: bool, grazing: bool, graze: &mut i32) -> (step: GrazeStep)
    requires
        started && !grazing ==> *old(graze) < i32::MAX,
    ensures
        step == (if started && !grazing {
            GrazeStep::Begin
        } else if !started && grazing {
            GrazeStep::End
        } else {
            GrazeStep::Nothing
        }),
        *final(graze) == *old(graze) + (if started && !grazing {
            1int
        } else {
            0int
        }),
{
    if started {
        if !grazing {
            *graze = *graze + 1;
            GrazeStep::Begin
        } else {
            GrazeStep::Nothing
        }
    } else if grazing {
        GrazeStep::End
    } else {
        GrazeStep::Nothing
    }
}

/// Support units appear while the player has power and fewer than two of
/// them are around.
pub fn spawn_support_units(powers: i32, units: usize) -> (spawn: bool)
    ensures
        spawn == (powers >= 1 && units < 2),
{
    !(powers < 1 || units >= 2)
}

/// Support units leave once the player has no power left.
pub fn despawn_support_units(powers: i32) -> (despawn: bool)
    ensures
        despawn == (powers < 1),
{
    powers < 1
}

/// Most enemies that may be on the field at once.
pub const MAX_ENEMIES: usize = 10;

/// Whether the field has room for one more enemy.
pub fn enemy_slot_free(enemies: usize) -> (free: bool)
    ensures
        free == (enemies < MAX_ENEMIES),
{
    enemies < MAX_ENEMIES
}

/// Whether an enemy is due on this frame. With the field full nothing
/// happens, and the spawn clock stands still; otherwise `delta` passes on
/// the clock, and an enemy is due where the clock has finished.
pub fn enemy_spawn_due(enemies: usize, timer: &mut Timer, delta: Duration) -> (due: bool)
    ensures
        enemies >= MAX_ENEMIES ==> !due && *final(timer) == *old(timer),
        enemies < MAX_ENEMIES ==> due == timer_finished(*final(timer)) && *final(timer) == ticked(
            *old(timer),
            delta,
        ),
{
    if !enemy_slot_free(enemies) {
        return false;
    }
    tick(timer, delta);
    finished(timer)
}

/// The time for which nothing can hit its bearer.
pub struct Invincible(pub Timer);

impl Invincible {
    /// Lets `delta` pass and tells whether the time is over.
    pub fn tick_invincibility(&mut self, delta: Duration) -> (over: bool)
        ensures
            final(self).0 == ticked(old(self).0, delta),
            over == timer_finished(final(self).0),
    {
        tick(&mut self.0, delta);
        finished(&self.0)
    }
}

/// Lives, bombs, power, graze and points at the start of a game.
pub const STARTING_LIVES: i32 = 2;

pub const STARTING_BOMBS: i32 = 3;

pub const STARTING_POWERS: i32 = 0;

pub const STARTING_GRAZE: i32 = 0;

pub const STARTING_POINTS: i32 = 0;

/// The keys that steer the player, as one frame sees them.
#[derive(Debug, Clone, Copy, PartialEq, Eq, Structural)]
pub struct MovementKeys {
    pub up: bool,
    pub down: bool,
    pub left: bool,
    pub right: bool,
    pub focus: bool,
}

/// Where the player heads, before the speed is applied: one step per axis
/// at most, and `slow` while the focus key is down.
#[derive(Debug, Clone, Copy, PartialEq, Eq, Structural)]
pub struct Heading {
    pub x: i32,
    pub y: i32,
    pub slow: bool,
}

/// One step along an axis: keys that pull both ways cancel.
pub open spec fn axis(forward: bool, backward: bool) -> int {
    (if forward {
        1int
    } else {
        0int
    }) - (if backward {
        1int
    } else {
        0int
    })
}

/// Reads the heading off the keys.
pub fn player_movement(keys: MovementKeys) -> (heading: Heading)
    ensures
        heading.x == axis(keys.right, keys.left),
        heading.y == axis(keys.up, keys.down),
        heading.slow == keys.focus,
{
    let mut x: i32 = 0;
    let mut y: i32 = 0;
    if keys.up {
        y = y + 1;
    }
    if keys.down {
        y = y - 1;
    }
    if keys.left {
        x = x - 1;
    }
    if keys.right {
        x = x + 1;
    }
    Heading { x, y, slow: keys.focus }
}

} // verus!
