use crate::text::{digit_char, digit_to_char};
use vstd::prelude::*;

verus! {

/// `rand::random` draws a value of the asked type from the thread's
/// generator. Nothing is claimed of the value: every value of the type may
/// come back, and two draws need not agree.
pub assume_specification<T>[ rand::random::<T> ]() -> (value: T)
    where rand::distributions::Standard: rand::distributions::Distribution<T>
;

/// The distance of a number from zero.
pub open spec fn magnitude(raw: int) -> int {
    if raw < 0 {
        -raw
    } else {
        raw
    }
}

fn magnitude_of(raw: i32) -> (m: u32)
    ensures
        m == magnitude(raw as int),
{
    if raw >= 0 {
        raw as u32
    } else if raw == i32::MIN {
        2147483648u32
    } else {
        (-raw) as u32
    }
}

/// A count drawn from `span` neighbouring values that start at `base`. The
/// raw number counts by its distance from zero, whatever its sign.
pub open spec fn spread(raw: int, span: int, base: int) -> int {
    magnitude(raw) % span + base
}

fn spread_of(raw: i32, span: u32, base: u32) -> (count: i32)
    requires
        0 < span <= 100,
        base <= 100,
    ensures
        count == spread(raw as int, span as int, base as int),
        base <= count < base + span,
{
    let m = magnitude_of(raw);
    ((m % span) + base) as i32
}

/// Health of a new enemy: one to ten.
pub fn enemy_health(raw: u32) -> (health: i32)
    ensures
        health == raw % 10 + 1,
{
    (raw % 10 + 1) as i32
}

/// Items of one kind that a destroyed enemy leaves: one to three.
pub fn item_drop_count(raw: u32) -> (count: u32)
    ensures
        count == raw % 3 + 1,
{
    raw % 3 + 1
}

/// Particles that fly off a destroyed enemy: eight to sixteen.
pub fn enemy_death_particle_count(raw: i32) -> (count: i32)
    ensures
        count == spread(raw as int, 9, 8),
{
    spread_of(raw, 9, 8)
}

/// Particles that fly off a player who is hit: eight to eleven.
pub fn player_death_particle_count(raw: i32) -> (count: i32)
    ensures
        count == spread(raw as int, 4, 8),
{
    spread_of(raw, 4, 8)
}

/// Volleys that a new enemy will fire: eight to fifteen.
pub fn volley_count(raw: i32) -> (times: i32)
    ensures
        times == spread(raw as int, 8, 8),
{
    spread_of(raw, 8, 8)
}

/// Bullets in one fan of a new enemy: three to eight.
pub fn fan_size(raw: i32) -> (num_bullets: i32)
    ensures
        num_bullets == spread(raw as int, 6, 3),
{
    spread_of(raw, 6, 3)
}

/// The brackets that sparks are drawn with when an enemy is hit.
pub open spec fn hit_glyphs() -> Seq<char> {
    seq!['(', ')', '<', '>', '{', '}', '[', ']']
}

/// The bracket that a spark shows.
pub fn hit_particle_glyph(raw: usize) -> (glyph: char)
    ensures
        glyph == hit_glyphs()[(raw % 8) as int],
{
    let k: usize = raw % 8;
    if k == 0 {
        '('
    } else if k == 1 {
        ')'
    } else if k == 2 {
        '<'
    } else if k == 3 {
        '>'
    } else if k == 4 {
        '{'
    } else if k == 5 {
        '}'
    } else if k == 6 {
        '['
    } else {
        ']'
    }
}

/// The bit that a particle of a destroyed enemy shows.
pub fn death_particle_glyph(raw: bool) -> (glyph: char)
    ensures
        glyph == (if raw {
            '0'
        } else {
            '1'
        }),
{
    if raw {
        '0'
    } else {
        '1'
    }
}

/// A byte written as `0x` and two capital hexadecimal digits.
pub open spec fn spec_hex_byte_label(raw: u8) -> Seq<char> {
    seq!['0', 'x', digit_char(raw as int / 16), digit_char(raw as int % 16)]
}

/// The label on a particle of a player who is hit.
pub fn hex_byte_label(raw: u8) -> (label: String)
    ensures
        label@ == spec_hex_byte_label(raw),
{
    let mut label = String::new();
    label.push('0');
    label.push('x');
    label.push(digit_to_char(raw / 16));
    label.push(digit_to_char(raw % 16));
    assert(label@ =~= spec_hex_byte_label(raw));
    label
}

/// Draws the health of a new enemy.
pub fn roll_enemy_health() -> (health: i32)
    ensures
        1 <= health <= 10,
{
    enemy_health(rand::random::<u32>())
}

/// Draws how many items of one kind a destroyed enemy leaves.
pub fn roll_item_drop_count() -> (count: u32)
    ensures
        1 <= count <= 3,
{
    item_drop_count(rand::random::<u32>())
}

/// Draws how many particles fly off a destroyed enemy.
pub fn roll_enemy_death_particle_count() -> (count: i32)
    ensures
        8 <= count <= 16,
{
    enemy_death_particle_count(rand::random::<i32>())
}

/// Draws how many particles fly off a player who is hit.
pub fn roll_player_death_particle_count() -> (count: i32)
    ensures
        8 <= count <= 11,
{
    player_death_particle_count(rand::random::<i32>())
}

/// Draws how many volleys a new enemy will fire.
pub fn roll_volley_count() -> (times: i32)
    ensures
        8 <= times <= 15,
{
    volley_count(rand::random::<i32>())
}

/// Draws how many bullets one fan of a new enemy has.
pub fn roll_fan_size() -> (num_bullets: i32)
    ensures
        3 <= num_bullets <= 8,
{
    fan_size(rand::random::<i32>())
}

/// Draws the bracket of a spark.
pub fn roll_hit_particle_glyph() -> (glyph: char)
    ensures
        hit_glyphs().contains(glyph),
{
    let raw: usize = rand::random::<usize>();
    let glyph = hit_particle_glyph(raw);
    assert(hit_glyphs()[(raw % 8) as int] == glyph);
    glyph
}

/// Draws the bit that a particle of a destroyed enemy shows.
pub fn roll_death_particle_glyph() -> (glyph: char)
    ensures
        glyph == '0' || glyph == '1',
{
    death_particle_glyph(rand::random::<bool>())
}

/// Draws the label on a particle of a player who is hit.
pub fn roll_hex_byte_label() -> (label: String)
    ensures
        exists|raw: u8| label@ == spec_hex_byte_label(raw),
{
    let raw: u8 = rand::random::<u8>();
    hex_byte_label(raw)
}

} // verus!
