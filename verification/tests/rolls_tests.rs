use asciihou::rolls::{
    death_particle_glyph, enemy_death_particle_count, enemy_health, fan_size, hex_byte_label,
    hit_particle_glyph, item_drop_count, player_death_particle_count, roll_death_particle_glyph,
    roll_enemy_death_particle_count, roll_enemy_health, roll_fan_size, roll_hex_byte_label,
    roll_hit_particle_glyph, roll_item_drop_count, roll_player_death_particle_count,
    roll_volley_count, volley_count,
};

#[test]
fn enemy_health_is_one_to_ten() {
    assert_eq!(enemy_health(0), 1);
    assert_eq!(enemy_health(9), 10);
    assert_eq!(enemy_health(10), 1);
    assert_eq!(enemy_health(u32::MAX), 6);
}

#[test]
fn item_drop_count_is_one_to_three() {
    assert_eq!(item_drop_count(0), 1);
    assert_eq!(item_drop_count(5), 3);
    assert_eq!(item_drop_count(u32::MAX), 1);
}

#[test]
fn enemy_death_particle_count_is_eight_to_sixteen() {
    assert_eq!(enemy_death_particle_count(0), 8);
    assert_eq!(enemy_death_particle_count(17), 16);
    assert_eq!(enemy_death_particle_count(-1), 9);
    assert_eq!(enemy_death_particle_count(i32::MAX), 2147483647 % 9 + 8);
}

#[test]
fn counts_of_the_lowest_raw_value_stay_in_range() {
    assert_eq!(enemy_death_particle_count(i32::MIN), 10);
    assert_eq!(player_death_particle_count(i32::MIN), 8);
    assert_eq!(volley_count(i32::MIN), 8);
    assert_eq!(fan_size(i32::MIN), 5);
}

#[test]
fn counts_agree_with_abs_and_remainder() {
    for raw in [0, 1, 7, 8, 9, 100, 12345, i32::MAX, -1, -8, -9, -100, -i32::MAX] {
        assert_eq!(enemy_death_particle_count(raw), raw.abs() % 9 + 8);
        assert_eq!(player_death_particle_count(raw), raw.abs() % 4 + 8);
        assert_eq!(volley_count(raw), raw.abs() % 8 + 8);
        assert_eq!(fan_size(raw), raw.abs() % 6 + 3);
    }
}

#[test]
fn hit_particle_glyph_walks_the_brackets() {
    let expected = ['(', ')', '<', '>', '{', '}', '[', ']'];
    for raw in 0..24usize {
        assert_eq!(hit_particle_glyph(raw), expected[raw % 8]);
    }
    assert_eq!(hit_particle_glyph(usize::MAX), expected[usize::MAX % 8]);
}

#[test]
fn death_particle_glyph_is_a_bit() {
    assert_eq!(death_particle_glyph(true), '0');
    assert_eq!(death_particle_glyph(false), '1');
}

#[test]
fn hex_byte_label_has_two_capital_digits() {
    assert_eq!(hex_byte_label(0xAB), "0xAB");
    assert_eq!(hex_byte_label(5), "0x05");
    assert_eq!(hex_byte_label(0), "0x00");
    assert_eq!(hex_byte_label(255), "0xFF");
}

#[test]
fn hex_byte_label_agrees_with_formatting() {
    for raw in 0..=255u8 {
        assert_eq!(hex_byte_label(raw), format!("0x{:02X}", raw));
    }
}

#[test]
fn rolls_stay_in_their_ranges() {
    for _ in 0..500 {
        let health = roll_enemy_health();
        assert!((1..=10).contains(&health));
        let drops = roll_item_drop_count();
        assert!((1..=3).contains(&drops));
        let sparks = roll_enemy_death_particle_count();
        assert!((8..=16).contains(&sparks));
        let shards = roll_player_death_particle_count();
        assert!((8..=11).contains(&shards));
        let times = roll_volley_count();
        assert!((8..=15).contains(&times));
        let fan = roll_fan_size();
        assert!((3..=8).contains(&fan));
    }
}

#[test]
fn rolled_glyphs_come_from_their_sets() {
    for _ in 0..200 {
        assert!("()<>{}[]".contains(roll_hit_particle_glyph()));
        let bit = roll_death_particle_glyph();
        assert!(bit == '0' || bit == '1');
        let label = roll_hex_byte_label();
        assert_eq!(label.len(), 4);
        assert!(label.starts_with("0x"));
        assert!(u8::from_str_radix(&label[2..], 16).is_ok());
    }
}

#[test]
fn rolls_vary() {
    let mut seen = [false; 11];
    for _ in 0..2000 {
        seen[roll_enemy_health() as usize] = true;
    }
    for health in 1..=10 {
        assert!(seen[health]);
    }
}
