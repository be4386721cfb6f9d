use teki::appearance_table::{order, p, unit_table, FormationIndex};
use teki::app_consts;
use teki::consts::{CENTER_X, GAME_HEIGHT, GAME_WIDTH, PLAYER_Y, WINDOW_HEIGHT};
use teki::math::{clamp, square, Vec2, ANGLE, ONE, ONE_BIT};
use teki::sound::{channel_slot, empty_channels};

#[test]
fn formation_index_from_coordinates() {
    assert_eq!(p(3, 2), FormationIndex(3, 2));
    assert_eq!(p(0, 255), FormationIndex(0, 255));
}

#[test]
fn order_lists_the_eight_slots() {
    let o = order();
    assert_eq!(
        o,
        [
            FormationIndex(3, 2),
            FormationIndex(4, 2),
            FormationIndex(5, 2),
            FormationIndex(6, 2),
            FormationIndex(3, 5),
            FormationIndex(4, 5),
            FormationIndex(5, 5),
            FormationIndex(6, 5),
        ]
    );
}

#[test]
fn order_slots_are_distinct() {
    let o = order();
    for i in 0..o.len() {
        for j in (i + 1)..o.len() {
            assert_ne!(o[i], o[j]);
        }
    }
}

#[test]
fn unit_table_rows() {
    let t1 = [1u8, 2, 3];
    let t2 = [4u8];
    let t3 = [5u8, 6];
    let table = unit_table(&t1, &t2, &t3);
    assert_eq!(table.len(), 1);
    let row = &table[0];
    let expected: [(usize, &[u8], bool); 5] =
        [(0, &t1, false), (1, &t2, false), (1, &t3, true), (2, &t1, false), (2, &t1, true)];
    for (entry, (pat, tbl, flip)) in row.iter().zip(expected.iter()) {
        assert_eq!(entry.pat, *pat);
        assert_eq!(entry.table, *tbl);
        assert_eq!(entry.flip_x, *flip);
    }
}

#[test]
fn clamp_limits_values() {
    assert_eq!(clamp(5, -3, 3), 3);
    assert_eq!(clamp(-5, -3, 3), -3);
    assert_eq!(clamp(2, -3, 3), 2);
    // an empty range: below the low end gives the low end, else the high end
    assert_eq!(clamp(0, 3, -3), 3);
    assert_eq!(clamp(2, 3, -3), 3);
    assert_eq!(clamp(-5, 3, -3), 3);
    assert_eq!(clamp(3, 3, -3), -3);
    assert_eq!(clamp(5, 3, -3), -3);
}

#[test]
fn clamp_symmetric_bound_on_values() {
    for v in [-1000, -7, 0, 7, 1000] {
        for l in [-10, -1, 0, 1, 10] {
            let c = clamp(v, -l, l);
            assert!(c.abs() <= l.abs());
        }
    }
}

#[test]
fn square_values() {
    assert_eq!(square(0), 0);
    assert_eq!(square(-7), 49);
    assert_eq!(square(46340), 2147395600);
}

#[test]
fn vector_sum_and_difference() {
    let a = Vec2::new(3, -4);
    let b = Vec2::new(10, 20);
    assert_eq!(a.plus(&b), Vec2 { x: 13, y: 16 });
    assert_eq!(a.minus(&b), Vec2 { x: -7, y: -24 });
    assert_eq!(b.minus(&a), Vec2 { x: 7, y: 24 });
}

#[test]
fn fixed_point_constants() {
    assert_eq!(ONE, 1 << ONE_BIT);
    assert_eq!(ANGLE, 256);
    assert_eq!(CENTER_X, GAME_WIDTH * ONE / 2);
    assert_eq!(PLAYER_Y, (GAME_HEIGHT - 96) * ONE);
    assert_eq!(WINDOW_HEIGHT, 512);
}

#[test]
fn app_layout_constants() {
    assert_eq!(app_consts::CENTER_X, app_consts::GAME_WIDTH / 2);
    assert_eq!(app_consts::GAME_HEIGHT, 268);
    assert_eq!(app_consts::PLAYER_Y, 252);
}

#[test]
fn channels_start_empty() {
    let ch: Vec<Option<String>> = empty_channels(3);
    assert_eq!(ch.len(), 3);
    assert!(ch.iter().all(|c| c.is_none()));
    let none: Vec<Option<u8>> = empty_channels(0);
    assert!(none.is_empty());
}

#[test]
fn channel_slot_only_for_existing_channels() {
    assert_eq!(channel_slot(0, 3), Some(0));
    assert_eq!(channel_slot(2, 3), Some(2));
    assert_eq!(channel_slot(3, 3), None);
    assert_eq!(channel_slot(0, 0), None);
}
