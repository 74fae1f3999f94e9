use mhdm::config::{PARTICLE_COUNT, PARTICLE_SEED};
use mhdm::grid::{cell_index, workgroup_count};
use mhdm::rng::{particle_seeds, xorshift32};

#[test]
fn xorshift_known_values() {
    assert_eq!(xorshift32(1), 270369);
    assert_eq!(xorshift32(1512), 387822454);
    assert_eq!(xorshift32(0), 0);
}

#[test]
fn particle_seeds_take_consecutive_states() {
    let pairs = particle_seeds(PARTICLE_SEED, 3);
    assert_eq!(
        pairs,
        vec![(387822454, 2400672303), (3993209030, 2088496683), (913264756, 1347843780)]
    );
}

#[test]
fn particle_seeds_full_count_nonzero() {
    let pairs = particle_seeds(PARTICLE_SEED, PARTICLE_COUNT);
    assert_eq!(pairs.len(), PARTICLE_COUNT as usize);
    assert!(pairs.iter().all(|&(x, y)| x != 0 && y != 0));
    let mut s = PARTICLE_SEED;
    for &(x, y) in &pairs {
        s = xorshift32(s);
        assert_eq!(x, s);
        s = xorshift32(s);
        assert_eq!(y, s);
    }
}

#[test]
fn particle_seeds_empty() {
    assert!(particle_seeds(PARTICLE_SEED, 0).is_empty());
}

#[test]
fn cell_index_is_row_major() {
    assert_eq!(cell_index(0, 0, 200, 112), 0);
    assert_eq!(cell_index(0, 199, 200, 112), 199);
    assert_eq!(cell_index(1, 0, 200, 112), 200);
    assert_eq!(cell_index(111, 199, 200, 112), 200 * 112 - 1);
}

#[test]
fn cell_index_visits_every_slot_once() {
    let (cols, rows) = (7u32, 5u32);
    let mut seen = vec![false; (cols * rows) as usize];
    for r in 0..rows {
        for c in 0..cols {
            let i = cell_index(r, c, cols, rows);
            assert!(!seen[i]);
            seen[i] = true;
        }
    }
    assert!(seen.iter().all(|&b| b));
}

#[test]
fn workgroup_count_rounds_up() {
    assert_eq!(workgroup_count(0, 8), 0);
    assert_eq!(workgroup_count(1, 8), 1);
    assert_eq!(workgroup_count(8, 8), 1);
    assert_eq!(workgroup_count(9, 8), 2);
    assert_eq!(workgroup_count(200, 8), 25);
    assert_eq!(workgroup_count(15000, 64), 235);
    assert_eq!(workgroup_count(u32::MAX - 7, 8), (u32::MAX - 7) / 8);
    assert_eq!(workgroup_count(u32::MAX - 8, 8), (u32::MAX - 7) / 8);
}

#[test]
fn xorshift_step_is_one_to_one_on_a_range() {
    let mut outs: Vec<u32> = (1..20000u32).map(xorshift32).collect();
    assert!(outs.iter().all(|&x| x != 0));
    outs.sort();
    outs.dedup();
    assert_eq!(outs.len(), 19999);
}
