//! Unit tests for the timeline's floor lookup, the collision selection rule
//! and the exact transition parts.

use collisions::kinematics::apply_blocks;
use collisions::kinematics::apply_wall;
use collisions::kinematics::next_collision;
use collisions::kinematics::Collision;
use collisions::kinematics::KinematicState;
use collisions::timeline::Timeline;

fn snap(tag: u64) -> KinematicState {
    KinematicState { p1: tag, v1: tag + 1, p2: tag + 2, v2: tag + 3 }
}

fn sample_timeline() -> Timeline {
    let mut t = Timeline::new();
    t.insert(10.0_f64.to_bits(), snap(100));
    t.insert(20.0_f64.to_bits(), snap(200));
    t.insert(30.0_f64.to_bits(), snap(300));
    t
}

/// Floor lookup returns the entry with the greatest time at or before the
/// query, and nothing when the query precedes the first entry.
#[test]
fn latest_at_or_before_floor_semantics() {
    let t = sample_timeline();
    assert_eq!(t.len(), 3);

    // Before the first entry: nothing.
    assert!(t.latest_at_or_before(5.0_f64.to_bits()).is_none());

    // Exactly on a key: that entry.
    let e = t.latest_at_or_before(10.0_f64.to_bits()).unwrap();
    assert_eq!(f64::from_bits(e.0), 10.0);
    assert_eq!(e.1, snap(100));

    // Between two keys: the earlier of the two.
    let e = t.latest_at_or_before(25.0_f64.to_bits()).unwrap();
    assert_eq!(f64::from_bits(e.0), 20.0);
    assert_eq!(e.1, snap(200));

    // On the last key, and far past it: the last entry.
    let e = t.latest_at_or_before(30.0_f64.to_bits()).unwrap();
    assert_eq!(f64::from_bits(e.0), 30.0);
    assert_eq!(e.1, snap(300));
    let e = t.latest_at_or_before(1000.0_f64.to_bits()).unwrap();
    assert_eq!(f64::from_bits(e.0), 30.0);
    assert_eq!(e.1, snap(300));
}

/// Exact lookup finds an entry only at exactly its recorded time.
#[test]
fn get_exact_semantics() {
    let t = sample_timeline();
    assert_eq!(t.get(20.0_f64.to_bits()), Some(snap(200)));
    assert_eq!(t.get(10.0_f64.to_bits()), Some(snap(100)));
    assert!(t.get(25.0_f64.to_bits()).is_none());
    assert!(t.get(5.0_f64.to_bits()).is_none());
    assert!(t.get(1000.0_f64.to_bits()).is_none());
}

#[test]
fn empty_timeline_has_no_entries() {
    let t = Timeline::new();
    assert_eq!(t.len(), 0);
    assert!(t.latest_at_or_before(0.0_f64.to_bits()).is_none());
    assert!(t.latest_at_or_before(f64::MAX.to_bits()).is_none());
}

/// The selection rule: earlier valid candidate wins; with no valid
/// candidate the simulation is over; an exact tie goes to the block-block
/// collision.
#[test]
fn next_collision_selection_rule() {
    let w = 1.5_f64.to_bits();
    let b = 2.5_f64.to_bits();
    assert_eq!(next_collision(None, None), None);
    assert_eq!(next_collision(Some(w), None), Some(Collision::Wall));
    assert_eq!(next_collision(None, Some(b)), Some(Collision::Blocks));
    assert_eq!(next_collision(Some(w), Some(b)), Some(Collision::Wall));
    assert_eq!(next_collision(Some(b), Some(w)), Some(Collision::Blocks));
}

#[test]
fn next_collision_tie_goes_to_blocks() {
    let t = 0.25_f64.to_bits();
    assert_eq!(next_collision(Some(t), Some(t)), Some(Collision::Blocks));
}

/// A wall bounce reverses the light block's velocity exactly (IEEE-754
/// sign-bit flip) and pins it to the wall; doing it twice restores the
/// original velocity.
#[test]
fn wall_bounce_is_exact_reflection() {
    for v in [0.0_f64, 1.0, -2.5, 0.02, -1.0e300] {
        let s = KinematicState {
            p1: 0.02_f64.to_bits(),
            v1: v.to_bits(),
            p2: 0.05_f64.to_bits(),
            v2: (-1.0_f64).to_bits(),
        };
        let once = apply_wall(s, 0.03_f64.to_bits());
        assert_eq!(f64::from_bits(once.p1), 0.0);
        assert_eq!(once.v1, (-v).to_bits());
        assert_eq!(once.v2, s.v2);
        assert_eq!(f64::from_bits(once.p2), 0.03);
        let twice = apply_wall(once, 0.03_f64.to_bits());
        assert_eq!(twice.v1, v.to_bits());
    }
}

/// A block-block collision leaves both blocks at exactly the same position
/// and installs the caller's post-collision velocities.
#[test]
fn block_collision_coincides_exactly() {
    let s = KinematicState {
        p1: 0.0_f64.to_bits(),
        v1: 1.0_f64.to_bits(),
        p2: 0.02_f64.to_bits(),
        v2: 0.0_f64.to_bits(),
    };
    let r = apply_blocks(s, 0.02_f64.to_bits(), 0.0_f64.to_bits(), 1.0_f64.to_bits());
    assert_eq!(r.p1, r.p2);
    assert_eq!(f64::from_bits(r.p1), 0.02);
    assert_eq!(f64::from_bits(r.v1), 0.0);
    assert_eq!(f64::from_bits(r.v2), 1.0);
}
