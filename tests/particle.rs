use piispis::config::{INITIAL_VELOCITY_X, INITIAL_VELOCITY_Y, SPAWN_COUNT};
use piispis::entity::{Entity, EntityCounter};
use piispis::geometry::{is_valid_position, screen_offset};
use piispis::particle::{Piispis, Position, Step, Velocity};

fn in_launch_range(vx: i32, vy: i32) -> bool {
    let horizontal = (-5..0).contains(&vx) || (5..10).contains(&vx);
    horizontal && (15..22).contains(&vy)
}

#[test]
fn positioning_mapping_is_exact() {
    assert_eq!(screen_offset(100, 50), (532, 71));
    assert_eq!(screen_offset(0, 0), (582, -29));
}

#[test]
fn valid_position_checks_only_height() {
    assert!(!is_valid_position(100, 18));
    assert!(is_valid_position(100, 19));
    assert!(!is_valid_position(100, -40));
    assert!(is_valid_position(-100000, 500));
}

#[test]
fn click_scenario_first_tick() {
    let (p, step) = Piispis::launch(Entity(0), 400, 590, false, 0, 0);
    assert_eq!(p.velocity(), Velocity { x: 5, y: 14 });
    assert_eq!(p.position(), Position { x: 405, y: 604 });
    assert!(p.is_alive());
    assert_eq!(step, Step::Moved { top: -22, left: 376 });
}

#[test]
fn click_scenario_later_ticks() {
    let (mut p, _) = Piispis::launch(Entity(0), 400, 590, false, 0, 0);
    assert_eq!(p.update(), Step::Moved { top: -35, left: 381 });
    assert_eq!(p.position(), Position { x: 410, y: 617 });
    assert_eq!(p.velocity(), Velocity { x: 5, y: 13 });
}

#[test]
fn leftward_launch_uses_negative_base() {
    let (p, _) = Piispis::launch(Entity(3), 100, 100, true, 4, 6);
    assert_eq!(p.velocity(), Velocity { x: -1, y: 20 });
    assert_eq!(p.position(), Position { x: 99, y: 120 });
    assert_eq!(p.id(), Entity(3));
}

#[test]
fn spawn_below_floor_produces_nothing() {
    let mut ids = EntityCounter::new();
    for y in [-1000, -1, 0, 1, 17, 18] {
        assert!(Piispis::spawn(&mut ids, 50, y).is_none());
    }
    assert_eq!(ids.next_id(), Entity(0));
}

#[test]
fn spawn_first_position_is_one_integration_step() {
    let mut ids = EntityCounter::new();
    for _ in 0..50 {
        let (p, step) = Piispis::spawn(&mut ids, 300, 200).unwrap();
        let v = p.velocity();
        let drawn_vy = v.y + 1;
        assert!(in_launch_range(v.x, drawn_vy));
        assert_eq!(p.position(), Position { x: 300 + v.x, y: 200 + v.y });
        assert!(p.is_alive());
        assert_eq!(step, Step::Moved { top: 600 - (200 + v.y) - 18, left: 300 + v.x - 29 });
    }
}

#[test]
fn spawn_draws_vary() {
    let mut ids = EntityCounter::new();
    let mut vxs = Vec::new();
    let mut vys = Vec::new();
    for _ in 0..200 {
        let (p, _) = Piispis::spawn(&mut ids, 300, 200).unwrap();
        vxs.push(p.velocity().x);
        vys.push(p.velocity().y);
    }
    assert!(vxs.iter().any(|&v| v < 0));
    assert!(vxs.iter().any(|&v| v > 0));
    assert!(vxs.iter().any(|&v| v != vxs[0]));
    assert!(vys.iter().any(|&v| v != vys[0]));
    assert!(vxs.iter().any(|&v| v != -INITIAL_VELOCITY_X && v != INITIAL_VELOCITY_X));
    assert!(vys.iter().any(|&v| v != INITIAL_VELOCITY_Y - 1));
}

#[test]
fn terminated_particle_stays_stopped() {
    let (mut p, _) = Piispis::launch(Entity(0), 0, 19, false, 0, 0);
    let mut step = Step::Moved { top: 0, left: 0 };
    while step.continues() {
        step = p.update();
    }
    assert_eq!(step, Step::Removed);
    assert!(!p.is_alive());
    let pos = p.position();
    let vel = p.velocity();
    for _ in 0..10 {
        assert_eq!(p.update(), Step::Stopped);
        assert_eq!(p.position(), pos);
        assert_eq!(p.velocity(), vel);
        assert!(!p.is_alive());
    }
}

#[test]
fn termination_is_one_way() {
    let (mut p, first) = Piispis::launch(Entity(0), 10, 400, true, 2, 3);
    assert!(first.continues());
    let mut ticks = 1;
    while p.update().continues() {
        ticks += 1;
        assert!(ticks < 1000);
    }
    for _ in 0..20 {
        assert!(!p.update().continues());
    }
}

#[test]
fn removal_tick_trace() {
    // After n ticks y = 19 + 15n - n(n+1)/2: back to 19 at n = 29, 4 at n = 30.
    let (mut p, _) = Piispis::launch(Entity(0), 0, 19, false, 0, 0);
    let mut n = 1;
    loop {
        let s = p.update();
        n += 1;
        if !s.continues() {
            assert_eq!(s, Step::Removed);
            break;
        }
    }
    assert_eq!(n, 30);
    assert_eq!(p.velocity(), Velocity { x: 5, y: -15 });
    assert_eq!(p.position(), Position { x: 150, y: 4 });
}

#[test]
fn batch_spawn_of_five() {
    let mut ids = EntityCounter::new();
    let burst = Piispis::spawn_burst(&mut ids, 250, 300, SPAWN_COUNT);
    assert_eq!(burst.len(), 5);
    for (i, (p, step)) in burst.iter().enumerate() {
        assert_eq!(p.id(), Entity(i as u64));
        assert!(step.continues());
        assert!(in_launch_range(p.velocity().x, p.velocity().y + 1));
    }
    for i in 0..5 {
        for j in (i + 1)..5 {
            assert_ne!(burst[i].0.id(), burst[j].0.id());
        }
    }
    let first = burst[0].0.velocity();
    assert!(burst.iter().any(|(p, _)| p.velocity() != first));
    assert_eq!(ids.next_id(), Entity(5));
}

#[test]
fn batch_spawn_rejected_point() {
    let mut ids = EntityCounter::new();
    let burst = Piispis::spawn_burst(&mut ids, 250, 10, SPAWN_COUNT);
    assert!(burst.is_empty());
    assert_eq!(ids.next_id(), Entity(0));
}

#[test]
fn batch_spawn_zero_count() {
    let mut ids = EntityCounter::new();
    assert!(Piispis::spawn_burst(&mut ids, 250, 300, 0).is_empty());
    assert_eq!(ids.next_id(), Entity(0));
}

#[test]
fn ids_keep_increasing_across_bursts() {
    let mut ids = EntityCounter::new();
    let a = Piispis::spawn_burst(&mut ids, 100, 300, 3);
    let _ = Piispis::spawn_burst(&mut ids, 100, 0, 3);
    let b = Piispis::spawn_burst(&mut ids, 100, 300, 2);
    let all: Vec<u64> = a.iter().chain(b.iter()).map(|(p, _)| p.id().0).collect();
    assert_eq!(all, vec![0, 1, 2, 3, 4]);
}

#[test]
fn range_checks_at_the_limits() {
    assert!(Piispis::can_spawn_at(0, 0));
    assert!(!Piispis::can_spawn_at(i32::MAX, 100));
    assert!(!Piispis::can_spawn_at(i32::MIN, 100));
    assert!(!Piispis::can_spawn_at(0, i32::MAX));
    assert!(Piispis::can_spawn_at(i32::MAX - 10, i32::MAX - 22));
    assert!(!Piispis::can_spawn_at(i32::MAX - 9, 0));
    let (p, _) = Piispis::launch(Entity(0), i32::MAX - 10, 100, false, 4, 0);
    assert_eq!(p.position().x, i32::MAX - 1);
    assert!(!p.can_update());
    let (q, _) = Piispis::launch(Entity(0), 0, 100, false, 0, 0);
    assert!(q.can_update());
}

#[test]
fn step_continues_only_when_moved() {
    assert!(Step::Moved { top: 1, left: 2 }.continues());
    assert!(!Step::Removed.continues());
    assert!(!Step::Stopped.continues());
}
