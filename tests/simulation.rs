use zelda_core::collisions::{are_overlapping, overlaps_any, overlaps_at, HitBox};
use zelda_core::constants::{
    ENNEMIES_NUMBER, ENNEMY_ATTACK_DELAY, ENNEMY_NORMAL_SPEED, ENNEMY_SPRINT_SPEED, MAP_SIZE,
    PLAYER_BOUND, PLAYER_DEFENSE_RATIO, SPAWN_MAX_X, SPAWN_MAX_Y,
};
use zelda_core::ennemies::{
    despawn_on_death, direction_from_index, direction_towards, ennemy_attack, ennemy_attack_with,
    ennemy_aggro_detection, spawn_coordinate, state_speed_update, summon_ennemies, AttackDelay,
    Ennemy, EnnemyFacingDirection, EnnemyState,
};
use zelda_core::player::{Player, PlayerInput};

fn keys(left: bool, right: bool, up: bool, down: bool, sprint: bool) -> PlayerInput {
    PlayerInput { left, right, up, down, sprint }
}

fn facing(x: i32, y: i32, d: EnnemyFacingDirection) -> Ennemy {
    let mut e = Ennemy::new(x, y, 10, 5, 0);
    e.current_direction = Some(d);
    e
}

#[test]
fn overlap_is_symmetric() {
    let boxes = [
        HitBox::new(0, 0, 10, 10),
        HitBox::new(9, 0, 10, 10),
        HitBox::new(10, 0, 10, 10),
        HitBox::new(-3, 7, 4, 20),
        HitBox::new(100, -100, 1, 1),
    ];
    for a in boxes.iter() {
        for b in boxes.iter() {
            assert_eq!(are_overlapping(a, b), are_overlapping(b, a));
        }
    }
}

#[test]
fn touching_edges_do_not_overlap() {
    let a = HitBox::new(0, 0, 10, 10);
    assert!(!are_overlapping(&a, &HitBox::new(10, 0, 10, 10)));
    assert!(are_overlapping(&a, &HitBox::new(9, 0, 10, 10)));
    assert!(!are_overlapping(&a, &HitBox::new(0, -10, 10, 10)));
    assert!(are_overlapping(&a, &HitBox::new(9, -9, 10, 10)));
}

#[test]
fn own_box_overlaps_itself_unless_degenerate() {
    let a = HitBox::new(5, 5, 10, 10);
    assert!(are_overlapping(&a, &a));
    let flat = HitBox::new(5, 5, 10, 0);
    assert!(!are_overlapping(&flat, &flat));
}

#[test]
fn overlaps_any_checks_every_box() {
    let boxes = vec![HitBox::new(100, 0, 10, 10), HitBox::new(0, 100, 10, 10)];
    assert!(overlaps_any(0, 95, 10, 10, &boxes));
    assert!(!overlaps_any(0, 0, 10, 10, &boxes));
    assert!(!overlaps_any(0, 0, 10, 10, &Vec::new()));
}

#[test]
fn hitbox_set_pos_moves_center_only() {
    let mut b = HitBox::new(1, 2, 3, 4);
    b.set_pos(-7, 8);
    assert_eq!(b, HitBox::new(-7, 8, 3, 4));
}

#[test]
fn new_ennemy_starts_roaming_without_facing() {
    let e = Ennemy::new(3, -4, 10, 5, 500000);
    assert_eq!(e.get_pos(), (3, -4));
    assert_eq!(e.get_health(), 10);
    assert_eq!(e.get_facing_direction(), None);
    assert_eq!(e.state, EnnemyState::Roaming);
    assert_eq!(e.current_speed, ENNEMY_NORMAL_SPEED);
    assert_eq!(e.direction_counter, 0);
    assert_eq!(e.attack_delay, AttackDelay::new(ENNEMY_ATTACK_DELAY));
    assert_eq!(e.get_hitbox(), HitBox::new(3, -4, 24, 32));
}

#[test]
fn move_right_in_open_space() {
    let mut e = Ennemy::new(0, 0, 10, 5, 0);
    assert!(e.move_in_direction(&EnnemyFacingDirection::Right, 3, &Vec::new()));
    assert_eq!(e.get_pos(), (3, 0));
    assert_eq!(e.get_facing_direction(), Some(EnnemyFacingDirection::Right));
}

#[test]
fn diagonal_move_steps_both_axes_by_the_amount() {
    let dirs = [
        (EnnemyFacingDirection::TopLeft, -4, 4),
        (EnnemyFacingDirection::TopRight, 4, 4),
        (EnnemyFacingDirection::BottomLeft, -4, -4),
        (EnnemyFacingDirection::BottomRight, 4, -4),
        (EnnemyFacingDirection::Up, 0, 4),
        (EnnemyFacingDirection::Down, 0, -4),
        (EnnemyFacingDirection::Left, -4, 0),
    ];
    for (d, dx, dy) in dirs.iter() {
        let mut e = Ennemy::new(10, 20, 10, 5, 0);
        assert!(e.move_in_direction(d, 4, &Vec::new()));
        assert_eq!(e.get_pos(), (10 + dx, 20 + dy));
        assert_eq!(e.get_facing_direction(), Some(*d));
    }
}

#[test]
fn blocked_move_changes_nothing() {
    let obstacles = vec![HitBox::new(30, 0, 10, 10)];
    let mut e = facing(0, 0, EnnemyFacingDirection::Up);
    let before = e;
    // the diagonal is blocked even though going straight up would be free
    assert!(!e.move_in_direction(&EnnemyFacingDirection::TopRight, 14, &obstacles));
    assert_eq!(e, before);
    assert!(e.move_in_direction(&EnnemyFacingDirection::Up, 14, &obstacles));
    assert_eq!(e.get_pos(), (0, 14));
}

#[test]
fn map_edge_blocks_only_the_side_moved_toward() {
    // the top limit for an enemy center is (MAP_SIZE - 32) / 2, inclusive
    let top = (MAP_SIZE - 32) / 2;
    let mut e = Ennemy::new(0, top - 2, 10, 5, 0);
    assert!(!e.move_in_direction(&EnnemyFacingDirection::Up, 3, &Vec::new()));
    assert_eq!(e.get_pos(), (0, top - 2));
    assert!(e.move_in_direction(&EnnemyFacingDirection::Up, 2, &Vec::new()));
    assert_eq!(e.get_pos(), (0, top));
    // sideways moves do not look at the vertical limits
    assert!(e.move_in_direction(&EnnemyFacingDirection::Left, 1, &Vec::new()));
    assert!(!e.move_in_direction(&EnnemyFacingDirection::TopLeft, 1, &Vec::new()));
}

#[test]
fn chase_follows_the_signs_of_the_gap() {
    let cases = [
        (10, -5, EnnemyFacingDirection::BottomRight),
        (-10, 5, EnnemyFacingDirection::TopLeft),
        (-10, 0, EnnemyFacingDirection::Left),
        (0, 7, EnnemyFacingDirection::Up),
        (3, 70, EnnemyFacingDirection::TopRight),
    ];
    for (px, py, d) in cases.iter() {
        let mut e = Ennemy::new(0, 0, 10, 5, 0);
        e.current_speed = ENNEMY_SPRINT_SPEED;
        let mut p = Player::new();
        p.x = *px;
        p.y = *py;
        e.chase_player(&p, &Vec::new());
        assert_eq!(e.get_facing_direction(), Some(*d));
        let step = ENNEMY_SPRINT_SPEED as i32;
        let sx = if *px > 0 { step } else if *px < 0 { -step } else { 0 };
        let sy = if *py > 0 { step } else if *py < 0 { -step } else { 0 };
        assert_eq!(e.get_pos(), (sx, sy));
    }
}

#[test]
fn chase_on_top_of_player_stays_put() {
    let mut e = Ennemy::new(0, 0, 10, 5, 0);
    let before = e;
    e.chase_player(&Player::new(), &Vec::new());
    assert_eq!(e, before);
}

#[test]
fn roaming_takes_a_fresh_heading_when_counter_runs_out() {
    let mut e = Ennemy::new(0, 0, 10, 5, 0);
    e.roam_with(EnnemyFacingDirection::Down, 30, &Vec::new());
    assert_eq!(e.direction_counter, 29);
    assert_eq!(e.get_facing_direction(), Some(EnnemyFacingDirection::Down));
    assert_eq!(e.get_pos(), (0, -1));
    // while the counter lasts the fresh draw is ignored
    e.roam_with(EnnemyFacingDirection::Up, 40, &Vec::new());
    assert_eq!(e.direction_counter, 28);
    assert_eq!(e.get_pos(), (0, -2));
}

#[test]
fn roaming_counter_drops_even_when_blocked() {
    let obstacles = vec![HitBox::new(0, -20, 10, 10)];
    let mut e = Ennemy::new(0, 0, 10, 5, 0);
    e.direction_counter = 5;
    e.roam_direction = Some(EnnemyFacingDirection::Down);
    for expected in [4, 3, 2, 1, 0].iter() {
        e.roam_with(EnnemyFacingDirection::Up, 30, &obstacles);
        assert_eq!(e.direction_counter, *expected);
    }
    assert_eq!(e.get_pos(), (0, 0));
}

#[test]
fn roaming_keeps_trying_the_drawn_heading() {
    let right_limit = (MAP_SIZE - 24) / 2;
    let mut e = Ennemy::new(0, 0, 10, 5, 0);
    assert!(e.move_in_direction(&EnnemyFacingDirection::Left, 1, &Vec::new()));
    let obstacles = vec![HitBox::new(0, 20, 10, 10)];
    e.roam_with(EnnemyFacingDirection::Up, 30, &obstacles);
    assert_eq!(e.get_pos(), (-1, 0));
    assert_eq!(e.roam_direction, Some(EnnemyFacingDirection::Up));
    assert_eq!(e.get_facing_direction(), Some(EnnemyFacingDirection::Left));
    for _ in 0..3 {
        e.roam_with(EnnemyFacingDirection::Right, 30, &obstacles);
        assert_eq!(e.get_pos(), (-1, 0));
    }
    assert_eq!(e.direction_counter, 26);

    // a right edge exactly reached is allowed
    let mut edge = Ennemy::new(right_limit - 1, 0, 10, 5, 0);
    assert!(edge.move_in_direction(&EnnemyFacingDirection::Right, 1, &Vec::new()));
    assert_eq!(edge.get_pos(), (right_limit, 0));
    assert!(!edge.move_in_direction(&EnnemyFacingDirection::Right, 1, &Vec::new()));
}

#[test]
fn roaming_with_random_draws_keeps_counter_in_range() {
    for _ in 0..50 {
        let mut e = Ennemy::new(0, 0, 10, 5, 0);
        e.roaming(&Vec::new());
        assert!(24 <= e.direction_counter && e.direction_counter < 49);
        assert!(e.get_facing_direction().is_some());
        let (x, y) = e.get_pos();
        assert!(x.abs() <= 1 && y.abs() <= 1 && (x, y) != (0, 0));
    }
}

#[test]
fn aggro_switches_at_the_radius() {
    let mut p = Player::new();
    p.x = 199;
    let mut near = Ennemy::new(0, 0, 10, 5, 0);
    near.aggro_step_with(&p, EnnemyFacingDirection::Up, 30, &Vec::new());
    assert_eq!(near.state, EnnemyState::Chasing);
    assert_eq!(near.get_pos(), (1, 0));

    p.x = 200;
    let mut far = Ennemy::new(0, 0, 10, 5, 0);
    far.aggro_step_with(&p, EnnemyFacingDirection::Up, 30, &Vec::new());
    assert_eq!(far.state, EnnemyState::Roaming);
    assert_eq!(far.get_pos(), (0, 1));

    p.x = 120;
    p.y = 160;
    let mut edge = Ennemy::new(0, 0, 10, 5, 0);
    assert!(!edge.sees(&p));
    p.y = 159;
    assert!(edge.sees(&p));
    edge.aggro_step(&p, &Vec::new());
    assert_eq!(edge.state, EnnemyState::Chasing);
}

#[test]
fn dead_player_is_not_chased() {
    let mut p = Player::new();
    p.x = 10;
    p.health = 0;
    let mut e = Ennemy::new(0, 0, 10, 5, 0);
    e.aggro_step_with(&p, EnnemyFacingDirection::Left, 25, &Vec::new());
    assert_eq!(e.state, EnnemyState::Roaming);
    assert_eq!(e.get_pos(), (-1, 0));
    assert_eq!(e.direction_counter, 24);
}

#[test]
fn speed_follows_state() {
    let mut es = vec![Ennemy::new(0, 0, 10, 5, 0), Ennemy::new(5, 5, 10, 5, 0)];
    es[0].state = EnnemyState::Chasing;
    state_speed_update(&mut es);
    assert_eq!(es[0].current_speed, ENNEMY_SPRINT_SPEED);
    assert_eq!(es[1].current_speed, ENNEMY_NORMAL_SPEED);
    es[0].state = EnnemyState::Roaming;
    es[0].state_speed_update();
    assert_eq!(es[0].current_speed, ENNEMY_NORMAL_SPEED);
}

#[test]
fn aggro_detection_runs_every_enemy() {
    let mut p = Player::new();
    p.x = 50;
    let mut es = vec![Ennemy::new(0, 0, 10, 5, 0), Ennemy::new(1000, 1000, 10, 5, 0)];
    ennemy_aggro_detection(&mut es, &p, &Vec::new());
    assert_eq!(es.len(), 2);
    assert_eq!(es[0].state, EnnemyState::Chasing);
    assert_eq!(es[0].get_pos(), (1, 0));
    assert_eq!(es[1].state, EnnemyState::Roaming);
    assert!(24 <= es[1].direction_counter && es[1].direction_counter < 49);
}

#[test]
fn attack_delay_fires_once_per_period() {
    let mut t = AttackDelay::new(1000);
    t.tick(400);
    assert!(!t.finished());
    assert_eq!(t.elapsed_ms, 400);
    t.tick(5000);
    assert!(t.finished());
    assert_eq!(t.elapsed_ms, 1000);
    t.tick(7);
    assert!(t.finished());
    assert_eq!(t.elapsed_ms, 1000);
    t.reset();
    assert!(!t.finished());
    assert_eq!(t.elapsed_ms, 0);
}

#[test]
fn zero_delay_is_not_finished_before_a_tick() {
    let mut t = AttackDelay::new(0);
    assert!(!t.finished());
    t.tick(0);
    assert!(t.finished());
    t.reset();
    assert!(!t.finished());
}

#[test]
fn scenario_attack_needs_alignment() {
    // enemy at the origin facing right; player due right, within the probe
    let e0 = facing(0, 0, EnnemyFacingDirection::Right);
    let mut p = Player::new();
    p.x = 30;
    assert!(e0.can_hit(&p));
    let mut e = e0;
    assert!(e.attack_tick_with(ENNEMY_ATTACK_DELAY, &mut p, PLAYER_DEFENSE_RATIO + 1));
    assert_eq!(p.get_health(), 15);
    assert_eq!(e.attack_delay.elapsed_ms, 0);

    // same probe overlap, but the player stands above the enemy
    let mut above = Player::new();
    above.y = 30;
    let probe = e0.get_hitbox();
    assert!(overlaps_at(20, 0, probe.width, probe.height, &above.get_hitbox()));
    assert!(!e0.can_hit(&above));
    let mut e = e0;
    assert!(!e.attack_tick_with(ENNEMY_ATTACK_DELAY, &mut above, PLAYER_DEFENSE_RATIO + 1));
    assert_eq!(above.get_health(), 20);
}

#[test]
fn attack_waits_for_the_countdown() {
    let mut e = facing(0, 0, EnnemyFacingDirection::Right);
    let mut p = Player::new();
    p.x = 30;
    assert!(!e.attack_tick_with(ENNEMY_ATTACK_DELAY - 1, &mut p, 999999));
    assert_eq!(p.get_health(), 20);
    assert_eq!(e.attack_delay.elapsed_ms, ENNEMY_ATTACK_DELAY - 1);
    assert!(e.attack_tick_with(1, &mut p, 999999));
    assert_eq!(p.get_health(), 15);
}

#[test]
fn out_of_reach_or_misaligned_never_damages() {
    let mut p = Player::new();
    p.x = 200;
    let mut far = facing(0, 0, EnnemyFacingDirection::Right);
    let mut q = Player::new();
    q.x = -30;
    let mut backwards = facing(0, 0, EnnemyFacingDirection::Right);
    let mut unset = Ennemy::new(0, 0, 10, 5, 0);
    let mut r = Player::new();
    r.x = 30;
    for _ in 0..5 {
        assert!(!far.attack_tick_with(ENNEMY_ATTACK_DELAY, &mut p, 999999));
        assert!(!backwards.attack_tick_with(ENNEMY_ATTACK_DELAY, &mut q, 999999));
        assert!(!unset.attack_tick_with(ENNEMY_ATTACK_DELAY, &mut r, 999999));
        assert!(!far.attack_tick(ENNEMY_ATTACK_DELAY, &mut p));
    }
    assert_eq!(p.get_health(), 20);
    assert_eq!(q.get_health(), 20);
    assert_eq!(r.get_health(), 20);
}

#[test]
fn damage_lands_only_above_the_defense_ratio() {
    let mut e = Ennemy::new(0, 0, 10, 5, 300000);
    assert!(!e.resolve_attack(4, 300000));
    assert_eq!(e.get_health(), 10);
    assert!(!e.resolve_attack(4, 0));
    assert!(e.resolve_attack(4, 300001));
    assert_eq!(e.get_health(), 6);
    assert!(e.resolve_attack(7, 999999));
    assert_eq!(e.get_health(), -1);

    let mut p = Player::new();
    assert!(!p.resolve_attack(5, PLAYER_DEFENSE_RATIO));
    assert!(p.resolve_attack(5, PLAYER_DEFENSE_RATIO + 1));
    assert_eq!(p.get_health(), 15);
}

#[test]
fn full_defense_blocks_every_random_attack() {
    let mut e = Ennemy::new(0, 0, 10, 5, 999999);
    for _ in 0..20 {
        assert!(!e.get_attacked(5));
    }
    assert_eq!(e.get_health(), 10);
}

#[test]
fn random_attack_lowers_health_by_power_or_not_at_all() {
    let mut e = Ennemy::new(0, 0, 100, 5, 500000);
    for _ in 0..10 {
        let before = e.get_health();
        let landed = e.get_attacked(3);
        assert_eq!(e.get_health(), if landed { before - 3 } else { before });
    }
    let mut p = Player::new();
    let landed = p.get_attacked(4);
    assert_eq!(p.get_health(), if landed { 16 } else { 20 });
}

#[test]
fn scenario_health_runs_out_and_enemy_is_swept() {
    let mut es = vec![
        Ennemy::new(0, 0, 10, 5, 0),
        Ennemy::new(50, 0, 10, 5, 0),
        Ennemy::new(-50, 0, 3, 5, 0),
    ];
    assert!(es[0].resolve_attack(5, 1));
    assert_eq!(es[0].get_health(), 5);
    assert!(!es[0].is_dead());
    assert!(es[0].resolve_attack(5, 1));
    assert_eq!(es[0].get_health(), 0);
    assert!(es[0].is_dead());
    assert_eq!(es.len(), 3);
    despawn_on_death(&mut es);
    assert_eq!(es.len(), 2);
    assert_eq!(es[0].get_pos(), (50, 0));
    assert_eq!(es[1].get_pos(), (-50, 0));
    despawn_on_death(&mut es);
    assert_eq!(es.len(), 2);
}

#[test]
fn despawn_keeps_empty_list_empty() {
    let mut es: Vec<Ennemy> = Vec::new();
    despawn_on_death(&mut es);
    assert!(es.is_empty());
}

#[test]
fn list_attack_touches_only_health() {
    let mut p = Player::new();
    p.x = 30;
    let mut es = vec![
        facing(0, 0, EnnemyFacingDirection::Right),
        facing(0, 200, EnnemyFacingDirection::Down),
    ];
    for _ in 0..3 {
        ennemy_attack(&mut es, ENNEMY_ATTACK_DELAY, &mut p);
    }
    assert!(p.get_health() <= 20 && p.get_health() >= 5);
    assert_eq!((p.x, p.y), (30, 0));
    assert_eq!(es[0].attack_delay.elapsed_ms, 0);

    let mut q = Player::new();
    q.x = 500;
    ennemy_attack(&mut es, ENNEMY_ATTACK_DELAY, &mut q);
    assert_eq!(q, {
        let mut fresh = Player::new();
        fresh.x = 500;
        fresh
    });
}

#[test]
fn attack_pass_lands_exactly_the_firing_connecting_attacks() {
    let mut p = Player::new();
    p.x = 30;
    let mut waiting = facing(0, 0, EnnemyFacingDirection::Right);
    waiting.attack_delay = AttackDelay::new(5000);
    let mut es = vec![
        facing(0, 0, EnnemyFacingDirection::Right),
        waiting,
        Ennemy::new(0, 0, 10, 5, 0),
        facing(0, 0, EnnemyFacingDirection::Left),
        facing(0, 0, EnnemyFacingDirection::Right),
    ];
    es[4].attack = 3;
    let hit = PLAYER_DEFENSE_RATIO + 1;
    let rolls = vec![hit, hit, hit, hit, PLAYER_DEFENSE_RATIO];
    ennemy_attack_with(&mut es, ENNEMY_ATTACK_DELAY, &mut p, &rolls);
    // only the first enemy fires, connects and beats the defense
    assert_eq!(p.get_health(), 15);
    assert_eq!(es[1].attack_delay.elapsed_ms, ENNEMY_ATTACK_DELAY);
    assert!(!es[1].attack_delay.finished());

    es[4].attack_delay.reset();
    let rolls = vec![hit, hit, hit, hit, hit];
    ennemy_attack_with(&mut es, ENNEMY_ATTACK_DELAY, &mut p, &rolls);
    assert_eq!(p.get_health(), 7);
}

#[test]
fn scenario_obstacle_reverts_only_the_blocked_axis() {
    let obstacles = vec![HitBox::new(33, 0, 32, 40)];
    let mut p = Player::new();
    let mut es: Vec<Ennemy> = Vec::new();
    p.player_move(&keys(false, true, true, false, false), &obstacles, &mut es);
    assert_eq!(p.get_pos(), (0, 2));
    p.player_move(&keys(false, true, false, false, false), &obstacles, &mut es);
    assert_eq!(p.get_pos(), (0, 2));
}

#[test]
fn player_moves_at_sprint_speed_and_records_sprinting() {
    let mut p = Player::new();
    let mut es: Vec<Ennemy> = Vec::new();
    p.player_move(&keys(true, false, false, true, true), &Vec::new(), &mut es);
    assert_eq!(p.get_pos(), (-4, -4));
    assert!(p.sprinting);
    p.player_move(&keys(true, true, true, true, false), &Vec::new(), &mut es);
    assert_eq!(p.get_pos(), (-6, -6));
    assert!(!p.sprinting);
}

#[test]
fn player_pushes_enemy_it_walks_into() {
    let mut p = Player::new();
    let mut es = vec![Ennemy::new(29, 0, 10, 5, 0)];
    p.player_move(&keys(false, true, false, false, false), &Vec::new(), &mut es);
    assert_eq!(p.get_pos(), (2, 0));
    assert_eq!(es[0].get_pos(), (31, 0));
    assert_eq!(es[0].get_facing_direction(), Some(EnnemyFacingDirection::Right));
}

#[test]
fn player_stops_when_pushed_enemy_is_stuck() {
    let obstacles = vec![HitBox::new(46, 0, 10, 10)];
    let mut p = Player::new();
    let mut es = vec![Ennemy::new(29, 0, 10, 5, 0)];
    p.player_move(&keys(false, true, false, false, false), &obstacles, &mut es);
    assert_eq!(p.get_pos(), (0, 0));
    assert_eq!(es[0].get_pos(), (29, 0));
}

#[test]
fn player_facing_across_the_axis_does_not_push() {
    let mut p = Player::new();
    p.facing_direction = EnnemyFacingDirection::Up;
    let mut es = vec![Ennemy::new(29, 0, 10, 5, 0)];
    p.player_move(&keys(false, true, false, false, false), &Vec::new(), &mut es);
    assert_eq!(p.get_pos(), (0, 0));
    assert_eq!(es[0].get_pos(), (29, 0));
}

#[test]
fn player_is_clamped_to_the_play_area() {
    let mut p = Player::new();
    p.x = PLAYER_BOUND - 1;
    p.y = -PLAYER_BOUND;
    let mut es: Vec<Ennemy> = Vec::new();
    p.player_move(&keys(false, true, false, true, true), &Vec::new(), &mut es);
    assert_eq!(p.get_pos(), (PLAYER_BOUND, -PLAYER_BOUND));
}

#[test]
fn facing_follows_keys_and_sticks() {
    let mut p = Player::new();
    p.player_facing_direction(&keys(true, false, true, false, false));
    assert_eq!(p.facing_direction, EnnemyFacingDirection::TopLeft);
    assert!(p.is_facing_left() && p.is_facing_up());
    p.player_facing_direction(&keys(false, true, false, true, false));
    assert_eq!(p.facing_direction, EnnemyFacingDirection::BottomRight);
    assert!(p.is_facing_right() && p.is_facing_down());
    p.player_facing_direction(&keys(false, false, false, false, true));
    assert_eq!(p.facing_direction, EnnemyFacingDirection::BottomRight);
    p.player_facing_direction(&keys(false, false, true, false, false));
    assert_eq!(p.facing_direction, EnnemyFacingDirection::Up);
    assert!(!p.is_facing_left() && !p.is_facing_right());
}

#[test]
fn new_player_state() {
    let p = Player::new();
    assert_eq!(p.get_pos(), (0, 0));
    assert_eq!(p.get_health(), 20);
    assert_eq!(p.facing_direction, EnnemyFacingDirection::Right);
    assert!(!p.sprinting);
    assert!(!p.is_dead());
    assert_eq!(p.get_hitbox(), HitBox::new(0, 0, 32, 40));
}

#[test]
fn direction_buckets() {
    assert_eq!(direction_towards(0, 0, 0, 0), None);
    assert_eq!(direction_towards(0, 0, 5, 0), Some(EnnemyFacingDirection::Right));
    assert_eq!(direction_towards(0, 0, 0, -5), Some(EnnemyFacingDirection::Down));
    assert_eq!(direction_towards(3, 3, 1, 1), Some(EnnemyFacingDirection::BottomLeft));
    let expected = [
        EnnemyFacingDirection::Up,
        EnnemyFacingDirection::Down,
        EnnemyFacingDirection::Left,
        EnnemyFacingDirection::Right,
        EnnemyFacingDirection::TopLeft,
        EnnemyFacingDirection::TopRight,
        EnnemyFacingDirection::BottomLeft,
        EnnemyFacingDirection::BottomRight,
    ];
    for i in 0..8u32 {
        assert_eq!(direction_from_index(i), expected[i as usize]);
    }
}

#[test]
fn spawn_coordinate_skips_zero() {
    assert_eq!(spawn_coordinate(0, 1500), -1500);
    assert_eq!(spawn_coordinate(1499, 1500), -1);
    assert_eq!(spawn_coordinate(1500, 1500), 1);
    assert_eq!(spawn_coordinate(2998, 1500), 1499);
    assert_eq!(spawn_coordinate(0, 1), -1);
}

#[test]
fn summoned_enemies_are_spread_and_valid() {
    let es = summon_ennemies();
    assert_eq!(es.len(), ENNEMIES_NUMBER);
    for e in es.iter() {
        let (x, y) = e.get_pos();
        assert!(x != 0 && y != 0);
        assert!(-SPAWN_MAX_X <= x && x < SPAWN_MAX_X);
        assert!(-SPAWN_MAX_Y <= y && y < SPAWN_MAX_Y);
        assert_eq!(e.get_health(), 10);
        assert_eq!(e.attack, 5);
        assert_eq!(e.defense_ratio, 500000);
    }
    let first = es[0].get_pos();
    assert!(es.iter().any(|e| e.get_pos() != first));
}
