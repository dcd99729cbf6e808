use yokai::entities::{land_dirt, land_tree, LandInstance, Monster, Player};
use yokai::screen::Glyph;
use yokai::world::WorldMap;

fn bare_lands(width: usize, height: usize) -> Vec<LandInstance> {
    let mut lands = Vec::new();
    for i in 0..width * height {
        lands.push(LandInstance {
            template: land_dirt(),
            symbol_index: i % 3,
            color_index: (i / 3) % 3,
            position: (i % width, i / width),
        });
    }
    lands
}

/// A world of 20 by 20 cells of bare earth at tick 500 of day 10: the
/// player at (10, 10), the goblin at (13, 10), the oni at (7, 10), the
/// kappa at (10, 13).
fn start() -> WorldMap {
    WorldMap::assemble((40, 21), 10, 500, bare_lands(20, 20))
}

fn walk(world: &mut WorldMap, dx: i32, dy: i32, times: usize) {
    for _ in 0..times {
        world.resolve_move(dx, dy, 1, 0);
    }
}

#[test]
fn assembled_world_is_as_given() {
    let world = start();
    assert_eq!(world.width, 20);
    assert_eq!(world.height, 20);
    assert_eq!(world.day, 10);
    assert_eq!(world.time_tick, 500);
    assert_eq!(world.player, Player::new(20, 20));
    assert_eq!(
        world.monsters,
        vec![Monster::new_goblin(20, 20), Monster::new_oni(20, 20), Monster::new_kappa(20, 20)]
    );
    assert!(world.items.is_empty());
    assert_eq!(world.lands, bare_lands(20, 20));
    assert_eq!(world.combat_message, None);
    assert!(!world.show_stats);
}

#[test]
fn new_world_for_a_terminal() {
    let world = WorldMap::new((80, 24));
    assert_eq!(world.width, 40);
    assert_eq!(world.height, 23);
    assert!(world.day < 336);
    assert!(world.time_tick < 1200);
    assert_eq!(world.player, Player::new(40, 23));
    assert_eq!(world.player.position, (20, 11));
    assert_eq!(
        world.monsters,
        vec![Monster::new_goblin(40, 23), Monster::new_oni(40, 23), Monster::new_kappa(40, 23)]
    );
    assert!(world.items.is_empty());
    assert_eq!(world.lands.len(), 40 * 23);
    for (i, cell) in world.lands.iter().enumerate() {
        assert_eq!(cell.position, (i % 40, i / 40));
        assert!(cell.symbol_index < 3 && cell.color_index < 3);
        assert!(cell.template == land_tree() || cell.template == land_dirt());
    }
    assert_eq!(world.combat_message, None);
    assert!(!world.show_stats);
}

#[test]
fn new_world_on_a_one_row_grid() {
    let world = WorldMap::new((12, 2));
    assert_eq!(world.width, 6);
    assert_eq!(world.height, 1);
    assert_eq!(world.lands.len(), 6);
    assert_eq!(world.player.position, (3, 0));
    assert_eq!(world.monsters[0].position, (5, 0));
    assert_eq!(world.monsters[1].position, (0, 0));
    assert_eq!(world.monsters[2].position, (3, 0));
    assert!(world.monsters.iter().all(|monster| monster.is_alive));
    assert!(world.is_whole());
}

#[test]
fn new_world_on_the_smallest_terminal() {
    let world = WorldMap::new((2, 2));
    assert_eq!((world.width, world.height), (1, 1));
    assert_eq!(world.lands.len(), 1);
    assert_eq!(world.player.position, (0, 0));
    for monster in &world.monsters {
        assert_eq!(monster.position, (0, 0));
    }
    assert!(world.is_whole());
    assert!(world.is_ready());
}

#[test]
fn every_monster_of_a_new_world_stands_on_the_grid() {
    for columns in 2..40u16 {
        for rows in 2..20u16 {
            let world = WorldMap::new((columns, rows));
            assert_eq!(world.monsters.len(), 3);
            for monster in &world.monsters {
                assert!(monster.position.0 < world.width, "{}x{}", columns, rows);
                assert!(monster.position.1 < world.height, "{}x{}", columns, rows);
            }
            assert!(world.player.position.0 < world.width);
            assert!(world.player.position.1 < world.height);
            assert!(world.is_whole());
        }
    }
}

#[test]
fn monsters_keep_their_places_from_seven_by_seven_on() {
    for columns in 14..60u16 {
        for rows in 8..30u16 {
            let world = WorldMap::new((columns, rows));
            let (width, height) = (world.width, world.height);
            assert_eq!(
                world.monsters,
                vec![
                    Monster::new_goblin(width, height),
                    Monster::new_oni(width, height),
                    Monster::new_kappa(width, height)
                ]
            );
        }
    }
}

#[test]
fn monsters_are_held_at_the_edge_of_a_small_grid() {
    let world = WorldMap::assemble((12, 7), 0, 0, bare_lands(6, 6));
    assert_eq!(world.player.position, (3, 3));
    assert_eq!(world.monsters[0], Monster::new_goblin_at((5, 3)));
    assert_eq!(world.monsters[1], Monster::new_oni_at((0, 3)));
    assert_eq!(world.monsters[2], Monster::new_kappa_at((3, 5)));
    let world = WorldMap::assemble((6, 4), 0, 0, bare_lands(3, 3));
    assert_eq!(world.monsters[0].position, (2, 1));
    assert_eq!(world.monsters[1].position, (0, 1));
    assert_eq!(world.monsters[2].position, (1, 2));
}

#[test]
fn roomy_terminals() {
    assert!(WorldMap::is_roomy((2, 2)));
    assert!(WorldMap::is_roomy((80, 24)));
    assert!(WorldMap::is_roomy((u16::MAX, u16::MAX)));
    assert!(!WorldMap::is_roomy((1, 2)));
    assert!(!WorldMap::is_roomy((2, 1)));
    assert!(!WorldMap::is_roomy((0, 0)));
    assert!(!WorldMap::is_roomy((80, 0)));
}

#[test]
fn a_whole_world_and_what_breaks_it() {
    assert!(start().is_whole());
    let mut world = start();
    world.lands.pop();
    assert!(!world.is_whole());
    let mut world = start();
    world.width = 0;
    assert!(!world.is_whole());
    let mut world = start();
    world.lands[7].symbol_index = 3;
    assert!(!world.is_whole());
    let mut world = start();
    world.lands[7].color_index = 3;
    assert!(!world.is_whole());
    let mut world = start();
    world.lands[7].position = (8, 0);
    assert!(!world.is_whole());
    let mut world = start();
    world.player.position = (20, 0);
    assert!(!world.is_whole());
    let mut world = start();
    world.player.position = (0, 20);
    assert!(!world.is_whole());
    let mut world = start();
    world.monsters[2].position = (20, 19);
    assert!(!world.is_whole());
    let mut world = start();
    world.monsters[0].position = (19, 20);
    assert!(!world.is_whole());
    let mut world = start();
    world.monsters[1].strength = u32::MAX;
    assert!(!world.is_whole());
    let mut world = start();
    world.time_tick = 1201;
    assert!(!world.is_whole());
    let mut world = start();
    world.day = 336;
    assert!(!world.is_whole());
    let mut world = start();
    world.player.exp = 100;
    assert!(!world.is_whole());
    let mut world = start();
    world.width = usize::MAX;
    world.height = usize::MAX;
    assert!(!world.is_whole());
}

#[test]
fn a_world_at_its_limits_is_whole() {
    let mut world = start();
    world.time_tick = 1200;
    world.day = 335;
    world.player.exp = 99;
    world.player.position = (19, 19);
    world.monsters[0].position = (19, 19);
    world.monsters[0].strength = u32::MAX - 1;
    world.monsters.push(Monster::new_kappa_at((0, 0)));
    assert!(world.is_whole());
    world.monsters.clear();
    assert!(world.is_whole());
}

#[test]
fn ready_for_a_turn() {
    let mut world = start();
    assert!(world.is_ready());
    world.player.level = u32::MAX;
    world.player.exp = 89;
    assert!(world.is_ready());
    world.player.exp = 90;
    assert!(!world.is_ready());
    world.player.level = 1;
    assert!(world.is_ready());
    world.player.max_hp = u32::MAX - 4;
    assert!(!world.is_ready());
    world.player.max_hp = u32::MAX - 5;
    world.player.strength = u32::MAX - 1;
    assert!(!world.is_ready());
    world.player.strength = u32::MAX - 2;
    assert!(world.is_ready());
    world.lands.pop();
    assert!(!world.is_ready());
}

#[test]
fn new_worlds_differ_in_day_or_tick() {
    let mut days = Vec::new();
    let mut ticks = Vec::new();
    for _ in 0..40 {
        let world = WorldMap::new((12, 2));
        days.push(world.day);
        ticks.push(world.time_tick);
    }
    assert!(days.iter().any(|day| *day != days[0]));
    assert!(ticks.iter().any(|tick| *tick != ticks[0]));
}

#[test]
fn a_step_moves_the_player_and_costs_a_tick() {
    let mut world = start();
    world.resolve_move(1, 0, 1, 0);
    assert_eq!(world.player.position, (11, 10));
    assert_eq!(world.time_tick, 501);
    assert_eq!(world.day, 10);
    assert_eq!(world.combat_message, None);
    world.resolve_move(0, -1, 1, 0);
    assert_eq!(world.player.position, (11, 9));
    assert_eq!(world.time_tick, 502);
    world.resolve_move(-1, 1, 1, 0);
    assert_eq!(world.player.position, (10, 10));
    assert_eq!(world.time_tick, 503);
}

#[test]
fn a_step_in_each_of_eight_directions() {
    for dx in -1..=1i32 {
        for dy in -1..=1i32 {
            let mut world = start();
            world.resolve_move(dx, dy, 1, 0);
            assert_eq!(
                world.player.position,
                ((10 + dx) as usize, (10 + dy) as usize)
            );
            assert_eq!(world.time_tick, 501);
        }
    }
}

#[test]
fn waiting_costs_a_tick() {
    let mut world = start();
    world.resolve_move(0, 0, 1, 0);
    assert_eq!(world.player.position, (10, 10));
    assert_eq!(world.time_tick, 501);
}

#[test]
fn the_player_stays_on_the_grid() {
    let mut world = start();
    world.monsters.clear();
    walk(&mut world, -1, -1, 30);
    assert_eq!(world.player.position, (0, 0));
    walk(&mut world, 1, 0, 30);
    assert_eq!(world.player.position, (19, 0));
    walk(&mut world, 0, 1, 30);
    assert_eq!(world.player.position, (19, 19));
    walk(&mut world, -1, 0, 30);
    assert_eq!(world.player.position, (0, 19));
    assert_eq!(world.time_tick, 500 + 120);
}

#[test]
fn a_long_move_is_held_at_the_edge() {
    let mut world = start();
    world.monsters.clear();
    world.resolve_move(1000, -1000, 1, 0);
    assert_eq!(world.player.position, (19, 0));
    world.resolve_move(i32::MIN, i32::MAX, 1, 0);
    assert_eq!(world.player.position, (0, 19));
    world.resolve_move(i32::MAX, i32::MIN, 1, 0);
    assert_eq!(world.player.position, (19, 0));
}

#[test]
fn any_move_keeps_the_player_on_the_grid() {
    let mut world = WorldMap::new((30, 11));
    let steps = [(1, 0), (1, 1), (0, 1), (-1, 1), (-1, 0), (-1, -1), (0, -1), (1, -1), (0, 0)];
    for turn in 0..2000usize {
        let (dx, dy) = steps[(turn * 7 + turn / 9) % steps.len()];
        if world.player.exp >= 90 {
            assert!(world.player.level < u32::MAX);
        }
        world.move_player(dx, dy);
        assert!(world.player.position.0 < world.width);
        assert!(world.player.position.1 < world.height);
        assert!(world.time_tick <= 1200);
        assert!(world.day < 336);
        assert!(world.player.exp < 100);
    }
}

#[test]
fn the_day_rolls_over_after_its_last_tick() {
    let mut world = WorldMap::assemble((40, 21), 10, 1199, bare_lands(20, 20));
    world.resolve_move(0, 0, 1, 0);
    assert_eq!((world.time_tick, world.day), (1200, 10));
    world.resolve_move(0, 0, 1, 0);
    assert_eq!((world.time_tick, world.day), (0, 11));
    world.resolve_move(0, 0, 1, 0);
    assert_eq!((world.time_tick, world.day), (1, 11));
}

#[test]
fn the_year_rolls_over_after_its_last_day() {
    let mut world = WorldMap::assemble((40, 21), 335, 1200, bare_lands(20, 20));
    world.resolve_move(0, 0, 1, 0);
    assert_eq!((world.time_tick, world.day), (0, 0));
}

#[test]
fn blocking_land_stops_the_move() {
    let mut world = start();
    world.lands[10 * 20 + 11].template.blocking = true;
    world.resolve_move(1, 0, 1, 0);
    assert_eq!(world.player.position, (10, 10));
    assert_eq!(world.time_tick, 500);
    assert_eq!(world.day, 10);
    assert_eq!(world.combat_message, None);
    assert_eq!(world.player, Player::new(20, 20));
}

#[test]
fn blocking_land_shields_the_monster_on_it() {
    let mut world = start();
    walk(&mut world, 1, 0, 2);
    let before = world.monsters.clone();
    world.lands[10 * 20 + 13].template.blocking = true;
    world.resolve_move(1, 0, 3, 1);
    assert_eq!(world.player.position, (12, 10));
    assert_eq!(world.monsters, before);
    assert_eq!(world.player.hp, 20);
    assert_eq!(world.combat_message, None);
    assert_eq!(world.time_tick, 502);
}

#[test]
fn blocked_at_the_edge_by_the_cell_the_player_stands_on() {
    let mut world = start();
    world.monsters.clear();
    walk(&mut world, -1, 0, 10);
    assert_eq!(world.player.position, (0, 10));
    let tick = world.time_tick;
    world.lands[10 * 20].template.blocking = true;
    world.resolve_move(-1, 0, 1, 0);
    assert_eq!(world.player.position, (0, 10));
    assert_eq!(world.time_tick, tick);
}

#[test]
fn attack_with_the_lowest_rolls() {
    let mut world = start();
    walk(&mut world, 1, 0, 2);
    assert_eq!(world.player.position, (12, 10));
    world.resolve_move(1, 0, 1, 0);
    assert_eq!(world.player.position, (12, 10));
    assert_eq!(world.time_tick, 502);
    assert_eq!(world.monsters[0].hp, 4);
    assert!(world.monsters[0].is_alive);
    assert_eq!(world.player.hp, 17);
    assert_eq!(world.player.exp, 0);
    assert_eq!(
        world.combat_message.as_deref(),
        Some("You hit Goblin for 6 damage. It hits back for 3 damage!")
    );
}

#[test]
fn attack_with_the_highest_rolls() {
    let mut world = start();
    walk(&mut world, 1, 0, 2);
    world.resolve_move(1, 0, 3, 1);
    assert_eq!(world.player.position, (12, 10));
    assert_eq!(world.monsters[0].hp, 2);
    assert!(world.monsters[0].is_alive);
    assert_eq!(world.player.hp, 16);
    assert_eq!(
        world.combat_message.as_deref(),
        Some("You hit Goblin for 8 damage. It hits back for 4 damage!")
    );
}

#[test]
fn a_goblin_survives_the_first_blow_whatever_the_roll() {
    for attack in 1..4u32 {
        let mut world = start();
        walk(&mut world, 1, 0, 2);
        world.resolve_move(1, 0, attack, 0);
        assert_eq!(world.monsters[0].hp, 10 - (5 + attack));
        assert!(world.monsters[0].is_alive);
    }
}

#[test]
fn the_second_blow_defeats_the_goblin() {
    let mut world = start();
    walk(&mut world, 1, 0, 2);
    world.resolve_move(1, 0, 1, 0);
    world.resolve_move(1, 0, 2, 1);
    assert_eq!(world.monsters[0].hp, 0);
    assert!(!world.monsters[0].is_alive);
    assert_eq!(world.monsters[0].position, (13, 10));
    assert_eq!(world.player.exp, 10);
    assert_eq!(world.player.level, 1);
    assert_eq!(world.player.hp, 17);
    assert_eq!(world.player.position, (12, 10));
    assert_eq!(
        world.combat_message.as_deref(),
        Some("You hit Goblin for 7 damage and defeated it! (+10 exp)")
    );
}

#[test]
fn a_blow_of_exactly_the_hit_points_defeats() {
    let mut world = start();
    world.monsters[0].hp = 6;
    walk(&mut world, 1, 0, 2);
    world.resolve_move(1, 0, 1, 1);
    assert_eq!(world.monsters[0].hp, 0);
    assert!(!world.monsters[0].is_alive);
    assert_eq!(world.player.hp, 20);
}

#[test]
fn a_blow_one_short_of_the_hit_points_leaves_one() {
    let mut world = start();
    world.monsters[0].hp = 7;
    walk(&mut world, 1, 0, 2);
    world.resolve_move(1, 0, 1, 1);
    assert_eq!(world.monsters[0].hp, 1);
    assert!(world.monsters[0].is_alive);
    assert_eq!(world.player.hp, 16);
}

#[test]
fn the_dead_do_not_stand_in_the_way() {
    let mut world = start();
    world.monsters[0].hp = 1;
    walk(&mut world, 1, 0, 2);
    world.resolve_move(1, 0, 1, 0);
    assert!(!world.monsters[0].is_alive);
    let message = world.combat_message.clone();
    world.resolve_move(1, 0, 1, 0);
    assert_eq!(world.player.position, (13, 10));
    assert_eq!(world.time_tick, 503);
    assert_eq!(world.combat_message, message);
}

#[test]
fn hit_points_stop_at_zero() {
    let mut world = start();
    world.player.hp = 2;
    walk(&mut world, 1, 0, 2);
    world.resolve_move(1, 0, 1, 1);
    assert_eq!(world.player.hp, 0);
    world.monsters[0].hp = 3;
    world.player.strength = 1000;
    world.resolve_move(1, 0, 1, 1);
    assert_eq!(world.monsters[0].hp, 0);
    assert_eq!(
        world.combat_message.as_deref(),
        Some("You hit Goblin for 501 damage and defeated it! (+10 exp)")
    );
}

#[test]
fn odd_strength_is_halved_downwards() {
    let mut world = start();
    world.player.strength = 11;
    world.monsters[0].hp = 100;
    walk(&mut world, 1, 0, 2);
    world.resolve_move(1, 0, 2, 0);
    assert_eq!(world.monsters[0].hp, 93);
}

#[test]
fn the_oni_hits_harder() {
    let mut world = start();
    walk(&mut world, -1, 0, 2);
    world.resolve_move(-1, 0, 3, 1);
    assert_eq!(world.player.position, (8, 10));
    assert_eq!(world.monsters[1].hp, 12);
    assert_eq!(world.player.hp, 14);
    assert_eq!(
        world.combat_message.as_deref(),
        Some("You hit Oni for 8 damage. It hits back for 6 damage!")
    );
}

#[test]
fn the_kappa_is_fought_from_above() {
    let mut world = start();
    walk(&mut world, 0, 1, 2);
    world.resolve_move(0, 1, 2, 0);
    assert_eq!(world.player.position, (10, 12));
    assert_eq!(world.monsters[2].hp, 8);
    assert_eq!(world.player.hp, 16);
    assert_eq!(
        world.combat_message.as_deref(),
        Some("You hit Kappa for 7 damage. It hits back for 4 damage!")
    );
}

#[test]
fn a_monster_is_fought_diagonally() {
    let mut world = start();
    world.monsters[0].position = (11, 11);
    world.resolve_move(1, 1, 1, 0);
    assert_eq!(world.player.position, (10, 10));
    assert_eq!(world.monsters[0].hp, 4);
}

#[test]
fn a_kill_at_ninety_experience_gains_a_level() {
    let mut world = start();
    world.player.exp = 90;
    world.monsters[0].hp = 1;
    walk(&mut world, 1, 0, 2);
    world.resolve_move(1, 0, 1, 0);
    assert_eq!(world.player.level, 2);
    assert_eq!(world.player.exp, 0);
    assert_eq!(world.player.max_hp, 25);
    assert_eq!(world.player.hp, 25);
    assert_eq!(world.player.strength, 12);
    assert_eq!(world.player.mp, 10);
    assert_eq!(world.player.dexterity, 10);
    assert_eq!(world.combat_message.as_deref(), Some("Level Up! You are now level 2"));
    assert!(!world.monsters[0].is_alive);
}

#[test]
fn a_kill_at_eighty_experience_does_not() {
    let mut world = start();
    world.player.exp = 80;
    world.monsters[0].hp = 1;
    walk(&mut world, 1, 0, 2);
    world.resolve_move(1, 0, 1, 0);
    assert_eq!(world.player.level, 1);
    assert_eq!(world.player.exp, 90);
    assert_eq!(world.player.max_hp, 20);
    assert_eq!(world.player.strength, 10);
}

#[test]
fn ten_kills_make_one_level() {
    let mut world = start();
    world.monsters.clear();
    for _ in 0..25 {
        let mut goblin = Monster::new_goblin(20, 20);
        goblin.hp = 1;
        goblin.position = (11, 10);
        world.monsters.push(goblin);
    }
    let mut levels = Vec::new();
    for _ in 0..25 {
        world.resolve_move(1, 0, 1, 0);
        levels.push((world.player.level, world.player.exp));
    }
    assert_eq!(world.player.position, (10, 10));
    for (kill, (level, exp)) in levels.iter().enumerate() {
        let kills = kill as u32 + 1;
        assert_eq!(*level, 1 + kills / 10);
        assert_eq!(*exp, (kills % 10) * 10);
    }
    assert_eq!(world.player.level, 3);
    assert_eq!(world.player.max_hp, 30);
    assert_eq!(world.player.strength, 14);
}

#[test]
fn a_wounded_player_is_healed_by_a_new_level() {
    let mut world = start();
    world.player.exp = 95;
    world.player.hp = 3;
    world.monsters[0].hp = 1;
    walk(&mut world, 1, 0, 2);
    world.resolve_move(1, 0, 1, 0);
    assert_eq!(world.player.hp, 25);
    assert_eq!(world.player.exp, 0);
}

#[test]
fn only_the_first_monster_on_a_cell_is_fought() {
    let mut world = start();
    world.monsters[1].position = (13, 10);
    world.monsters[2].position = (13, 10);
    walk(&mut world, 1, 0, 2);
    world.resolve_move(1, 0, 1, 0);
    assert_eq!(world.monsters[0].hp, 4);
    assert_eq!(world.monsters[1].hp, 20);
    assert_eq!(world.monsters[2].hp, 15);
    assert_eq!(world.player.hp, 17);
}

#[test]
fn a_dead_monster_is_passed_over_for_the_next_on_the_cell() {
    let mut world = start();
    world.monsters[0].is_alive = false;
    world.monsters[0].hp = 0;
    world.monsters[2].position = (13, 10);
    walk(&mut world, 1, 0, 2);
    assert_eq!(world.monster_at((13, 10)), Some(2));
    world.resolve_move(1, 0, 1, 0);
    assert_eq!(world.player.position, (12, 10));
    assert_eq!(world.monsters[2].hp, 9);
    assert_eq!(world.player.hp, 16);
    assert_eq!(
        world.combat_message.as_deref(),
        Some("You hit Kappa for 6 damage. It hits back for 4 damage!")
    );
}

#[test]
fn monster_at_finds_the_living_only() {
    let mut world = start();
    assert_eq!(world.monster_at((13, 10)), Some(0));
    assert_eq!(world.monster_at((7, 10)), Some(1));
    assert_eq!(world.monster_at((10, 13)), Some(2));
    assert_eq!(world.monster_at((10, 10)), None);
    assert_eq!(world.monster_at((10, 7)), None);
    world.monsters[1].is_alive = false;
    assert_eq!(world.monster_at((7, 10)), None);
    world.monsters.clear();
    assert_eq!(world.monster_at((13, 10)), None);
}

#[test]
fn target_is_clamped() {
    let world = start();
    assert_eq!(world.target_of(1, -1), (11, 9));
    assert_eq!(world.target_of(0, 0), (10, 10));
    assert_eq!(world.target_of(-10, 9), (0, 19));
    assert_eq!(world.target_of(-11, 10), (0, 19));
    assert_eq!(world.target_of(9, -10), (19, 0));
    assert_eq!(world.target_of(10, -11), (19, 0));
}

#[test]
fn blocked_at_reads_the_land() {
    let mut world = start();
    assert!(!world.blocked_at((3, 4)));
    world.lands[4 * 20 + 3].template.blocking = true;
    assert!(world.blocked_at((3, 4)));
    assert!(!world.blocked_at((4, 3)));
    assert_eq!(world.land_on((3, 4)).position, (3, 4));
}

#[test]
fn drawn_attack_rolls_are_one_to_three() {
    let mut seen = [false; 4];
    for _ in 0..300 {
        let mut world = start();
        world.monsters[0].hp = 100;
        world.monsters[0].position = (11, 10);
        world.move_player(1, 0);
        assert_eq!(world.player.position, (10, 10));
        assert_eq!(world.time_tick, 500);
        let damage = 100 - world.monsters[0].hp;
        assert!((6..=8).contains(&damage), "damage {}", damage);
        seen[(damage - 5) as usize] = true;
        let back = 20 - world.player.hp;
        assert!(back == 3 || back == 4, "answer {}", back);
        assert_eq!(
            world.combat_message,
            Some(format!("You hit Goblin for {} damage. It hits back for {} damage!", damage, back))
        );
    }
    assert_eq!(seen, [false, true, true, true]);
}

#[test]
fn drawn_counter_rolls_are_zero_or_one() {
    let mut seen = [false; 2];
    for _ in 0..200 {
        let mut world = start();
        world.monsters[1].position = (10, 9);
        world.move_player(0, -1);
        let back = 20 - world.player.hp;
        assert!(back == 5 || back == 6);
        seen[(back - 5) as usize] = true;
    }
    assert_eq!(seen, [true, true]);
}

#[test]
fn move_player_steps_where_nothing_is_in_the_way() {
    let mut world = start();
    world.move_player(-1, -1);
    assert_eq!(world.player.position, (9, 9));
    assert_eq!(world.time_tick, 501);
    assert_eq!(world.combat_message, None);
    assert_eq!(world.player.hp, 20);
}

#[test]
fn move_player_is_stopped_by_blocking_land() {
    let mut world = start();
    world.lands[9 * 20 + 9].template.blocking = true;
    world.move_player(-1, -1);
    assert_eq!(world.player.position, (10, 10));
    assert_eq!(world.time_tick, 500);
}

#[test]
fn a_monster_wins_its_cell() {
    let world = start();
    assert_eq!(world.glyph_at((13, 10)), Glyph { symbol: "G ", color: 0x00FF00 });
    assert_eq!(world.glyph_at((7, 10)), Glyph { symbol: "鬼", color: 0xFF0000 });
    assert_eq!(world.glyph_at((10, 13)), Glyph { symbol: "河", color: 0x0000FF });
}

#[test]
fn a_monster_wins_over_the_player() {
    let mut world = start();
    world.monsters[2].position = (10, 10);
    assert_eq!(world.glyph_at((10, 10)), Glyph { symbol: "河", color: 0x0000FF });
    world.monsters[2].is_alive = false;
    assert_eq!(world.glyph_at((10, 10)), Glyph { symbol: "@/", color: 0xf3d5b5 });
}

#[test]
fn the_player_wins_over_the_land() {
    let world = start();
    assert_eq!(world.glyph_at((10, 10)), Glyph { symbol: "@/", color: 0xf3d5b5 });
}

#[test]
fn land_shows_where_nobody_stands() {
    let mut world = start();
    // cell 0 shows variant 0 of both, cell 4 glyph 1 and colour 1
    assert_eq!(world.glyph_at((0, 0)), Glyph { symbol: ". ", color: 0x806443 });
    assert_eq!(world.glyph_at((4, 0)), Glyph { symbol: " .", color: 0x685634 });
    world.lands[20 + 2] = LandInstance::from_draws(0, 2, 1, (2, 1));
    assert_eq!(world.glyph_at((2, 1)), Glyph { symbol: "森", color: 0x607744 });
    world.monsters[0].is_alive = false;
    assert_eq!(world.glyph_at((13, 10)), Glyph { symbol: ". ", color: 0x806443 });
}

#[test]
fn frame_holds_every_cell() {
    let world = start();
    let frame = world.frame();
    assert_eq!(frame.len(), 20);
    for (y, row) in frame.iter().enumerate() {
        assert_eq!(row.len(), 20);
        for (x, glyph) in row.iter().enumerate() {
            assert_eq!(*glyph, world.glyph_at((x, y)));
        }
    }
    assert_eq!(frame[10][10].symbol, "@/");
    assert_eq!(frame[10][13].symbol, "G ");
    assert_eq!(frame[10][7].symbol, "鬼");
    assert_eq!(frame[13][10].symbol, "河");
}

#[test]
fn frame_of_a_single_row() {
    let world = WorldMap::assemble((12, 2), 0, 0, bare_lands(6, 1));
    let frame = world.frame();
    assert_eq!(frame.len(), 1);
    let symbols: Vec<&str> = frame[0].iter().map(|glyph| glyph.symbol).collect();
    assert_eq!(symbols, vec!["鬼", " .", "..", "河", " .", "G "]);
}

#[test]
fn character_sheet_of_a_new_player() {
    let world = start();
    let lines = world.stat_lines();
    let expected = vec![
        "╔═══════════════════╗".to_string(),
        "║  Character Sheet  ║".to_string(),
        "╠═══════════════════╣".to_string(),
        format!("║ Level: {:>3}        ║", 1),
        format!("║ EXP: {:>3}/100      ║", 0),
        "╟───────────────────╢".to_string(),
        format!("║ HP: {:>3}/{:>3}       ║", 20, 20),
        format!("║ MP: {:>3}/{:>3}       ║", 10, 10),
        "╟───────────────────╢".to_string(),
        "║      Stats        ║".to_string(),
        "╟───────────────────╢".to_string(),
        format!("║ STR: {:>3}          ║", 10),
        format!("║ DEX: {:>3}          ║", 10),
        format!("║ CON: {:>3}          ║", 10),
        format!("║ INT: {:>3}          ║", 10),
        format!("║ WIS: {:>3}          ║", 10),
        format!("║ CHA: {:>3}          ║", 10),
        "╟───────────────────╢".to_string(),
        "║    Environment    ║".to_string(),
        "╟───────────────────╢".to_string(),
        format!("║ Time: {:10}  ║", 500),
        format!("║ Period: {:8}  ║", "day"),
        format!("║ Day: {:11}  ║", 10),
        format!("║ Moon: {:10}  ║", "First Quarter"),
        format!("║ Season: {:8}  ║", "Spring"),
        "╚═══════════════════╝".to_string(),
    ];
    assert_eq!(lines, expected);
}

#[test]
fn character_sheet_rows_written_out() {
    let mut world = WorldMap::assemble((40, 21), 100, 230, bare_lands(20, 20));
    world.player.level = 12;
    world.player.exp = 90;
    world.player.hp = 7;
    world.player.max_hp = 1234;
    world.player.strength = 32;
    let lines = world.stat_lines();
    assert_eq!(lines.len(), 26);
    assert_eq!(lines[3], "║ Level:  12        ║");
    assert_eq!(lines[4], "║ EXP:  90/100      ║");
    assert_eq!(lines[6], "║ HP:   7/1234       ║");
    assert_eq!(lines[7], "║ MP:  10/ 10       ║");
    assert_eq!(lines[11], "║ STR:  32          ║");
    assert_eq!(lines[20], "║ Time:        230  ║");
    assert_eq!(lines[21], "║ Period: witching hour  ║");
    assert_eq!(lines[22], "║ Day:         100  ║");
    assert_eq!(lines[23], "║ Moon: Full Moon   ║");
    assert_eq!(lines[24], "║ Season: Summer    ║");
}

#[test]
fn panel_is_empty_until_switched_on() {
    let mut world = start();
    assert!(world.panel().is_empty());
    world.show_stats = true;
    assert_eq!(world.panel(), world.stat_lines());
    assert_eq!(world.panel().len(), 26);
}

#[test]
fn combat_line_reports_the_last_fight() {
    let mut world = start();
    assert_eq!(world.combat_line(), None);
    walk(&mut world, 1, 0, 2);
    world.resolve_move(1, 0, 1, 0);
    assert_eq!(
        world.combat_line().as_deref(),
        Some("Combat: You hit Goblin for 6 damage. It hits back for 3 damage!")
    );
    world.resolve_move(-1, 0, 1, 0);
    assert_eq!(
        world.combat_line().as_deref(),
        Some("Combat: You hit Goblin for 6 damage. It hits back for 3 damage!")
    );
}
