use gameloop::entity::{Entities, Entity, Keycode, Player, Pos, Rect};
use gameloop::game::Game;
use gameloop::{MILLIS_PER_UPDATE, MOVE_STEP, PLAYER_HEIGHT, PLAYER_WIDTH, SPAWN_X, SPAWN_Y};

fn fresh_player() -> Player {
    Player {
        pos: Pos { x: 0, y: 0 },
        spawned: false,
    }
}

fn spawned_player(x: i32, y: i32) -> Player {
    Player {
        pos: Pos { x, y },
        spawned: true,
    }
}

#[test]
fn derived_interval_is_125ms() {
    assert_eq!(MILLIS_PER_UPDATE, 125);
}

#[test]
fn first_update_spawns_at_viewport_center() {
    let mut p = fresh_player();
    assert!(!p.spawned);
    p.update();
    assert_eq!(p.pos, Pos { x: 400, y: 300 });
    assert_eq!(p.pos, Pos { x: SPAWN_X, y: SPAWN_Y });
    assert!(p.spawned);
}

#[test]
fn repeated_updates_leave_player_unchanged() {
    let mut p = fresh_player();
    p.update();
    let after_first = p;
    for _ in 0..10 {
        p.update();
        assert_eq!(p, after_first);
    }
}

#[test]
fn key_down_moves_one_step_per_axis() {
    let mut p = spawned_player(100, 50);
    p.key_down_event(Keycode::Up);
    assert_eq!(p.pos, Pos { x: 100, y: 46 });

    let mut p = spawned_player(100, 50);
    p.key_down_event(Keycode::Down);
    assert_eq!(p.pos, Pos { x: 100, y: 54 });

    let mut p = spawned_player(100, 50);
    p.key_down_event(Keycode::Left);
    assert_eq!(p.pos, Pos { x: 96, y: 50 });

    let mut p = spawned_player(100, 50);
    p.key_down_event(Keycode::Right);
    assert_eq!(p.pos, Pos { x: 104, y: 50 });
    assert_eq!(p.pos.x, 100 + MOVE_STEP);
}

#[test]
fn unrecognized_key_is_a_no_op() {
    let mut p = spawned_player(100, 50);
    p.key_down_event(Keycode::Other);
    assert_eq!(p.pos, Pos { x: 100, y: 50 });
    p.key_up_event(Keycode::Up);
    assert_eq!(p.pos, Pos { x: 100, y: 50 });
}

#[test]
fn up_then_right_commutes() {
    let mut p = spawned_player(400, 300);
    p.key_down_event(Keycode::Up);
    p.key_down_event(Keycode::Right);
    assert_eq!(p.pos, Pos { x: 404, y: 296 });

    let mut q = spawned_player(400, 300);
    q.key_down_event(Keycode::Right);
    q.key_down_event(Keycode::Up);
    assert_eq!(q.pos, Pos { x: 404, y: 296 });
    assert_eq!(p, q);
}

#[test]
fn movement_does_not_clamp_to_viewport() {
    let mut p = spawned_player(0, 0);
    p.key_down_event(Keycode::Left);
    p.key_down_event(Keycode::Up);
    assert_eq!(p.pos, Pos { x: -4, y: -4 });
}

#[test]
fn gate_stays_closed_before_the_interval() {
    let mut g = Game::new(1000);
    g.entities.push(Entities::Player(fresh_player()));
    let stepped = g.update(1124);
    assert!(!stepped);
    assert_eq!(g.last_update, 1000);
    match &g.entities[0] {
        Entities::Player(p) => assert!(!p.spawned),
        _ => unreachable!(),
    }
}

#[test]
fn gate_opens_at_the_interval_and_clock_advances() {
    let mut g = Game::new(1000);
    g.entities.push(Entities::Player(fresh_player()));
    let stepped = g.update(1125);
    assert!(stepped);
    assert_eq!(g.last_update, 1125);
    assert_eq!(
        g.entities[0],
        Entities::Player(Player {
            pos: Pos { x: 400, y: 300 },
            spawned: true
        })
    );
    let stepped = g.update(1200);
    assert!(!stepped);
    assert_eq!(g.last_update, 1125);
}

#[test]
fn late_frame_runs_exactly_one_pass() {
    // 500 ms elapsed is four full intervals; still only one update pass
    // runs, and the clock jumps to "now" rather than catching up.
    let mut g = Game::new(0);
    g.entities.push(Entities::Player(fresh_player()));
    let stepped = g.update(500);
    assert!(stepped);
    assert_eq!(g.last_update, 500);
    // An immediate retry at the same instant finds zero elapsed time:
    // no pending catch-up steps exist.
    let stepped = g.update(500);
    assert!(!stepped);
}

#[test]
fn draw_runs_whether_or_not_the_gate_opened() {
    let mut g = Game::new(1000);
    g.entities.push(Entities::Player(spawned_player(30, 40)));

    let before = g.draw();
    let stepped = g.update(1050);
    assert!(!stepped);
    let after = g.draw();
    assert_eq!(before, after);
    assert_eq!(
        before,
        vec![Rect {
            x: 30,
            y: 40,
            w: PLAYER_WIDTH,
            h: PLAYER_HEIGHT
        }]
    );
}

#[test]
fn draw_emits_player_rectangles_in_insertion_order() {
    let mut g = Game::new(0);
    g.entities.push(Entities::Player(spawned_player(10, 1)));
    g.entities.push(Entities::Other(Entity {
        position: Pos { x: 99, y: 99 },
    }));
    g.entities.push(Entities::Player(spawned_player(20, 2)));
    g.entities.push(Entities::Player(spawned_player(30, 3)));

    let cmds = g.draw();
    assert_eq!(
        cmds,
        vec![
            Rect { x: 10, y: 1, w: 20, h: 10 },
            Rect { x: 20, y: 2, w: 20, h: 10 },
            Rect { x: 30, y: 3, w: 20, h: 10 },
        ]
    );
}

#[test]
fn update_and_input_keep_registry_order() {
    let mut g = Game::new(0);
    g.entities.push(Entities::Player(spawned_player(10, 1)));
    g.entities.push(Entities::Other(Entity {
        position: Pos { x: 7, y: 8 },
    }));
    g.entities.push(Entities::Player(spawned_player(20, 2)));

    let stepped = g.update(1000);
    assert!(stepped);
    assert_eq!(
        g.entities,
        vec![
            Entities::Player(spawned_player(10, 1)),
            Entities::Other(Entity {
                position: Pos { x: 7, y: 8 }
            }),
            Entities::Player(spawned_player(20, 2)),
        ]
    );

    g.key_down_event(Keycode::Down);
    assert_eq!(
        g.entities,
        vec![
            Entities::Player(spawned_player(10, 5)),
            Entities::Other(Entity {
                position: Pos { x: 7, y: 8 }
            }),
            Entities::Player(spawned_player(20, 6)),
        ]
    );
}

#[test]
fn input_routing_reaches_every_player_and_spares_the_clock() {
    let mut g = Game::new(42);
    g.entities.push(Entities::Player(spawned_player(0, 0)));
    g.entities.push(Entities::Player(spawned_player(100, 100)));
    g.key_down_event(Keycode::Right);
    assert_eq!(g.entities[0], Entities::Player(spawned_player(4, 0)));
    assert_eq!(g.entities[1], Entities::Player(spawned_player(104, 100)));
    assert_eq!(g.last_update, 42);
}

#[test]
fn key_up_changes_nothing() {
    let mut g = Game::new(9);
    g.entities.push(Entities::Player(spawned_player(5, 6)));
    g.entities.push(Entities::Other(Entity {
        position: Pos { x: 1, y: 2 },
    }));
    let snapshot = g.entities.clone();
    g.key_up_event(Keycode::Left);
    assert_eq!(g.entities, snapshot);
    assert_eq!(g.last_update, 9);
}

#[test]
fn other_entities_are_never_mutated() {
    let other = Entities::Other(Entity {
        position: Pos { x: 5, y: 6 },
    });
    let mut g = Game::new(0);
    g.entities.push(other);
    let stepped = g.update(1000);
    assert!(stepped);
    g.key_down_event(Keycode::Up);
    g.key_down_event(Keycode::Other);
    g.key_up_event(Keycode::Down);
    let stepped = g.update(2000);
    assert!(stepped);
    assert_eq!(g.entities[0], other);
}

#[test]
fn new_game_has_empty_registry_and_given_clock() {
    let g = Game::new(777);
    assert!(g.entities.is_empty());
    assert_eq!(g.last_update, 777);
    // Drawing an empty registry submits nothing.
    assert_eq!(g.draw(), Vec::<Rect>::new());
}
