use movement_core::action::ActionFrame;
use movement_core::position::Coord;
use movement_core::position::Position;
use movement_core::velocity::Direction;
use movement_core::velocity::Velocity;
use movement_core::world::Entity;
use movement_core::world::Health;
use movement_core::world::Player;
use movement_core::world::SingletonError;
use movement_core::world::World;

fn held(right: bool, left: bool, up: bool, down: bool, shoot: bool) -> ActionFrame {
    ActionFrame { right, left, up, down, shoot }
}

#[test]
fn spawn_creates_the_player_components() {
    let mut w = World::new();
    let id = w.spawn_player(300, 10);
    assert_eq!(id, 0);
    assert_eq!(w.entities.len(), 1);
    let e = &w.entities[0];
    assert_eq!(e.player, Some(Player { max_speed: 300 }));
    assert_eq!(e.health, Some(Health { max_hp: 10, current_hp: 10 }));
    assert_eq!(e.velocity, Some(Velocity::zero()));
    assert_eq!(e.position, Some(Position::origin()));
    assert!(e.actions.is_some());
    assert!(w.is_wf());
}

#[test]
fn velocity_resolver_needs_a_player() {
    let mut w = World::new();
    let r = w.handle_input();
    assert_eq!(r, Err(SingletonError::NoPlayer));
    assert_eq!(w.entities.len(), 0);
}

#[test]
fn velocity_resolver_rejects_two_players() {
    let mut w = World::new();
    w.spawn_player(300, 10);
    w.spawn_player(200, 10);
    let before: Vec<Option<Velocity>> = w.entities.iter().map(|e| e.velocity).collect();
    let r = w.handle_input();
    assert_eq!(r, Err(SingletonError::MultiplePlayers));
    // Fail fast: neither entity's velocity was touched.
    let after: Vec<Option<Velocity>> = w.entities.iter().map(|e| e.velocity).collect();
    assert_eq!(before, after);
}

#[test]
fn singleton_error_messages_are_descriptive() {
    assert_eq!(SingletonError::NoPlayer.message(), "player query matched no entity");
    assert_eq!(
        SingletonError::MultiplePlayers.message(),
        "player query matched more than one entity"
    );
}

#[test]
fn resolver_overwrites_velocity_from_input() {
    let mut w = World::new();
    w.spawn_player(300, 10);
    w.refresh_actions(held(true, false, false, false, false));
    let r = w.handle_input();
    assert_eq!(r, Ok(false));
    assert_eq!(
        w.entities[0].velocity,
        Some(Velocity { dir: Direction { x: 1, y: 0 }, speed: 300 })
    );
    // The resolver sets, never accumulates: a later cancelling frame zeroes it.
    w.refresh_actions(held(true, true, false, false, false));
    let r = w.handle_input();
    assert_eq!(r, Ok(false));
    assert_eq!(w.entities[0].velocity, Some(Velocity::zero()));
}

#[test]
fn resolver_reports_shoot_edge_once() {
    let mut w = World::new();
    w.spawn_player(300, 10);
    w.refresh_actions(held(false, false, false, false, true));
    assert_eq!(w.handle_input(), Ok(true));
    w.refresh_actions(held(false, false, false, false, true));
    assert_eq!(w.handle_input(), Ok(false));
    w.refresh_actions(held(false, false, false, false, false));
    assert_eq!(w.handle_input(), Ok(false));
    w.refresh_actions(held(false, false, false, false, true));
    assert_eq!(w.handle_input(), Ok(true));
}

#[test]
fn integrator_moves_every_moving_entity() {
    let mut w = World::new();
    w.spawn_player(300, 10);
    // A second moving entity without a player marker: moved by the
    // integrator, invisible to the resolver's singleton query.
    let mut drone = Entity::empty();
    drone.velocity = Some(Velocity { dir: Direction { x: 0, y: -1 }, speed: 7 });
    drone.position = Some(Position::origin());
    w.entities.push(drone);

    w.refresh_actions(held(true, false, true, false, false));
    assert_eq!(w.handle_input(), Ok(false));
    assert!(w.is_wf());
    assert!(w.all_steps_fit());
    w.apply_velocity();

    let player_pos = w.entities[0].position.unwrap();
    assert_eq!(player_pos.x, Coord { units: 0, diag_units: 300 });
    assert_eq!(player_pos.y, Coord { units: 0, diag_units: 300 });
    let drone_pos = w.entities[1].position.unwrap();
    assert_eq!(drone_pos.x, Coord { units: 0, diag_units: 0 });
    assert_eq!(drone_pos.y, Coord { units: -7, diag_units: 0 });
}

#[test]
fn integrator_ignores_entities_without_position_or_velocity() {
    let mut w = World::new();
    let mut still = Entity::empty();
    still.position = Some(Position {
        x: Coord { units: 5, diag_units: 6 },
        y: Coord { units: 7, diag_units: 8 },
    });
    w.entities.push(still);
    assert!(w.is_wf());
    assert!(w.all_steps_fit());
    w.apply_velocity();
    assert_eq!(
        w.entities[0].position,
        Some(Position {
            x: Coord { units: 5, diag_units: 6 },
            y: Coord { units: 7, diag_units: 8 },
        })
    );
}

#[test]
fn steps_fit_detects_saturated_position() {
    let mut w = World::new();
    let mut runaway = Entity::empty();
    runaway.velocity = Some(Velocity { dir: Direction { x: 1, y: 0 }, speed: 1 });
    runaway.position = Some(Position {
        x: Coord { units: i64::MAX, diag_units: 0 },
        y: Coord { units: 0, diag_units: 0 },
    });
    w.entities.push(runaway);
    assert!(w.is_wf());
    assert!(!w.all_steps_fit());
}
