use movement_core::action::Action;
use movement_core::action::ActionFrame;
use movement_core::action::ActionState;

fn shoot_frame(shoot: bool) -> ActionFrame {
    ActionFrame { right: false, left: false, up: false, down: false, shoot }
}

#[test]
fn fresh_tracker_reports_nothing() {
    let s = ActionState::new();
    assert!(!s.pressed(Action::Shoot));
    assert!(!s.just_pressed(Action::Shoot));
    assert!(!s.pressed(Action::Right));
    assert!(!s.just_pressed(Action::Left));
}

#[test]
fn shoot_fires_on_press_frame_only() {
    let mut s = ActionState::new();
    s.advance(shoot_frame(true));
    assert!(s.just_pressed(Action::Shoot));
    assert!(s.pressed(Action::Shoot));
}

#[test]
fn holding_shoot_fires_no_additional_notification() {
    let mut s = ActionState::new();
    let mut fires = 0u32;
    s.advance(shoot_frame(true));
    if s.just_pressed(Action::Shoot) {
        fires += 1;
    }
    for _ in 0..10 {
        s.advance(shoot_frame(true));
        if s.just_pressed(Action::Shoot) {
            fires += 1;
        }
        assert!(s.pressed(Action::Shoot));
    }
    assert_eq!(fires, 1);
}

#[test]
fn release_then_press_fires_exactly_once_more() {
    let mut s = ActionState::new();
    let mut fires = 0u32;
    for level in [true, true, true, false, true, true] {
        s.advance(shoot_frame(level));
        if s.just_pressed(Action::Shoot) {
            fires += 1;
        }
    }
    assert_eq!(fires, 2);
}

#[test]
fn release_alone_fires_nothing() {
    let mut s = ActionState::new();
    s.advance(shoot_frame(true));
    s.advance(shoot_frame(false));
    assert!(!s.just_pressed(Action::Shoot));
    assert!(!s.pressed(Action::Shoot));
}

#[test]
fn edges_are_tracked_per_action() {
    let mut s = ActionState::new();
    s.advance(ActionFrame { right: true, left: false, up: false, down: false, shoot: true });
    assert!(s.just_pressed(Action::Right));
    assert!(s.just_pressed(Action::Shoot));
    assert!(!s.just_pressed(Action::Up));
    s.advance(ActionFrame { right: true, left: true, up: false, down: false, shoot: false });
    assert!(!s.just_pressed(Action::Right));
    assert!(s.pressed(Action::Right));
    assert!(s.just_pressed(Action::Left));
    assert!(!s.pressed(Action::Shoot));
}
