use obj_viewer::mesh::Mesh;
use obj_viewer::model::Command;
use obj_viewer::model::Model;
use obj_viewer::vector::Axis3;
use obj_viewer::vector::Vec3;

fn empty_mesh() -> Mesh {
    Mesh { name: None, vertices: Vec::new(), indices: Vec::new() }
}

fn fresh() -> Model {
    Model::new(&empty_mesh())
}

fn scale(model: &Model) -> f32 {
    2.0f32.powi(model.scale_exponent as i32)
}

fn radians(steps: i64) -> f32 {
    steps as f32 * (std::f32::consts::PI / 20.0)
}

#[test]
fn new_model_is_in_the_initial_pose() {
    let m = fresh();
    assert!(m.has_changed());
    assert_eq!(m.scale_exponent, 0);
    assert_eq!(scale(&m), 1.0);
    assert_eq!(m.rot, Vec3 { x: 0, y: 0, z: 0 });
    assert_eq!(m.object_position, Vec3 { x: 0, y: 0, z: 0 });
    assert_eq!(m.view_position, Vec3 { x: 30, y: 10, z: 10 });
    assert_eq!(m.view_direction, Axis3 { x: -3, y: -1, z: 1 });
    assert_eq!(m.up, Axis3 { x: 0, y: 1, z: 0 });
}

#[test]
fn scale_up_twice_then_roll_then_reset() {
    let mut m = fresh();
    m.scale_up();
    m.scale_up();
    assert_eq!(m.scale_exponent, 2);
    assert_eq!(scale(&m), 4.0);
    m.roll_up();
    assert_eq!(m.rot.x, 1);
    assert!((radians(m.rot.x) - std::f32::consts::PI / 20.0).abs() < 1e-6);
    m.view_position_up();
    m.view_position_left();
    m.reset_view();
    assert_eq!(m.view_position, Vec3 { x: 30, y: 10, z: 10 });
    assert_eq!(m.view_position.x as f32 / 10.0, 3.0);
    assert_eq!(m.view_position.y as f32 / 10.0, 1.0);
    assert_eq!(m.view_position.z as f32 / 10.0, 1.0);
    assert_eq!(m.view_direction, Axis3 { x: -3, y: -1, z: 1 });
    assert_eq!(m.up, Axis3 { x: 0, y: 1, z: 0 });
    assert_eq!(m.scale_exponent, 2);
    assert_eq!(m.rot, Vec3 { x: 1, y: 0, z: 0 });
}

#[test]
fn camera_moves_by_its_increments() {
    let mut m = fresh();
    m.view_position_up();
    assert_eq!(m.view_position, Vec3 { x: 30, y: 11, z: 10 });
    m.view_position_down();
    m.view_position_down();
    assert_eq!(m.view_position, Vec3 { x: 30, y: 9, z: 10 });
    m.view_position_forward();
    assert_eq!(m.view_position, Vec3 { x: 28, y: 9, z: 10 });
    m.view_position_backward();
    m.view_position_backward();
    assert_eq!(m.view_position, Vec3 { x: 32, y: 9, z: 10 });
    m.view_position_left();
    assert_eq!(m.view_position, Vec3 { x: 32, y: 9, z: 12 });
    m.view_position_right();
    m.view_position_right();
    assert_eq!(m.view_position, Vec3 { x: 32, y: 9, z: 8 });
    assert_eq!(m.view_direction, Axis3 { x: -3, y: -1, z: 1 });
    assert_eq!(m.up, Axis3 { x: 0, y: 1, z: 0 });
}

#[test]
fn object_turns_by_its_increments() {
    let mut m = fresh();
    m.roll_up();
    m.roll_up();
    m.roll_down();
    assert_eq!(m.rot, Vec3 { x: 1, y: 0, z: 0 });
    m.rotate_left();
    assert_eq!(m.rot, Vec3 { x: 1, y: 1, z: 0 });
    m.rotate_right();
    m.rotate_right();
    assert_eq!(m.rot, Vec3 { x: 1, y: -1, z: 0 });
    m.rotate_up();
    assert_eq!(m.rot, Vec3 { x: 1, y: -1, z: 1 });
    m.rotate_down();
    m.rotate_down();
    assert_eq!(m.rot, Vec3 { x: 1, y: -1, z: -1 });
    assert!((radians(m.rot.z) + std::f32::consts::PI / 20.0).abs() < 1e-6);
}

#[test]
fn object_moves_by_one_unit() {
    let mut m = fresh();
    m.move_x_pos();
    assert_eq!(m.object_position, Vec3 { x: 1, y: 0, z: 0 });
    m.move_x_neg();
    m.move_x_neg();
    assert_eq!(m.object_position, Vec3 { x: -1, y: 0, z: 0 });
    m.move_y_pos();
    assert_eq!(m.object_position, Vec3 { x: -1, y: 1, z: 0 });
    m.move_y_neg();
    m.move_y_neg();
    assert_eq!(m.object_position, Vec3 { x: -1, y: -1, z: 0 });
    m.move_z_pos();
    assert_eq!(m.object_position, Vec3 { x: -1, y: -1, z: 1 });
    m.move_z_neg();
    m.move_z_neg();
    assert_eq!(m.object_position, Vec3 { x: -1, y: -1, z: -1 });
}

#[test]
fn scale_doubles_and_halves() {
    let mut m = fresh();
    m.scale_down();
    assert_eq!(m.scale_exponent, -1);
    assert_eq!(scale(&m), 0.5);
    m.scale_down();
    assert_eq!(scale(&m), 0.25);
    m.scale_up();
    m.scale_up();
    m.scale_up();
    assert_eq!(m.scale_exponent, 1);
    assert_eq!(scale(&m), 2.0);
}

#[test]
fn net_scale_is_two_to_the_ups_less_the_downs() {
    let mut m = fresh();
    m.scale_up();
    let first = m.scale_exponent;
    let run = [true, true, false, true, false, false, false, true, true, true];
    let mut ups = 0;
    let mut downs = 0;
    for up in run {
        if up {
            m.scale_up();
            ups += 1;
        } else {
            m.scale_down();
            downs += 1;
        }
    }
    assert_eq!(m.scale_exponent, first + ups - downs);
    assert_eq!(scale(&m), 2.0 * 2.0f32.powi((ups - downs) as i32));
}

#[test]
fn reset_view_twice_is_reset_view_once() {
    let mut once = fresh();
    once.view_position_forward();
    once.rotate_left();
    once.view_direction = Axis3 { x: 1, y: 2, z: 3 };
    once.up = Axis3 { x: 0, y: 0, z: 1 };
    let mut twice = once.clone();
    once.reset_view();
    twice.reset_view();
    twice.reset_view();
    assert_eq!(once, twice);
    assert_eq!(once.view_position, Vec3 { x: 30, y: 10, z: 10 });
    assert_eq!(once.view_direction, Axis3 { x: -3, y: -1, z: 1 });
    assert_eq!(once.up, Axis3 { x: 0, y: 1, z: 0 });
    assert_eq!(once.rot, Vec3 { x: 0, y: 1, z: 0 });
}

#[test]
fn rotate_left_then_right_gives_the_same_yaw() {
    let mut m = fresh();
    for _ in 0..7 {
        m.rotate_left();
    }
    let before = m.rot;
    m.rotate_left();
    m.rotate_right();
    assert_eq!(m.rot, before);
    m.rotate_right();
    m.rotate_left();
    assert_eq!(m.rot, before);
}

#[test]
fn every_command_sets_the_flag_and_only_reset_changed_clears_it() {
    let all = [
        Command::ResetView,
        Command::ViewPositionUp,
        Command::ViewPositionDown,
        Command::ViewPositionForward,
        Command::ViewPositionBackward,
        Command::ViewPositionLeft,
        Command::ViewPositionRight,
        Command::RollUp,
        Command::RollDown,
        Command::RotateLeft,
        Command::RotateRight,
        Command::RotateUp,
        Command::RotateDown,
        Command::ScaleUp,
        Command::ScaleDown,
        Command::MoveXPos,
        Command::MoveXNeg,
        Command::MoveYPos,
        Command::MoveYNeg,
        Command::MoveZPos,
        Command::MoveZNeg,
    ];
    let mut m = fresh();
    for c in all {
        m.reset_changed();
        assert!(!m.has_changed());
        m.apply(c);
        assert!(m.has_changed());
    }
    m.reset_changed();
    assert!(!m.has_changed());
    m.changed();
    assert!(m.has_changed());
    m.changed();
    assert!(m.has_changed());
}

#[test]
fn reset_changed_keeps_the_pose() {
    let mut m = fresh();
    m.scale_up();
    m.move_y_pos();
    let mut expected = m.clone();
    expected.changed = false;
    m.reset_changed();
    assert_eq!(m, expected);
}

#[test]
fn apply_does_what_the_method_does() {
    let mut by_method = fresh();
    by_method.view_position_forward();
    by_method.rotate_up();
    by_method.scale_down();
    by_method.move_z_pos();
    by_method.roll_down();
    let mut by_command = fresh();
    by_command.apply(Command::ViewPositionForward);
    by_command.apply(Command::RotateUp);
    by_command.apply(Command::ScaleDown);
    by_command.apply(Command::MoveZPos);
    by_command.apply(Command::RollDown);
    assert_eq!(by_method, by_command);
    assert_eq!(by_command.view_position, Vec3 { x: 28, y: 10, z: 10 });
    assert_eq!(by_command.rot, Vec3 { x: -1, y: 0, z: 1 });
    assert_eq!(by_command.scale_exponent, -1);
    assert_eq!(by_command.object_position, Vec3 { x: 0, y: 0, z: 1 });
}

#[test]
fn an_accumulator_stays_at_the_end_of_its_range() {
    let mut m = fresh();
    m.rot.y = i64::MAX;
    m.rotate_left();
    assert_eq!(m.rot.y, i64::MAX);
    m.rotate_right();
    assert_eq!(m.rot.y, i64::MAX - 1);
    m.scale_exponent = i64::MIN;
    m.scale_down();
    assert_eq!(m.scale_exponent, i64::MIN);
    m.view_position.x = i64::MAX - 1;
    m.view_position_backward();
    assert_eq!(m.view_position.x, i64::MAX);
    m.view_position.z = i64::MIN + 1;
    m.view_position_right();
    assert_eq!(m.view_position.z, i64::MIN);
}
