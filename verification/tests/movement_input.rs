use overworld::animation::Direction;
use overworld::movement::{axis_vector, resolve_facing, with_depth_preserved, DirectionalInput};

fn input(left: bool, right: bool, up: bool, down: bool) -> DirectionalInput {
    DirectionalInput { left, right, up, down }
}

#[test]
fn no_input_keeps_current_facing() {
    let held = input(false, false, false, false);
    assert_eq!(resolve_facing(held, Direction::East), Direction::East);
    assert_eq!(axis_vector(held), (0, 0));
}

#[test]
fn single_inputs_face_their_direction() {
    assert_eq!(resolve_facing(input(true, false, false, false), Direction::South), Direction::West);
    assert_eq!(resolve_facing(input(false, true, false, false), Direction::South), Direction::East);
    assert_eq!(
        resolve_facing(input(false, false, true, false), Direction::South),
        Direction::North
    );
    assert_eq!(resolve_facing(input(false, false, false, true), Direction::North), Direction::South);
}

#[test]
fn diagonal_input_faces_the_last_applied_rule() {
    // Rules are applied West, East, North, South: on West+North the
    // North rule is applied last and wins.
    assert_eq!(resolve_facing(input(true, false, true, false), Direction::South), Direction::North);
    // On East+South the South rule wins.
    assert_eq!(resolve_facing(input(false, true, false, true), Direction::West), Direction::South);
}

#[test]
fn axis_vector_per_input() {
    assert_eq!(axis_vector(input(true, false, false, false)), (-1, 0));
    assert_eq!(axis_vector(input(false, true, false, false)), (1, 0));
    assert_eq!(axis_vector(input(false, false, true, false)), (0, 1));
    assert_eq!(axis_vector(input(false, false, false, true)), (0, -1));
    assert_eq!(axis_vector(input(true, false, true, false)), (-1, 1));
}

#[test]
fn opposite_inputs_cancel() {
    assert_eq!(axis_vector(input(true, true, false, false)), (0, 0));
    assert_eq!(axis_vector(input(false, false, true, true)), (0, 0));
    assert_eq!(axis_vector(input(true, true, true, true)), (0, 0));
}

#[test]
fn normalized_axis_vector_has_unit_length() {
    // The float normalization itself lives with the hosting runtime;
    // this mirrors it over every input combination. An orthogonal
    // vector normalizes to unit length exactly; a diagonal one only up
    // to f32 rounding (West+North gives squared length 0.99999994), so
    // the diagonal cases allow one unit in the last place.
    for mask in 0u32..16 {
        let held = input(mask & 1 != 0, mask & 2 != 0, mask & 4 != 0, mask & 8 != 0);
        let (dx, dy) = axis_vector(held);
        let (fx, fy) = (dx as f32, dy as f32);
        let len = (fx * fx + fy * fy).sqrt();
        if dx == 0 && dy == 0 {
            assert_eq!(len, 0.0);
        } else {
            let (nx, ny) = (fx / len, fy / len);
            let mag = (nx * nx + ny * ny).sqrt();
            if dx == 0 || dy == 0 {
                assert_eq!(mag, 1.0);
            } else {
                assert!((mag - 1.0).abs() <= f32::EPSILON);
            }
        }
    }
}

#[test]
fn movement_update_preserves_depth_bits() {
    let depth: f32 = 2.5;
    let position = (10.0f32, -3.0f32, depth);
    let moved = with_depth_preserved(11.25f32, -2.75f32, position);
    assert_eq!(moved.0, 11.25);
    assert_eq!(moved.1, -2.75);
    assert_eq!(moved.2.to_bits(), depth.to_bits());
}
