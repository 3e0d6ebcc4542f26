use tubes2d::facing::{rotate, Facing, Rotate};

const ALL: [Facing; 4] = [Facing::N, Facing::E, Facing::S, Facing::W];

#[test]
fn left_turn_table() {
    assert_eq!(rotate(Facing::N, Rotate::L), Facing::W);
    assert_eq!(rotate(Facing::W, Rotate::L), Facing::S);
    assert_eq!(rotate(Facing::S, Rotate::L), Facing::E);
    assert_eq!(rotate(Facing::E, Rotate::L), Facing::N);
}

#[test]
fn right_turn_table() {
    assert_eq!(rotate(Facing::N, Rotate::R), Facing::E);
    assert_eq!(rotate(Facing::E, Rotate::R), Facing::S);
    assert_eq!(rotate(Facing::S, Rotate::R), Facing::W);
    assert_eq!(rotate(Facing::W, Rotate::R), Facing::N);
}

#[test]
fn left_then_right_is_identity() {
    for facing in ALL {
        assert_eq!(rotate(rotate(facing, Rotate::L), Rotate::R), facing);
    }
}

#[test]
fn right_then_left_is_identity() {
    for facing in ALL {
        assert_eq!(rotate(rotate(facing, Rotate::R), Rotate::L), facing);
    }
}

#[test]
fn four_equal_turns_are_a_full_circle() {
    for facing in ALL {
        for direction in [Rotate::L, Rotate::R] {
            let mut turned = facing;
            for quarter in 1..=4 {
                turned = rotate(turned, direction);
                if quarter < 4 {
                    assert_ne!(turned, facing);
                }
            }
            assert_eq!(turned, facing);
        }
    }
}

#[test]
fn two_equal_turns_reverse() {
    assert_eq!(rotate(rotate(Facing::N, Rotate::L), Rotate::L), Facing::S);
    assert_eq!(rotate(rotate(Facing::N, Rotate::R), Rotate::R), Facing::S);
    assert_eq!(rotate(rotate(Facing::E, Rotate::L), Rotate::L), Facing::W);
    assert_eq!(rotate(rotate(Facing::E, Rotate::R), Rotate::R), Facing::W);
}

#[test]
fn a_turn_never_keeps_the_heading() {
    for facing in ALL {
        assert_ne!(rotate(facing, Rotate::L), facing);
        assert_ne!(rotate(facing, Rotate::R), facing);
        assert_ne!(rotate(facing, Rotate::L), rotate(facing, Rotate::R));
    }
}
