use isometric::graphics::next_rotation;
use isometric::graphics::transform as projection;
use isometric::graphics::transformer;
use isometric::transform::{Direction, IsometricRotation};

const ALL: [IsometricRotation; 8] = [
    IsometricRotation::Top,
    IsometricRotation::TopLeft,
    IsometricRotation::Left,
    IsometricRotation::BottomLeft,
    IsometricRotation::Bottom,
    IsometricRotation::BottomRight,
    IsometricRotation::Right,
    IsometricRotation::TopRight,
];

#[test]
fn clockwise_goes_round_the_eight_rotations() {
    for i in 0..8 {
        assert_eq!(ALL[i].rotate(&Direction::Clockwise), ALL[(i + 1) % 8]);
        assert_eq!(ALL[i].rotate(&Direction::AntiClockwise), ALL[(i + 7) % 8]);
    }
}

#[test]
fn rotating_back_restores_the_rotation() {
    for r in ALL.iter() {
        assert_eq!(r.rotate(&Direction::Clockwise).rotate(&Direction::AntiClockwise), *r);
        assert_eq!(r.rotate(&Direction::AntiClockwise).rotate(&Direction::Clockwise), *r);
    }
}

#[test]
fn eight_steps_make_a_full_turn() {
    for r in ALL.iter() {
        let mut turned = *r;
        for _ in 0..8 {
            turned = turned.rotate(&Direction::Clockwise);
        }
        assert_eq!(turned, *r);
    }
}

#[test]
fn projection_rotation_clockwise() {
    let d = projection::Direction::Clockwise;
    assert_eq!(projection::IsometricRotation::TopLeftAtTop.rotate(&d), projection::IsometricRotation::BottomLeftAtTop);
    assert_eq!(projection::IsometricRotation::BottomLeftAtTop.rotate(&d), projection::IsometricRotation::BottomRightAtTop);
    assert_eq!(projection::IsometricRotation::BottomRightAtTop.rotate(&d), projection::IsometricRotation::TopRightAtTop);
    assert_eq!(projection::IsometricRotation::TopRightAtTop.rotate(&d), projection::IsometricRotation::TopLeftAtTop);
}

#[test]
fn projection_rotation_back_and_full_turn() {
    for r in [projection::IsometricRotation::TopLeftAtTop, projection::IsometricRotation::TopRightAtTop, projection::IsometricRotation::BottomLeftAtTop, projection::IsometricRotation::BottomRightAtTop].iter() {
        let cw = projection::Direction::Clockwise;
        let acw = projection::Direction::AntiClockwise;
        assert_eq!(r.rotate(&cw).rotate(&acw), *r);
        assert_eq!(r.rotate(&acw).rotate(&acw).rotate(&acw).rotate(&acw), *r);
    }
}

#[test]
fn transformer_rotation_anticlockwise() {
    let d = transformer::Direction::AntiClockwise;
    assert_eq!(transformer::IsometricRotation::TopLeftAtTop.rotate(&d), transformer::IsometricRotation::TopRightAtTop);
    assert_eq!(transformer::IsometricRotation::TopRightAtTop.rotate(&d), transformer::IsometricRotation::BottomRightAtTop);
    assert_eq!(transformer::IsometricRotation::BottomRightAtTop.rotate(&d), transformer::IsometricRotation::BottomLeftAtTop);
    assert_eq!(transformer::IsometricRotation::BottomLeftAtTop.rotate(&d), transformer::IsometricRotation::TopLeftAtTop);
}

#[test]
fn next_rotation_wraps_after_four() {
    assert_eq!(next_rotation(0, 1), 1);
    assert_eq!(next_rotation(3, 1), 0);
    assert_eq!(next_rotation(2, 7), 1);
}
