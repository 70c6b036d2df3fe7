use spraypaint::movement::{movement_axes, MoveAxes};

#[test]
fn no_keys_no_movement() {
    let a = movement_axes(false, false, false, false);
    assert_eq!(a, MoveAxes { forward: 0, right: 0 });
    assert!(!a.is_moving());
}

#[test]
fn single_keys_give_unit_axes() {
    assert_eq!(movement_axes(true, false, false, false), MoveAxes { forward: 1, right: 0 });
    assert_eq!(movement_axes(false, true, false, false), MoveAxes { forward: -1, right: 0 });
    assert_eq!(movement_axes(false, false, true, false), MoveAxes { forward: 0, right: -1 });
    assert_eq!(movement_axes(false, false, false, true), MoveAxes { forward: 0, right: 1 });
}

#[test]
fn opposite_keys_cancel() {
    let a = movement_axes(true, true, true, true);
    assert_eq!(a, MoveAxes { forward: 0, right: 0 });
    assert!(!a.is_moving());
}

#[test]
fn diagonal_keys_combine() {
    let a = movement_axes(true, false, true, false);
    assert_eq!(a, MoveAxes { forward: 1, right: -1 });
    assert!(a.is_moving());
}
