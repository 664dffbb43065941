use ants_layer::coords::Coords;

#[test]
fn add() {
    let some = Coords(1, 0);
    let other = Coords(0, 1);
    assert_eq!(some + other, Coords(1, 1));
}

#[test]
fn sub() {
    let some = Coords(1, 0);
    assert_eq!(some - some, Coords(0, 0));
}

#[test]
fn swap_coords() {
    let some = Coords(1, 0);
    let other = Coords(0, 1);
    assert_eq!(some.swap_coords(), other);
}

#[test]
fn distance_in_tiles() {
    let some = Coords(-1, 1);
    let other = Coords(1, -1);
    assert_eq!(some.distance_in_tiles(&other), 2);
}

#[test]
fn to_tuple_gives_both_components() {
    assert_eq!(Coords(0, 10).to_tuple(), (0, 10));
}

#[test]
fn distance_in_tiles_along_an_axis() {
    assert_eq!(Coords(0, 0).distance_in_tiles(&Coords(0, 10)), 10);
}

#[test]
fn sub_takes_other_from_self() {
    assert_eq!(Coords(3, 0) - Coords(1, 0), Coords(2, 0));
}
