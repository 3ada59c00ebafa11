use fe_engine::direction::{Cardinal, Ordinal};

#[test]
fn cardinal_points() {
    assert_eq!(Cardinal::North.as_point::<i32>(), (0, -1));
    assert_eq!(Cardinal::South.as_point::<i32>(), (0, 1));
    assert_eq!(Cardinal::East.as_point::<i64>(), (-1, 0));
    assert_eq!(Cardinal::West.as_point::<i16>(), (1, 0));
}

#[test]
fn introduce_combines_perpendicular_cardinals() {
    assert_eq!(Ordinal::North.introduce(Ordinal::East), Ordinal::Northeast);
    assert_eq!(Ordinal::East.introduce(Ordinal::North), Ordinal::Northeast);
    assert_eq!(Ordinal::West.introduce(Ordinal::North), Ordinal::Northwest);
    assert_eq!(Ordinal::South.introduce(Ordinal::East), Ordinal::Southeast);
    assert_eq!(Ordinal::South.introduce(Ordinal::West), Ordinal::Southwest);
}

#[test]
fn introduce_otherwise_takes_other() {
    assert_eq!(Ordinal::North.introduce(Ordinal::South), Ordinal::South);
    assert_eq!(Ordinal::North.introduce(Ordinal::North), Ordinal::North);
    assert_eq!(Ordinal::Northeast.introduce(Ordinal::West), Ordinal::West);
}

#[test]
fn reduce_removes_a_part() {
    assert_eq!(Ordinal::Northeast.reduce(Ordinal::North), Some(Ordinal::East));
    assert_eq!(Ordinal::Northeast.reduce(Ordinal::East), Some(Ordinal::North));
    assert_eq!(Ordinal::Southwest.reduce(Ordinal::West), Some(Ordinal::South));
    assert_eq!(Ordinal::Northwest.reduce(Ordinal::South), Some(Ordinal::Northwest));
    assert_eq!(Ordinal::North.reduce(Ordinal::East), Some(Ordinal::North));
    assert_eq!(Ordinal::West.reduce(Ordinal::West), None);
    assert_eq!(Ordinal::Southeast.reduce(Ordinal::Southeast), None);
}

#[test]
fn ordinal_from_cardinal() {
    assert_eq!(Ordinal::from(Cardinal::North), Ordinal::North);
    assert_eq!(Ordinal::from(Cardinal::South), Ordinal::South);
    assert_eq!(Ordinal::from(Cardinal::East), Ordinal::East);
    assert_eq!(Ordinal::from(Cardinal::West), Ordinal::West);
}
