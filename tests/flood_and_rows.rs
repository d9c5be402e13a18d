use libtetrisgame::chunk::flood_field;
use libtetrisgame::field::{find_filled_lines, GameField};
use libtetrisgame::tetromino::{RotationCollisionTable, TetrominoType};

#[test]
fn test_flood_field_1() {
    const E: TetrominoType = TetrominoType::E;
    #[allow(unused)]
    const I: TetrominoType = TetrominoType::I;
    let mut gamefield: GameField = [
            E, E, E, E, E, E, E, E, E, E,
            E, E, E, E, E, E, E, E, E, E,
            E, E, E, E, E, E, E, E, E, E,
            E, E, E, E, E, E, E, E, E, E,
            E, E, E, E, E, E, E, E, E, E,
            E, E, E, E, E, E, E, E, E, E,
            E, E, E, E, E, E, E, E, E, E,
            E, E, E, E, E, E, E, E, E, E,
            E, E, E, E, E, E, E, E, E, E,
            E, E, E, E, E, E, E, E, E, E,
            E, E, E, E, E, E, E, E, E, E,
            E, E, E, E, E, E, E, E, E, E,
            E, E, E, E, E, E, E, E, E, E,
            E, E, E, E, E, E, E, E, E, E,
            E, E, E, E, E, E, E, E, E, E,
            E, E, E, E, E, E, E, E, E, E,
            E, E, E, E, E, E, E, E, E, E,
            E, E, E, E, E, E, E, E, E, E,
            E, E, E, E, E, E, E, E, E, E,
            E, E, E, E, E, E, E, E, E, E,
    ];
    let result = flood_field(&mut gamefield, 0);
    assert_eq!(0, result.len());
}

#[test]
fn test_flood_field_2() {
    const E: TetrominoType = TetrominoType::E;
    #[allow(unused)]
    const I: TetrominoType = TetrominoType::I;
    let mut gamefield: GameField = [
            E, E, E, E, E, E, E, E, E, E,
            E, E, E, E, E, E, E, E, E, E,
            E, E, E, E, E, E, E, E, E, E,
            E, E, E, E, E, E, E, E, E, E,
            E, E, E, E, E, E, E, E, E, E,
            E, E, E, E, E, E, E, E, E, E,
            E, E, E, E, E, E, E, E, E, E,
            E, E, E, E, E, E, E, E, E, E,
            E, I, I, E, E, I, I, I, E, E,
            E, I, I, E, E, I, I, I, E, E,
            E, E, E, E, E, E, E, E, E, E,
            E, E, E, E, E, E, E, E, E, E,
            E, E, E, E, E, E, E, E, E, E,
            E, E, E, I, I, E, E, E, E, E,
            E, E, E, I, I, E, E, E, E, E,
            E, E, E, E, E, E, E, E, E, E,
            E, E, E, E, E, E, E, E, E, E,
            E, E, E, E, E, E, E, E, E, E,
            E, E, E, E, E, E, E, E, E, E,
            E, E, E, E, E, E, E, E, E, E,
    ];
    let result = flood_field(&mut gamefield, 0);
    assert_eq!(3, result.len());
}

#[test]
fn test_flood_field_3() {
    const E: TetrominoType = TetrominoType::E;
    #[allow(unused)]
    const I: TetrominoType = TetrominoType::I;
    let mut gamefield: GameField = [
            E, E, E, E, E, E, E, E, E, E,
            E, E, E, E, E, E, E, E, E, E,
            E, E, E, E, E, E, E, E, E, E,
            E, E, E, E, E, E, E, E, E, E,
            E, E, E, E, E, E, E, E, E, E,
            E, E, E, E, E, E, E, E, E, E,
            E, E, E, E, E, E, E, E, E, E,
            E, E, E, E, E, E, E, E, E, E,
            E, I, I, E, E, I, I, I, E, E,
            E, I, I, E, E, I, I, I, E, E,
            E, E, E, E, E, E, E, E, E, E,
            E, E, E, E, E, E, E, E, E, E,
            E, E, E, E, E, E, E, E, E, E,
            E, E, E, I, I, E, E, E, E, E,
            E, E, E, I, I, E, E, E, E, E,
            E, E, E, E, E, E, E, E, E, E,
            E, E, E, E, E, E, E, E, E, E,
            E, E, E, E, E, E, E, E, E, E,
            E, E, E, E, E, E, E, E, E, E,
            E, E, E, E, E, E, E, E, E, E,
    ];
    let result = flood_field(&mut gamefield, 7);
    assert_eq!(2, result.len());
}

#[test]
fn test_flood_field_4() {
    const E: TetrominoType = TetrominoType::E;
    #[allow(unused)]
    const I: TetrominoType = TetrominoType::I;
    let mut gamefield: GameField = [
            E, E, E, E, E, E, E, E, E, E,
            E, E, E, E, E, E, E, E, E, E,
            E, E, E, E, E, E, E, E, E, E,
            E, E, E, E, E, E, E, E, E, E,
            E, E, E, E, E, E, E, E, E, E,
            E, E, E, E, E, E, E, E, E, E,
            E, E, E, E, E, E, E, E, E, E,
            E, E, E, E, E, E, E, E, E, E,
            E, E, E, E, E, E, E, E, E, E,
            E, E, E, E, E, E, E, E, E, E,
            E, E, E, E, E, E, E, E, E, E,
            E, E, E, E, E, E, E, E, E, E,
            E, E, E, E, E, E, E, E, E, E,
            E, E, E, E, E, E, E, E, E, E,
            E, E, E, E, E, E, E, E, E, E,
            E, E, E, E, E, E, E, E, E, E,
            E, E, E, E, I, E, E, E, E, E,
            E, E, E, E, I, I, E, E, E, E,
            I, I, I, I, I, I, E, E, I, E,
            E, E, E, E, E, E, E, E, E, E,
    ];
    let result = flood_field(&mut gamefield, 1);
    assert_eq!(2, result.len());
}

#[test]
fn test_find_filled_lines_1() {
    const E: TetrominoType = TetrominoType::E;
    #[allow(unused)]
    const I: TetrominoType = TetrominoType::I;
    let mut gamefield: GameField = [
            E, E, E, E, E, E, E, E, E, E,
            E, E, E, E, E, E, E, E, E, E,
            E, E, E, E, E, E, E, E, E, E,
            E, E, E, E, E, E, E, E, E, E,
            E, E, E, E, E, E, E, E, E, E,
            E, E, E, E, E, E, E, E, E, E,
            E, E, E, E, E, E, E, E, E, E,
            E, E, E, E, E, E, E, E, E, E,
            E, E, E, E, E, E, E, E, E, E,
            E, E, E, E, E, E, E, E, E, E,
            E, E, E, E, E, E, E, E, E, E,
            E, E, E, E, E, E, E, E, E, E,
            E, E, E, E, E, E, E, E, E, E,
            E, E, E, E, E, E, E, E, E, E,
            E, E, E, E, E, E, E, E, E, E,
            E, E, E, E, E, E, E, E, E, E,
            E, E, E, E, E, E, E, E, E, E,
            E, E, E, E, E, E, E, E, E, E,
            E, E, E, E, E, E, E, E, E, E,
            E, E, E, E, E, E, E, E, E, E,
    ];
    let result = find_filled_lines(&mut gamefield);
    assert_eq!(0, result.len());
}

#[test]
fn test_find_filled_lines_2() {
    const E: TetrominoType = TetrominoType::E;
    #[allow(unused)]
    const I: TetrominoType = TetrominoType::I;
    let mut gamefield: GameField = [
            E, E, E, E, E, E, E, E, E, E,
            E, E, E, E, E, E, E, E, E, E,
            E, E, E, E, E, E, E, E, E, E,
            E, E, E, E, E, E, E, E, E, E,
            E, E, E, E, E, E, E, E, E, E,
            E, E, E, E, E, E, E, E, E, E,
            E, E, E, E, E, E, E, E, E, E,
            E, E, E, E, E, E, E, E, E, E,
            E, E, E, E, E, E, E, E, E, E,
            E, E, E, E, E, E, E, E, E, E,
            E, E, E, E, E, E, E, E, E, E,
            E, E, E, E, E, E, E, E, E, E,
            E, E, E, E, E, E, E, E, E, E,
            E, E, E, E, E, E, E, E, E, E,
            E, E, E, E, E, E, E, E, E, E,
            E, E, E, E, E, E, E, E, E, E,
            I, I, I, I, I, I, I, I, I, I,
            I, E, I, I, I, I, I, I, I, I,
            I, I, I, I, I, I, I, I, I, I,
            I, I, I, I, I, I, I, I, I, I,
    ];
    let result = find_filled_lines(&mut gamefield);
    assert_eq!(3, result.len());
}

#[test]
fn test_rotation_collision_table_index() {
    assert_eq!(RotationCollisionTable::rotation_collision_table_index(0, 1), 0);
    assert_eq!(RotationCollisionTable::rotation_collision_table_index(1, 2), 2);
    assert_eq!(RotationCollisionTable::rotation_collision_table_index(2, 3), 4);
    assert_eq!(RotationCollisionTable::rotation_collision_table_index(3, 0), 6);
    assert_eq!(RotationCollisionTable::rotation_collision_table_index(1, 0), 1);
    assert_eq!(RotationCollisionTable::rotation_collision_table_index(2, 1), 3);
    assert_eq!(RotationCollisionTable::rotation_collision_table_index(3, 2), 5);
    assert_eq!(RotationCollisionTable::rotation_collision_table_index(0, 3), 7);
}
