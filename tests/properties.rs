use libtetrisgame::chunk::{find_chunks, flood_field, land_flying_chunks, settle_step, Chunk, ChunkIterator};
use libtetrisgame::field::{
    check_for_collision, clear_play_table, empty_field, fill_field, find_filled_lines, GameField, HEIGHT, WIDTH,
};
use libtetrisgame::machine::{InputEvent, LogicalKey, StateMachine, StateTransition};
use libtetrisgame::phases::{score, ChunkFall, FallingState, GamePhase, LineClearing};
use libtetrisgame::screens::{Game, MainMenu, Pause, PlayState, ScoreScreen, Screen};
use libtetrisgame::session::{scaled_interval, tier_of_score, GameData};
use libtetrisgame::tetromino::{
    initialize_tetraminoes_data, Point, RotationCollisionTable, Tetramino, TetrominoRotation, TetrominoType,
};

fn set(f: &mut GameField, x: usize, y: usize) {
    f[x + y * WIDTH] = TetrominoType::I;
}

fn is_set(f: &GameField, x: usize, y: usize) -> bool {
    f[x + y * WIDTH] != TetrominoType::E
}

fn press(key: LogicalKey) -> InputEvent {
    InputEvent { key, pressed: true }
}

#[test]
fn filled_rows_are_listed_top_to_bottom() {
    let mut f = empty_field();
    for x in 0..WIDTH {
        set(&mut f, x, 16);
        set(&mut f, x, 18);
    }
    set(&mut f, 0, 17);
    assert_eq!(find_filled_lines(&f), vec![16, 18]);
}

#[test]
fn empty_board_has_no_filled_row() {
    let f = empty_field();
    assert_eq!(find_filled_lines(&f), Vec::<usize>::new());
}

#[test]
fn two_separate_squares_are_two_chunks() {
    let mut f = empty_field();
    for (x, y) in [(1, 2), (2, 2), (1, 3), (2, 3), (5, 10), (6, 10), (5, 11), (6, 11)] {
        set(&mut f, x, y);
    }
    let chunks = flood_field(&mut f, 0);
    assert_eq!(chunks.len(), 2);
    assert_eq!(chunks[0].len(), 4);
    assert_eq!(chunks[1].len(), 4);
    assert!(f.iter().all(|c| *c == TetrominoType::E));
}

#[test]
fn l_shape_is_one_chunk_of_five() {
    let mut f = empty_field();
    for (x, y) in [(2, 5), (2, 6), (2, 7), (3, 7), (4, 7)] {
        set(&mut f, x, y);
    }
    let chunks = flood_field(&mut f, 0);
    assert_eq!(chunks.len(), 1);
    assert_eq!(chunks[0].len(), 5);
    assert!(chunks[0].contains(&Point { x: 4, y: 7 }));
}

#[test]
fn empty_board_has_no_chunk_for_any_begin() {
    for begin in 0..=HEIGHT {
        let mut f = empty_field();
        assert_eq!(flood_field(&mut f, begin).len(), 0);
    }
}

#[test]
fn chunks_below_the_search_rows_stay() {
    let mut f = empty_field();
    set(&mut f, 0, 19);
    set(&mut f, 0, 2);
    let chunks = find_chunks(&mut f, 1);
    assert_eq!(chunks.len(), 1);
    assert_eq!(chunks[0].position, Point { x: 0, y: 0 });
    assert_eq!(chunks[0].iterator(), &[Point { x: 0, y: 2 }][..]);
    assert!(is_set(&f, 0, 19));
    assert!(!is_set(&f, 0, 2));
}

#[test]
fn chunk_iterator_walks_cells_in_order() {
    let chunk = Chunk::new(vec![Point { x: 1, y: 2 }, Point { x: 3, y: 4 }]);
    let mut it = ChunkIterator::new(&chunk);
    assert_eq!(it.next(), Some(Point { x: 1, y: 2 }));
    assert_eq!(it.next(), Some(Point { x: 3, y: 4 }));
    assert_eq!(it.next(), None);
}

#[test]
fn placement_above_the_board_never_collides() {
    let mut f = empty_field();
    for x in 0..WIDTH {
        for y in 0..HEIGHT {
            set(&mut f, x, y);
        }
    }
    let cells = [Point { x: -1, y: 0 }, Point { x: 0, y: 0 }, Point { x: 12, y: -1 }, Point { x: 0, y: -2 }];
    assert!(!check_for_collision(&Point { x: 4, y: -3 }, &cells, &f));
}

#[test]
fn placement_beside_or_below_the_board_collides() {
    let f = empty_field();
    let one = [Point { x: 0, y: 0 }];
    assert!(check_for_collision(&Point { x: -1, y: 5 }, &one, &f));
    assert!(check_for_collision(&Point { x: WIDTH as i32, y: 5 }, &one, &f));
    assert!(check_for_collision(&Point { x: 3, y: HEIGHT as i32 }, &one, &f));
    assert!(!check_for_collision(&Point { x: 3, y: HEIGHT as i32 - 1 }, &one, &f));
}

#[test]
fn placement_on_an_occupied_cell_collides() {
    let mut f = empty_field();
    set(&mut f, 4, 10);
    let cells = [Point { x: 0, y: 0 }, Point { x: 1, y: 0 }];
    assert!(check_for_collision(&Point { x: 3, y: 10 }, &cells, &f));
    assert!(!check_for_collision(&Point { x: 5, y: 10 }, &cells, &f));
}

#[test]
fn merge_drops_cells_above_the_board() {
    let mut f = empty_field();
    let cells = [Point { x: 0, y: -1 }, Point { x: 0, y: 0 }, Point { x: 1, y: 0 }];
    fill_field(&Point { x: 2, y: 0 }, &cells, &mut f);
    assert!(is_set(&f, 2, 0));
    assert!(is_set(&f, 3, 0));
    assert_eq!(f.iter().filter(|c| **c != TetrominoType::E).count(), 2);
}

#[test]
fn cleared_rows_become_empty() {
    let mut f = empty_field();
    for x in 0..WIDTH {
        set(&mut f, x, 3);
        set(&mut f, x, 4);
    }
    clear_play_table(&mut f, vec![3]);
    assert!(!is_set(&f, 0, 3));
    assert!(is_set(&f, 0, 4));
}

fn session_with_piece(kind: usize, x: i32, y: i32) -> GameData {
    let mut data = GameData::new();
    data.current_figure = Tetramino { position: Point { x, y }, tetramino_type_index: kind, rotation_index: 0 };
    data
}

#[test]
fn rotation_with_every_candidate_blocked_changes_nothing() {
    let mut data = session_with_piece(2, 4, 10);
    for x in 0..WIDTH {
        for y in 0..HEIGHT {
            set(&mut data.play_table, x, y);
        }
    }
    for (x, y) in [(3, 10), (4, 10), (5, 10), (4, 9)] {
        data.play_table[x + y * WIDTH] = TetrominoType::E;
    }
    let before = data.current_figure;
    data.try_rotate(1);
    assert_eq!(data.current_figure.position, before.position);
    assert_eq!(data.current_figure.rotation_index, 0);
}

#[test]
fn rotation_in_free_space_keeps_the_pivot() {
    let mut data = session_with_piece(2, 4, 10);
    data.try_rotate(1);
    assert_eq!(data.current_figure.rotation_index, 1);
    assert_eq!(data.current_figure.position, Point { x: 4, y: 10 });
}

#[test]
fn rotation_against_the_wall_is_kicked() {
    let mut data = session_with_piece(0, 0, 10);
    data.current_figure.rotation_index = 1;
    data.try_rotate(2);
    assert_eq!(data.current_figure.rotation_index, 2);
    assert_eq!(data.current_figure.position, Point { x: 2, y: 10 });
}

#[test]
fn wall_kick_table_shape() {
    let table = RotationCollisionTable::new();
    assert_eq!(table.collision_sequence(0, 1, 2)[1], Point { x: -1, y: 0 });
    assert_eq!(table.collision_sequence(1, 2, 0)[1], Point { x: 2, y: 0 });
    assert_eq!(table.collision_sequence(1, 0, 1)[4], Point { x: 0, y: 0 });
}

#[test]
fn single_line_scores_three_times_the_multiplier() {
    let mut data = GameData::new();
    data.award_lines(1, 100);
    assert_eq!(data.score, 300);
}

#[test]
fn four_lines_score_by_the_formula() {
    let mut data = GameData::new();
    data.award_lines(4, 100);
    assert_eq!(data.score, 8 * 100 + 4 * 5 * 100);
    let mut data = GameData::new();
    data.award_lines(2, 200);
    assert_eq!(data.score, 2 * 200 + 2 * 3 * 200);
    let mut data = GameData::new();
    data.award_lines(0, 500);
    assert_eq!(data.score, 0);
}

#[test]
fn tier_grows_with_the_score() {
    let mut data = GameData::new();
    data.add_score(1359);
    assert_eq!(data.dificulty, 0);
    data.add_score(1);
    assert_eq!(data.dificulty, 1);
    data.add_score(3695 - 1360);
    assert_eq!(data.dificulty, 2);
    assert_eq!(tier_of_score(10042), 2);
    assert_eq!(tier_of_score(10043), 3);
    assert_eq!(tier_of_score(u32::MAX), 15);
}

#[test]
fn score_is_held_at_the_largest_value() {
    let mut data = GameData::new();
    data.add_score(u64::MAX);
    assert_eq!(data.score, u32::MAX);
    assert_eq!(data.dificulty, 15);
}

#[test]
fn multiplier_follows_the_tier_table() {
    let mut data = GameData::new();
    let expected = [100, 200, 500, 1000, 2000, 5000, 10000];
    for (tier, m) in expected.iter().enumerate() {
        data.dificulty = tier as u32;
        assert_eq!(data.score_multiplier(), *m);
    }
    data.dificulty = 15;
    assert_eq!(data.score_multiplier(), 10_000_000);
}

#[test]
fn fall_interval_shrinks_by_tier() {
    assert_eq!(scaled_interval(330000, 0), 330000);
    assert_eq!(scaled_interval(330000, 1), 275000);
    assert_eq!(scaled_interval(330000, 2), 229166);
}

#[test]
fn random_kinds_are_in_the_catalog() {
    for _ in 0..200 {
        assert!(GameData::random_tetramino_index() < 7);
    }
}

#[test]
fn catalog_holds_the_seven_kinds() {
    let data = initialize_tetraminoes_data();
    assert!(matches!(data[0].termino_type, TetrominoType::I));
    assert!(matches!(data[6].termino_type, TetrominoType::L));
    let r: TetrominoRotation = data[0].rotations[1];
    let mut it = r.iter();
    assert_eq!(it.next(), Some(Point { x: 1, y: -1 }));
    assert_eq!(r.points()[3], Point { x: 1, y: 2 });
}

#[test]
fn piece_rotation_indices_wrap() {
    let mut t = Tetramino::new(3);
    assert_eq!(t.peek_left_rotation(), 3);
    t.rotate_right();
    t.rotate_right();
    t.rotate_right();
    t.rotate_right();
    assert_eq!(t.get_rotation(), 0);
    t.move_it(&Point { x: -2, y: 3 });
    assert_eq!(*t.get_position(), Point { x: 3, y: 3 });
}

#[test]
fn push_enters_the_new_top_only() {
    let mut data = GameData::new();
    let mut machine = StateMachine::new(GamePhase::Falling(FallingState::new()));
    machine.apply(StateTransition::Push(GamePhase::LineClearing(LineClearing::new())), &mut data);
    assert_eq!(machine.states().len(), 2);
    assert!(matches!(machine.states()[0], GamePhase::Falling(_)));
    match &machine.states()[1] {
        GamePhase::LineClearing(lc) => assert_eq!(lc.line_count, 0),
        _ => panic!("the pushed state is not on top"),
    }
}

#[test]
fn pop_exits_the_top_and_resumes_the_one_below() {
    let mut data = GameData::new();
    let mut falling = FallingState::new();
    falling.horizontal_movement = -1;
    falling.left_pressed = true;
    falling.left_stroke = true;
    let mut machine = StateMachine::new(GamePhase::Falling(falling));
    machine.apply(StateTransition::Push(GamePhase::LineClearing(LineClearing::new())), &mut data);
    machine.apply(StateTransition::Pop, &mut data);
    assert_eq!(machine.states().len(), 1);
    match &machine.states()[0] {
        GamePhase::Falling(f) => {
            assert_eq!(f.horizontal_movement, 0);
            assert!(!f.left_stroke);
            assert!(f.left_pressed);
        },
        _ => panic!("the state below is gone"),
    }
}

#[test]
fn transition_keeps_the_depth() {
    let mut data = GameData::new();
    let mut machine = StateMachine::new(GamePhase::Falling(FallingState::new()));
    machine.apply(StateTransition::Push(GamePhase::LineClearing(LineClearing::new())), &mut data);
    machine.apply(StateTransition::Transition(GamePhase::ChunkFall(ChunkFall::new(19))), &mut data);
    assert_eq!(machine.states().len(), 2);
    assert!(matches!(machine.states()[1], GamePhase::ChunkFall(_)));
    machine.apply(StateTransition::Hold, &mut data);
    assert_eq!(machine.states().len(), 2);
}

#[test]
fn popping_the_last_state_stops_the_session() {
    let mut game = Game::new();
    assert!(!game.advance(0, &vec![press(LogicalKey::MenuDown), press(LogicalKey::Confirm)]));
    assert_eq!(game.logic.states().len(), 0);
    assert!(!game.advance(0, &vec![]));
    assert!(!game.data.running);
}

#[test]
fn menu_starts_a_game_and_pause_returns() {
    let mut game = Game::new();
    game.data.score = 77;
    assert!(game.advance(0, &vec![press(LogicalKey::Confirm)]));
    assert!(game.advance(0, &vec![]));
    assert_eq!(game.logic.states().len(), 1);
    assert!(matches!(game.logic.states()[0], Screen::Play(_)));
    assert_eq!(game.data.score, 0);
    assert!(game.advance(0, &vec![press(LogicalKey::Pause)]));
    assert_eq!(game.logic.states().len(), 2);
    assert!(matches!(game.logic.states()[1], Screen::Pause(_)));
    assert!(game.advance(0, &vec![press(LogicalKey::Pause)]));
    assert_eq!(game.logic.states().len(), 1);
}

#[test]
fn menu_selection_wraps() {
    let mut menu = MainMenu::new();
    menu.handle_input(press(LogicalKey::MenuUp));
    assert_eq!(menu.selection, 1);
    menu.handle_input(press(LogicalKey::MenuDown));
    assert_eq!(menu.selection, 0);
    assert!(matches!(menu.update(), StateTransition::Hold));
}

#[test]
fn dropped_piece_falls_to_the_floor_and_locks() {
    let mut data = session_with_piece(1, 5, 0);
    let mut machine = StateMachine::new(GamePhase::Falling(FallingState::new()));
    for _ in 0..18 {
        assert!(machine.update(&mut data, 330000));
    }
    assert_eq!(data.current_figure.position, Point { x: 5, y: 18 });
    assert!(machine.update(&mut data, 330000));
    assert_eq!(machine.states().len(), 2);
    for (x, y) in [(5, 18), (6, 18), (5, 19), (6, 19)] {
        assert!(is_set(&data.play_table, x, y));
    }
    assert!(machine.update(&mut data, 330000));
    assert_eq!(machine.states().len(), 1);
    assert_eq!(data.current_figure.position, Point { x: 5, y: 0 });
    assert_eq!(data.score, 0);
}

#[test]
fn completing_a_row_clears_it_once_and_scores_one_line() {
    let mut data = session_with_piece(1, 5, 0);
    for x in 0..WIDTH {
        if x != 5 && x != 6 {
            set(&mut data.play_table, x, 19);
        }
    }
    let mut machine = StateMachine::new(GamePhase::Falling(FallingState::new()));
    let mut clearing_entries = 0;
    let mut was_clearing = false;
    for _ in 0..60 {
        assert!(machine.update(&mut data, 330000));
        let clearing = matches!(machine.states().last(), Some(GamePhase::LineClearing(lc)) if lc.line_count > 0);
        if clearing && !was_clearing {
            clearing_entries += 1;
        }
        was_clearing = clearing;
        if machine.states().len() == 1 && data.current_figure.position.y == 0 && data.score > 0 {
            break;
        }
    }
    assert_eq!(clearing_entries, 1);
    assert_eq!(data.score, 300);
    assert!(is_set(&data.play_table, 5, 19));
    assert!(is_set(&data.play_table, 6, 19));
    assert!(!is_set(&data.play_table, 0, 19));
    assert!(!is_set(&data.play_table, 5, 18));
}

#[test]
fn chunk_lands_on_the_floor() {
    let mut f = empty_field();
    set(&mut f, 3, 5);
    land_flying_chunks(&mut f, HEIGHT);
    assert!(is_set(&f, 3, 19));
    assert!(!is_set(&f, 3, 5));
}

#[test]
fn settle_step_keeps_falling_chunks() {
    let mut f = empty_field();
    set(&mut f, 0, 19);
    let chunks = vec![Chunk::new(vec![Point { x: 0, y: 17 }]), Chunk::new(vec![Point { x: 4, y: 10 }])];
    let kept = settle_step(chunks, 1, &mut f);
    assert_eq!(kept.len(), 1);
    assert_eq!(kept[0].elements, vec![Point { x: 4, y: 10 }]);
    assert!(is_set(&f, 0, 18));
}

#[test]
fn play_state_enter_starts_a_new_game() {
    let mut data = GameData::new();
    data.score = 5000;
    data.dificulty = 2;
    set(&mut data.play_table, 1, 1);
    let mut play = PlayState::new();
    play.enter(&mut data);
    assert_eq!(data.score, 0);
    assert_eq!(data.dificulty, 0);
    assert!(!is_set(&data.play_table, 1, 1));
    assert_eq!(data.current_figure.position, Point { x: 5, y: 0 });
}

#[test]
fn falling_state_tracks_held_keys() {
    let mut s = FallingState::new();
    s.handle_input(press(LogicalKey::Left));
    assert_eq!(s.horizontal_movement, -1);
    assert!(s.left_stroke);
    s.handle_input(press(LogicalKey::Left));
    assert_eq!(s.horizontal_movement, -1);
    s.handle_input(InputEvent { key: LogicalKey::Left, pressed: false });
    assert_eq!(s.horizontal_movement, 0);
    s.handle_input(press(LogicalKey::HardDrop));
    assert!(s.down_pressed);
}

#[test]
fn cascade_clears_lands_and_scores() {
    let mut data = GameData::new();
    for x in 0..WIDTH {
        set(&mut data.play_table, x, 19);
    }
    set(&mut data.play_table, 3, 17);
    score(&mut data);
    assert_eq!(data.score, 100 + 2 * 100);
    assert!(is_set(&data.play_table, 3, 19));
    assert!(!is_set(&data.play_table, 3, 17));
    assert!(!is_set(&data.play_table, 0, 19));
}

#[test]
fn cascade_without_full_rows_scores_nothing() {
    let mut data = GameData::new();
    set(&mut data.play_table, 3, 17);
    score(&mut data);
    assert_eq!(data.score, 0);
    assert!(is_set(&data.play_table, 3, 17));
}

#[test]
fn score_screen_returns_to_the_menu() {
    let mut summary = ScoreScreen::new(300, 0);
    assert!(matches!(summary.update(), StateTransition::Hold));
    summary.handle_input(press(LogicalKey::Cancel));
    match summary.update() {
        StateTransition::Transition(Screen::MainMenu(menu)) => assert_eq!(menu.selection, 0),
        _ => panic!("no transition to the menu"),
    }
}

#[test]
fn pause_pops_on_the_pause_key() {
    let mut pause = Pause::new();
    pause.handle_input(press(LogicalKey::Confirm));
    assert!(matches!(pause.update(), StateTransition::Hold));
    pause.handle_input(press(LogicalKey::Pause));
    assert!(matches!(pause.update(), StateTransition::Pop));
}

#[test]
fn chunk_fall_is_seeded_with_the_top_cleared_row() {
    let mut data = GameData::new();
    for x in 0..WIDTH {
        set(&mut data.play_table, x, 16);
        set(&mut data.play_table, x, 18);
    }
    let mut clearing = LineClearing::new();
    clearing.enter(&mut data);
    assert_eq!(clearing.lines, vec![16, 18]);
    assert_eq!(data.lines, 2);
    let mut last = StateTransition::Hold;
    for _ in 0..5 {
        last = clearing.update(&mut data, 100000);
    }
    match last {
        StateTransition::Transition(GamePhase::ChunkFall(fall)) => assert_eq!(fall.begin, 16),
        _ => panic!("no chunk fall after the blink"),
    }
    clearing.exit(&mut data);
    assert_eq!(data.lines, 0);
    assert!(!is_set(&data.play_table, 0, 16));
    assert!(!is_set(&data.play_table, 0, 18));
    assert_eq!(data.score, 2 * 100 + 2 * 3 * 100);
}

#[test]
fn cascade_runs_until_no_row_is_full() {
    let mut data = GameData::new();
    for x in 0..WIDTH {
        set(&mut data.play_table, x, 19);
        if x != 4 {
            set(&mut data.play_table, x, 18);
        }
    }
    set(&mut data.play_table, 4, 16);
    score(&mut data);
    assert!(find_filled_lines(&data.play_table).is_empty());
    assert!(data.play_table.iter().all(|c| *c == TetrominoType::E));
    assert_eq!(data.score, 100 + 100 + 2 * 3 * 100);
}
