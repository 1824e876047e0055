use csv_tui::app_state_model::AppStateModel;
use csv_tui::controller::{handle_key, save_finished, Action, Key};
use csv_tui::csv_model::{CsvDelimiter, CsvModel, FileRead};
use csv_tui::utils_model::{InputMode, Position};

const W: u16 = 80;
const H: u16 = 24;

fn named(cells: &[&[&str]]) -> CsvModel {
    CsvModel::from_rows(
        String::from("t.csv"),
        cells.iter().map(|r| r.iter().map(|c| c.to_string()).collect()).collect(),
        &CsvDelimiter::Comma,
    )
}

fn press(m: &mut CsvModel, s: &mut AppStateModel, keys: &str) {
    for c in keys.chars() {
        let a = handle_key(m, s, W, H, Key::Char(c));
        assert!(matches!(a, Action::Continue));
    }
}

fn in_mode(mode: InputMode) -> AppStateModel {
    let mut s = AppStateModel::default();
    s.set_input_mode(mode);
    s
}

#[test]
fn quit_without_saving_discards() {
    let mut m = CsvModel::default();
    m.set_cell_value(0, 0, String::from("x"));
    let mut s = AppStateModel::default();
    press(&mut m, &mut s, "q");
    assert_eq!(*s.get_input_mode(), InputMode::Quiting);
    let a = handle_key(&mut m, &mut s, W, H, Key::Char('n'));
    assert!(matches!(a, Action::Exit));
    assert!(!m.is_in_saved_state());
    let mut t = in_mode(InputMode::Quiting);
    assert!(matches!(handle_key(&mut m, &mut t, W, H, Key::Char('N')), Action::Exit));
}

#[test]
fn quit_with_save_asks_for_a_name_then_writes_then_exits() {
    let mut m = CsvModel::default();
    m.set_cell_value(0, 1, String::from("x"));
    let mut s = AppStateModel::default();
    press(&mut m, &mut s, "qy");
    assert_eq!(*s.get_input_mode(), InputMode::QuitSaving);
    press(&mut m, &mut s, "out");
    assert_eq!(s.get_input(), "out");
    let a = handle_key(&mut m, &mut s, W, H, Key::Enter);
    match a {
        Action::Write(file) => {
            assert_eq!(file.path, "out.csv");
            assert_eq!(file.contents, ",x\n");
        },
        _ => panic!("a file was to be written"),
    }
    assert_eq!(m.get_filename(), &Some(String::from("out")));
    assert_eq!(s.get_input(), "");
    assert_eq!(*s.get_input_mode(), InputMode::QuitSaving);
    save_finished(&mut m, &mut s, true);
    assert!(m.is_in_saved_state());
    assert_eq!(*s.get_input_mode(), InputMode::Quiting);
    assert!(matches!(handle_key(&mut m, &mut s, W, H, Key::Other), Action::Exit));
}

#[test]
fn quit_of_a_saved_grid_exits_on_any_key() {
    let mut m = named(&[&["a"]]);
    let mut s = in_mode(InputMode::Quiting);
    assert!(matches!(handle_key(&mut m, &mut s, W, H, Key::Char('z')), Action::Exit));
}

#[test]
fn quit_waits_for_an_answer() {
    let mut m = named(&[&["a"]]);
    m.set_saved(false);
    let mut s = in_mode(InputMode::Quiting);
    assert!(matches!(handle_key(&mut m, &mut s, W, H, Key::Char('z')), Action::Continue));
    assert!(matches!(handle_key(&mut m, &mut s, W, H, Key::Enter), Action::Continue));
    assert_eq!(*s.get_input_mode(), InputMode::Quiting);
    assert!(matches!(handle_key(&mut m, &mut s, W, H, Key::Char('Y')), Action::Continue));
    assert_eq!(*s.get_input_mode(), InputMode::QuitSaving);
}

#[test]
fn quit_saving_with_a_name_writes_on_any_key() {
    let mut m = named(&[&["a"]]);
    m.set_saved(false);
    let mut s = in_mode(InputMode::QuitSaving);
    match handle_key(&mut m, &mut s, W, H, Key::Other) {
        Action::Write(file) => {
            assert_eq!(file.path, "t.csv");
            assert_eq!(file.contents, "a\n");
        },
        _ => panic!("a file was to be written"),
    }
    save_finished(&mut m, &mut s, false);
    assert!(!m.is_in_saved_state());
    assert_eq!(*s.get_input_mode(), InputMode::SavedFailed);
    assert!(matches!(handle_key(&mut m, &mut s, W, H, Key::Other), Action::Continue));
    assert_eq!(*s.get_input_mode(), InputMode::Normal);
}

#[test]
fn quit_saving_without_a_name_edits_the_buffer() {
    let mut m = CsvModel::default();
    m.set_saved(false);
    let mut s = in_mode(InputMode::QuitSaving);
    press(&mut m, &mut s, "ab");
    handle_key(&mut m, &mut s, W, H, Key::Backspace);
    assert_eq!(s.get_input(), "a");
    assert_eq!(*s.get_input_mode(), InputMode::QuitSaving);
    handle_key(&mut m, &mut s, W, H, Key::Esc);
    assert_eq!(s.get_input(), "");
    assert_eq!(*s.get_input_mode(), InputMode::Normal);
    assert_eq!(m.get_filename(), &None);
}

#[test]
fn edit_copies_the_cell_and_commits_on_enter() {
    let mut m = named(&[&["a", "b"], &["c", "d"]]);
    let mut s = AppStateModel::default();
    press(&mut m, &mut s, "jle");
    assert_eq!(*s.get_input_mode(), InputMode::Editing);
    assert_eq!(s.get_input(), "d");
    press(&mut m, &mut s, "q!");
    handle_key(&mut m, &mut s, W, H, Key::Backspace);
    assert_eq!(s.get_input(), "dq");
    assert!(m.is_in_saved_state());
    handle_key(&mut m, &mut s, W, H, Key::Enter);
    assert_eq!(*s.get_input_mode(), InputMode::Normal);
    assert_eq!(s.get_input(), "");
    assert_eq!(m.get_cell_value(1, 1), "dq");
    assert!(!m.is_in_saved_state());
}

#[test]
fn edit_is_discarded_on_esc() {
    let mut m = named(&[&["a"]]);
    let mut s = AppStateModel::default();
    press(&mut m, &mut s, "exyz");
    handle_key(&mut m, &mut s, W, H, Key::Esc);
    assert_eq!(*s.get_input_mode(), InputMode::Normal);
    assert_eq!(s.get_input(), "");
    assert_eq!(m.get_cell_value(0, 0), "a");
    assert!(m.is_in_saved_state());
}

#[test]
fn edit_past_the_data_grows_the_grid() {
    let mut m = CsvModel::default();
    let mut s = AppStateModel::default();
    press(&mut m, &mut s, "jjlle");
    assert_eq!(s.get_input(), "");
    press(&mut m, &mut s, "v");
    handle_key(&mut m, &mut s, W, H, Key::Enter);
    assert_eq!(m.row_count(), 3);
    assert_eq!(m.col_count(), 3);
    assert_eq!(m.get_cell_value(2, 2), "v");
}

#[test]
fn edit_ignores_other_keys() {
    let mut m = named(&[&["a"]]);
    let mut s = AppStateModel::default();
    press(&mut m, &mut s, "e");
    handle_key(&mut m, &mut s, W, H, Key::Left);
    handle_key(&mut m, &mut s, W, H, Key::Other);
    assert_eq!(s.get_input(), "a");
    assert_eq!(*s.get_input_mode(), InputMode::Editing);
    assert_eq!(s.get_relative_pos(), Position { row: 0, col: 0 });
}

#[test]
fn arrows_and_letters_move_the_selection() {
    let mut m = CsvModel::default();
    let mut s = AppStateModel::default();
    handle_key(&mut m, &mut s, W, H, Key::Up);
    handle_key(&mut m, &mut s, W, H, Key::Left);
    press(&mut m, &mut s, "hk");
    assert_eq!(s.get_relative_pos(), Position { row: 0, col: 0 });
    handle_key(&mut m, &mut s, W, H, Key::Down);
    handle_key(&mut m, &mut s, W, H, Key::Right);
    press(&mut m, &mut s, "jjl");
    assert_eq!(s.get_relative_pos(), Position { row: 3, col: 2 });
    press(&mut m, &mut s, "kh");
    assert_eq!(s.get_relative_pos(), Position { row: 2, col: 1 });
    assert_eq!(*s.get_input_mode(), InputMode::Normal);
}

#[test]
fn paging_moves_the_corner_by_a_window() {
    let mut m = CsvModel::default();
    let mut s = AppStateModel::default();
    press(&mut m, &mut s, "HK");
    assert_eq!(s.get_corner_pos(), Position { row: 0, col: 0 });
    press(&mut m, &mut s, "J");
    assert_eq!(s.get_corner_pos(), Position { row: 17, col: 0 });
    press(&mut m, &mut s, "LL");
    assert_eq!(s.get_corner_pos(), Position { row: 17, col: 22 });
    press(&mut m, &mut s, "H");
    assert_eq!(s.get_corner_pos(), Position { row: 17, col: 11 });
    press(&mut m, &mut s, "JK");
    assert_eq!(s.get_corner_pos(), Position { row: 17, col: 11 });
    press(&mut m, &mut s, "KK");
    assert_eq!(s.get_corner_pos(), Position { row: 0, col: 11 });
    press(&mut m, &mut s, "HH");
    assert_eq!(s.get_corner_pos(), Position { row: 0, col: 0 });
    assert_eq!(s.get_relative_pos(), Position { row: 0, col: 0 });
}

#[test]
fn paging_left_uses_the_page_before() {
    let mut m = named(&[&["a", "b", "c", "0123456789012345678901234567890123456789"]]);
    let mut s = AppStateModel::default();
    s.add_to_corner_pos_col(3);
    assert!(matches!(handle_key(&mut m, &mut s, 38, H, Key::Char('H')), Action::Continue));
    assert_eq!(s.get_corner_pos(), Position { row: 0, col: 3 });
    assert!(matches!(handle_key(&mut m, &mut s, 61, H, Key::Char('H')), Action::Continue));
    assert_eq!(s.get_corner_pos(), Position { row: 0, col: 1 });
}

#[test]
fn selection_stops_at_the_last_index() {
    let mut m = CsvModel::default();
    let mut s = AppStateModel::default();
    s.add_to_corner_pos_row(usize::MAX);
    s.add_to_corner_pos_col(usize::MAX - 1);
    press(&mut m, &mut s, "jlJL");
    assert_eq!(s.get_relative_pos(), Position { row: 0, col: 1 });
    assert_eq!(s.get_corner_pos(), Position { row: usize::MAX, col: usize::MAX - 1 });
    press(&mut m, &mut s, "l");
    assert_eq!(s.get_relative_pos(), Position { row: 0, col: 1 });
}

#[test]
fn save_of_a_saved_grid_only_shows_saved() {
    let mut m = named(&[&["a"]]);
    let mut s = AppStateModel::default();
    press(&mut m, &mut s, "s");
    assert_eq!(*s.get_input_mode(), InputMode::Saved);
    press(&mut m, &mut s, "x");
    assert_eq!(*s.get_input_mode(), InputMode::Normal);
}

#[test]
fn save_with_a_name_writes_at_once() {
    let mut m = named(&[&["a"]]);
    m.set_cell_value(0, 1, String::from("b"));
    let mut s = AppStateModel::default();
    match handle_key(&mut m, &mut s, W, H, Key::Char('s')) {
        Action::Write(file) => {
            assert_eq!(file.path, "t.csv");
            assert_eq!(file.contents, "a,b\n");
        },
        _ => panic!("a file was to be written"),
    }
    assert_eq!(*s.get_input_mode(), InputMode::Normal);
    assert!(!m.is_in_saved_state());
    save_finished(&mut m, &mut s, true);
    assert_eq!(*s.get_input_mode(), InputMode::Saved);
    assert!(m.is_in_saved_state());
}

#[test]
fn save_without_a_name_asks_for_one() {
    let mut m = CsvModel::default();
    m.set_cell_value(0, 0, String::from("b"));
    let mut s = AppStateModel::default();
    press(&mut m, &mut s, "s");
    assert_eq!(*s.get_input_mode(), InputMode::Saving);
    press(&mut m, &mut s, "new.csv");
    match handle_key(&mut m, &mut s, W, H, Key::Enter) {
        Action::Write(file) => {
            assert_eq!(file.path, "new.csv");
            assert_eq!(file.contents, "b\n");
        },
        _ => panic!("a file was to be written"),
    }
    assert_eq!(m.get_filename(), &Some(String::from("new.csv")));
    save_finished(&mut m, &mut s, false);
    assert_eq!(*s.get_input_mode(), InputMode::SavedFailed);
    assert!(!m.is_in_saved_state());
}

#[test]
fn save_as_is_left_by_esc() {
    let mut m = named(&[&["a"]]);
    let mut s = AppStateModel::default();
    press(&mut m, &mut s, "aname");
    assert_eq!(*s.get_input_mode(), InputMode::Saving);
    assert_eq!(s.get_input(), "name");
    handle_key(&mut m, &mut s, W, H, Key::Esc);
    assert_eq!(*s.get_input_mode(), InputMode::Normal);
    assert_eq!(s.get_input(), "");
    assert_eq!(m.get_filename(), &Some(String::from("t.csv")));
}

#[test]
fn failed_save_as_leaves_the_grid_changed() {
    let mut m = named(&[&["a"]]);
    let mut s = in_mode(InputMode::Saving);
    press(&mut m, &mut s, "x");
    assert!(matches!(handle_key(&mut m, &mut s, W, H, Key::Enter), Action::Write(_)));
    save_finished(&mut m, &mut s, false);
    assert!(!m.is_in_saved_state());
    assert_eq!(*s.get_input_mode(), InputMode::SavedFailed);
}

#[test]
fn row_selection_inserts_and_removes() {
    let mut m = named(&[&["a", "b"], &["c"]]);
    let mut s = AppStateModel::default();
    press(&mut m, &mut s, "jr");
    assert_eq!(*s.get_input_mode(), InputMode::SelectingRow);
    press(&mut m, &mut s, "x");
    assert_eq!(*s.get_input_mode(), InputMode::SelectingRow);
    press(&mut m, &mut s, "i");
    assert_eq!(*s.get_input_mode(), InputMode::Normal);
    assert_eq!(m.get_cell_value(2, 0), "c");
    assert_eq!(m._get_data()[1].len(), 2);
    assert!(!m.is_in_saved_state());
    m.set_saved(true);
    press(&mut m, &mut s, "krr");
    assert_eq!(m.row_count(), 2);
    assert_eq!(m.get_cell_value(1, 0), "c");
    assert!(!m.is_in_saved_state());
    press(&mut m, &mut s, "r");
    handle_key(&mut m, &mut s, W, H, Key::Esc);
    assert_eq!(*s.get_input_mode(), InputMode::Normal);
    assert_eq!(m.row_count(), 2);
}

#[test]
fn column_selection_inserts_and_removes() {
    let mut m = named(&[&["a", "b", "c"], &["d"]]);
    let mut s = AppStateModel::default();
    press(&mut m, &mut s, "lc");
    assert_eq!(*s.get_input_mode(), InputMode::SelectingCol);
    press(&mut m, &mut s, "i");
    assert_eq!(*s.get_input_mode(), InputMode::Normal);
    assert_eq!(m._get_data()[0].len(), 4);
    assert_eq!(m._get_data()[1].len(), 1);
    assert!(!m.is_in_saved_state());
    press(&mut m, &mut s, "cr");
    assert_eq!(m._get_data()[0], vec!["a".to_string(), "b".to_string(), "c".to_string()]);
    press(&mut m, &mut s, "c");
    handle_key(&mut m, &mut s, W, H, Key::Esc);
    assert_eq!(*s.get_input_mode(), InputMode::Normal);
}

#[test]
fn unknown_keys_do_nothing_in_normal_mode() {
    let mut m = named(&[&["a"]]);
    let mut s = AppStateModel::default();
    press(&mut m, &mut s, "zZ1");
    handle_key(&mut m, &mut s, W, H, Key::Enter);
    handle_key(&mut m, &mut s, W, H, Key::Esc);
    handle_key(&mut m, &mut s, W, H, Key::Backspace);
    handle_key(&mut m, &mut s, W, H, Key::Other);
    assert_eq!(*s.get_input_mode(), InputMode::Normal);
    assert_eq!(s.get_input(), "");
    assert!(m.is_in_saved_state());
}

#[test]
fn whole_session_round_trip() {
    let mut m = CsvModel::load_file(
        String::from("in.csv"),
        FileRead::Contents(b"a,b\nc,d\n".to_vec()),
        &CsvDelimiter::Comma,
    )
    .unwrap();
    let mut s = AppStateModel::default();
    press(&mut m, &mut s, "le");
    handle_key(&mut m, &mut s, W, H, Key::Backspace);
    press(&mut m, &mut s, "B");
    handle_key(&mut m, &mut s, W, H, Key::Enter);
    let written = match handle_key(&mut m, &mut s, W, H, Key::Char('s')) {
        Action::Write(file) => file,
        _ => panic!("a file was to be written"),
    };
    assert_eq!(written.path, "in.csv");
    save_finished(&mut m, &mut s, true);
    let back = CsvModel::load_file(
        String::from("in.csv"),
        FileRead::Contents(written.contents.into_bytes()),
        &CsvDelimiter::Comma,
    )
    .unwrap();
    assert_eq!(back.get_cell_value(0, 1), "B");
    assert_eq!(back.get_cell_value(1, 0), "c");
}
