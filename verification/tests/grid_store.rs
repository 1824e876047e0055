use csv_tui::csv_model::{CsvDelimiter, CsvModel, FileRead, LoadError, SaveError};
use csv_tui::utils_model::{Position, Size};

fn rows(cells: &[&[&str]]) -> Vec<Vec<String>> {
    cells.iter().map(|r| r.iter().map(|c| c.to_string()).collect()).collect()
}

fn grid(cells: &[&[&str]]) -> CsvModel {
    CsvModel::from_rows(String::from("t.csv"), rows(cells), &CsvDelimiter::Comma)
}

#[test]
fn set_cell_on_empty_grid() {
    let mut m = CsvModel::default();
    m.set_cell_value(0, 0, String::from("x"));
    assert_eq!(m.row_count(), 1);
    assert_eq!(m.col_count(), 1);
    assert_eq!(m.get_cell_value(0, 0), "x");
    assert!(!m.is_in_saved_state());
}

#[test]
fn clearing_the_last_cells_trims_to_nothing() {
    let mut m = grid(&[&["a", "b"], &["", ""]]);
    m.set_cell_value(0, 0, String::new());
    assert_eq!(m.row_count(), 1);
    assert_eq!(m.get_cell_value(0, 1), "b");
    m.set_cell_value(0, 1, String::new());
    assert_eq!(m.row_count(), 0);
    assert_eq!(m.col_count(), 0);
}

#[test]
fn load_save_reload_keeps_cells() {
    let text = "a,b,c\nd,e,f\ng,h,i\n";
    let first = CsvModel::load_file(
        String::from("in.csv"),
        FileRead::Contents(text.as_bytes().to_vec()),
        &CsvDelimiter::Comma,
    )
    .unwrap();
    assert_eq!(first.row_count(), 3);
    assert_eq!(first.col_count(), 3);
    assert!(first.is_in_saved_state());
    assert_eq!(first.get_filename(), &Some(String::from("in.csv")));
    let file = first.save_data_to_file().unwrap();
    assert_eq!(file.path, "in.csv");
    assert_eq!(file.contents, text);
    let second = CsvModel::load_file(
        String::from("in.csv"),
        FileRead::Contents(file.contents.into_bytes()),
        &CsvDelimiter::Comma,
    )
    .unwrap();
    for r in 0..4 {
        for c in 0..4 {
            assert_eq!(first.get_cell_value(r, c), second.get_cell_value(r, c));
        }
    }
    assert_eq!(second.get_cell_value(1, 2), "f");
}

#[test]
fn ragged_grid_reloads_with_empty_padding() {
    let mut m = grid(&[&["a", "b", "c"], &["d"]]);
    m.insert_col(1);
    let text = m.create_csv_string();
    assert_eq!(text, "a,,b,c\nd,,,\n");
    let back = CsvModel::load_file(
        String::from("x.csv"),
        FileRead::Contents(text.into_bytes()),
        &CsvDelimiter::Comma,
    )
    .unwrap();
    assert_eq!(back.get_cell_value(0, 3), "c");
    assert_eq!(back.get_cell_value(1, 0), "d");
    assert_eq!(back.get_cell_value(1, 3), "");
    assert_eq!(back._get_data()[1].len(), 4);
}

#[test]
fn insert_col_skips_short_rows() {
    let mut m = grid(&[&["a", "b", "c"], &["d"]]);
    m.insert_col(1);
    assert_eq!(m._get_data(), &rows(&[&["a", "", "b", "c"], &["d"]]));
    assert_eq!(m._get_data()[0].len(), 4);
    assert_eq!(m._get_data()[1].len(), 1);
}

#[test]
fn remove_col_skips_short_rows() {
    let mut m = grid(&[&["a", "b", "c"], &["d"]]);
    m.remove_col(1);
    assert_eq!(m._get_data(), &rows(&[&["a", "c"], &["d"]]));
    m.remove_col(0);
    assert_eq!(m._get_data(), &rows(&[&["c"], &[]]));
    m.remove_col(7);
    assert_eq!(m._get_data(), &rows(&[&["c"], &[]]));
}

#[test]
fn reads_never_fail() {
    let m = grid(&[&["a", "b"], &["c"]]);
    assert_eq!(m.get_cell_value(0, 1), "b");
    assert_eq!(m.get_cell_value(1, 1), "");
    assert_eq!(m.get_cell_value(2, 0), "");
    assert_eq!(m.get_cell_value(usize::MAX, usize::MAX), "");
    assert_eq!(CsvModel::default().get_cell_value(0, 0), "");
}

#[test]
fn last_write_wins() {
    let mut m = CsvModel::default();
    m.set_cell_value(2, 3, String::from("one"));
    m.set_cell_value(0, 0, String::from("two"));
    m.set_cell_value(2, 3, String::from("three"));
    assert_eq!(m.get_cell_value(2, 3), "three");
    assert_eq!(m.get_cell_value(0, 0), "two");
    assert_eq!(m.get_cell_value(1, 1), "");
    assert_eq!(m.row_count(), 3);
    assert_eq!(m.col_count(), 4);
}

#[test]
fn write_grows_only_the_target_row() {
    let mut m = CsvModel::default();
    m.set_cell_value(2, 1, String::from("x"));
    assert_eq!(m._get_data(), &rows(&[&[], &[], &["", "x"]]));
}

#[test]
fn clearing_the_farthest_cell_shrinks_the_grid() {
    let mut m = grid(&[&["a"], &["", "", "z"]]);
    m.set_cell_value(1, 2, String::new());
    assert_eq!(m._get_data(), &rows(&[&["a"]]));
    assert_eq!(m.get_data_size(), Size { width: 1, height: 1 });
}

#[test]
fn writing_empty_text_far_away_changes_nothing_seen() {
    let mut m = grid(&[&["a", "b"]]);
    m.set_cell_value(9, 9, String::new());
    assert_eq!(m._get_data(), &rows(&[&["a", "b"]]));
    assert!(!m.is_in_saved_state());
}

#[test]
fn trim_twice_is_trim_once() {
    let mut m = grid(&[&["a", "", ""], &["", "b", ""], &["", "", ""], &[]]);
    m.remove_unneeded_rows();
    let once = rows(&[&["a", ""], &["", "b"]]);
    assert_eq!(m._get_data(), &once);
    m.remove_unneeded_rows();
    assert_eq!(m._get_data(), &once);
    assert_eq!(m.row_count(), 2);
    assert_eq!(m.col_count(), 2);
}

#[test]
fn trim_of_a_grid_without_text_is_empty() {
    let mut m = grid(&[&["", ""], &[""]]);
    m.remove_unneeded_rows();
    assert_eq!(m.row_count(), 0);
}

#[test]
fn insert_row_at_the_ends() {
    let mut m = grid(&[&["a", "b"], &["c"]]);
    m.insert_row(2);
    assert_eq!(m._get_data(), &rows(&[&["a", "b"], &["c"]]));
    m.insert_row(0);
    assert_eq!(m._get_data(), &rows(&[&["", ""], &["a", "b"], &["c"]]));
    let mut e = CsvModel::default();
    e.insert_row(0);
    assert_eq!(e.row_count(), 0);
}

#[test]
fn remove_row_at_the_ends() {
    let mut m = grid(&[&["a", "b"], &["c"]]);
    m.remove_row(2);
    assert_eq!(m.row_count(), 2);
    m.remove_row(0);
    assert_eq!(m._get_data(), &rows(&[&["c"]]));
    m.remove_row(0);
    assert_eq!(m.row_count(), 0);
    m.remove_row(0);
    assert_eq!(m.row_count(), 0);
}

#[test]
fn row_edits_leave_the_saved_flag() {
    let mut m = grid(&[&["a"]]);
    m.insert_row(0);
    m.remove_col(0);
    assert!(m.is_in_saved_state());
}

#[test]
fn column_width_has_a_floor_of_five() {
    let m = grid(&[&["a", "abcdefgh"], &["abc", "x"]]);
    assert_eq!(m.get_col_max_width(0), 5);
    assert_eq!(m.get_col_max_width(1), 8);
    assert_eq!(m.get_col_max_width(2), 5);
    assert_eq!(m.get_col_max_width(usize::MAX), 5);
}

#[test]
fn column_width_counts_bytes() {
    let m = grid(&[&["h\u{e9}ll\u{f6}!"]]);
    assert_eq!(m.get_col_max_width(0), 8);
}

#[test]
fn segment_is_clipped_not_padded() {
    let m = grid(&[&["a", "b", "c"], &["d"], &["e", "f"]]);
    let all = m.get_data_segment(&Position { row: 0, col: 0 }, &Size { width: 10, height: 10 });
    assert_eq!(all, rows(&[&["a", "b", "c"], &["d"], &["e", "f"]]));
    let part = m.get_data_segment(&Position { row: 1, col: 1 }, &Size { width: 1, height: 5 });
    assert_eq!(part, rows(&[&[], &["f"]]));
    let top = m.get_data_segment(&Position { row: 0, col: 1 }, &Size { width: 2, height: 1 });
    assert_eq!(top, rows(&[&["b", "c"]]));
    let none = m.get_data_segment(&Position { row: 3, col: 0 }, &Size { width: 2, height: 2 });
    assert!(none.is_empty());
    let huge = m.get_data_segment(
        &Position { row: usize::MAX, col: usize::MAX },
        &Size { width: usize::MAX, height: usize::MAX },
    );
    assert!(huge.is_empty());
    let flat = m.get_data_segment(&Position { row: 0, col: 0 }, &Size { width: 0, height: 2 });
    assert_eq!(flat, rows(&[&[], &[]]));
}

#[test]
fn data_size_is_longest_row_by_rows() {
    let m = grid(&[&["a"], &["b", "c", "d"]]);
    assert_eq!(m.get_data_size(), Size { width: 3, height: 2 });
    assert_eq!(CsvModel::default().get_data_size(), Size { width: 0, height: 0 });
}

#[test]
fn csv_text_is_rectangular() {
    let m = grid(&[&["a", "b", "c"], &["d"], &[]]);
    assert_eq!(m.create_csv_string(), "a,b,c\nd,,\n,,\n");
    assert_eq!(CsvModel::default().create_csv_string(), "");
    assert_eq!(grid(&[&[], &[]]).create_csv_string(), "\n\n");
}

#[test]
fn csv_text_uses_the_delimiter_and_never_quotes() {
    let m = CsvModel::from_rows(
        String::from("t"),
        rows(&[&["a b", "c,d"], &["\"q\"", ""]]),
        &CsvDelimiter::Tab,
    );
    assert_eq!(m.create_csv_string(), "a b\tc,d\n\"q\"\t\n");
    let s = CsvModel::from_rows(String::from("t"), rows(&[&["a", "b"]]), &CsvDelimiter::Semicolon);
    assert_eq!(s.create_csv_string(), "a;b\n");
    let p = CsvModel::from_rows(String::from("t"), rows(&[&["a", "b"]]), &CsvDelimiter::Space);
    assert_eq!(p.create_csv_string(), "a b\n");
}

#[test]
fn delimiters_as_characters_and_bytes() {
    assert_eq!(CsvDelimiter::Comma.as_char(), ',');
    assert_eq!(CsvDelimiter::Tab.as_char(), '\t');
    assert_eq!(CsvDelimiter::Semicolon.as_char(), ';');
    assert_eq!(CsvDelimiter::Space.as_char(), ' ');
    assert_eq!(CsvDelimiter::Comma.as_byte(), b',');
    assert_eq!(CsvDelimiter::Tab.as_byte(), b'\t');
    assert_eq!(CsvDelimiter::Semicolon.as_byte(), b';');
    assert_eq!(CsvDelimiter::Space.as_byte(), b' ');
}

#[test]
fn save_appends_the_extension_once() {
    let mut m = grid(&[&["a"]]);
    m.set_filename(String::from("table"));
    assert_eq!(m.save_data_to_file().unwrap().path, "table.csv");
    m.set_filename(String::from("table.csv"));
    assert_eq!(m.save_data_to_file().unwrap().path, "table.csv");
    m.set_filename(String::from("csv"));
    assert_eq!(m.save_data_to_file().unwrap().path, "csv.csv");
    m.set_filename(String::from(".csv"));
    assert_eq!(m.save_data_to_file().unwrap().path, ".csv");
    assert_eq!(m.save_data_as("other.txt").path, "other.txt.csv");
    assert_eq!(m.save_data_as("other.txt").contents, "a\n");
}

#[test]
fn save_without_a_name_fails() {
    let m = CsvModel::default();
    assert_eq!(m.save_data_to_file().unwrap_err(), SaveError::NoFilename);
}

#[test]
fn finishing_a_save_sets_the_flag_only_on_success() {
    let mut m = grid(&[&["a"]]);
    m.set_cell_value(0, 0, String::from("b"));
    assert!(!m.is_in_saved_state());
    assert_eq!(m.finish_save(false), Err(SaveError::WriteFailed));
    assert!(!m.is_in_saved_state());
    assert_eq!(m.finish_save(true), Ok(()));
    assert!(m.is_in_saved_state());
    assert_eq!(m.finish_save(false), Err(SaveError::WriteFailed));
    assert!(m.is_in_saved_state());
}

#[test]
fn load_reports_a_missing_file() {
    let r = CsvModel::load_file(String::from("no.csv"), FileRead::Missing, &CsvDelimiter::Comma);
    assert_eq!(r.unwrap_err(), LoadError::Missing);
}

#[test]
fn load_reports_an_unreadable_file() {
    let r = CsvModel::load_file(String::from("no.csv"), FileRead::Unreadable, &CsvDelimiter::Comma);
    assert_eq!(r.unwrap_err(), LoadError::Unreadable);
}

#[test]
fn load_reports_a_malformed_record() {
    let r = CsvModel::load_file(
        String::from("bad.csv"),
        FileRead::Contents(b"a,b\nc\n".to_vec()),
        &CsvDelimiter::Comma,
    );
    assert_eq!(r.unwrap_err(), LoadError::Malformed);
    let u = CsvModel::load_file(
        String::from("bad.csv"),
        FileRead::Contents(vec![b'a', 0xff, b'\n']),
        &CsvDelimiter::Comma,
    );
    assert_eq!(u.unwrap_err(), LoadError::Malformed);
}

#[test]
fn load_reads_quoted_fields() {
    let m = CsvModel::load_file(
        String::from("q.csv"),
        FileRead::Contents(b"\"a,b\",c\n\"d\"\"e\",f\n".to_vec()),
        &CsvDelimiter::Comma,
    )
    .unwrap();
    assert_eq!(m.get_cell_value(0, 0), "a,b");
    assert_eq!(m.get_cell_value(0, 1), "c");
    assert_eq!(m.get_cell_value(1, 0), "d\"e");
    assert_eq!(m.row_count(), 2);
}

#[test]
fn load_keeps_the_first_line_as_data() {
    let m = CsvModel::load_file(
        String::from("h.csv"),
        FileRead::Contents(b"x,y\n1,2\n".to_vec()),
        &CsvDelimiter::Comma,
    )
    .unwrap();
    assert_eq!(m.get_cell_value(0, 0), "x");
    assert_eq!(m.row_count(), 2);
}

#[test]
fn load_splits_at_the_chosen_delimiter() {
    let semi = CsvModel::load_file(
        String::from("s.csv"),
        FileRead::Contents(b"a,b;c\n".to_vec()),
        &CsvDelimiter::Semicolon,
    )
    .unwrap();
    assert_eq!(semi._get_data(), &rows(&[&["a,b", "c"]]));
    assert_eq!(semi.get_delimiter(), CsvDelimiter::Semicolon);
    let tab = CsvModel::load_file(
        String::from("s.csv"),
        FileRead::Contents(b"a b\tc\n".to_vec()),
        &CsvDelimiter::Tab,
    )
    .unwrap();
    assert_eq!(tab._get_data(), &rows(&[&["a b", "c"]]));
    let space = CsvModel::load_file(
        String::from("s.csv"),
        FileRead::Contents(b"a b\tc\n".to_vec()),
        &CsvDelimiter::Space,
    )
    .unwrap();
    assert_eq!(space._get_data(), &rows(&[&["a", "b\tc"]]));
}

#[test]
fn load_of_an_empty_file_is_an_empty_grid() {
    let m = CsvModel::load_file(
        String::from("e.csv"),
        FileRead::Contents(Vec::new()),
        &CsvDelimiter::Comma,
    )
    .unwrap();
    assert_eq!(m.row_count(), 0);
}

#[test]
fn load_does_not_trim() {
    let m = CsvModel::load_file(
        String::from("e.csv"),
        FileRead::Contents(b"a,\n,\n".to_vec()),
        &CsvDelimiter::Comma,
    )
    .unwrap();
    assert_eq!(m._get_data(), &rows(&[&["a", ""], &["", ""]]));
}

#[test]
fn new_grids_are_saved_and_unnamed() {
    let m = CsvModel::default();
    assert!(m.is_in_saved_state());
    assert_eq!(m.get_filename(), &None);
    assert_eq!(m.get_delimiter(), CsvDelimiter::Comma);
    let t = CsvModel::default_with_delimiter(&CsvDelimiter::Tab);
    assert_eq!(t.get_delimiter(), CsvDelimiter::Tab);
    assert_eq!(t.row_count(), 0);
    assert!(t.is_in_saved_state());
}

#[test]
fn set_saved_and_set_filename() {
    let mut m = CsvModel::default();
    m.set_saved(false);
    assert!(!m.is_in_saved_state());
    m.set_filename(String::from("n"));
    assert_eq!(m.get_filename(), &Some(String::from("n")));
    assert!(!m.is_in_saved_state());
}

#[test]
fn written_delimiters_are_not_quoted_and_split_on_load() {
    let m = grid(&[&["a,b", "c"]]);
    let text = m.create_csv_string();
    assert_eq!(text, "a,b,c\n");
    let back = CsvModel::load_file(
        String::from("t.csv"),
        FileRead::Contents(text.into_bytes()),
        &CsvDelimiter::Comma,
    )
    .unwrap();
    assert_eq!(back._get_data(), &rows(&[&["a", "b", "c"]]));
}

#[test]
fn written_lines_without_text_are_passed_over_on_load() {
    let m = grid(&[&["a"], &[""], &["b"]]);
    let text = m.create_csv_string();
    assert_eq!(text, "a\n\nb\n");
    let back = CsvModel::load_file(
        String::from("t.csv"),
        FileRead::Contents(text.into_bytes()),
        &CsvDelimiter::Comma,
    )
    .unwrap();
    assert_eq!(back._get_data(), &rows(&[&["a"], &["b"]]));
}
