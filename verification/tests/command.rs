use file_compressor::command::{
    choice_direction, file_prompt, menu_item, menu_title, select_mode, success_message, Command,
    Mode,
};
use file_compressor::error::Direction;

#[test]
fn a_command_alone_is_run() {
    let cmd = Command::Compress { file: String::from("a.txt") };
    assert_eq!(select_mode(false, Some(cmd.clone())), Mode::Run(cmd));
    let cmd = Command::Decompress { file: String::from("a.txt.gz") };
    assert_eq!(select_mode(false, Some(cmd.clone())), Mode::Run(cmd));
}

#[test]
fn the_interactive_flag_wins_over_a_command() {
    let cmd = Command::Compress { file: String::from("a.txt") };
    assert_eq!(select_mode(true, Some(cmd)), Mode::Interactive);
    assert_eq!(select_mode(true, None), Mode::Interactive);
}

#[test]
fn no_command_means_interactive() {
    assert_eq!(select_mode(false, None), Mode::Interactive);
}

#[test]
fn menu_positions() {
    assert_eq!(choice_direction(0), Some(Direction::Compress));
    assert_eq!(choice_direction(1), Some(Direction::Decompress));
    assert_eq!(choice_direction(2), None);
    assert_eq!(choice_direction(usize::MAX), None);
}

#[test]
fn menu_texts() {
    assert_eq!(menu_title(), "Choose an action");
    assert_eq!(menu_item(Direction::Compress), "Compress a file");
    assert_eq!(menu_item(Direction::Decompress), "Decompress a file");
    assert_eq!(file_prompt(Direction::Compress), "Enter the file to compress");
    assert_eq!(file_prompt(Direction::Decompress), "Enter the .gz file to decompress");
}

#[test]
fn success_lines() {
    assert_eq!(
        success_message(Direction::Compress, "notes.txt.gz"),
        "\u{2705} Compressed to: notes.txt.gz"
    );
    assert_eq!(
        success_message(Direction::Decompress, "notes.txt"),
        "\u{2705} Decompressed to: notes.txt"
    );
}

#[test]
fn command_parts() {
    let c = Command::new(Direction::Compress, String::from("a.txt"));
    assert_eq!(c, Command::Compress { file: String::from("a.txt") });
    assert_eq!(c.direction(), Direction::Compress);
    assert_eq!(c.file(), "a.txt");
    let d = Command::new(Direction::Decompress, String::from("a.txt.gz"));
    assert_eq!(d, Command::Decompress { file: String::from("a.txt.gz") });
    assert_eq!(d.direction(), Direction::Decompress);
    assert_eq!(d.file(), "a.txt.gz");
}
