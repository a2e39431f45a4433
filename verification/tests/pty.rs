use ephosh::command::{Mode, TerminalSize};
use ephosh::effect::SpawnRequest;
use ephosh::frame::{empty_line, horizontal_line, input_box};
use ephosh::pty::pty_size;

fn request(program: &str, args: &[&str]) -> SpawnRequest {
    SpawnRequest {
        id: 1,
        program: program.to_string(),
        args: args.iter().map(|a| a.to_string()).collect(),
        mode: Mode::Pty(TerminalSize { cols: 80, rows: 24 }),
    }
}

fn words(builder: &portable_pty::CommandBuilder) -> Vec<String> {
    builder.get_argv().iter().map(|word| word.to_str().unwrap().to_string()).collect()
}

#[test]
fn command_line_holds_the_program_and_its_arguments() {
    let builder = request("/bin/ls", &["-l", "/tmp dir", ""]).builder();
    assert_eq!(words(&builder), vec!["/bin/ls", "-l", "/tmp dir", ""]);
}

#[test]
fn command_line_without_arguments_holds_the_program() {
    let builder = request("top", &[]).builder();
    assert_eq!(words(&builder), vec!["top"]);
    assert!(!builder.is_default_prog());
}

#[test]
fn pseudo_terminal_gets_rows_and_columns_the_right_way_round() {
    let size = pty_size(TerminalSize { cols: 132, rows: 43 });
    assert_eq!(size.cols, 132);
    assert_eq!(size.rows, 43);
    assert_eq!(size.pixel_width, 0);
    assert_eq!(size.pixel_height, 0);
}

#[test]
fn horizontal_line_spans_the_columns() {
    assert_eq!(horizontal_line(3), "\u{2500}\u{2500}\u{2500}\n\r");
    assert_eq!(horizontal_line(0), "\n\r");
}

#[test]
fn input_box_frames_the_line() {
    assert_eq!(
        input_box("ls -l", 2),
        "\u{2500}\u{2500}\n\r\u{2502}ls -l\u{2502}\n\r\u{2500}\u{2500}\n\r"
    );
    assert_eq!(input_box("", 0), "\n\r\u{2502}\u{2502}\n\r\n\r");
}

#[test]
fn empty_line_has_a_line_feed_for_each_column() {
    assert_eq!(empty_line(4), "\n\n\n\n");
    assert_eq!(empty_line(0), "");
}
