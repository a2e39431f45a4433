use ephosh::command::{Command, Mode, Read, Supervision, TerminalSize, POLL_INTERVAL_MS};
use ephosh::error::Error;

fn running(name: &str) -> Command {
    let mut command = Command::new(name);
    assert_eq!(command.spawn(Ok(())), Ok(()));
    command
}

#[test]
fn new_command_has_nothing_yet() {
    let command = Command::new("ls");
    assert_eq!(command.program(), "ls");
    assert!(command.arguments().is_empty());
    assert_eq!(command.get_mode(), Mode::Direct);
    assert!(command.get_output().is_empty());
    assert!(!command.is_killed());
    assert!(!command.has_failed());
}

#[test]
fn arguments_keep_their_order() {
    let mut command = Command::new("ls");
    command.arg("-l").arg("-a");
    command.args(&vec!["x".to_string(), "y".to_string()]);
    assert_eq!(command.arguments(), vec!["-l", "-a", "x", "y"]);
}

#[test]
fn words_make_a_terminal_command() {
    let size = TerminalSize { cols: 80, rows: 24 };
    let words = vec!["vim".to_string(), "a.txt".to_string(), "b.txt".to_string()];
    let command = Command::with_terminal(&words, size).unwrap();
    assert_eq!(command.program(), "vim");
    assert_eq!(command.arguments(), vec!["a.txt", "b.txt"]);
    assert_eq!(command.get_mode(), Mode::Pty(size));
}

#[test]
fn no_words_make_no_command() {
    let size = TerminalSize { cols: 80, rows: 24 };
    let result = Command::with_terminal(&Vec::new(), size);
    assert_eq!(
        result.err(),
        Some(Error::SpawnFailed { reason: "Not enough arguments".to_string() })
    );
}

#[test]
fn failed_spawn_gives_the_reason() {
    let mut command = Command::new("nowhere");
    let result = command.spawn(Err("No such file or directory".to_string()));
    assert_eq!(
        result,
        Err(Error::SpawnFailed { reason: "No such file or directory".to_string() })
    );
    assert_eq!(command.next_input(), None);
}

#[test]
fn killing_twice_is_killing_once() {
    let mut once = running("sleep");
    once.kill();
    let mut twice = running("sleep");
    twice.kill();
    twice.kill();
    assert!(once.is_killed());
    assert_eq!(once.is_killed(), twice.is_killed());
    assert_eq!(once.get_output(), twice.get_output());
    assert_eq!(once.supervise(), twice.supervise());
    let mut other = running("sleep");
    other.kill_process();
    assert!(other.is_killed());
}

#[test]
fn output_comes_in_behind_what_is_held() {
    let mut command = running("echo");
    assert!(command.read(Read::Bytes(b"he".to_vec())));
    let first = command.get_output();
    assert_eq!(first, b"he");
    assert!(command.read(Read::Bytes(b"llo\n".to_vec())));
    let second = command.get_output();
    assert_eq!(second, b"hello\n");
    assert!(second.starts_with(&first));
}

#[test]
fn end_of_output_stops_the_reader() {
    let mut command = running("echo");
    command.read(Read::Bytes(b"hi\n".to_vec()));
    assert!(!command.read(Read::Bytes(Vec::new())));
    assert_eq!(command.get_output(), b"hi\n");
    assert!(!command.has_failed());
}

#[test]
fn failed_read_stops_the_reader_and_keeps_the_output() {
    let mut command = running("echo");
    command.read(Read::Bytes(b"hi\n".to_vec()));
    assert!(!command.read(Read::Failed));
    assert!(command.has_failed());
    assert_eq!(command.get_output(), b"hi\n");
}

#[test]
fn echo_hi_is_seen_after_the_program_has_ended() {
    let mut command = Command::new("echo");
    command.arg("hi");
    assert_eq!(command.spawn(Ok(())), Ok(()));
    command.exited();
    assert!(command.is_killed());
    assert!(!command.read(Read::Bytes(b"hi\n".to_vec())));
    assert_eq!(command.get_output(), b"hi\n");
}

#[test]
fn input_is_delivered_oldest_first() {
    let mut command = running("cat");
    assert_eq!(command.send_char('a'), Ok(()));
    assert_eq!(command.send_char('b'), Ok(()));
    assert_eq!(command.next_input(), Some('a'));
    assert!(command.written(true));
    assert_eq!(command.next_input(), Some('b'));
    assert_eq!(command.next_input(), None);
}

#[test]
fn input_before_the_start_is_dropped() {
    let mut command = Command::new("cat");
    assert!(command.accepts_input());
    assert_eq!(command.send_char('a'), Ok(()));
    command.spawn(Ok(())).unwrap();
    assert_eq!(command.next_input(), None);
}

#[test]
fn failed_write_closes_the_channel() {
    let mut command = running("cat");
    command.send_char('a').unwrap();
    assert!(!command.written(false));
    assert!(!command.accepts_input());
    assert_eq!(command.send_char('b'), Err(Error::ChannelClosed));
    assert_eq!(command.next_input(), None);
}

#[test]
fn supervisor_waits_until_asked_to_stop() {
    let mut command = running("top");
    assert_eq!(command.supervise(), Supervision::Wait(100));
    assert_eq!(POLL_INTERVAL_MS, 100);
    command.kill();
    assert_eq!(command.supervise(), Supervision::Terminate);
}

#[test]
fn resize_needs_a_live_terminal() {
    let mut piped = running("cat");
    assert_eq!(piped.resize(100, 40), Err(Error::RuntimeIoFailure));
    assert_eq!(piped.get_mode(), Mode::Direct);
    let mut command = Command::new("vim");
    command.mode(Mode::Pty(TerminalSize { cols: 80, rows: 24 }));
    command.spawn(Ok(())).unwrap();
    assert_eq!(command.resize(100, 40), Ok(()));
    assert_eq!(command.get_mode(), Mode::Pty(TerminalSize { cols: 100, rows: 40 }));
    command.kill();
    assert_eq!(command.resize(120, 50), Err(Error::RuntimeIoFailure));
    assert_eq!(command.get_mode(), Mode::Pty(TerminalSize { cols: 100, rows: 40 }));
}

#[test]
fn read_after_a_kill_is_kept_but_ends_the_reading() {
    let mut command = running("yes");
    command.kill();
    assert!(!command.read(Read::Bytes(b"y\n".to_vec())));
    assert_eq!(command.get_output(), b"y\n");
}

#[test]
fn errors_have_their_messages() {
    assert_eq!(Error::ChannelClosed.message(), "sending on a closed channel");
    assert_eq!(Error::RuntimeIoFailure.message(), "input/output failure");
    assert_eq!(Error::SpawnFailed { reason: "why".to_string() }.message(), "why");
    assert_eq!(
        Error::LookupFailure(ephosh::error::Lookup::NoPanes).message(),
        "no panes to communicate with"
    );
    assert_eq!(
        Error::LookupFailure(ephosh::error::Lookup::IncorrectArguments).message(),
        "incorrect arguments"
    );
    assert_eq!(Error::LookupFailure(ephosh::error::Lookup::OutOfRange).message(), "no such pane");
}
