use ephosh::cache::{command_name, CommandCache};
use ephosh::config::Config;
use ephosh::error::{Error, Lookup};
use ephosh::inbuilt::Request;

fn wrong() -> Result<Request, Error> {
    Err(Error::LookupFailure(Lookup::IncorrectArguments))
}

#[test]
fn empty_line_asks_for_nothing() {
    assert_eq!(Request::parse(""), Ok(Request::Nothing));
    assert_eq!(Request::parse("   \t"), Ok(Request::Nothing));
}

#[test]
fn cd_takes_a_directory() {
    assert_eq!(Request::parse("cd /tmp"), Ok(Request::ChangeDir { dir: "/tmp".to_string() }));
    assert_eq!(Request::parse("  cd   a b"), Ok(Request::ChangeDir { dir: "a".to_string() }));
    assert_eq!(Request::parse("cd"), wrong());
}

#[test]
fn clear_takes_all_panes_or_one() {
    assert_eq!(Request::parse("clear"), Ok(Request::ClearAll));
    assert_eq!(Request::parse("clear 0"), Ok(Request::ClearPane { index: 0 }));
    assert_eq!(Request::parse("clear 1"), Ok(Request::ClearPane { index: 0 }));
    assert_eq!(Request::parse("clear 2"), Ok(Request::ClearPane { index: 1 }));
    assert_eq!(Request::parse("clear 10"), Ok(Request::ClearPane { index: 9 }));
}

#[test]
fn clear_refuses_what_is_no_number() {
    assert_eq!(Request::parse("clear x"), wrong());
    assert_eq!(Request::parse("clear -1"), wrong());
    assert_eq!(Request::parse("clear 1x"), wrong());
    assert_eq!(Request::parse("clear 99999999999999999999999999"), wrong());
}

#[test]
fn send_takes_a_pane_and_a_message() {
    assert_eq!(
        Request::parse("send 1 hello"),
        Ok(Request::Send { index: 0, message: "hello".to_string() })
    );
    assert_eq!(
        Request::parse("send 3 hello   wide  world"),
        Ok(Request::Send { index: 2, message: "hello wide world".to_string() })
    );
    assert_eq!(
        Request::parse("send 0 x"),
        Ok(Request::Send { index: 0, message: "x".to_string() })
    );
}

#[test]
fn send_refuses_missing_or_wrong_arguments() {
    assert_eq!(Request::parse("send"), wrong());
    assert_eq!(Request::parse("send 1"), wrong());
    assert_eq!(Request::parse("send x hello"), wrong());
}

#[test]
fn reload_exit_and_quit_stand_alone() {
    assert_eq!(Request::parse("reload"), Ok(Request::Reload));
    assert_eq!(Request::parse("exit"), Ok(Request::Exit));
    assert_eq!(Request::parse("quit"), Ok(Request::Exit));
    assert_eq!(Request::parse("exit now"), Ok(Request::Exit));
}

#[test]
fn anything_else_is_a_program() {
    assert_eq!(
        Request::parse("ls -l /tmp"),
        Ok(Request::Run {
            name: "ls".to_string(),
            args: vec!["-l".to_string(), "/tmp".to_string()]
        })
    );
    assert_eq!(
        Request::parse("clearx"),
        Ok(Request::Run { name: "clearx".to_string(), args: Vec::new() })
    );
    assert_eq!(
        Request::parse("CD /tmp"),
        Ok(Request::Run { name: "CD".to_string(), args: vec!["/tmp".to_string()] })
    );
}

#[test]
fn program_name_stands_behind_the_last_slash() {
    assert_eq!(command_name("/usr/bin/ls"), "ls");
    assert_eq!(command_name("ls"), "ls");
    assert_eq!(command_name("/usr/bin/"), "");
    assert_eq!(command_name(""), "");
    assert_eq!(command_name("a/b.c/d e"), "d e");
}

#[test]
fn cache_resolves_names_to_paths() {
    let mut cache = CommandCache::new();
    assert_eq!(cache.resolve(&"ls".to_string()), None);
    cache.insert("ls".to_string(), "/bin/ls".to_string());
    cache.insert("cat".to_string(), "/bin/cat".to_string());
    assert_eq!(cache.resolve(&"ls".to_string()), Some("/bin/ls".to_string()));
    assert_eq!(cache.resolve(&"cat".to_string()), Some("/bin/cat".to_string()));
    assert_eq!(cache.resolve(&"l".to_string()), None);
    cache.insert("ls".to_string(), "/usr/bin/ls".to_string());
    assert_eq!(cache.resolve(&"ls".to_string()), Some("/usr/bin/ls".to_string()));
    assert_eq!(cache.resolve(&"cat".to_string()), Some("/bin/cat".to_string()));
}

#[test]
fn cache_is_built_from_paths() {
    let paths = vec![
        "/bin/ls".to_string(),
        "/bin/cat".to_string(),
        "/usr/local/bin/ls".to_string(),
    ];
    let cache = CommandCache::from_paths(&paths);
    assert_eq!(cache.resolve(&"ls".to_string()), Some("/usr/local/bin/ls".to_string()));
    assert_eq!(cache.resolve(&"cat".to_string()), Some("/bin/cat".to_string()));
    assert_eq!(cache.resolve(&"/bin/cat".to_string()), None);
    let empty = CommandCache::from_paths(&Vec::new());
    assert_eq!(empty.resolve(&"ls".to_string()), None);
}

#[test]
fn settings_fall_back_to_the_home_directory() {
    let config = Config::fallback("/home/u");
    assert_eq!(config.max_outputs, 4);
    assert_eq!(config.history_size, 1000);
    assert_eq!(config.history_path, "/home/u/.ephosh_history");
    assert!(config.is_usable());
    assert_eq!(Config::path("/home/u"), "/home/u/.config/ephosh/ephosh.json");
}

#[test]
fn settings_read_are_kept() {
    let read = Config { max_outputs: 2, history_path: "/tmp/h".to_string(), history_size: 5 };
    assert_eq!(Config::new(Ok(read.clone()), "/home/u"), Ok(read));
    let pathless = Config { max_outputs: 2, history_path: String::new(), history_size: 5 };
    assert_eq!(
        Config::new(Ok(pathless), "/home/u"),
        Ok(Config {
            max_outputs: 2,
            history_path: "/home/u/.ephosh_history".to_string(),
            history_size: 5
        })
    );
}

#[test]
fn settings_that_cannot_be_read_give_the_fallback_and_the_reason() {
    let result = Config::new(Err("expected value at line 1".to_string()), "/home/u");
    assert_eq!(
        result,
        Err((Config::fallback("/home/u"), "expected value at line 1".to_string()))
    );
    let (config, message) = Config::settle(result);
    assert_eq!(config, Config::fallback("/home/u"));
    assert_eq!(message, "Config: expected value at line 1");
    let good = Config { max_outputs: 1, history_path: "h".to_string(), history_size: 1 };
    assert_eq!(Config::settle(Ok(good.clone())), (good, String::new()));
}

#[test]
fn settings_without_room_are_not_usable() {
    let none = Config { max_outputs: 0, history_path: "h".to_string(), history_size: 5 };
    assert!(!none.is_usable());
    let no_history = Config { max_outputs: 1, history_path: "h".to_string(), history_size: 0 };
    assert!(!no_history.is_usable());
}
