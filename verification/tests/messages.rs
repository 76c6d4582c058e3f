use latex_wizard::init::{
    create_dir_error, create_file_error, git_failed_error, git_spawn_error, write_file_error,
};
use latex_wizard::locate::cwd_error;
use latex_wizard::logs::{error_tag, help_tag, info_tag, strip_error_prefix, Log};
use latex_wizard::scan::read_main_error;

fn v(s: &str) -> Vec<u8> {
    s.as_bytes().to_vec()
}

#[test]
fn parser_error_prefix_is_stripped() {
    assert_eq!(strip_error_prefix(&v("error: bad flag")), v("bad flag"));
    assert_eq!(strip_error_prefix(&v("something else")), v("something else"));
    assert_eq!(strip_error_prefix(&v("error:")), v("error:"));
    assert_eq!(strip_error_prefix(&v("")), v(""));
}

#[test]
fn help_is_not_fatal_and_errors_are() {
    assert!(!Log::HelpMessage(v("usage")).is_fatal());
    assert!(Log::InvalidCommandLineArgument(v("x")).is_fatal());
    assert!(Log::FileSystemError(v("x")).is_fatal());
    assert!(Log::ShellCommandError(v("x")).is_fatal());
}

#[test]
fn rendering_puts_the_tag_before_the_message() {
    let rendered = Log::FileSystemError(v("broken")).render();
    assert_eq!(rendered, v("[\u{1b}[31mERR\u{1b}[0m] broken"));
    let rendered = Log::HelpMessage(v("usage")).render();
    assert_eq!(rendered, v("[\u{1b}[32mHLP\u{1b}[0m] usage"));
}

#[test]
fn terminal_tags_are_colored() {
    assert_eq!(error_tag(), v("[\u{1b}[31mERR\u{1b}[0m]"));
    assert_eq!(info_tag(), v("[\u{1b}[36mNFO\u{1b}[0m]"));
    assert_eq!(help_tag(), v("[\u{1b}[32mHLP\u{1b}[0m]"));
}

#[test]
fn message_accessor_returns_the_payload() {
    let e = Log::ShellCommandError(v("boom"));
    assert_eq!(e.message(), &v("boom"));
}

#[test]
fn scanner_read_failure_message() {
    match read_main_error(&v("proj/main.tex"), &v("not found")) {
        Log::FileSystemError(m) => assert_eq!(
            m,
            v("Failed to read the content of `proj/main.tex`. Unable to determine the presence of glossary and/or bibliography.\nnot found")
        ),
        _ => panic!("expected a file-system error"),
    }
}

#[test]
fn current_directory_failure_message() {
    match cwd_error(&v("gone")) {
        Log::FileSystemError(m) => assert_eq!(
            m,
            v("While looking for `main.tex` file: failed to get current directory.\ngone")
        ),
        _ => panic!("expected a file-system error"),
    }
}

#[test]
fn init_error_messages() {
    match create_dir_error(&v("myproj"), &v("exists")) {
        Log::FileSystemError(m) => assert_eq!(m, v("While creating directory `myproj`:\nexists")),
        _ => panic!("expected a file-system error"),
    }
    match create_file_error(&v("myproj/main.tex"), &v("denied")) {
        Log::FileSystemError(m) => {
            assert_eq!(m, v("While creating file `myproj/main.tex`:\ndenied"))
        },
        _ => panic!("expected a file-system error"),
    }
    match write_file_error(&v("myproj/.gitignore"), &v("full")) {
        Log::FileSystemError(m) => {
            assert_eq!(m, v("While writing to `myproj/.gitignore`:\nfull"))
        },
        _ => panic!("expected a file-system error"),
    }
    match git_spawn_error(&v("myproj"), &v("no git")) {
        Log::ShellCommandError(m) => {
            assert_eq!(m, v("While initializing a git repo in `myproj`:\nno git"))
        },
        _ => panic!("expected a shell-command error"),
    }
    match git_failed_error(&v("myproj")) {
        Log::ShellCommandError(m) => {
            assert_eq!(m, v("An error occurred while initializing a git repo in `myproj`."))
        },
        _ => panic!("expected a shell-command error"),
    }
}
