use latex_wizard::locate::{
    ascend_step, find_project_root_directory, path_list_contains, search_exhausted_error,
    search_upward, PathKind, SearchStep,
};
use latex_wizard::logs::Log;

fn v(s: &str) -> Vec<u8> {
    s.as_bytes().to_vec()
}

#[test]
fn search_ascends_exactly_to_first_ancestor() {
    // The main document sits two levels above the start and nowhere closer.
    let start = v("/home/user/proj/chapters/sections");
    let dirs = vec![v("/home/user/proj"), v("/home")];
    let found = search_upward(&start, &dirs);
    assert_eq!(found, Some(v("/home/user/proj")));
}

#[test]
fn search_stops_at_start_when_main_is_there() {
    let start = v("/home/user/proj");
    let dirs = vec![v("/home/user/proj")];
    assert_eq!(search_upward(&start, &dirs), Some(v("/home/user/proj")));
}

#[test]
fn search_reaches_the_root_directory() {
    let start = v("/a/b");
    let dirs = vec![v("/")];
    assert_eq!(search_upward(&start, &dirs), Some(v("/")));
}

#[test]
fn search_fails_when_no_ancestor_has_main() {
    let start = v("/home/user/elsewhere");
    let dirs = vec![v("/srv/proj")];
    assert_eq!(search_upward(&start, &dirs), None);
    let dirs_empty: Vec<Vec<u8>> = Vec::new();
    assert_eq!(search_upward(&start, &dirs_empty), None);
}

#[test]
fn search_exhausted_is_an_invalid_argument() {
    let e = search_exhausted_error();
    match e {
        Log::InvalidCommandLineArgument(m) => assert_eq!(
            m,
            v("Can't find file `main.tex` neither in the current directory, nor in any parent directory.")
        ),
        _ => panic!("wrong error kind"),
    }
}

#[test]
fn ascend_step_moves_to_the_parent() {
    match ascend_step(&v("/a/b/c"), false) {
        SearchStep::Ascend(p) => assert_eq!(p, v("/a/b")),
        _ => panic!("expected an ascent"),
    }
    match ascend_step(&v("/a"), false) {
        SearchStep::Ascend(p) => assert_eq!(p, v("/")),
        _ => panic!("expected an ascent"),
    }
    match ascend_step(&v("/a/b/c"), true) {
        SearchStep::Found(p) => assert_eq!(p, v("/a/b/c")),
        _ => panic!("expected a find"),
    }
    assert!(matches!(ascend_step(&v("/"), false), SearchStep::Exhausted));
}

#[test]
fn path_list_lookup() {
    let dirs = vec![v("/a"), v("/b")];
    assert!(path_list_contains(&dirs, &v("/b")));
    assert!(!path_list_contains(&dirs, &v("/c")));
}

#[test]
fn bare_main_file_name_resolves_to_dot() {
    // A path argument equal to the bare main-document name yields `.`,
    // never an empty path.
    let r = find_project_root_directory(&v("main.tex"), PathKind::File, false);
    assert_eq!(r.ok(), Some(v(".")));
}

#[test]
fn main_file_path_resolves_to_its_directory() {
    let r = find_project_root_directory(&v("proj/main.tex"), PathKind::File, false);
    assert_eq!(r.ok(), Some(v("proj")));
    let r = find_project_root_directory(&v("/srv/proj/main.tex"), PathKind::File, false);
    assert_eq!(r.ok(), Some(v("/srv/proj")));
    let r = find_project_root_directory(&v("/main.tex"), PathKind::File, false);
    assert_eq!(r.ok(), Some(v("/")));
}

#[test]
fn wrong_file_name_is_rejected() {
    let r = find_project_root_directory(&v("proj/other.tex"), PathKind::File, false);
    match r {
        Err(Log::InvalidCommandLineArgument(m)) => assert_eq!(
            m,
            v("Invalid file name `proj/other.tex`. Only the main `.tex` file (`main.tex`) can be compiled.")
        ),
        _ => panic!("expected an invalid-argument error"),
    }
}

#[test]
fn directory_with_main_is_the_root() {
    let r = find_project_root_directory(&v("proj"), PathKind::Directory, true);
    assert_eq!(r.ok(), Some(v("proj")));
}

#[test]
fn directory_without_main_is_rejected() {
    let r = find_project_root_directory(&v("proj"), PathKind::Directory, false);
    match r {
        Err(Log::InvalidCommandLineArgument(m)) => assert_eq!(
            m,
            v("Failed to find the main `.tex` file (`main.tex`) inside `proj`.")
        ),
        _ => panic!("expected an invalid-argument error"),
    }
}

#[test]
fn missing_path_is_rejected() {
    let r = find_project_root_directory(&v("nowhere"), PathKind::Missing, false);
    match r {
        Err(Log::InvalidCommandLineArgument(m)) => {
            assert_eq!(m, v("File or directory `nowhere` doesn't exist."))
        },
        _ => panic!("expected an invalid-argument error"),
    }
}

#[test]
fn other_path_kind_is_rejected() {
    let r = find_project_root_directory(&v("dev/null"), PathKind::Other, false);
    match r {
        Err(Log::InvalidCommandLineArgument(m)) => assert_eq!(
            m,
            v("File `dev/null` should be either the root directory of the project or the main `.tex` file (`main.tex`)")
        ),
        _ => panic!("expected an invalid-argument error"),
    }
}
