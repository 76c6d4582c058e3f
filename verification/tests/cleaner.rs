use latex_wizard::clean::{
    clean_output_directory, out_dir_missing_info, remove_failed_info, removing_info,
    select_files_to_remove, DirEntry, DirListing,
};
use latex_wizard::logs::Log;

fn v(s: &str) -> Vec<u8> {
    s.as_bytes().to_vec()
}

fn entry(name: &str, is_file: bool) -> DirEntry {
    DirEntry { name: v(name), is_file }
}

#[test]
fn clean_removes_everything_but_the_output_document() {
    let entries = vec![entry("main.pdf", true), entry("main.aux", true), entry("main.log", true)];
    let removed = select_files_to_remove(&entries, &v("main.pdf"));
    assert_eq!(removed, vec![v("main.aux"), v("main.log")]);
}

#[test]
fn clean_twice_is_idempotent() {
    let entries = vec![entry("main.pdf", true), entry("main.aux", true), entry("main.log", true)];
    let keep = v("main.pdf");
    let removed = select_files_to_remove(&entries, &keep);
    // What survives the first clean is what was not selected.
    let survivors: Vec<DirEntry> = entries
        .into_iter()
        .filter(|e| !(e.is_file && removed.contains(&e.name)))
        .collect();
    let removed_again = select_files_to_remove(&survivors, &keep);
    assert!(removed_again.is_empty());
}

#[test]
fn clean_leaves_directories_untouched() {
    let entries = vec![entry("figures", false), entry("main.aux", true)];
    let removed = select_files_to_remove(&entries, &v("main.pdf"));
    assert_eq!(removed, vec![v("main.aux")]);
}

#[test]
fn clean_on_missing_directory_is_a_successful_no_op() {
    let r = clean_output_directory(&v("proj/out"), &v("main.pdf"), &DirListing::Missing);
    assert_eq!(r.ok(), Some(Vec::new()));
    assert_eq!(
        out_dir_missing_info(&v("proj/out")),
        v("The output directory `proj/out` is missing already. No file was removed.")
    );
}

#[test]
fn clean_on_unlistable_directory_fails() {
    let r = clean_output_directory(
        &v("proj/out"),
        &v("main.pdf"),
        &DirListing::Unreadable(v("permission denied")),
    );
    match r {
        Err(Log::FileSystemError(m)) => assert_eq!(
            m,
            v("An error occurred while reading the content of directory `proj/out`:\npermission denied")
        ),
        _ => panic!("expected a file-system error"),
    }
}

#[test]
fn clean_on_listed_directory_selects_the_stale_files() {
    let listing = DirListing::Listed(vec![entry("stale.aux", true), entry("main.pdf", true)]);
    let r = clean_output_directory(&v("proj/out"), &v("main.pdf"), &listing);
    assert_eq!(r.ok(), Some(vec![v("stale.aux")]));
}

#[test]
fn clean_log_texts() {
    assert_eq!(removing_info(&v("out/main.aux")), v("Removing `out/main.aux`"));
    assert_eq!(
        remove_failed_info(&v("out/main.aux"), &v("busy")),
        v("An error occurred while removing file `out/main.aux`:\nbusy")
    );
}
