use latex_wizard::clean::{clean_output_directory, DirEntry, DirListing};
use latex_wizard::compile::{
    chdir_failed_info, compiling_info, create_out_dir_error, project_layout,
};
use latex_wizard::init::{git_init_command, init_layout};
use latex_wizard::logs::Log;
use latex_wizard::pipeline::{plan_passes, Pass};
use latex_wizard::scan::scan_features;

fn v(s: &str) -> Vec<u8> {
    s.as_bytes().to_vec()
}

#[test]
fn project_layout_paths() {
    let l = project_layout(&v("myproj"));
    assert_eq!(l.main_tex, v("myproj/main.tex"));
    assert_eq!(l.out_dir, v("myproj/out"));
    assert_eq!(l.out_pdf, v("myproj/out/main.pdf"));
}

#[test]
fn project_layout_at_the_root_directory() {
    let l = project_layout(&v("/"));
    assert_eq!(l.main_tex, v("/main.tex"));
    assert_eq!(l.out_dir, v("/out"));
    assert_eq!(l.out_pdf, v("/out/main.pdf"));
}

#[test]
fn init_creates_the_whole_skeleton() {
    // The four paths of a fresh project, plus the version-control command.
    let l = init_layout(&v("myproj"));
    assert_eq!(l.project_dir, v("myproj"));
    assert_eq!(l.output_dir, v("myproj/out"));
    assert_eq!(l.main_tex, v("myproj/main.tex"));
    assert_eq!(l.gitignore, v("myproj/.gitignore"));
    let c = git_init_command(&v("myproj"));
    assert_eq!(c.program, v("git"));
    assert_eq!(c.args, vec![v("init"), v("myproj")]);
}

#[test]
fn clean_compile_of_a_plain_document() {
    // A clean compile of a project whose output directory holds a stale
    // auxiliary file beside the last good output: the stale file is
    // selected for removal, the output document is spared, and a document
    // with no directives plans exactly one typesetting pass.
    let layout = project_layout(&v("myproj"));
    let listing = DirListing::Listed(vec![
        DirEntry { name: v("stale.aux"), is_file: true },
        DirEntry { name: v("main.pdf"), is_file: true },
    ]);
    let removed = clean_output_directory(&layout.out_dir, &v("main.pdf"), &listing).unwrap();
    assert_eq!(removed, vec![v("stale.aux")]);

    let doc = v("\\documentclass{article}\n\\begin{document}\nText.\n\\end{document}\n");
    let flags = scan_features(&doc);
    assert!(!flags.has_glossary && !flags.has_bibliography);
    assert_eq!(plan_passes(flags.has_glossary, flags.has_bibliography), vec![Pass::Typeset]);
}

#[test]
fn compile_step_messages() {
    assert_eq!(
        compiling_info(&v("myproj/main.tex"), &v("myproj/out/main.pdf")),
        v("Compiling `myproj/main.tex` to `myproj/out/main.pdf`.")
    );
    assert_eq!(
        chdir_failed_info(&v("myproj"), &v("denied")),
        v("Failed to set the current working directory to `myproj`. Some LaTeX statements (like `\\include`) might fail to compile.\ndenied")
    );
    match create_out_dir_error(&v("myproj/out"), &v("denied")) {
        Log::FileSystemError(m) => {
            assert_eq!(m, v("While creating output directory `myproj/out`:\ndenied"))
        },
        _ => panic!("expected a file-system error"),
    }
}
