//! What a compilation works on and says: the paths derived from a resolved
//! project root, and the messages of the steps around the toolchain passes.
//!
//! The pipeline itself runs with the project root as working directory, so
//! relative inclusion directives in the document resolve against it; only
//! the messages here name the full paths.

use vstd::prelude::*;

use crate::ascii::{ascii_bytes, bytes_of, wrap_bytes};
use crate::config::{
    main_tex_file, main_pdf_file, output_directory, spec_main_pdf_file, spec_main_tex_file,
    spec_output_directory,
};
use crate::logs::Log;
use crate::paths::{join_path, spec_join};

verus! {

/// The paths a compilation reads and writes, all derived from the project
/// root: the main document, the output directory, and the output document
/// inside it.
pub struct ProjectLayout {
    pub main_tex: Vec<u8>,
    pub out_dir: Vec<u8>,
    pub out_pdf: Vec<u8>,
}

/// Derives the three paths of a build from the resolved project root.
pub fn project_layout(root: &Vec<u8>) -> (r: ProjectLayout)
    ensures
        r.main_tex@ == spec_join(root@, spec_main_tex_file()),
        r.out_dir@ == spec_join(root@, spec_output_directory()),
        r.out_pdf@ == spec_join(spec_join(root@, spec_output_directory()), spec_main_pdf_file()),
{
    let tex_name = main_tex_file();
    let out_name = output_directory();
    let pdf_name = main_pdf_file();
    let main_tex = join_path(root, &tex_name);
    let out_dir = join_path(root, &out_name);
    let out_pdf = join_path(&out_dir, &pdf_name);
    ProjectLayout { main_tex, out_dir, out_pdf }
}

pub open spec fn msg_create_out_dir_failed(dir: Seq<u8>, detail: Seq<u8>) -> Seq<u8> {
    ascii_bytes("While creating output directory `"@) + dir + ascii_bytes("`:\n"@) + detail
}

pub open spec fn msg_compiling(tex: Seq<u8>, pdf: Seq<u8>) -> Seq<u8> {
    ascii_bytes("Compiling `"@) + tex + ascii_bytes("` to `"@) + pdf + ascii_bytes("`."@)
}

pub open spec fn msg_chdir_failed(root: Seq<u8>, detail: Seq<u8>) -> Seq<u8> {
    ascii_bytes("Failed to set the current working directory to `"@) + root + ascii_bytes(
        "`. Some LaTeX statements (like `\\include`) might fail to compile.\n"@,
    ) + detail
}

/// The fatal error for an output directory that could not be created.
pub fn create_out_dir_error(dir: &Vec<u8>, detail: &Vec<u8>) -> (r: Log)
    ensures
        r matches Log::FileSystemError(m) && m@ == msg_create_out_dir_failed(dir@, detail@),
{
    proof {
        reveal_strlit("While creating output directory `");
        reveal_strlit("`:\n");
    }
    let mut m = wrap_bytes("While creating output directory `", dir, "`:\n");
    m.extend_from_slice(detail.as_slice());
    proof {
        assert(m@ =~= msg_create_out_dir_failed(dir@, detail@));
    }
    Log::FileSystemError(m)
}

/// The informational text naming what is compiled to what.
pub fn compiling_info(tex: &Vec<u8>, pdf: &Vec<u8>) -> (r: Vec<u8>)
    ensures
        r@ == msg_compiling(tex@, pdf@),
{
    proof {
        reveal_strlit("Compiling `");
        reveal_strlit("` to `");
        reveal_strlit("`.");
    }
    let mut m = wrap_bytes("Compiling `", tex, "` to `");
    m.extend_from_slice(pdf.as_slice());
    let tail = bytes_of("`.");
    m.extend_from_slice(tail.as_slice());
    proof {
        assert(m@ =~= msg_compiling(tex@, pdf@));
    }
    m
}

/// The non-fatal text for a working-directory switch that failed; the
/// compilation is still attempted.
pub fn chdir_failed_info(root: &Vec<u8>, detail: &Vec<u8>) -> (r: Vec<u8>)
    ensures
        r@ == msg_chdir_failed(root@, detail@),
{
    proof {
        reveal_strlit("Failed to set the current working directory to `");
        reveal_strlit(
            "`. Some LaTeX statements (like `\\include`) might fail to compile.\n",
        );
    }
    let mut m = wrap_bytes(
        "Failed to set the current working directory to `",
        root,
        "`. Some LaTeX statements (like `\\include`) might fail to compile.\n",
    );
    m.extend_from_slice(detail.as_slice());
    proof {
        assert(m@ =~= msg_chdir_failed(root@, detail@));
    }
    m
}

/// The informational text for a detected glossary.
pub fn glossary_detected_info() -> (r: Vec<u8>)
    ensures
        r@ == ascii_bytes("Glossary detected. Compiling it."@),
{
    proof {
        reveal_strlit("Glossary detected. Compiling it.");
    }
    bytes_of("Glossary detected. Compiling it.")
}

/// The informational text for a detected bibliography.
pub fn bibliography_detected_info() -> (r: Vec<u8>)
    ensures
        r@ == ascii_bytes("Bibliography detected. Compiling it."@),
{
    proof {
        reveal_strlit("Bibliography detected. Compiling it.");
    }
    bytes_of("Bibliography detected. Compiling it.")
}

/// The informational text for the second typesetting pass.
pub fn recompiling_info() -> (r: Vec<u8>)
    ensures
        r@ == ascii_bytes(
            "Recompiling the `.pdf` to include the newly generated glossary/bibliography."@,
        ),
{
    proof {
        reveal_strlit(
            "Recompiling the `.pdf` to include the newly generated glossary/bibliography.",
        );
    }
    bytes_of("Recompiling the `.pdf` to include the newly generated glossary/bibliography.")
}

} // verus!
