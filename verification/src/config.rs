//! The fixed names of a project's files and directories: the main document,
//! the output directory and the output document.

use vstd::prelude::*;

use crate::ascii::{ascii_bytes, bytes_of};

verus! {

/// Base name shared by the main document and the output document.
pub open spec fn spec_main_file_name() -> Seq<u8> {
    ascii_bytes("main"@)
}

/// Name of the main document file, a direct child of the project root.
pub open spec fn spec_main_tex_file() -> Seq<u8> {
    ascii_bytes("main.tex"@)
}

/// Name of the output document produced by the typesetting tool.
pub open spec fn spec_main_pdf_file() -> Seq<u8> {
    ascii_bytes("main.pdf"@)
}

/// Name of the output directory, a direct child of the project root.
pub open spec fn spec_output_directory() -> Seq<u8> {
    ascii_bytes("out"@)
}

pub fn main_file_name() -> (r: Vec<u8>)
    ensures
        r@ == spec_main_file_name(),
{
    proof {
        reveal_strlit("main");
    }
    bytes_of("main")
}

pub fn main_tex_file() -> (r: Vec<u8>)
    ensures
        r@ == spec_main_tex_file(),
{
    proof {
        reveal_strlit("main.tex");
    }
    bytes_of("main.tex")
}

pub fn main_pdf_file() -> (r: Vec<u8>)
    ensures
        r@ == spec_main_pdf_file(),
{
    proof {
        reveal_strlit("main.pdf");
    }
    bytes_of("main.pdf")
}

pub fn output_directory() -> (r: Vec<u8>)
    ensures
        r@ == spec_output_directory(),
{
    proof {
        reveal_strlit("out");
    }
    bytes_of("out")
}

/// The document names are the base name with their extension appended.
pub proof fn lemma_output_names_share_base()
    ensures
        spec_main_tex_file() == spec_main_file_name() + ascii_bytes(".tex"@),
        spec_main_pdf_file() == spec_main_file_name() + ascii_bytes(".pdf"@),
{
    reveal_strlit("main");
    reveal_strlit("main.tex");
    reveal_strlit("main.pdf");
    reveal_strlit(".tex");
    reveal_strlit(".pdf");
    assert(spec_main_tex_file() =~= spec_main_file_name() + ascii_bytes(".tex"@));
    assert(spec_main_pdf_file() =~= spec_main_file_name() + ascii_bytes(".pdf"@));
}

} // verus!
