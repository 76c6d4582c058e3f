//! The skeleton a new project is created with, and the messages of the
//! steps that create it.

use vstd::prelude::*;

use crate::ascii::{ascii_bytes, bytes_of, wrap_bytes};
use crate::config::{main_tex_file, output_directory, spec_main_tex_file, spec_output_directory};
use crate::logs::Log;
use crate::paths::{join_path, spec_join};
use crate::pipeline::ShellCommand;

verus! {

/// The four paths a new project is created from: the project directory
/// itself, its output directory, its main document, and its ignore file for
/// version control.
pub struct InitLayout {
    pub project_dir: Vec<u8>,
    pub output_dir: Vec<u8>,
    pub main_tex: Vec<u8>,
    pub gitignore: Vec<u8>,
}

/// Derives the skeleton paths from the new project's name.
pub fn init_layout(name: &Vec<u8>) -> (r: InitLayout)
    ensures
        r.project_dir@ == name@,
        r.output_dir@ == spec_join(name@, spec_output_directory()),
        r.main_tex@ == spec_join(name@, spec_main_tex_file()),
        r.gitignore@ == spec_join(name@, ascii_bytes(".gitignore"@)),
{
    proof {
        reveal_strlit(".gitignore");
    }
    let project_dir = crate::ascii::subvec(name, 0, name.len());
    proof {
        assert(project_dir@ =~= name@);
    }
    let out_name = output_directory();
    let tex_name = main_tex_file();
    let ignore_name = bytes_of(".gitignore");
    let output_dir = join_path(name, &out_name);
    let main_tex = join_path(name, &tex_name);
    let gitignore = join_path(name, &ignore_name);
    InitLayout { project_dir, output_dir, main_tex, gitignore }
}

/// The command that puts the new project under version control.
pub fn git_init_command(name: &Vec<u8>) -> (r: ShellCommand)
    ensures
        r.program@ == ascii_bytes("git"@),
        r.args@.map_values(|a: Vec<u8>| a@) == seq![ascii_bytes("init"@), name@],
{
    proof {
        reveal_strlit("git");
        reveal_strlit("init");
    }
    let program = bytes_of("git");
    let mut args: Vec<Vec<u8>> = Vec::new();
    args.push(bytes_of("init"));
    let name_arg = crate::ascii::subvec(name, 0, name.len());
    proof {
        assert(name_arg@ =~= name@);
    }
    args.push(name_arg);
    proof {
        assert(args@.map_values(|a: Vec<u8>| a@) =~= seq![ascii_bytes("init"@), name@]);
    }
    ShellCommand { program, args }
}

pub open spec fn msg_create_dir_failed(path: Seq<u8>, detail: Seq<u8>) -> Seq<u8> {
    ascii_bytes("While creating directory `"@) + path + ascii_bytes("`:\n"@) + detail
}

pub open spec fn msg_create_file_failed(path: Seq<u8>, detail: Seq<u8>) -> Seq<u8> {
    ascii_bytes("While creating file `"@) + path + ascii_bytes("`:\n"@) + detail
}

pub open spec fn msg_write_file_failed(path: Seq<u8>, detail: Seq<u8>) -> Seq<u8> {
    ascii_bytes("While writing to `"@) + path + ascii_bytes("`:\n"@) + detail
}

pub open spec fn msg_git_spawn_failed(name: Seq<u8>, detail: Seq<u8>) -> Seq<u8> {
    ascii_bytes("While initializing a git repo in `"@) + name + ascii_bytes("`:\n"@) + detail
}

pub open spec fn msg_git_failed(name: Seq<u8>) -> Seq<u8> {
    ascii_bytes("An error occurred while initializing a git repo in `"@) + name + ascii_bytes(
        "`."@,
    )
}

/// The fatal error for a directory of the skeleton that could not be made.
pub fn create_dir_error(path: &Vec<u8>, detail: &Vec<u8>) -> (r: Log)
    ensures
        r matches Log::FileSystemError(m) && m@ == msg_create_dir_failed(path@, detail@),
{
    proof {
        reveal_strlit("While creating directory `");
        reveal_strlit("`:\n");
    }
    let mut m = wrap_bytes("While creating directory `", path, "`:\n");
    m.extend_from_slice(detail.as_slice());
    proof {
        assert(m@ =~= msg_create_dir_failed(path@, detail@));
    }
    Log::FileSystemError(m)
}

/// The fatal error for a file of the skeleton that could not be created.
pub fn create_file_error(path: &Vec<u8>, detail: &Vec<u8>) -> (r: Log)
    ensures
        r matches Log::FileSystemError(m) && m@ == msg_create_file_failed(path@, detail@),
{
    proof {
        reveal_strlit("While creating file `");
        reveal_strlit("`:\n");
    }
    let mut m = wrap_bytes("While creating file `", path, "`:\n");
    m.extend_from_slice(detail.as_slice());
    proof {
        assert(m@ =~= msg_create_file_failed(path@, detail@));
    }
    Log::FileSystemError(m)
}

/// The fatal error for a file of the skeleton that could not be written.
pub fn write_file_error(path: &Vec<u8>, detail: &Vec<u8>) -> (r: Log)
    ensures
        r matches Log::FileSystemError(m) && m@ == msg_write_file_failed(path@, detail@),
{
    proof {
        reveal_strlit("While writing to `");
        reveal_strlit("`:\n");
    }
    let mut m = wrap_bytes("While writing to `", path, "`:\n");
    m.extend_from_slice(detail.as_slice());
    proof {
        assert(m@ =~= msg_write_file_failed(path@, detail@));
    }
    Log::FileSystemError(m)
}

/// The fatal error for a version-control process that could not be started.
pub fn git_spawn_error(name: &Vec<u8>, detail: &Vec<u8>) -> (r: Log)
    ensures
        r matches Log::ShellCommandError(m) && m@ == msg_git_spawn_failed(name@, detail@),
{
    proof {
        reveal_strlit("While initializing a git repo in `");
        reveal_strlit("`:\n");
    }
    let mut m = wrap_bytes("While initializing a git repo in `", name, "`:\n");
    m.extend_from_slice(detail.as_slice());
    proof {
        assert(m@ =~= msg_git_spawn_failed(name@, detail@));
    }
    Log::ShellCommandError(m)
}

/// The fatal error for a version-control process that ended unsuccessfully.
pub fn git_failed_error(name: &Vec<u8>) -> (r: Log)
    ensures
        r matches Log::ShellCommandError(m) && m@ == msg_git_failed(name@),
{
    proof {
        reveal_strlit("An error occurred while initializing a git repo in `");
        reveal_strlit("`.");
    }
    Log::ShellCommandError(
        wrap_bytes("An error occurred while initializing a git repo in `", name, "`."),
    )
}

} // verus!
