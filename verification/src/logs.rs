//! The outcomes a command can end with, and how each is shown to the user.
//!
//! Every variant carries the full message as bytes; the binary around the
//! library only decodes and prints them.

use vstd::prelude::*;

use crate::ascii::{ascii_bytes, bytes_of, starts_with, subvec};

verus! {

/// One reportable outcome: a request for usage text, or one of the three
/// fatal error kinds.
#[derive(Debug)]
pub enum Log {
    /// Usage text was requested; printing it is a successful termination.
    HelpMessage(Vec<u8>),
    /// The user-supplied project reference does not resolve to a project.
    InvalidCommandLineArgument(Vec<u8>),
    /// Reading, writing, listing or creating a path failed.
    FileSystemError(Vec<u8>),
    /// An external tool could not be spawned or exited unsuccessfully.
    ShellCommandError(Vec<u8>),
}

/// Tag put before an error message on the terminal, in red.
pub open spec fn spec_error_tag() -> Seq<u8> {
    ascii_bytes("[\u{1b}[31mERR\u{1b}[0m]"@)
}

/// Tag put before an informational message on the terminal, in cyan.
pub open spec fn spec_info_tag() -> Seq<u8> {
    ascii_bytes("[\u{1b}[36mNFO\u{1b}[0m]"@)
}

/// Tag put before usage text on the terminal, in green.
pub open spec fn spec_help_tag() -> Seq<u8> {
    ascii_bytes("[\u{1b}[32mHLP\u{1b}[0m]"@)
}

pub fn error_tag() -> (r: Vec<u8>)
    ensures
        r@ == spec_error_tag(),
{
    proof {
        reveal_strlit("[\u{1b}[31mERR\u{1b}[0m]");
    }
    bytes_of("[\u{1b}[31mERR\u{1b}[0m]")
}

pub fn info_tag() -> (r: Vec<u8>)
    ensures
        r@ == spec_info_tag(),
{
    proof {
        reveal_strlit("[\u{1b}[36mNFO\u{1b}[0m]");
    }
    bytes_of("[\u{1b}[36mNFO\u{1b}[0m]")
}

pub fn help_tag() -> (r: Vec<u8>)
    ensures
        r@ == spec_help_tag(),
{
    proof {
        reveal_strlit("[\u{1b}[32mHLP\u{1b}[0m]");
    }
    bytes_of("[\u{1b}[32mHLP\u{1b}[0m]")
}

impl Log {
    /// The message carried by this outcome.
    pub open spec fn spec_message(&self) -> Seq<u8> {
        match self {
            Log::HelpMessage(m) => m@,
            Log::InvalidCommandLineArgument(m) => m@,
            Log::FileSystemError(m) => m@,
            Log::ShellCommandError(m) => m@,
        }
    }

    pub fn message(&self) -> (r: &Vec<u8>)
        ensures
            r@ == self.spec_message(),
    {
        match self {
            Log::HelpMessage(m) => m,
            Log::InvalidCommandLineArgument(m) => m,
            Log::FileSystemError(m) => m,
            Log::ShellCommandError(m) => m,
        }
    }

    /// A help request terminates successfully; everything else is fatal.
    pub fn is_fatal(&self) -> (r: bool)
        ensures
            r == !(self is HelpMessage),
    {
        !matches!(self, Log::HelpMessage(_))
    }

    /// The tag this outcome is shown under: help messages under the help
    /// tag, every error under the error tag.
    pub open spec fn spec_tag(&self) -> Seq<u8> {
        if self is HelpMessage {
            spec_help_tag()
        } else {
            spec_error_tag()
        }
    }

    /// The full terminal line for this outcome: its tag, a space, and the
    /// message.
    pub fn render(&self) -> (r: Vec<u8>)
        ensures
            r@ == self.spec_tag() + ascii_bytes(" "@) + self.spec_message(),
    {
        let mut r = if self.is_fatal() {
            error_tag()
        } else {
            help_tag()
        };
        proof {
            reveal_strlit(" ");
        }
        r.push(32);
        let m = self.message();
        r.extend_from_slice(m.as_slice());
        proof {
            assert(r@ =~= self.spec_tag() + ascii_bytes(" "@) + self.spec_message());
        }
        r
    }
}

/// The leading text an argument parser puts before its error messages.
pub open spec fn spec_error_prefix() -> Seq<u8> {
    ascii_bytes("error: "@)
}

/// What remains of a parser message once a leading `error: ` is dropped:
/// the suffix when the prefix is there, the whole message otherwise.
pub open spec fn spec_strip_error_prefix(m: Seq<u8>) -> Seq<u8> {
    if m.len() >= 7 && m.subrange(0, 7) == spec_error_prefix() {
        m.subrange(7, m.len() as int)
    } else {
        m
    }
}

/// Drops a leading `error: ` from a parser message, if present.
pub fn strip_error_prefix(m: &Vec<u8>) -> (r: Vec<u8>)
    ensures
        r@ == spec_strip_error_prefix(m@),
{
    proof {
        reveal_strlit("error: ");
    }
    let prefix = bytes_of("error: ");
    if starts_with(m, &prefix) {
        subvec(m, 7, m.len())
    } else {
        subvec(m, 0, m.len())
    }
}

} // verus!
