//! The rules by which the config file is loaded and written. Opening,
//! locking, reading and renaming files is the caller's I/O; what it does
//! with each outcome is decided here.

use vstd::prelude::*;

use crate::text::{hex_lower, push_hex, push_str, string_of};

verus! {

/// Permission bits that make a config file unsafe to load: group-writable
/// (0o020) and world-writable (0o002).
pub const UNSAFE_MODE_BITS: u32 = 0o022;

/// Whether a config file with permission bits `mode` may be loaded: the
/// engine runs privileged and injects what the file says, so a file that
/// others can write is refused.
pub fn is_safe_mode(mode: u32) -> (r: bool)
    ensures
        r == (mode & UNSAFE_MODE_BITS == 0),
{
    mode & UNSAFE_MODE_BITS == 0
}

/// What opening and reading the config file gave.
#[derive(Debug, Clone, Copy, PartialEq, Eq)]
pub enum FileRead {
    /// The file could not be opened (missing or unreadable).
    Missing,
    /// The file is open but group- or world-writable, or could not be
    /// inspected.
    Unsafe,
    /// Reading the open file failed.
    ReadFailed,
    /// The content is not a valid config.
    ParseFailed,
    /// The content parsed into a config.
    Parsed,
}

/// What `load_or_default` does with the outcome of its I/O.
#[derive(Debug, Clone, Copy, PartialEq, Eq)]
pub enum LoadPlan {
    /// Use the config read from the file.
    UseFile,
    /// Use the built-in defaults and leave the file untouched.
    UseDefaults,
    /// Write the documented defaults to the file, then use them.
    WriteDefaults,
}

/// The decision of `load_or_default`.
pub open spec fn plan_of(locked: bool, read: FileRead) -> LoadPlan {
    if !locked {
        LoadPlan::UseDefaults
    } else {
        match read {
            FileRead::Parsed => LoadPlan::UseFile,
            FileRead::Unsafe | FileRead::ParseFailed => LoadPlan::UseDefaults,
            FileRead::Missing | FileRead::ReadFailed => LoadPlan::WriteDefaults,
        }
    }
}

/// What to do after trying to load the config: without the directory lock
/// (another instance holds it) or with an unsafe file, the defaults are
/// used and the file is neither read nor written; a file that does not
/// parse falls back to the defaults and is left as it is; a parsed file is
/// used; a missing or unreadable file is regenerated from the defaults.
pub fn load_plan(locked: bool, read: FileRead) -> (r: LoadPlan)
    ensures
        r == plan_of(locked, read),
{
    if !locked {
        return LoadPlan::UseDefaults;
    }
    match read {
        FileRead::Parsed => LoadPlan::UseFile,
        FileRead::Unsafe | FileRead::ParseFailed => LoadPlan::UseDefaults,
        FileRead::Missing | FileRead::ReadFailed => LoadPlan::WriteDefaults,
    }
}

/// A file that others could have written, one guarded by another
/// instance's lock, or one that does not parse, is never used and never
/// overwritten.
pub proof fn lemma_untrusted_file_untouched(locked: bool, read: FileRead)
    ensures
        (!locked || read == FileRead::Unsafe || read == FileRead::ParseFailed) ==> plan_of(
            locked,
            read,
        ) == LoadPlan::UseDefaults,
        plan_of(locked, read) == LoadPlan::UseFile ==> locked && read == FileRead::Parsed,
{
}

/// The extension of the temporary file a config is written to before it is
/// renamed over the config: `toml.<nanos in hex>.tmp`.
pub open spec fn temp_extension_of(nanos: u128) -> Seq<char> {
    "toml."@ + hex_lower(nanos as nat) + ".tmp"@
}

/// The extension of the temporary file written at `nanos` nanoseconds
/// since the epoch.
pub fn temp_extension(nanos: u128) -> (r: String)
    ensures
        r@ == temp_extension_of(nanos),
{
    let mut r = string_of("toml.");
    push_hex(&mut r, nanos);
    push_str(&mut r, ".tmp");
    r
}

} // verus!
