//! Acquisition of the target: where it is unpacked, the outcome of each
//! external tool, and the expansion of `~/` paths.

use vstd::prelude::*;
use crate::error::prefixed;
use crate::locator::{join_path, joined};

verus! {

/// Where the archive of the target is fetched from.
pub const ARCHIVE_URL: &'static str = "https://github.com/cazzano/Minning/releases/download/minning/xmr.zip";

/// How an external tool (downloader, unpacker) ended.
pub enum ToolOutcome {
    /// It could not be started; the system's text.
    NotRun(String),
    /// It ran; whether it succeeded, and its exit status as text.
    Exited { success: bool, status: String },
}

/// The directory that holds the unpacked target.
pub fn install_dir(home: &str) -> (r: String)
    ensures
        r@ == joined(home@, "xmr"@),
{
    join_path(home, "xmr")
}

/// Where the archive is saved before unpacking.
pub fn archive_path(home: &str) -> (r: String)
    ensures
        r@ == joined(home@, "xmr.zip"@),
{
    join_path(home, "xmr.zip")
}

/// The home directory, or the error that ends acquisition without one.
pub fn home_result(home: Option<String>) -> (r: Result<String, String>)
    ensures
        match home {
            Some(h) => r matches Ok(p) && p@ == h@,
            None => r matches Err(m) && m@ == "Could not determine home directory"@,
        },
{
    match home {
        Some(h) => Ok(h),
        None => Err(String::from_str("Could not determine home directory")),
    }
}

/// The error text of a tool's outcome, if it failed.
pub open spec fn tool_failure(tool: Seq<char>, outcome: ToolOutcome) -> Option<Seq<char>> {
    match outcome {
        ToolOutcome::NotRun(e) => Some("Failed to execute "@ + tool + ": "@ + e@),
        ToolOutcome::Exited { success, status } => if success {
            None
        } else {
            Some(tool + " failed with exit code: "@ + status@)
        },
    }
}

/// Result of running `tool`: success only when it ran and succeeded.
pub fn tool_result(tool: &str, outcome: ToolOutcome) -> (r: Result<(), String>)
    ensures
        match tool_failure(tool@, outcome) {
            None => r is Ok,
            Some(m) => r matches Err(e) && e@ == m,
        },
{
    match outcome {
        ToolOutcome::NotRun(e) => {
            let mut m = prefixed("Failed to execute ", tool);
            m.append(": ");
            m.append(e.as_str());
            Err(m)
        },
        ToolOutcome::Exited { success, status } => {
            if success {
                Ok(())
            } else {
                let mut m = prefixed(tool, " failed with exit code: ");
                m.append(status.as_str());
                Err(m)
            }
        },
    }
}

/// Result of acquisition once the archive is unpacked: success when the
/// install directory is now present.
pub fn extraction_result(dir_present: bool) -> (r: Result<(), String>)
    ensures
        dir_present ==> r is Ok,
        !dir_present ==> (r matches Err(m) && m@
            == "XMR folder was not created properly after extraction"@),
{
    if dir_present {
        Ok(())
    } else {
        Err(String::from_str("XMR folder was not created properly after extraction"))
    }
}

/// `path` with a leading `~/` replaced by the home directory.
pub open spec fn expanded(path: Seq<char>, home: Seq<char>) -> Seq<char> {
    if path.len() >= 2 && path[0] == '~' && path[1] == '/' {
        joined(home, path.subrange(2, path.len() as int))
    } else {
        path
    }
}

/// Expands a leading `~/` to the home directory; other paths are kept.
pub fn expand_tilde(path: &str, home: &str) -> (r: String)
    ensures
        r@ == expanded(path@, home@),
{
    let n = path.unicode_len();
    if n >= 2 && path.get_char(0) == '~' && path.get_char(1) == '/' {
        let rest = path.substring_char(2, n);
        join_path(home, rest)
    } else {
        String::from_str(path)
    }
}

/// Whether permission bits let the owner write.
pub fn owner_writable(mode: u32) -> (r: bool)
    ensures
        r == (mode & 0o200u32 != 0),
{
    mode & 0o200u32 != 0
}

/// Whether a file name has the extension `txt`: text after its last dot,
/// where that dot is not the name's first character.
pub open spec fn has_txt_extension(name: Seq<char>) -> bool {
    &&& name.len() >= 5
    &&& name.subrange(name.len() - 4, name.len() as int) == ".txt"@
}

/// Whether the file name `name` has the extension `txt`.
pub fn is_txt_name(name: &str) -> (r: bool)
    ensures
        r == has_txt_extension(name@),
{
    let n = name.unicode_len();
    if n < 5 {
        return false;
    }
    let tail = name.substring_char(n - 4, n);
    proof {
        reveal_strlit(".txt");
    }
    let t = tail.get_char(0) == '.' && tail.get_char(1) == 't' && tail.get_char(2) == 'x'
        && tail.get_char(3) == 't';
    assert(t ==> tail@ =~= ".txt"@);
    assert(tail@ =~= ".txt"@ ==> t) by {
        if tail@ =~= ".txt"@ {
            assert(tail@[0] == '.');
            assert(tail@[1] == 't');
            assert(tail@[2] == 'x');
            assert(tail@[3] == 't');
        }
    }
    t
}

} // verus!
