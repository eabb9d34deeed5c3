//! The executable locator: candidate paths in order of preference, the
//! choice among them, the lookup on `PATH`, and the outcome of making the
//! target executable.

use vstd::prelude::*;
use crate::error::{prefixed, XmrError};

verus! {

/// Permission bits set by the fallback: owner read, write and execute;
/// group and others read and execute.
pub const FALLBACK_MODE: u32 = 0o755;

/// Message of the error when no candidate holds the target.
pub open spec fn not_found_message() -> Seq<char> {
    "Could not find XMR executable in any standard location"@
}

/// `part` pushed onto the path `base`: an absolute `part` replaces `base`;
/// a relative one is appended with one separator between them.
pub open spec fn joined(base: Seq<char>, part: Seq<char>) -> Seq<char> {
    if part.len() > 0 && part[0] == '/' {
        part
    } else if base.len() == 0 || base.last() == '/' {
        base + part
    } else {
        base + seq!['/'] + part
    }
}

/// The candidate paths, most preferred first: under the home directory, under
/// the working directory, and the system-wide install location.
pub open spec fn candidates(home: Option<Seq<char>>, cwd: Option<Seq<char>>) -> Seq<Seq<char>> {
    let from_home = match home {
        Some(h) => seq![h + "/xmr/xmr"@],
        None => Seq::<Seq<char>>::empty(),
    };
    let from_cwd = match cwd {
        Some(c) => seq![joined(joined(c, "xmr"@), "xmr"@)],
        None => Seq::<Seq<char>>::empty(),
    };
    from_home + from_cwd + seq!["/usr/local/bin/xmr"@]
}

/// Index of the first `true`, if any.
pub open spec fn first_true(flags: Seq<bool>) -> Option<int> {
    if exists|i: int| 0 <= i < flags.len() && flags[i] {
        Some(choose|i: int| 0 <= i < flags.len() && flags[i] && forall|j: int| 0 <= j < i ==> !flags[j])
    } else {
        None
    }
}

/// `part` pushed onto the path `base`.
pub fn join_path(base: &str, part: &str) -> (r: String)
    ensures
        r@ == joined(base@, part@),
{
    if part.unicode_len() > 0 && part.get_char(0) == '/' {
        return String::from_str(part);
    }
    let n = base.unicode_len();
    let mut r = String::from_str(base);
    if n > 0 && base.get_char(n - 1) != '/' {
        r.append("/");
        proof {
            reveal_strlit("/");
        }
    }
    r.append(part);
    r
}

/// The candidate paths for the target, given the home directory and the
/// working directory where they are known.
pub fn candidate_paths(home: &Option<String>, cwd: &Option<String>) -> (r: Vec<String>)
    ensures
        r.deep_view() == candidates(home.deep_view(), cwd.deep_view()),
{
    let mut r: Vec<String> = Vec::new();
    match home {
        Some(h) => {
            r.push(prefixed(h.as_str(), "/xmr/xmr"));
        },
        None => {},
    }
    match cwd {
        Some(c) => {
            let dir = join_path(c.as_str(), "xmr");
            r.push(join_path(dir.as_str(), "xmr"));
        },
        None => {},
    }
    r.push(String::from_str("/usr/local/bin/xmr"));
    assert(r.deep_view() =~= candidates(home.deep_view(), cwd.deep_view()));
    r
}

/// Index of the first candidate that exists.
pub fn first_existing(exists: &Vec<bool>) -> (r: Option<usize>)
    ensures
        match r {
            Some(i) => i < exists@.len() && exists@[i as int] && forall|j: int|
                0 <= j < i ==> !exists@[j],
            None => forall|j: int| 0 <= j < exists@.len() ==> !exists@[j],
        },
        r matches Some(i) ==> first_true(exists@) == Some(i as int),
        r is None <==> first_true(exists@) is None,
{
    let mut i: usize = 0;
    while i < exists.len()
        invariant
            i <= exists@.len(),
            forall|j: int| 0 <= j < i ==> !exists@[j],
        decreases exists.len() - i,
    {
        if exists[i] {
            let r = Some(i);
            assert(exists@[i as int]);
            proof {
                let k = choose|k: int|
                    0 <= k < exists@.len() && exists@[k] && forall|j: int| 0 <= j < k ==> !exists@[j];
                assert(k == i as int) by {
                    if k < i as int {
                    } else if k > i as int {
                        assert(!exists@[i as int]);
                    }
                }
            }
            return r;
        }
        i += 1;
    }
    None
}

/// What `str::trim` makes of a text.
pub uninterp spec fn trim_of(s: Seq<char>) -> Seq<char>;

/// Relies on `str::trim`: leading and trailing whitespace removed; the result
/// depends on the characters alone.
#[verifier::external_body]
fn trimmed(s: &str) -> (r: String)
    ensures
        r@ == trim_of(s@),
{
    s.trim().to_string()
}

/// A lookup result that names a path: present and not empty.
pub open spec fn usable(lookup: Option<Seq<char>>) -> Option<Seq<char>> {
    match lookup {
        Some(t) => if t.len() > 0 {
            Some(t)
        } else {
            None
        },
        None => None,
    }
}

/// A lookup's output with surrounding whitespace removed.
pub open spec fn trimmed_lookup(stdout: Option<Seq<char>>) -> Option<Seq<char>> {
    match stdout {
        Some(s) => Some(trim_of(s)),
        None => None,
    }
}

/// The candidate that the first existing flag points at.
pub fn choose_target(candidates: &Vec<String>, exists: &Vec<bool>) -> (r: Option<String>)
    requires
        candidates@.len() == exists@.len(),
    ensures
        match first_true(exists@) {
            Some(i) => r matches Some(p) && p@ == candidates@[i]@,
            None => r is None,
        },
{
    match first_existing(exists) {
        Some(i) => Some(candidates[i].clone()),
        None => None,
    }
}

/// The target from an already trimmed `PATH` lookup: the path if it is not
/// empty, else the not-found error. `None` stands for a lookup that did not
/// run, failed, or printed no text.
pub fn target_from_trimmed(lookup: Option<String>) -> (r: Result<String, XmrError>)
    ensures
        match usable(lookup.deep_view()) {
            Some(p) => r matches Ok(q) && q@ == p,
            None => r matches Err(XmrError::EnvError(m)) && m@ == not_found_message(),
        },
{
    match lookup {
        Some(t) => {
            if t.as_str().unicode_len() > 0 {
                Ok(t)
            } else {
                Err(XmrError::EnvError(String::from_str("Could not find XMR executable in any standard location")))
            }
        },
        None => Err(XmrError::EnvError(String::from_str("Could not find XMR executable in any standard location"))),
    }
}

/// The target from the raw output of a `PATH` lookup, trimmed of whitespace.
pub fn target_from_lookup(stdout: Option<String>) -> (r: Result<String, XmrError>)
    ensures
        match usable(trimmed_lookup(stdout.deep_view())) {
            Some(p) => r matches Ok(q) && q@ == p,
            None => r matches Err(XmrError::EnvError(m)) && m@ == not_found_message(),
        },
{
    match stdout {
        Some(s) => target_from_trimmed(Some(trimmed(s.as_str()))),
        None => target_from_trimmed(None),
    }
}

/// Why the fallback of the permission step failed, with the system's text.
pub enum FallbackFailure {
    Metadata(String),
    SetPermissions(String),
}

/// The mode to apply by hand after the make-executable command: none when
/// the command succeeded, else the fallback mode.
pub open spec fn fallback_mode_spec(chmod_succeeded: bool) -> Option<u32> {
    if chmod_succeeded {
        None
    } else {
        Some(FALLBACK_MODE)
    }
}

/// Outcome of the permission step, given the make-executable command's
/// success and, where it failed, the fallback's outcome (`None`: the platform
/// has no permission bits to set).
pub open spec fn permission_outcome(
    chmod_succeeded: bool,
    fallback: Option<Result<(), FallbackFailure>>,
) -> Option<Seq<char>> {
    if chmod_succeeded {
        None
    } else {
        match fallback {
            Some(Err(FallbackFailure::Metadata(e))) => Some("Failed to get file metadata: "@ + e@),
            Some(Err(FallbackFailure::SetPermissions(e))) => Some("Failed to set permissions: "@ + e@),
            _ => None,
        }
    }
}

/// The mode to set by hand once the make-executable command has run.
pub fn fallback_mode(chmod_succeeded: bool) -> (r: Option<u32>)
    ensures
        r == fallback_mode_spec(chmod_succeeded),
{
    if chmod_succeeded {
        None
    } else {
        Some(FALLBACK_MODE)
    }
}

/// Result of the permission step: success unless both mechanisms failed, in
/// which case a permission error carries the fallback's failure.
pub fn permission_result(
    chmod_succeeded: bool,
    fallback: Option<Result<(), FallbackFailure>>,
) -> (r: Result<(), XmrError>)
    ensures
        match permission_outcome(chmod_succeeded, fallback) {
            None => r is Ok,
            Some(m) => r matches Err(XmrError::PermissionError(e)) && e@ == m,
        },
{
    if chmod_succeeded {
        return Ok(());
    }
    match fallback {
        Some(Err(FallbackFailure::Metadata(e))) => Err(
            XmrError::PermissionError(prefixed("Failed to get file metadata: ", e.as_str())),
        ),
        Some(Err(FallbackFailure::SetPermissions(e))) => Err(
            XmrError::PermissionError(prefixed("Failed to set permissions: ", e.as_str())),
        ),
        _ => Ok(()),
    }
}

/// The permission step is idempotent on a file that is already executable:
/// there the make-executable command succeeds, so each call, the first and
/// any repeat alike, sets no mode by hand and reports success. Where the
/// fallback did run, a repeat asks for the very same mode again.
pub proof fn lemma_permission_fix_idempotent(
    first: Option<Result<(), FallbackFailure>>,
    second: Option<Result<(), FallbackFailure>>,
)
    ensures
        fallback_mode_spec(true) is None,
        permission_outcome(true, first) is None,
        permission_outcome(true, second) is None,
        fallback_mode_spec(false) == Some(FALLBACK_MODE),
{
}

} // verus!
