//! The existence waiter's decisions: resolving the target, choosing the
//! watch root among its ancestors, short-circuiting on a pre-existing file,
//! and recognising the one creation event that ends the wait.
//!
//! The caller establishes the recursive watch *before* checking whether the
//! target already exists, so a creation racing with startup is still seen as
//! an event; the functions here decide, the caller performs the checks and
//! blocks on the stream.

use vstd::prelude::*;

use crate::errors::SetupError;
use crate::event::ChangeEvent;
use crate::path::{AbsPath, ascii_bytes, wf_abs};

verus! {

/// Relies on path_absolutize's `Path::absolutize` for `Path`: on Unix the
/// result is an absolute path whose dot components are parsed away, with
/// single separators and no trailing separator, and a path that already has
/// that form comes back unchanged. An absolute input reads nothing of the
/// environment and cannot fail, so a normalized ASCII input (ASCII being
/// valid UTF-8) is owed its own value back; resolving a relative path reads
/// the current directory, which can fail. Paths that are not UTF-8 are
/// reported as `None` here.
#[verifier::external_body]
fn absolutize_bytes(p: &Vec<u8>) -> (r: Option<Vec<u8>>)
    ensures
        r matches Some(a) ==> wf_abs(a@) && (wf_abs(p@) ==> a@ == p@),
        r is None ==> !(wf_abs(p@) && ascii_bytes(p@)),
{
    let s = match std::str::from_utf8(p.as_slice()) {
        Ok(s) => s,
        Err(_) => return None,
    };
    match path_absolutize::Absolutize::absolutize(std::path::Path::new(s)) {
        Ok(a) => a.to_str().map(|t| t.as_bytes().to_vec()),
        Err(_) => None,
    }
}

/// Resolves the user-given path to its absolute form, without requiring the
/// file to exist. A path that is already normalized and absolute resolves to
/// itself — for an ASCII one that success is guaranteed; failure to resolve
/// is a fatal setup error.
pub fn resolve_target(given: &Vec<u8>) -> (r: Result<AbsPath, SetupError>)
    ensures
        r matches Ok(p) ==> p.wf() && (wf_abs(given@) ==> p@ == given@),
        r matches Err(e) ==> e == SetupError::UnresolvablePath,
        wf_abs(given@) && ascii_bytes(given@) ==> (r matches Ok(p) && p@ == given@),
{
    match absolutize_bytes(given) {
        Some(bytes) => {
            match AbsPath::from_bytes(bytes) {
                Some(p) => Ok(p),
                None => Err(SetupError::UnresolvablePath),
            }
        },
        None => Err(SetupError::UnresolvablePath),
    }
}

/// Picks the watch root: the first ancestor that exists as a directory.
/// `exists` holds, for each ancestor in nearest-first order, whether it is a
/// directory on disk right now. Failing to find one is a fatal setup error
/// (it means even the root was not seen as a directory).
pub fn choose_watch_root(exists: &Vec<bool>) -> (r: Result<usize, SetupError>)
    ensures
        r matches Ok(i) ==> i < exists@.len() && exists@[i as int] && (forall|j: int|
            0 <= j < i ==> !exists@[j]),
        r matches Err(e) ==> e == SetupError::NoExistingAncestor && (forall|j: int|
            0 <= j < exists@.len() ==> !exists@[j]),
{
    let mut i: usize = 0;
    while i < exists.len()
        invariant
            0 <= i <= exists@.len(),
            forall|j: int| 0 <= j < i ==> !exists@[j],
        decreases exists@.len() - i,
    {
        if exists[i] {
            return Ok(i);
        }
        i += 1;
    }
    Err(SetupError::NoExistingAncestor)
}

/// Whether the waiter may return at once: only when pre-existing files are
/// not ignored and the target is already there. With the ignore flag set the
/// waiter always waits for an explicit creation event.
pub fn should_return_immediately(ignore_existing: bool, target_exists: bool) -> (r: bool)
    ensures
        r == (!ignore_existing && target_exists),
{
    !ignore_existing && target_exists
}

/// Whether this event ends the wait: it must announce a creation, and its
/// path must equal the resolved target exactly, byte for byte.
pub fn matches_creation(target: &AbsPath, e: &ChangeEvent) -> (r: bool)
    ensures
        r == e.is_creation_of(target@),
{
    match e {
        ChangeEvent::Created { path } => crate::path::bytes_eq(path, target.as_bytes()),
        _ => false,
    }
}

/// The wait loop over a finite stretch of the event stream: the index of the
/// first event that creates exactly the target, if any event does.
pub fn find_creation(target: &AbsPath, events: &Vec<ChangeEvent>) -> (r: Option<usize>)
    ensures
        r matches Some(i) ==> i < events@.len() && events@[i as int].is_creation_of(target@) && (
        forall|j: int| 0 <= j < i ==> !(#[trigger] events@[j]).is_creation_of(target@)),
        r is None ==> forall|j: int|
            0 <= j < events@.len() ==> !(#[trigger] events@[j]).is_creation_of(target@),
{
    let mut i: usize = 0;
    while i < events.len()
        invariant
            0 <= i <= events@.len(),
            forall|j: int| 0 <= j < i ==> !(#[trigger] events@[j]).is_creation_of(target@),
        decreases events@.len() - i,
    {
        if matches_creation(target, &events[i]) {
            return Some(i);
        }
        i += 1;
    }
    None
}

/// What the polling loop does at each round. Polling replaces the watch
/// entirely: it checks existence, and either returns or yields and sleeps
/// for the configured interval before checking again. The existence check is
/// inherent to the loop, so polling takes no account of the ignore-existing
/// flag: a file present before polling starts always counts as found.
#[derive(Debug, PartialEq, Eq, Structural)]
pub enum PollAction {
    /// The target exists: return successfully.
    Done,
    /// The target is still absent: yield, sleep one interval, check again.
    SleepAndRetry,
}

/// One round of the polling loop: done exactly when the target exists now.
pub fn poll_step(target_exists: bool) -> (r: PollAction)
    ensures
        (r is Done) == target_exists,
{
    if target_exists {
        PollAction::Done
    } else {
        PollAction::SleepAndRetry
    }
}

/// Law: only an exact match on the resolved target path ends the wait. A
/// creation event for any other path — a sibling in the same directory
/// included — does not, and no non-creation event ever does.
pub proof fn lemma_path_exactness(target: Seq<u8>, e: ChangeEvent)
    ensures
        e matches ChangeEvent::Created { path } && path@ == target ==> e.is_creation_of(target),
        e matches ChangeEvent::Created { path } && path@ != target ==> !e.is_creation_of(target),
        !(e is Created) ==> !e.is_creation_of(target),
{
}

} // verus!
