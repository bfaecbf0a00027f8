//! The checks the Unix control endpoint makes on names, file-system objects
//! and peers before it trusts them.
use vstd::prelude::*;

use crate::control::ControlError;

verus! {

/// Mode of the private runtime directory.
pub const DIRECTORY_MODE: u32 = 0o700;

/// Mode of the private lock and secret files.
pub const FILE_MODE: u32 = 0o600;

/// Longest internal endpoint suffix, in bytes.
pub const MAX_SUFFIX_BYTES: usize = 32;

/// Longest Unix socket path the platform accepts, in bytes.
pub const MAX_SOCKET_PATH_BYTES: usize = 103;

/// A suffix byte: an ASCII letter or digit, or `-`.
pub open spec fn suffix_byte(b: u8) -> bool {
    (48 <= b <= 57) || (65 <= b <= 90) || (97 <= b <= 122) || b == 45
}

/// Whether an internal endpoint suffix is acceptable: at most
/// `MAX_SUFFIX_BYTES` bytes, each an ASCII letter, digit or `-`.
pub open spec fn valid_suffix_spec(suffix: Seq<u8>) -> bool {
    suffix.len() <= MAX_SUFFIX_BYTES && forall|i: int| 0 <= i < suffix.len() ==> suffix_byte(
        #[trigger] suffix[i],
    )
}

pub fn valid_endpoint_suffix(suffix: &str) -> (r: bool)
    ensures
        r == valid_suffix_spec(vstd::utf8::encode_utf8(suffix@)),
{
    let bytes = suffix.as_bytes();
    if bytes.len() > MAX_SUFFIX_BYTES {
        return false;
    }
    let mut i: usize = 0;
    while i < bytes.len()
        invariant
            0 <= i <= bytes@.len(),
            bytes@ == vstd::utf8::encode_utf8(suffix@),
            forall|j: int| 0 <= j < i ==> suffix_byte(#[trigger] bytes@[j]),
        decreases bytes@.len() - i,
    {
        let b = bytes[i];
        if !((48 <= b && b <= 57) || (65 <= b && b <= 90) || (97 <= b && b <= 122) || b == 45) {
            assert(!suffix_byte(bytes@[i as int]));
            assert(!valid_suffix_spec(bytes@));
            return false;
        }
        i = i + 1;
    }
    true
}

/// The kind of file-system object an endpoint path must name.
#[derive(Clone, Copy, Debug, PartialEq, Eq, Structural)]
pub enum ObjectKind {
    Directory,
    RegularFile,
    Socket,
}

/// What the endpoint reads of an object's metadata.
#[derive(Clone, Copy, Debug, PartialEq, Eq, Structural)]
pub struct ObjectFacts {
    pub is_dir: bool,
    pub is_file: bool,
    pub is_socket: bool,
    pub uid: u32,
    pub mode: u32,
    pub nlink: u64,
}

/// An object is safe when it is of the expected kind, owned by the
/// effective user, has exactly the expected permission bits, and, for a
/// regular file, exactly one link.
pub open spec fn object_is_safe(facts: ObjectFacts, effective_uid: u32, kind: ObjectKind, exact_mode: u32) -> bool {
    let correct_kind = match kind {
        ObjectKind::Directory => facts.is_dir,
        ObjectKind::RegularFile => facts.is_file,
        ObjectKind::Socket => facts.is_socket,
    };
    &&& correct_kind
    &&& facts.uid == effective_uid
    &&& facts.mode % 0o10000 == exact_mode
    &&& (kind == ObjectKind::RegularFile ==> facts.nlink == 1)
}

/// Accepts an existing internal object, or refuses it as a security failure.
pub fn validate_metadata(facts: ObjectFacts, effective_uid: u32, kind: ObjectKind, exact_mode: u32) -> (r:
    Result<(), ControlError>)
    ensures
        object_is_safe(facts, effective_uid, kind, exact_mode) <==> r is Ok,
        r is Err ==> r->Err_0 is Security,
{
    let correct_kind = match kind {
        ObjectKind::Directory => facts.is_dir,
        ObjectKind::RegularFile => facts.is_file,
        ObjectKind::Socket => facts.is_socket,
    };
    let mode = facts.mode;
    let permissions = mode & 0o7777;
    assert(permissions == mode % 0o10000) by (bit_vector)
        requires
            permissions == mode & 0o7777,
    ;
    if !correct_kind || facts.uid != effective_uid || permissions != exact_mode || (kind
        == ObjectKind::RegularFile && facts.nlink != 1) {
        return Err(ControlError::Security("unsafe existing internal IPC object".to_owned()));
    }
    Ok(())
}

/// Where an object lives: its device and inode.
#[derive(Clone, Copy, Debug, PartialEq, Eq, Structural)]
pub struct PathIdentity {
    pub device: u64,
    pub inode: u64,
}

/// Accepts a path only while it still names the object that was opened.
pub fn validate_path_identity(current: PathIdentity, opened: PathIdentity) -> (r: Result<(), ControlError>)
    ensures
        (current == opened) <==> r is Ok,
        r is Err ==> r->Err_0 is Security,
{
    if current == opened {
        Ok(())
    } else {
        Err(ControlError::Security("internal IPC file changed during access".to_owned()))
    }
}

/// Accepts a connected peer only when it runs as the Engine's user.
pub fn require_peer_uid(peer_uid: u32, effective_uid: u32) -> (r: Result<(), ControlError>)
    ensures
        (peer_uid == effective_uid) <==> r is Ok,
        r is Err ==> r->Err_0 is Security,
{
    if peer_uid == effective_uid {
        Ok(())
    } else {
        Err(
            ControlError::Security(
                "Unix control peer UID does not match the Engine user".to_owned(),
            ),
        )
    }
}

/// Accepts a socket path that fits the platform's limit.
pub fn require_socket_path_fits(path_bytes: usize) -> (r: Result<(), ControlError>)
    ensures
        (path_bytes <= MAX_SOCKET_PATH_BYTES) <==> r is Ok,
        r is Err ==> r->Err_0 is Security,
{
    if path_bytes > MAX_SOCKET_PATH_BYTES {
        Err(ControlError::Security("internal socket path exceeds the macOS limit".to_owned()))
    } else {
        Ok(())
    }
}

/// `ERROR_BROKEN_PIPE`.
pub const ERROR_BROKEN_PIPE: u32 = 109;

/// `ERROR_PIPE_BUSY`.
pub const ERROR_PIPE_BUSY: u32 = 231;

/// `ERROR_NO_DATA`.
pub const ERROR_NO_DATA: u32 = 232;

/// `ERROR_PIPE_LISTENING`.
pub const ERROR_PIPE_LISTENING: u32 = 536;

/// What a named-pipe read or write does after the system refused it.
#[derive(Clone, Copy, Debug, PartialEq, Eq, Structural)]
pub enum PipeFailureStep {
    /// Wait a poll interval and try again.
    Retry,
    /// Give up: the deadline has passed.
    TimedOut,
    /// Give up: the other end closed the pipe.
    Closed,
    /// Give up with the system's error.
    Failed,
}

/// The step after a failed pipe operation: a pipe with no data yet, still
/// listening or busy is retried until the deadline; a broken pipe is
/// closed; anything else fails.
pub fn pipe_failure_step(error: u32, deadline_passed: bool) -> (r: PipeFailureStep)
    ensures
        r == if error == ERROR_NO_DATA || error == ERROR_PIPE_LISTENING || error
            == ERROR_PIPE_BUSY {
            if deadline_passed {
                PipeFailureStep::TimedOut
            } else {
                PipeFailureStep::Retry
            }
        } else if error == ERROR_BROKEN_PIPE {
            PipeFailureStep::Closed
        } else {
            PipeFailureStep::Failed
        },
{
    if error == ERROR_NO_DATA || error == ERROR_PIPE_LISTENING || error == ERROR_PIPE_BUSY {
        if deadline_passed {
            PipeFailureStep::TimedOut
        } else {
            PipeFailureStep::Retry
        }
    } else if error == ERROR_BROKEN_PIPE {
        PipeFailureStep::Closed
    } else {
        PipeFailureStep::Failed
    }
}

} // verus!
