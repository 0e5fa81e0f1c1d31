//! One process per state directory.
//!
//! What a process keeps in memory about devices, instances and events is not shared through the
//! state directory, so two processes on one directory would act on different pictures of it.
//! Each takes an exclusive lock on a file in the directory at its start, and gives up at once if
//! another process holds it. The kernel drops the lock when the file is closed.

use vstd::prelude::*;

use crate::text::{cat2, cat3, cat5};

verus! {

/// The name of the lock file in the state directory.
pub const LOCK_FILE_NAME: &'static str = ".oxidhome.lock";

/// The error numbers of this platform that matter to the lock.
#[derive(Debug, Clone, Copy)]
pub struct LockCodes {
    /// A signal interrupted the call.
    pub interrupted: i32,
    /// Another process holds the lock.
    pub would_block: i32,
    /// Another process holds the lock, on the platforms that tell these apart.
    pub again: i32,
}

/// How an attempt to take the lock failed.
#[derive(Debug)]
pub struct LockFailure {
    /// The error number, if there is one.
    pub code: Option<i32>,
    /// What the platform says of the error.
    pub words: String,
}

/// What follows an attempt to take the lock.
#[derive(Debug)]
pub enum LockStep {
    /// The lock is held.
    Held,
    /// Try again.
    Retry,
    /// Give up with these words.
    Refused(String),
}

/// What is said when another process holds the lock.
pub open spec fn contended_text(state_dir: Seq<char>) -> Seq<char> {
    "another `oxidhome` process is already using state dir "@ + state_dir
        + " (set $OXIDHOME_STATE_DIR to a distinct dir, or stop the other process)"@
}

/// What is said when the lock cannot be taken for another reason.
pub open spec fn broken_text(state_dir: Seq<char>, words: Seq<char>) -> Seq<char> {
    "acquiring exclusive lock on state dir "@ + state_dir + " failed: "@ + words
        + " (this filesystem may not support flock — check the state-dir setup)"@
}

/// What follows an attempt to take the lock, with its words as text.
pub enum LockVerdict {
    Held,
    Retry,
    Refused(Seq<char>),
}

impl View for LockStep {
    type V = LockVerdict;

    open spec fn view(&self) -> LockVerdict {
        match *self {
            LockStep::Held => LockVerdict::Held,
            LockStep::Retry => LockVerdict::Retry,
            LockStep::Refused(words) => LockVerdict::Refused(words@),
        }
    }
}

/// What follows an attempt to take the lock. A failure has its number and its words.
pub open spec fn lock_verdict(
    state_dir: Seq<char>,
    failure: Option<(Option<i32>, Seq<char>)>,
    codes: LockCodes,
) -> LockVerdict {
    match failure {
        None => LockVerdict::Held,
        Some((code, words)) => if code == Some(codes.interrupted) {
            LockVerdict::Retry
        } else if code == Some(codes.would_block) || code == Some(codes.again) {
            LockVerdict::Refused(contended_text(state_dir))
        } else {
            LockVerdict::Refused(broken_text(state_dir, words))
        },
    }
}

/// How an attempt failed, if it failed, with its words as text.
pub open spec fn opt_failure(failure: Option<LockFailure>) -> Option<(Option<i32>, Seq<char>)> {
    match failure {
        Some(f) => Some((f.code, f.words@)),
        None => None,
    }
}

/// What follows an attempt to take the lock without waiting. `failure` is `None` when the lock
/// was taken. An interrupted attempt is made again: it says nothing about the lock.
pub fn after_lock_attempt(state_dir: &str, failure: Option<LockFailure>, codes: LockCodes) -> (r:
    LockStep)
    ensures
        r@ == lock_verdict(state_dir@, opt_failure(failure), codes),
{
    let f = match failure {
        None => return LockStep::Held,
        Some(f) => f,
    };
    if let Some(code) = f.code {
        if code == codes.interrupted {
            return LockStep::Retry;
        }
        if code == codes.would_block || code == codes.again {
            return LockStep::Refused(
                cat3(
                    "another `oxidhome` process is already using state dir ",
                    state_dir,
                    " (set $OXIDHOME_STATE_DIR to a distinct dir, or stop the other process)",
                ),
            );
        }
    }
    LockStep::Refused(
        cat5(
            "acquiring exclusive lock on state dir ",
            state_dir,
            " failed: ",
            f.words.as_str(),
            " (this filesystem may not support flock — check the state-dir setup)",
        ),
    )
}

/// What is said when the state directory cannot be created.
pub fn creating_dir_failed(state_dir: &str) -> (r: String)
    ensures
        r@ == "creating state dir "@ + state_dir@ + " before acquiring exclusive lock"@,
{
    cat3("creating state dir ", state_dir, " before acquiring exclusive lock")
}

/// What is said when the lock file cannot be opened.
pub fn opening_file_failed(lock_path: &str) -> (r: String)
    ensures
        r@ == "opening state-dir lock file "@ + lock_path@,
{
    cat2("opening state-dir lock file ", lock_path)
}

/// What is said on a platform that has no such lock: the process does not start there.
pub fn unsupported_platform(state_dir: &str) -> (r: String)
    ensures
        r@ == "exclusive state-dir ownership is currently only enforced on Unix; the `oxidhome` daemon and `mcp-stdio` subprocess are unsupported on this platform (state dir: "@
            + state_dir@ + ")"@,
{
    cat3(
        "exclusive state-dir ownership is currently only enforced on Unix; the `oxidhome` daemon and `mcp-stdio` subprocess are unsupported on this platform (state dir: ",
        state_dir,
        ")",
    )
}

/// How a system answers an attempt that is not interrupted, given the directories whose locks are
/// held: it grants a lock that nobody holds and refuses, without waiting, one that is held.
pub open spec fn system_answer(
    held: Set<Seq<char>>,
    state_dir: Seq<char>,
    codes: LockCodes,
    words: Seq<char>,
) -> Option<(Option<i32>, Seq<char>)> {
    if held.contains(state_dir) {
        Some((Some(codes.would_block), words))
    } else {
        None
    }
}

/// On a system that answers so, a directory has one owner at a time. While a process holds the
/// lock of a directory, another is refused at its first attempt, in words that name the directory,
/// and can still take the lock of another directory; once the lock is dropped it can be taken
/// again.
pub proof fn law_one_owner_per_directory(
    held: Set<Seq<char>>,
    state_dir: Seq<char>,
    other_dir: Seq<char>,
    codes: LockCodes,
    words: Seq<char>,
)
    requires
        !held.contains(state_dir),
        !held.contains(other_dir),
        other_dir != state_dir,
        codes.would_block != codes.interrupted,
    ensures
        ({
            let owned = held.insert(state_dir);
            let dropped = owned.remove(state_dir);
            let first = system_answer(held, state_dir, codes, words);
            let second = system_answer(owned, state_dir, codes, words);
            let elsewhere = system_answer(owned, other_dir, codes, words);
            let later = system_answer(dropped, state_dir, codes, words);
            &&& lock_verdict(state_dir, first, codes) == LockVerdict::Held
            &&& lock_verdict(state_dir, second, codes) == LockVerdict::Refused(
                contended_text(state_dir),
            )
            &&& lock_verdict(other_dir, elsewhere, codes) == LockVerdict::Held
            &&& lock_verdict(state_dir, later, codes) == LockVerdict::Held
        }),
{
}

} // verus!
