//! The per-file commit protocol of one sync cycle.
//!
//! Each discovered manifest file is driven through a small state
//! machine: observe the file (base name and the concurrency guard's
//! verdict), read its contents, compress and derive the remote key,
//! upload, and delete on success. All decisions live here; the caller
//! performs the filesystem and network actions the machine asks for and
//! feeds the results back as events. Per-file failures are isolated:
//! every step is total and ends in a terminal outcome.

use vstd::prelude::*;
use crate::codec::{derive_remote_key, spec_remote_key, spec_split};
use crate::compress::{compress_payload, decompressed_of, is_zstd_frame};

verus! {

/// The terminal outcome of one file in one cycle.
#[derive(Clone, Copy, Debug, PartialEq, Eq, Structural)]
pub enum FileOutcome {
    /// The base name was missing or structurally malformed; the file is
    /// left untouched for inspection.
    SkippedUnparsable,
    /// An active writer still owns the file; it is reconsidered next
    /// cycle.
    SkippedInUse,
    /// The file was empty: deleted locally, never uploaded.
    RemovedEmpty,
    /// Uploaded durably, then deleted locally.
    UploadedAndRemoved,
    /// The upload failed; the file is retained unchanged for retry on
    /// a later cycle.
    UploadFailedRetained,
}

/// Where one file stands within its cycle.
pub enum FileState {
    /// Nothing observed yet.
    Start,
    /// The guard cleared the file; its contents are being read.
    AwaitContents { name: String },
    /// The compressed buffer was handed to the uploader.
    AwaitUpload,
    /// Terminal.
    Done { outcome: FileOutcome },
}

/// What the caller reports to the machine.
pub enum FileEvent {
    /// The file was discovered: its base name, if one could be parsed,
    /// and whether the concurrency guard reports it in use.
    Observed { name: Option<String>, in_use: bool },
    /// The file's bytes, as read from disk.
    Contents { bytes: Vec<u8> },
    /// Whether the remote put succeeded.
    UploadResult { ok: bool },
}

/// What the caller must do next. Only these actions touch the file or
/// the network.
pub enum FileAction {
    /// Touch nothing.
    NoAction,
    /// Open the file and read all of its bytes.
    ReadFile,
    /// Durably put `payload` under the remote `key`.
    Upload { key: String, payload: Vec<u8> },
    /// Remove the local file.
    DeleteLocal,
}

/// The step relation of the per-file machine: everything `file_step`
/// promises of its result.
pub open spec fn file_step_rel(s: FileState, e: FileEvent, r: (FileState, FileAction)) -> bool {
    &&& (s matches FileState::Done { outcome } ==> r.0 == FileState::Done { outcome } && r.1 is NoAction)
    &&& (s matches FileState::Start ==> (e matches FileEvent::Observed { name, in_use } ==> {
        if name is None {
            r.0 == FileState::Done { outcome: FileOutcome::SkippedUnparsable } && r.1 is NoAction
        } else if in_use {
            r.0 == FileState::Done { outcome: FileOutcome::SkippedInUse } && r.1 is NoAction
        } else {
            (r.0 matches FileState::AwaitContents { name: n } && n@ == name->0@) && r.1 is ReadFile
        }
    }))
    &&& (s matches FileState::AwaitContents { name } ==> (e matches FileEvent::Contents { bytes }
        ==> {
        if bytes@.len() == 0 {
            r.0 == FileState::Done { outcome: FileOutcome::RemovedEmpty } && r.1 is DeleteLocal
        } else if spec_split(name@).len() < 6 {
            r.0 == FileState::Done { outcome: FileOutcome::SkippedUnparsable } && r.1 is NoAction
        } else {
            &&& r.0 is AwaitUpload
            &&& (r.1 matches FileAction::Upload { key, payload } && key@ == spec_remote_key(
                name@,
            ) && decompressed_of(payload@) == bytes@ && is_zstd_frame(payload@))
        }
    }))
    &&& (s matches FileState::AwaitUpload ==> (e matches FileEvent::UploadResult { ok } ==> {
        if ok {
            r.0 == FileState::Done { outcome: FileOutcome::UploadedAndRemoved }
                && r.1 is DeleteLocal
        } else {
            r.0 == FileState::Done { outcome: FileOutcome::UploadFailedRetained }
                && r.1 is NoAction
        }
    }))
    &&& (s is Start && !(e is Observed) ==> r.0 is Start && r.1 is NoAction)
    &&& (s is AwaitContents && !(e is Contents) ==> r.0 is AwaitContents && r.1 is NoAction)
    &&& (s is AwaitUpload && !(e is UploadResult) ==> r.0 is AwaitUpload && r.1 is NoAction)
}

/// Advances one file by one step. The machine is total: an event that
/// does not belong to the current state changes nothing.
pub fn file_step(state: FileState, event: FileEvent) -> (r: (FileState, FileAction))
    ensures
        file_step_rel(state, event, r),
{
    match (state, event) {
        (FileState::Start, FileEvent::Observed { name, in_use }) => {
            match name {
                Option::None => (
                    FileState::Done { outcome: FileOutcome::SkippedUnparsable },
                    FileAction::NoAction,
                ),
                Option::Some(n) => {
                    if in_use {
                        (
                            FileState::Done { outcome: FileOutcome::SkippedInUse },
                            FileAction::NoAction,
                        )
                    } else {
                        (FileState::AwaitContents { name: n }, FileAction::ReadFile)
                    }
                },
            }
        },
        (FileState::AwaitContents { name }, FileEvent::Contents { bytes }) => {
            if bytes.len() == 0 {
                (FileState::Done { outcome: FileOutcome::RemovedEmpty }, FileAction::DeleteLocal)
            } else {
                match derive_remote_key(name.as_str()) {
                    Option::None => (
                        FileState::Done { outcome: FileOutcome::SkippedUnparsable },
                        FileAction::NoAction,
                    ),
                    Option::Some(key) => {
                        let payload = compress_payload(&bytes);
                        (FileState::AwaitUpload, FileAction::Upload { key, payload })
                    },
                }
            }
        },
        (FileState::AwaitUpload, FileEvent::UploadResult { ok }) => {
            if ok {
                (
                    FileState::Done { outcome: FileOutcome::UploadedAndRemoved },
                    FileAction::DeleteLocal,
                )
            } else {
                (
                    FileState::Done { outcome: FileOutcome::UploadFailedRetained },
                    FileAction::NoAction,
                )
            }
        },
        (s, _) => (s, FileAction::NoAction),
    }
}

/// A file the guard reports in use is never touched during that cycle:
/// observing it ends the file's cycle at once with no action, and a
/// finished file never receives another action, so the machine never
/// asks to read, upload or delete it.
pub proof fn lemma_in_use_never_touched(
    name: Option<String>,
    r: (FileState, FileAction),
    e2: FileEvent,
    r2: (FileState, FileAction),
)
    requires
        (name is Some),
        file_step_rel(
            FileState::Start,
            FileEvent::Observed { name, in_use: true },
            r,
        ),
        file_step_rel(r.0, e2, r2),
    ensures
        (r.0 == FileState::Done { outcome: FileOutcome::SkippedInUse }),
        (r.1 is NoAction),
        r2.0 == r.0,
        (r2.1 is NoAction),
{
}

/// A finished file absorbs every later event: along any chain of steps
/// related by `file_step_rel` that starts from a terminal state, the
/// state never changes and no action is ever requested. With the
/// observation step above, a file reported in use is terminal at once,
/// so it is never read, uploaded or deleted for the rest of its cycle.
pub proof fn lemma_done_absorbs_run(
    outcome: FileOutcome,
    states: Seq<FileState>,
    events: Seq<FileEvent>,
    actions: Seq<FileAction>,
)
    requires
        states.len() == events.len() + 1,
        actions.len() == events.len(),
        (states[0] == FileState::Done { outcome }),
        forall|i: int|
            0 <= i < events.len() ==> file_step_rel(
                states[i],
                events[i],
                (states[i + 1], actions[i]),
            ),
    ensures
        (forall|i: int| 0 <= i < states.len() ==> (#[trigger] states[i]) == FileState::Done { outcome }),
        (forall|i: int| 0 <= i < actions.len() ==> (#[trigger] actions[i]) is NoAction),
    decreases events.len(),
{
    if events.len() > 0 {
        assert(file_step_rel(states[0], events[0], (states[1], actions[0])));
        assert(states[1] == FileState::Done { outcome });
        assert(actions[0] is NoAction);
        let states1 = states.subrange(1, states.len() as int);
        let events1 = events.subrange(1, events.len() as int);
        let actions1 = actions.subrange(1, actions.len() as int);
        assert forall|i: int| 0 <= i < events1.len() implies file_step_rel(
            states1[i],
            events1[i],
            (states1[i + 1], actions1[i]),
        ) by {
            assert(file_step_rel(states[i + 1], events[i + 1], (states[i + 2], actions[i + 1])));
        }
        lemma_done_absorbs_run(outcome, states1, events1, actions1);
        assert forall|i: int|
            0 <= i < states.len() implies (#[trigger] states[i]) == FileState::Done { outcome } by {
            if i > 0 {
                assert(states1[i - 1] == FileState::Done { outcome });
            }
        }
        assert forall|i: int| 0 <= i < actions.len() implies (#[trigger] actions[i]) is NoAction by {
            if i > 0 {
                assert(actions1[i - 1] is NoAction);
            }
        }
    }
}

/// A zero-length manifest is always deleted locally and never produces
/// a remote object: the only action its contents can provoke is the
/// local delete, never an upload.
pub proof fn lemma_empty_deleted_never_uploaded(
    name: String,
    bytes: Vec<u8>,
    r: (FileState, FileAction),
)
    requires
        bytes@.len() == 0,
        file_step_rel(
            FileState::AwaitContents { name },
            FileEvent::Contents { bytes },
            r,
        ),
    ensures
        (r.0 == FileState::Done { outcome: FileOutcome::RemovedEmpty }),
        (r.1 is DeleteLocal),
        (!(r.1 is Upload)),
{
}

/// Retrying a failed upload is idempotent at the remote end: a later
/// cycle that reads the same base name and the same bytes always
/// reaches the upload step, and hands the uploader the same remote key,
/// and a buffer that encodes the same payload, as the failed attempt
/// did.
pub proof fn lemma_retry_uploads_same_object(
    name1: String,
    name2: String,
    bytes1: Vec<u8>,
    bytes2: Vec<u8>,
    r1: (FileState, FileAction),
    r2: (FileState, FileAction),
)
    requires
        name1@ == name2@,
        bytes1@ == bytes2@,
        bytes1@.len() > 0,
        spec_split(name1@).len() >= 6,
        file_step_rel(
            FileState::AwaitContents { name: name1 },
            FileEvent::Contents { bytes: bytes1 },
            r1,
        ),
        file_step_rel(
            FileState::AwaitContents { name: name2 },
            FileEvent::Contents { bytes: bytes2 },
            r2,
        ),
    ensures
        (r1.1 is Upload),
        (r2.1 is Upload),
        (r1.1 matches FileAction::Upload { key: k1, payload: p1 } ==> (r2.1 matches FileAction::Upload { key: k2, payload: p2 } ==> k1@ == k2@ && decompressed_of(p1@) == decompressed_of(p2@))),
{
}

} // verus!
