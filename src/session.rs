use vstd::prelude::*;

use crate::outcome::{
    conflict_message, preview_error_message, save_preview_err_case, success_message,
    wrong_filename_message, SaveOutcome, StatusCode,
};
use crate::preview::{preview_image, render_preview, PREVIEW_SIDE};

verus! {

/// Why the filesystem refused to create a file.
#[derive(Clone, Copy, Debug, PartialEq, Eq, Structural)]
pub enum FsErrorKind {
    NotFound,
    AlreadyExists,
    /// The path cannot name a file (an illegal name, or a directory).
    InvalidName,
    PermissionDenied,
    Other,
}

/// A failed file creation: its kind and the platform's text for it.
#[derive(Clone, Debug)]
pub struct WriteError {
    pub kind: FsErrorKind,
    pub text: String,
}

/// What the caller reports back after carrying out an action.
pub enum SaveEvent {
    /// Whether an entry exists at the target path.
    Existence(bool),
    /// The result of creating the target file and writing the content.
    Created(Result<(), WriteError>),
    /// The result of writing the preview file; on failure, the error's text.
    PreviewWritten(Result<(), String>),
}

/// What the caller is asked to do next.
pub enum SaveAction {
    /// Report whether a filesystem entry exists at `path`.
    CheckExists { path: String },
    /// Create a new file at `path` and write the content into it.
    CreateFile { path: String },
    /// Write `image`, the encoded preview, to `path`.
    WritePreview { path: String, image: Vec<u8> },
    /// The save is over; answer with this outcome.
    Respond(SaveOutcome),
}

#[derive(Clone, Copy, Debug, PartialEq, Eq, Structural)]
pub enum SaveStage {
    Checking,
    Writing,
    Previewing,
    Finished,
}

/// One save of `content` as `directory/filename`, driven step by step.
pub struct SaveSession {
    pub directory: String,
    pub filename: String,
    pub content: Vec<u8>,
    pub stage: SaveStage,
}

/// Where an upload is stored: `directory/filename`.
pub open spec fn target_path(directory: Seq<char>, filename: Seq<char>) -> Seq<char> {
    directory + "/"@ + filename
}

/// Where its preview is stored: `directory/previews/filename`.
pub open spec fn preview_path(directory: Seq<char>, filename: Seq<char>) -> Seq<char> {
    directory + "/previews/"@ + filename
}

/// The existence check stops the save with a conflict only for a non-empty
/// name whose path is taken.
pub open spec fn existence_verdict(name: Seq<char>, exists: bool) -> Option<(StatusCode, Seq<char>)> {
    if exists && name.len() > 0 {
        Some((StatusCode::Conflict, conflict_message(name)))
    } else {
        None
    }
}

/// A failed creation: an invalid name is the caller's fault, anything else
/// is reported with the platform's text.
pub open spec fn write_failure(name: Seq<char>, kind: FsErrorKind, text: Seq<char>) -> (StatusCode, Seq<char>) {
    if kind == FsErrorKind::InvalidName {
        (StatusCode::BadRequest, wrong_filename_message(name))
    } else {
        (StatusCode::InternalError, text)
    }
}

/// The outcome once the preview was written, or failed with `reason`.
pub open spec fn preview_verdict(name: Seq<char>, written: Result<(), Seq<char>>) -> (StatusCode, Seq<char>) {
    match written {
        Ok(_) => (StatusCode::Success, success_message()),
        Err(reason) => (StatusCode::InternalError, preview_error_message(name, reason)),
    }
}

pub open spec fn accepts(stage: SaveStage, event: &SaveEvent) -> bool {
    match event {
        SaveEvent::Existence(_) => stage == SaveStage::Checking,
        SaveEvent::Created(_) => stage == SaveStage::Writing,
        SaveEvent::PreviewWritten(_) => stage == SaveStage::Previewing,
    }
}

pub open spec fn responds(a: &SaveAction, o: (StatusCode, Seq<char>)) -> bool {
    match a {
        SaveAction::Respond(r) => r@ == o,
        _ => false,
    }
}

pub open spec fn written_view(r: Result<(), String>) -> Result<(), Seq<char>> {
    match r {
        Ok(_) => Ok(()),
        Err(t) => Err(t@),
    }
}

/// How one step relates the session before, the event, the session after and
/// the action asked for.
pub open spec fn step_post(s: &SaveSession, e: &SaveEvent, s2: &SaveSession, a: &SaveAction) -> bool {
    let name = s.filename@;
    &&& s2.directory@ == s.directory@
    &&& s2.filename@ == name
    &&& s2.content@ == s.content@
    &&& match e {
        SaveEvent::Existence(exists) => match existence_verdict(name, *exists) {
            Some(o) => s2.stage == SaveStage::Finished && responds(a, o),
            None => s2.stage == SaveStage::Writing && match a {
                SaveAction::CreateFile { path } => path@ == target_path(s.directory@, name),
                _ => false,
            },
        },
        SaveEvent::Created(Err(err)) => s2.stage == SaveStage::Finished && responds(
            a,
            write_failure(name, err.kind, err.text@),
        ),
        SaveEvent::Created(Ok(_)) => match preview_image(
            s.content@,
            target_path(s.directory@, name),
            preview_path(s.directory@, name),
            PREVIEW_SIDE,
        ) {
            Some(bytes) => s2.stage == SaveStage::Previewing && match a {
                SaveAction::WritePreview { path, image } => path@ == preview_path(s.directory@, name)
                    && image@ == bytes,
                _ => false,
            },
            None => s2.stage == SaveStage::Finished && exists|reason: Seq<char>|
                responds(a, preview_verdict(name, Err(reason))),
        },
        SaveEvent::PreviewWritten(w) => s2.stage == SaveStage::Finished && responds(
            a,
            preview_verdict(name, written_view(*w)),
        ),
    }
}

fn join_path(directory: &str, sep: &str, filename: &str) -> (r: String)
    ensures
        r@ == directory@ + sep@ + filename@,
{
    String::from_str(directory).concat(sep).concat(filename)
}

/// The conflict that ends a save, if the existence check found one. An empty
/// name never conflicts: its save goes on to the write, which the filesystem
/// refuses.
pub fn check_conflict(filename: &str, exists: bool) -> (r: Option<SaveOutcome>)
    ensures
        match r {
            Some(o) => existence_verdict(filename@, exists) == Some(o@),
            None => existence_verdict(filename@, exists) is None,
        },
{
    if exists && filename.unicode_len() > 0 {
        Some(SaveOutcome::conflict(filename))
    } else {
        None
    }
}

/// The outcome of a failed creation of the target file.
pub fn classify_write_error(filename: &str, err: WriteError) -> (r: SaveOutcome)
    ensures
        r@ == write_failure(filename@, err.kind, err.text@),
{
    match err.kind {
        FsErrorKind::InvalidName => SaveOutcome::wrong_filename(filename),
        _ => SaveOutcome::internal(err.text),
    }
}

/// The outcome once the preview was written, or failed to be.
pub fn preview_outcome(filename: &str, written: Result<(), String>) -> (r: SaveOutcome)
    ensures
        r@ == preview_verdict(filename@, written_view(written)),
{
    match written {
        Ok(_) => SaveOutcome::success(),
        Err(reason) => save_preview_err_case(String::from_str(filename), reason),
    }
}

impl SaveSession {
    /// Starts the save of `content` as `directory/filename`: the first action
    /// is the existence check of the target path.
    pub fn new(directory: String, filename: String, content: Vec<u8>) -> (r: (SaveSession, SaveAction))
        ensures
            r.0.directory@ == directory@,
            r.0.filename@ == filename@,
            r.0.content@ == content@,
            r.0.stage == SaveStage::Checking,
            match r.1 {
                SaveAction::CheckExists { path } => path@ == target_path(directory@, filename@),
                _ => false,
            },
    {
        let path = join_path(directory.as_str(), "/", filename.as_str());
        (SaveSession { directory, filename, content, stage: SaveStage::Checking }, SaveAction::CheckExists { path })
    }

    /// Takes the result of the last action and decides the next one.
    pub fn step(&mut self, event: SaveEvent) -> (a: SaveAction)
        requires
            accepts(old(self).stage, &event),
        ensures
            step_post(old(self), &event, final(self), &a),
    {
        match event {
            SaveEvent::Existence(exists) => {
                match check_conflict(self.filename.as_str(), exists) {
                    Some(o) => {
                        self.stage = SaveStage::Finished;
                        SaveAction::Respond(o)
                    },
                    None => {
                        self.stage = SaveStage::Writing;
                        let path = join_path(self.directory.as_str(), "/", self.filename.as_str());
                        SaveAction::CreateFile { path }
                    },
                }
            },
            SaveEvent::Created(Err(err)) => {
                self.stage = SaveStage::Finished;
                SaveAction::Respond(classify_write_error(self.filename.as_str(), err))
            },
            SaveEvent::Created(Ok(_)) => {
                let source = join_path(self.directory.as_str(), "/", self.filename.as_str());
                let target = join_path(self.directory.as_str(), "/previews/", self.filename.as_str());
                match render_preview(source.as_str(), target.as_str(), self.content.as_slice()) {
                    Ok(image) => {
                        self.stage = SaveStage::Previewing;
                        SaveAction::WritePreview { path: target, image }
                    },
                    Err(reason) => {
                        self.stage = SaveStage::Finished;
                        let ghost r = reason@;
                        let o = preview_outcome(self.filename.as_str(), Err(reason));
                        assert(responds(&SaveAction::Respond(o), preview_verdict(self.filename@, Err(r))));
                        SaveAction::Respond(o)
                    },
                }
            },
            SaveEvent::PreviewWritten(w) => {
                self.stage = SaveStage::Finished;
                SaveAction::Respond(preview_outcome(self.filename.as_str(), w))
            },
        }
    }
}

/// A save of a non-empty name whose target path is already taken ends at the
/// existence check with `(Conflict, "<name>: file already exists")`, whatever
/// the content: saving the same name twice conflicts the second time.
pub proof fn lemma_taken_name_conflicts(s: &SaveSession, e: &SaveEvent, s2: &SaveSession, a: &SaveAction)
    requires
        s.filename@.len() > 0,
        *e == SaveEvent::Existence(true),
        step_post(s, e, s2, a),
    ensures
        s2.stage == SaveStage::Finished,
        responds(a, (StatusCode::Conflict, conflict_message(s.filename@))),
{
}

/// A save answers `Success` only on the step that follows the preview's
/// write, and a preview is asked for only once the target file was created:
/// a save that succeeded created `directory/filename`, so the next save of
/// that name finds it taken.
pub proof fn lemma_success_follows_creation(s: &SaveSession, e: &SaveEvent, s2: &SaveSession, a: &SaveAction)
    requires
        accepts(s.stage, e),
        step_post(s, e, s2, a),
    ensures
        (a matches SaveAction::Respond(o) && o.status == StatusCode::Success) ==> (s.stage
            == SaveStage::Previewing && e matches SaveEvent::PreviewWritten(Ok(_))),
        s2.stage == SaveStage::Previewing ==> (s.stage == SaveStage::Writing && e matches SaveEvent::Created(
            Ok(_),
        )),
{
}

/// A save of the empty name never answers `Conflict`: it goes on to the
/// write, and only the filesystem's answer decides the outcome.
pub proof fn lemma_empty_name_never_conflicts(s: &SaveSession, e: &SaveEvent, s2: &SaveSession, a: &SaveAction)
    requires
        s.filename@.len() == 0,
        step_post(s, e, s2, a),
    ensures
        !(a matches SaveAction::Respond(o) && o.status == StatusCode::Conflict),
        (e matches SaveEvent::Existence(_)) ==> (s2.stage == SaveStage::Writing && a is CreateFile),
{
}

/// When the target file could not be created, the save ends at once: no
/// preview is rendered or written.
pub proof fn lemma_failed_write_skips_preview(s: &SaveSession, e: &SaveEvent, s2: &SaveSession, a: &SaveAction)
    requires
        e matches SaveEvent::Created(Err(_)),
        step_post(s, e, s2, a),
    ensures
        s2.stage == SaveStage::Finished,
        a is Respond,
        !(a is WritePreview),
{
}

/// A first save of a free, non-empty name succeeds when its content renders a
/// preview and both files are written: the save asks to create
/// `directory/filename`, then to write the rendered preview to
/// `directory/previews/filename`, and answers `(Success, "successfully")`.
pub proof fn lemma_first_save_succeeds(
    s0: &SaveSession,
    s1: &SaveSession,
    a1: &SaveAction,
    s2: &SaveSession,
    a2: &SaveAction,
    s3: &SaveSession,
    a3: &SaveAction,
)
    requires
        s0.filename@.len() > 0,
        preview_image(
            s0.content@,
            target_path(s0.directory@, s0.filename@),
            preview_path(s0.directory@, s0.filename@),
            PREVIEW_SIDE,
        ) is Some,
        step_post(s0, &SaveEvent::Existence(false), s1, a1),
        step_post(s1, &SaveEvent::Created(Ok(())), s2, a2),
        step_post(s2, &SaveEvent::PreviewWritten(Ok(())), s3, a3),
    ensures
        a1 matches SaveAction::CreateFile { path } && path@ == target_path(s0.directory@, s0.filename@),
        a2 matches SaveAction::WritePreview { path, image } && path@ == preview_path(s0.directory@, s0.filename@)
            && Some(image@) == preview_image(
            s0.content@,
            target_path(s0.directory@, s0.filename@),
            preview_path(s0.directory@, s0.filename@),
            PREVIEW_SIDE,
        ),
        s3.stage == SaveStage::Finished,
        responds(a3, (StatusCode::Success, success_message())),
{
}

} // verus!
