//! The per-request pipeline, as a state machine.
//!
//! One request walks: validate the password, open an isolated workspace,
//! store each uploaded `files` part into it, list what was materialized,
//! run the external archiver over the list, read the artifact back, and
//! reply — or fail at any step and reply at once. The machine makes every
//! decision; the unverified shell only performs the returned [`Action`]
//! (an I/O step) and feeds the resulting [`Event`] back into [`Pipeline::step`].
//!
//! The machine never opens a workspace for a blank password, and whenever it
//! finishes it has released the workspace exactly when one was open: the
//! shell that follows the actions leaves nothing behind.

use vstd::prelude::*;

use crate::archive::{archiver_args, archiver_argv, views_of};
use crate::params::{chosen_archive_name, effective_archive_name, effective_file_name,
    file_field, is_file_field, stored_name};
use crate::response::{failure_reply, is_failure_reply, is_success_reply, success_reply,
    Failure, Reply};
use crate::text::{is_blank, lemma_blank_iff_trimmed_empty, trim, trimmed};

verus! {

/// Where in the request the machine stands.
pub enum Phase {
    /// The password has not been examined yet.
    Validating,
    /// The workspace is being created.
    Opening,
    /// The next multipart part is being awaited.
    Awaiting,
    /// The current part's body is being streamed into the workspace.
    Storing,
    /// The workspace contents are being listed.
    Listing,
    /// The archiver process is running.
    Archiving,
    /// The produced archive is being read back.
    Reading,
    /// The reply has been issued; the machine accepts nothing further.
    Finished,
}

/// What the transport reports back after performing an action.
pub enum Event {
    /// The request has been admitted; nothing has been done yet.
    Begin,
    /// The workspace was created.
    WorkspaceOpened,
    /// The workspace could not be created.
    WorkspaceDenied,
    /// The next multipart part arrived, with its field name and its declared
    /// filename, if any.
    PartHeader { field: String, filename: Option<String> },
    /// The current part's body was stored in full.
    PartStored,
    /// The multipart body ended.
    PartsDone,
    /// The multipart body could not be parsed.
    PartMalformed,
    /// The current part's file could not be created or written.
    WriteDenied,
    /// The workspace was listed; `files` are the materialized file names.
    Listed { files: Vec<String> },
    /// The workspace could not be listed.
    ListingDenied,
    /// The archiver process exited; `success` is whether it reported success.
    ArchiverExited { success: bool },
    /// The archiver process could not be started.
    ArchiverDenied,
    /// The artifact was read back; `bytes` is its full content.
    ArtifactRead { bytes: Vec<u8> },
    /// The artifact could not be read.
    ArtifactDenied,
}

/// The single I/O step the transport must perform next.
pub enum Action {
    /// Create the request's workspace.
    OpenWorkspace,
    /// Pull the next multipart part.
    AwaitPart,
    /// Stream the current part's body into the workspace under `name`.
    StoreFile { name: String },
    /// List the files now present in the workspace.
    ListFiles,
    /// Run the archiver with the workspace as working directory and exactly
    /// these arguments.
    RunArchiver { args: Vec<String> },
    /// Read the produced archive `name` from the workspace.
    ReadArtifact { name: String },
    /// Send `reply`; first remove the workspace and everything in it when
    /// `release_workspace` holds. The request is over.
    Respond { reply: Reply, release_workspace: bool },
}

/// The state of one request.
pub struct Pipeline {
    /// Where the machine stands.
    pub phase: Phase,
    /// The caller's password, already trimmed of surrounding whitespace.
    pub password: String,
    /// The archive name, after defaulting.
    pub archive_name: String,
    /// Whether the workspace currently exists.
    pub workspace_open: bool,
}

impl Pipeline {
    /// What holds of the machine between steps. A workspace is only ever
    /// open between validation and the reply, and never for a blank
    /// password.
    pub open spec fn inv(self) -> bool {
        &&& (self.phase is Validating ==> !self.workspace_open)
        &&& (self.phase is Opening ==> !self.workspace_open)
        &&& (self.phase is Awaiting ==> self.workspace_open)
        &&& (self.phase is Storing ==> self.workspace_open)
        &&& (self.phase is Listing ==> self.workspace_open)
        &&& (self.phase is Archiving ==> self.workspace_open)
        &&& (self.phase is Reading ==> self.workspace_open)
        &&& (self.phase is Finished ==> !self.workspace_open)
        &&& (self.phase is Opening || self.phase is Awaiting || self.phase is Storing
            || self.phase is Listing || self.phase is Archiving || self.phase is Reading
            ==> self.password@.len() > 0)
    }

    /// Which events fit the current phase: the answers to the action the
    /// machine last issued.
    pub open spec fn accepts(self, event: Event) -> bool {
        match self.phase {
            Phase::Validating => event is Begin,
            Phase::Opening => event is WorkspaceOpened || event is WorkspaceDenied,
            Phase::Awaiting => event is PartHeader || event is PartsDone
                || event is PartMalformed,
            Phase::Storing => event is PartStored || event is WriteDenied,
            Phase::Listing => event is Listed || event is ListingDenied,
            Phase::Archiving => event is ArchiverExited || event is ArchiverDenied,
            Phase::Reading => event is ArtifactRead || event is ArtifactDenied,
            Phase::Finished => false,
        }
    }
}

/// The terminal transition on failure `f`: the machine finishes, the reply is
/// the fixed one for `f`, and the workspace is released exactly when one was
/// open.
pub open spec fn finishes(pre: Pipeline, post: Pipeline, action: Action, f: Failure) -> bool {
    &&& post.phase is Finished
    &&& !post.workspace_open
    &&& action matches Action::Respond { reply, release_workspace }
        && is_failure_reply(reply, f)
        && release_workspace == pre.workspace_open
}

/// The full transition relation of one step: given the state before and the
/// event, it pins down the state after and the action.
pub open spec fn step_spec(pre: Pipeline, event: Event, post: Pipeline, action: Action) -> bool {
    &&& post.password == pre.password
    &&& post.archive_name == pre.archive_name
    &&& match event {
        Event::Begin => if pre.password@.len() == 0 {
            finishes(pre, post, action, Failure::BlankPassword)
        } else {
            &&& post.phase is Opening
            &&& post.workspace_open == pre.workspace_open
            &&& action is OpenWorkspace
        },
        Event::WorkspaceOpened => {
            &&& post.phase is Awaiting
            &&& post.workspace_open
            &&& action is AwaitPart
        },
        Event::WorkspaceDenied => finishes(pre, post, action, Failure::WorkspaceFailure),
        Event::PartHeader { field, filename } => if is_file_field(field@) {
            &&& post.phase is Storing
            &&& post.workspace_open == pre.workspace_open
            &&& action matches Action::StoreFile { name } && name@ == stored_name(filename)
        } else {
            &&& post.phase is Awaiting
            &&& post.workspace_open == pre.workspace_open
            &&& action is AwaitPart
        },
        Event::PartStored => {
            &&& post.phase is Awaiting
            &&& post.workspace_open == pre.workspace_open
            &&& action is AwaitPart
        },
        Event::PartsDone => {
            &&& post.phase is Listing
            &&& post.workspace_open == pre.workspace_open
            &&& action is ListFiles
        },
        Event::PartMalformed => finishes(pre, post, action, Failure::MalformedUpload),
        Event::WriteDenied => finishes(pre, post, action, Failure::WriteFailure),
        Event::Listed { files } => if files@.len() == 0 {
            finishes(pre, post, action, Failure::NoFiles)
        } else {
            &&& post.phase is Archiving
            &&& post.workspace_open == pre.workspace_open
            &&& action matches Action::RunArchiver { args } && views_of(args@) == archiver_argv(
                pre.password@,
                pre.archive_name@,
                views_of(files@),
            )
        },
        Event::ListingDenied => finishes(pre, post, action, Failure::ListingFailure),
        Event::ArchiverExited { success } => if success {
            &&& post.phase is Reading
            &&& post.workspace_open == pre.workspace_open
            &&& action matches Action::ReadArtifact { name } && name@ == pre.archive_name@
        } else {
            finishes(pre, post, action, Failure::ArchiveFailure)
        },
        Event::ArchiverDenied => finishes(pre, post, action, Failure::ArchiverUnavailable),
        Event::ArtifactRead { bytes } => {
            &&& post.phase is Finished
            &&& !post.workspace_open
            &&& action matches Action::Respond { reply, release_workspace }
                && is_success_reply(reply, pre.archive_name@, bytes@)
                && release_workspace == pre.workspace_open
        },
        Event::ArtifactDenied => finishes(pre, post, action, Failure::ArtifactReadFailure),
    }
}

impl Pipeline {
    /// Starts a request. The password is stored trimmed; the archive name is
    /// defaulted. No workspace exists yet.
    pub fn new(password: &String, zip_filename: &Option<String>) -> (p: Pipeline)
        ensures
            p.inv(),
            p.phase is Validating,
            !p.workspace_open,
            p.password@ == trimmed(password@),
            p.archive_name@ == chosen_archive_name(*zip_filename),
    {
        let t = trim(password.as_str());
        Pipeline {
            phase: Phase::Validating,
            password: t.to_owned(),
            archive_name: effective_archive_name(zip_filename),
            workspace_open: false,
        }
    }

    /// The terminal transition on failure `f`.
    fn finish(&mut self, f: Failure) -> (action: Action)
        ensures
            final(self).password == old(self).password,
            final(self).archive_name == old(self).archive_name,
            finishes(*old(self), *final(self), action, f),
            final(self).inv(),
    {
        let release_workspace = self.workspace_open;
        self.phase = Phase::Finished;
        self.workspace_open = false;
        Action::Respond { reply: failure_reply(f), release_workspace }
    }

    /// Takes one step: consumes the event the transport reported and returns
    /// the next action to perform. `step_spec` pins down both the new state
    /// and the action.
    pub fn step(&mut self, event: Event) -> (action: Action)
        requires
            old(self).inv(),
            old(self).accepts(event),
        ensures
            final(self).inv(),
            step_spec(*old(self), event, *final(self), action),
    {
        match event {
            Event::Begin => {
                if self.password.as_str().is_empty() {
                    self.finish(Failure::BlankPassword)
                } else {
                    self.phase = Phase::Opening;
                    Action::OpenWorkspace
                }
            },
            Event::WorkspaceOpened => {
                self.phase = Phase::Awaiting;
                self.workspace_open = true;
                Action::AwaitPart
            },
            Event::WorkspaceDenied => self.finish(Failure::WorkspaceFailure),
            Event::PartHeader { field, filename } => {
                if file_field(field.as_str()) {
                    self.phase = Phase::Storing;
                    Action::StoreFile { name: effective_file_name(&filename) }
                } else {
                    self.phase = Phase::Awaiting;
                    Action::AwaitPart
                }
            },
            Event::PartStored => {
                self.phase = Phase::Awaiting;
                Action::AwaitPart
            },
            Event::PartsDone => {
                self.phase = Phase::Listing;
                Action::ListFiles
            },
            Event::PartMalformed => self.finish(Failure::MalformedUpload),
            Event::WriteDenied => self.finish(Failure::WriteFailure),
            Event::Listed { files } => {
                if files.len() == 0 {
                    self.finish(Failure::NoFiles)
                } else {
                    self.phase = Phase::Archiving;
                    Action::RunArchiver {
                        args: archiver_args(&self.password, &self.archive_name, &files),
                    }
                }
            },
            Event::ListingDenied => self.finish(Failure::ListingFailure),
            Event::ArchiverExited { success } => {
                if success {
                    self.phase = Phase::Reading;
                    Action::ReadArtifact { name: self.archive_name.clone() }
                } else {
                    self.finish(Failure::ArchiveFailure)
                }
            },
            Event::ArchiverDenied => self.finish(Failure::ArchiverUnavailable),
            Event::ArtifactRead { bytes } => {
                let release_workspace = self.workspace_open;
                self.phase = Phase::Finished;
                self.workspace_open = false;
                Action::Respond { reply: success_reply(&self.archive_name, bytes), release_workspace }
            },
            Event::ArtifactDenied => self.finish(Failure::ArtifactReadFailure),
        }
    }
}

/// A blank password is rejected outright: from a start state built over a
/// password that is empty or whitespace-only, the first step replies 400 at
/// once, no workspace was ever opened, and none is to be released.
pub proof fn lemma_blank_password_rejected(
    raw: Seq<char>,
    pre: Pipeline,
    post: Pipeline,
    action: Action,
)
    requires
        is_blank(raw),
        pre.inv(),
        pre.phase is Validating,
        !pre.workspace_open,
        pre.password@ == trimmed(raw),
        step_spec(pre, Event::Begin, post, action),
    ensures
        post.phase is Finished,
        !post.workspace_open,
        action matches Action::Respond { reply, release_workspace } && reply.status == 400
            && !release_workspace,
{
    lemma_blank_iff_trimmed_empty(raw);
}

/// A password that is not blank is admitted: the first step opens the
/// workspace instead of replying.
pub proof fn lemma_valid_password_admitted(
    raw: Seq<char>,
    pre: Pipeline,
    post: Pipeline,
    action: Action,
)
    requires
        !is_blank(raw),
        pre.inv(),
        pre.phase is Validating,
        pre.password@ == trimmed(raw),
        step_spec(pre, Event::Begin, post, action),
    ensures
        post.phase is Opening,
        action is OpenWorkspace,
{
    lemma_blank_iff_trimmed_empty(raw);
}

/// A request that materialized no files is rejected with 400, and the
/// workspace is released.
pub proof fn lemma_no_files_rejected(
    pre: Pipeline,
    files: Vec<String>,
    post: Pipeline,
    action: Action,
)
    requires
        pre.inv(),
        pre.phase is Listing,
        files@.len() == 0,
        step_spec(pre, Event::Listed { files }, post, action),
    ensures
        post.phase is Finished,
        !post.workspace_open,
        action matches Action::Respond { reply, release_workspace } && reply.status == 400
            && release_workspace,
{
}

/// When files were materialized, the archiver is invoked with exactly the
/// junk-paths flag, the password flag and the trimmed password, the chosen
/// archive name, and the materialized file names in order.
pub proof fn lemma_archiver_invocation(
    pre: Pipeline,
    files: Vec<String>,
    post: Pipeline,
    action: Action,
)
    requires
        pre.inv(),
        pre.phase is Listing,
        files@.len() > 0,
        step_spec(pre, Event::Listed { files }, post, action),
    ensures
        post.phase is Archiving,
        action matches Action::RunArchiver { args } && views_of(args@) == archiver_argv(
            pre.password@,
            pre.archive_name@,
            views_of(files@),
        ),
{
}

/// A successful run replies 200 with the artifact bytes verbatim, the zip
/// content type, and an attachment disposition carrying the archive name —
/// and releases the workspace.
pub proof fn lemma_success_reply(pre: Pipeline, bytes: Vec<u8>, post: Pipeline, action: Action)
    requires
        pre.inv(),
        pre.phase is Reading,
        step_spec(pre, Event::ArtifactRead { bytes }, post, action),
    ensures
        post.phase is Finished,
        !post.workspace_open,
        action matches Action::Respond { reply, release_workspace } && is_success_reply(
            reply,
            pre.archive_name@,
            bytes@,
        ) && release_workspace,
{
}

/// The cleanup guarantee: whatever the step and however the request ends,
/// a finished machine holds no workspace, and the reply action releases the
/// workspace exactly when one was open. A reply is the only way to finish.
pub proof fn lemma_cleanup_on_every_exit(
    pre: Pipeline,
    event: Event,
    post: Pipeline,
    action: Action,
)
    requires
        pre.inv(),
        pre.accepts(event),
        step_spec(pre, event, post, action),
    ensures
        post.phase is Finished ==> !post.workspace_open && (action matches Action::Respond {
            reply,
            release_workspace,
        } && release_workspace == pre.workspace_open),
        action is Respond ==> post.phase is Finished,
{
}

/// A file part that declares no filename, or an empty one, is stored under
/// the fixed placeholder name `file`.
pub proof fn lemma_missing_filename_defaults(
    pre: Pipeline,
    field: String,
    filename: Option<String>,
    post: Pipeline,
    action: Action,
)
    requires
        pre.inv(),
        pre.phase is Awaiting,
        is_file_field(field@),
        filename matches Some(name) ==> name@.len() == 0,
        step_spec(pre, Event::PartHeader { field, filename }, post, action),
    ensures
        post.phase is Storing,
        action matches Action::StoreFile { name } && name@ == "file"@,
{
}

} // verus!
