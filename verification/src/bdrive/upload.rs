//! The upload orchestrator.
//!
//! An upload is a pipeline of five steps that each wait for something the
//! engine cannot do itself: fingerprinting the content, asking the metadata
//! store, sending the file, writing the record, and, where writing the record
//! failed, deleting what was sent. Each step is a value of its own type. It
//! says what it is waiting for, takes the answer, and gives either the next
//! step or the outcome of the upload. A step can only be reached through the
//! step before it: no record is written for a file that was not sent.

use vstd::prelude::*;
use vstd::string::StringExecFns;
use crate::db::{StoreError, StoreErrorView};
use crate::db::file::{RemoteFile, RemoteFileView};
use crate::fs::file::{
    classified, Classification, ClassificationView, File, FileView, IOError, IOErrorView,
    ToRemoteFile,
};
use crate::fs::state::{
    Diff, DiffView, Identity, IdentityView, Local, LocalHashed, Remote, Sync,
};
use crate::ssh::{SSHError, SSHErrorView};

verus! {

/// The caller's policy for a file whose two sides differ. By default
/// nothing on the remote side is replaced.
#[derive(Clone, Copy, Debug)]
pub struct UploadOptions {
    /// Replace the remote content with the local one.
    pub overwrite: bool,
    /// Where nothing may be replaced, ask for a confirmation instead of refusing.
    pub confirm: bool,
}

impl Default for UploadOptions {
    fn default() -> (options: Self)
        ensures
            !options.overwrite,
            !options.confirm,
    {
        UploadOptions { overwrite: false, confirm: false }
    }
}

pub struct UploadOptionsBuilder {
    inner: UploadOptions,
}

impl UploadOptions {
    pub fn builder() -> (builder: UploadOptionsBuilder)
        ensures
            builder@ == (UploadOptions { overwrite: false, confirm: false }),
    {
        UploadOptionsBuilder { inner: UploadOptions { overwrite: false, confirm: false } }
    }
}

impl View for UploadOptionsBuilder {
    type V = UploadOptions;

    closed spec fn view(&self) -> UploadOptions {
        self.inner
    }
}

impl UploadOptionsBuilder {
    pub fn overwrite(self, overwrite: bool) -> (builder: UploadOptionsBuilder)
        ensures
            builder@ == (UploadOptions { overwrite, confirm: self@.confirm }),
    {
        UploadOptionsBuilder { inner: UploadOptions { overwrite, confirm: self.inner.confirm } }
    }

    pub fn confirm(self, confirm: bool) -> (builder: UploadOptionsBuilder)
        ensures
            builder@ == (UploadOptions { overwrite: self@.overwrite, confirm }),
    {
        UploadOptionsBuilder { inner: UploadOptions { overwrite: self.inner.overwrite, confirm } }
    }

    pub fn build(self) -> (options: UploadOptions)
        ensures
            options == self@,
    {
        self.inner
    }
}

/// What became of the remote content after its record could not be written.
#[derive(Debug)]
pub enum Cleanup {
    /// Nothing had been sent, so there was nothing to delete.
    NotNeeded,
    /// The content that had been sent was deleted again.
    Cleaned,
    /// Deleting it failed too: the remote side holds content that no record knows of.
    Orphaned(SSHError),
}

pub enum CleanupView {
    NotNeeded,
    Cleaned,
    Orphaned(SSHErrorView),
}

impl View for Cleanup {
    type V = CleanupView;

    open spec fn view(&self) -> CleanupView {
        match self {
            Cleanup::NotNeeded => CleanupView::NotNeeded,
            Cleanup::Cleaned => CleanupView::Cleaned,
            Cleanup::Orphaned(e) => CleanupView::Orphaned(e@),
        }
    }
}

/// How an upload ended.
#[derive(Debug)]
pub enum UploadOutcome {
    /// The store records the identity of the local content.
    Synced(File<Sync>),
    /// The two sides differ and the caller has to confirm before anything is replaced.
    ConfirmationNeeded(File<Diff>),
    /// The two sides differ and nothing may be replaced.
    OverwriteRefused(File<LocalHashed>, File<Remote>),
    /// The local content could not be read.
    ReadFailed(File<Local>, IOError),
    /// The content could not be sent. No record was touched.
    TransferFailed(File<LocalHashed>, SSHError),
    /// The store failed, with what became of any content sent before.
    MetadataFailed(File<LocalHashed>, StoreError, Cleanup),
}

pub enum UploadOutcomeView {
    Synced(FileView<IdentityView>),
    ConfirmationNeeded(FileView<DiffView>),
    OverwriteRefused(FileView<IdentityView>, FileView<IdentityView>),
    ReadFailed(FileView<()>, IOErrorView),
    TransferFailed(FileView<IdentityView>, SSHErrorView),
    MetadataFailed(FileView<IdentityView>, StoreErrorView, CleanupView),
}

impl View for UploadOutcome {
    type V = UploadOutcomeView;

    open spec fn view(&self) -> UploadOutcomeView {
        match self {
            UploadOutcome::Synced(file) => UploadOutcomeView::Synced(file@),
            UploadOutcome::ConfirmationNeeded(file) => UploadOutcomeView::ConfirmationNeeded(file@),
            UploadOutcome::OverwriteRefused(local, remote) => UploadOutcomeView::OverwriteRefused(
                local@,
                remote@,
            ),
            UploadOutcome::ReadFailed(file, e) => UploadOutcomeView::ReadFailed(file@, e@),
            UploadOutcome::TransferFailed(file, e) => UploadOutcomeView::TransferFailed(file@, e@),
            UploadOutcome::MetadataFailed(file, e, cleanup) => UploadOutcomeView::MetadataFailed(
                file@,
                e@,
                cleanup@,
            ),
        }
    }
}

/// An upload that did not end in a synchronised file.
#[derive(Debug)]
pub enum UploadError {
    OverwriteError(File<LocalHashed>, File<Remote>),
    SSHError(File<LocalHashed>, SSHError),
    MongoDBError(File<LocalHashed>, StoreError, Cleanup),
    ConfirmationNeeded(File<Diff>),
    IOError(File<Local>, IOError),
}

/// Exit status of a run that synchronised what it was asked to.
pub const EXIT_SUCCESS: i32 = 0;

/// Exit status of a run that was given a path outside the sandbox.
pub const EXIT_SANDBOX: i32 = 2;

/// Exit status of a run whose transfer failed.
pub const EXIT_TRANSFER: i32 = 3;

/// Exit status of a run that the metadata store failed.
pub const EXIT_METADATA: i32 = 4;

/// Exit status of a run that met a conflict the caller has to decide.
pub const EXIT_CONFLICT: i32 = 5;

/// Exit status of a run that could not read its local content.
pub const EXIT_READ: i32 = 6;

impl UploadOutcome {
    /// The exit status that tells this outcome from the others.
    pub fn exit_status(&self) -> (status: i32)
        ensures
            status == match self {
                UploadOutcome::Synced(_) => EXIT_SUCCESS,
                UploadOutcome::ConfirmationNeeded(_) => EXIT_CONFLICT,
                UploadOutcome::OverwriteRefused(_, _) => EXIT_CONFLICT,
                UploadOutcome::ReadFailed(_, _) => EXIT_READ,
                UploadOutcome::TransferFailed(_, _) => EXIT_TRANSFER,
                UploadOutcome::MetadataFailed(_, _, _) => EXIT_METADATA,
            },
    {
        match self {
            UploadOutcome::Synced(_) => EXIT_SUCCESS,
            UploadOutcome::ConfirmationNeeded(_) => EXIT_CONFLICT,
            UploadOutcome::OverwriteRefused(_, _) => EXIT_CONFLICT,
            UploadOutcome::ReadFailed(_, _) => EXIT_READ,
            UploadOutcome::TransferFailed(_, _) => EXIT_TRANSFER,
            UploadOutcome::MetadataFailed(_, _, _) => EXIT_METADATA,
        }
    }

    /// Whether the upload ended without mutation because the caller's policy
    /// has to decide first. A conflict is not a failure.
    pub fn is_conflict(&self) -> (yes: bool)
        ensures
            yes == (self is ConfirmationNeeded || self is OverwriteRefused),
    {
        match self {
            UploadOutcome::ConfirmationNeeded(_) => true,
            UploadOutcome::OverwriteRefused(_, _) => true,
            _ => false,
        }
    }

    /// The outcome as success or error.
    pub fn into_result(self) -> (result: Result<File<Sync>, UploadError>)
        ensures
            match self {
                UploadOutcome::Synced(file) => result == Ok::<File<Sync>, UploadError>(file),
                UploadOutcome::ConfirmationNeeded(file) => result == Err::<
                    File<Sync>,
                    UploadError,
                >(UploadError::ConfirmationNeeded(file)),
                UploadOutcome::OverwriteRefused(local, remote) => result == Err::<
                    File<Sync>,
                    UploadError,
                >(UploadError::OverwriteError(local, remote)),
                UploadOutcome::ReadFailed(file, e) => result == Err::<File<Sync>, UploadError>(
                    UploadError::IOError(file, e),
                ),
                UploadOutcome::TransferFailed(file, e) => result == Err::<File<Sync>, UploadError>(
                    UploadError::SSHError(file, e),
                ),
                UploadOutcome::MetadataFailed(file, e, cleanup) => result == Err::<
                    File<Sync>,
                    UploadError,
                >(UploadError::MongoDBError(file, e, cleanup)),
            },
    {
        match self {
            UploadOutcome::Synced(file) => Ok(file),
            UploadOutcome::ConfirmationNeeded(file) => Err(UploadError::ConfirmationNeeded(file)),
            UploadOutcome::OverwriteRefused(local, remote) => Err(
                UploadError::OverwriteError(local, remote),
            ),
            UploadOutcome::ReadFailed(file, e) => Err(UploadError::IOError(file, e)),
            UploadOutcome::TransferFailed(file, e) => Err(UploadError::SSHError(file, e)),
            UploadOutcome::MetadataFailed(file, e, cleanup) => Err(
                UploadError::MongoDBError(file, e, cleanup),
            ),
        }
    }
}

/// What a step of an upload is waiting for.
#[derive(Debug)]
pub enum UploadRequest {
    /// Read the file under this path, relative to the local root, and
    /// fingerprint all of its content.
    Hash(String),
    /// Look up the record the metadata store holds for this path.
    Find(String),
    /// Send the file under the first path to the remote path; the number is
    /// the size of its content in bytes.
    Send(String, String, u64),
    /// Create this record in the metadata store.
    Insert(RemoteFile),
    /// Set the identity of the record with this path to this one, provided
    /// the record still holds the identity given second. A record that holds
    /// another identity by now was written by someone else in the meantime
    /// and must not be overwritten: the request then fails.
    Update(RemoteFile, Identity),
    /// Delete the remote file under this path.
    Delete(String),
}

pub enum UploadRequestView {
    Hash(Seq<char>),
    Find(Seq<char>),
    Send(Seq<char>, Seq<char>, nat),
    Insert(RemoteFileView),
    Update(RemoteFileView, IdentityView),
    Delete(Seq<char>),
}

impl View for UploadRequest {
    type V = UploadRequestView;

    open spec fn view(&self) -> UploadRequestView {
        match self {
            UploadRequest::Hash(path) => UploadRequestView::Hash(path@),
            UploadRequest::Find(path) => UploadRequestView::Find(path@),
            UploadRequest::Send(path, remote, size) => UploadRequestView::Send(
                path@,
                remote@,
                *size as nat,
            ),
            UploadRequest::Insert(record) => UploadRequestView::Insert(record@),
            UploadRequest::Update(record, expected) => UploadRequestView::Update(
                record@,
                expected@,
            ),
            UploadRequest::Delete(remote) => UploadRequestView::Delete(remote@),
        }
    }
}

impl UploadRequestView {
    /// Whether the request changes the metadata store.
    pub open spec fn writes_metadata(self) -> bool {
        self is Insert || self is Update
    }

    /// Whether the request changes anything outside the engine.
    pub open spec fn mutates(self) -> bool {
        self.writes_metadata() || self is Send || self is Delete
    }
}

/// Where an answer leads: to the next step, or to the end of the upload.
#[derive(Debug)]
pub enum Step<N> {
    Next(N),
    Done(UploadOutcome),
}

pub enum StepView<V> {
    Next(V),
    Done(UploadOutcomeView),
}

impl<N: View> View for Step<N> {
    type V = StepView<N::V>;

    open spec fn view(&self) -> StepView<N::V> {
        match self {
            Step::Next(next) => StepView::Next(next@),
            Step::Done(outcome) => StepView::Done(outcome@),
        }
    }
}

/// First step: the content is being fingerprinted.
#[derive(Debug)]
pub struct Hashing {
    file: File<Local>,
    options: UploadOptions,
    remote: String,
}

/// Second step: the metadata store is being asked for the path's record.
#[derive(Debug)]
pub struct Finding {
    file: File<LocalHashed>,
    options: UploadOptions,
    remote: String,
}

/// Third step: the content is being sent.
#[derive(Debug)]
pub struct Sending {
    file: File<LocalHashed>,
    replaces: Option<Identity>,
    remote: String,
}

/// Fourth step: the record is being written, the content having arrived.
#[derive(Debug)]
pub struct Recording {
    file: File<LocalHashed>,
    replaces: Option<Identity>,
    remote: String,
}

/// Fifth step: the record could not be written and the content that was
/// sent is being deleted again.
#[derive(Debug)]
pub struct Cleaning {
    file: File<LocalHashed>,
    error: StoreError,
    remote: String,
}

pub struct HashingView {
    pub file: FileView<()>,
    pub options: UploadOptions,
    pub remote: Seq<char>,
}

pub struct FindingView {
    pub file: FileView<IdentityView>,
    pub options: UploadOptions,
    pub remote: Seq<char>,
}

pub struct SendingView {
    pub file: FileView<IdentityView>,
    /// The identity that the store records for the path and that the upload
    /// replaces; `None` where the store has no record of the path.
    pub replaces: Option<IdentityView>,
    pub remote: Seq<char>,
}

pub struct RecordingView {
    pub file: FileView<IdentityView>,
    pub replaces: Option<IdentityView>,
    pub remote: Seq<char>,
}

pub struct CleaningView {
    pub file: FileView<IdentityView>,
    pub error: StoreErrorView,
    pub remote: Seq<char>,
}

impl View for Hashing {
    type V = HashingView;

    closed spec fn view(&self) -> HashingView {
        HashingView { file: self.file@, options: self.options, remote: self.remote@ }
    }
}

impl View for Finding {
    type V = FindingView;

    closed spec fn view(&self) -> FindingView {
        FindingView { file: self.file@, options: self.options, remote: self.remote@ }
    }
}

impl View for Sending {
    type V = SendingView;

    closed spec fn view(&self) -> SendingView {
        SendingView { file: self.file@, replaces: seen(self.replaces), remote: self.remote@ }
    }
}

impl View for Recording {
    type V = RecordingView;

    closed spec fn view(&self) -> RecordingView {
        RecordingView { file: self.file@, replaces: seen(self.replaces), remote: self.remote@ }
    }
}

impl View for Cleaning {
    type V = CleaningView;

    closed spec fn view(&self) -> CleaningView {
        CleaningView { file: self.file@, error: self.error@, remote: self.remote@ }
    }
}

/// The identity a step has seen recorded, as the model sees it.
pub open spec fn seen(recorded: Option<Identity>) -> Option<IdentityView> {
    match recorded {
        Some(id) => Some(id@),
        None => None,
    }
}

/// The text reported when the store answers a lookup with the record of
/// another path.
pub open spec fn misplaced_record() -> Seq<char> {
    "the store answered with the record of another path"@
}

/// The record under which a fingerprinted file is stored.
pub open spec fn record_of(file: FileView<IdentityView>) -> RemoteFileView {
    RemoteFileView { path: file.path, hash: file.stage.digest, size: file.stage.size }
}

/// The policy of an upload: what follows from where the file stands and
/// what the caller allows.
///
/// A new file is sent and its record created. A synchronised file is left
/// alone. A diverged file is sent and its record updated only where the
/// caller allows overwriting; otherwise the upload ends without touching
/// anything, asking for a confirmation where the caller wants to be asked.
pub open spec fn decide(class: ClassificationView, options: UploadOptions, remote: Seq<char>)
    -> StepView<SendingView> {
    match class {
        ClassificationView::New(file) => StepView::Next(
            SendingView { file, replaces: None, remote },
        ),
        ClassificationView::Synced(file) => StepView::Done(UploadOutcomeView::Synced(file)),
        ClassificationView::Diverged(file) => {
            let local = FileView { path: file.path, stage: file.stage.local };
            let recorded = FileView { path: file.path, stage: file.stage.remote };
            if options.overwrite {
                StepView::Next(
                    SendingView { file: local, replaces: Some(file.stage.remote), remote },
                )
            } else if options.confirm {
                StepView::Done(UploadOutcomeView::ConfirmationNeeded(file))
            } else {
                StepView::Done(UploadOutcomeView::OverwriteRefused(local, recorded))
            }
        },
    }
}

impl HashingView {
    pub open spec fn request(self) -> UploadRequestView {
        UploadRequestView::Hash(self.file.path)
    }

    pub open spec fn hashed(self, reply: Result<IdentityView, IOErrorView>) -> StepView<
        FindingView,
    > {
        match reply {
            Ok(id) => StepView::Next(
                FindingView {
                    file: FileView { path: self.file.path, stage: id },
                    options: self.options,
                    remote: self.remote,
                },
            ),
            Err(e) => StepView::Done(UploadOutcomeView::ReadFailed(self.file, e)),
        }
    }
}

impl FindingView {
    pub open spec fn request(self) -> UploadRequestView {
        UploadRequestView::Find(self.file.path)
    }

    /// Where the file stands, given the record that was found.
    pub open spec fn class(self, record: Option<RemoteFileView>) -> ClassificationView {
        classified(
            self.file.path,
            self.file.stage,
            match record {
                Some(found) => Some(found.identity()),
                None => None,
            },
        )
    }

    /// Whether the store answered the lookup with the record of another
    /// path than the one it was asked for.
    pub open spec fn misplaced(self, record: Option<RemoteFileView>) -> bool {
        record matches Some(found) && found.path != self.file.path
    }

    /// A record of another path is a failure of the store: nothing can be
    /// said of the file from it, and nothing is sent. Any other answer is
    /// classified and the policy applied.
    pub open spec fn found(self, reply: Result<Option<RemoteFileView>, StoreErrorView>)
        -> StepView<SendingView> {
        match reply {
            Ok(record) => if self.misplaced(record) {
                StepView::Done(
                    UploadOutcomeView::MetadataFailed(
                        self.file,
                        StoreErrorView { message: misplaced_record() },
                        CleanupView::NotNeeded,
                    ),
                )
            } else {
                decide(self.class(record), self.options, self.remote)
            },
            Err(e) => StepView::Done(
                UploadOutcomeView::MetadataFailed(self.file, e, CleanupView::NotNeeded),
            ),
        }
    }
}

impl SendingView {
    pub open spec fn request(self) -> UploadRequestView {
        UploadRequestView::Send(self.file.path, self.remote, self.file.stage.size)
    }

    pub open spec fn sent(self, reply: Result<(), SSHErrorView>) -> StepView<RecordingView> {
        match reply {
            Ok(()) => StepView::Next(
                RecordingView { file: self.file, replaces: self.replaces, remote: self.remote },
            ),
            Err(e) => StepView::Done(UploadOutcomeView::TransferFailed(self.file, e)),
        }
    }
}

impl RecordingView {
    pub open spec fn request(self) -> UploadRequestView {
        match self.replaces {
            Some(expected) => UploadRequestView::Update(record_of(self.file), expected),
            None => UploadRequestView::Insert(record_of(self.file)),
        }
    }

    pub open spec fn recorded(self, reply: Result<(), StoreErrorView>) -> StepView<CleaningView> {
        match reply {
            Ok(()) => StepView::Done(UploadOutcomeView::Synced(self.file)),
            Err(e) => StepView::Next(
                CleaningView { file: self.file, error: e, remote: self.remote },
            ),
        }
    }
}

impl CleaningView {
    pub open spec fn request(self) -> UploadRequestView {
        UploadRequestView::Delete(self.remote)
    }

    pub open spec fn cleaned(self, reply: Result<(), SSHErrorView>) -> UploadOutcomeView {
        match reply {
            Ok(()) => UploadOutcomeView::MetadataFailed(
                self.file,
                self.error,
                CleanupView::Cleaned,
            ),
            Err(e) => UploadOutcomeView::MetadataFailed(
                self.file,
                self.error,
                CleanupView::Orphaned(e),
            ),
        }
    }
}

/// The answer to a fingerprinting request, as the model sees it.
pub open spec fn hashed_view(reply: Result<Identity, IOError>) -> Result<
    IdentityView,
    IOErrorView,
> {
    match reply {
        Ok(id) => Ok(id@),
        Err(e) => Err(e@),
    }
}

/// The answer to a lookup, as the model sees it.
pub open spec fn found_view(reply: Result<Option<RemoteFile>, StoreError>) -> Result<
    Option<RemoteFileView>,
    StoreErrorView,
> {
    match reply {
        Ok(Some(record)) => Ok(Some(record@)),
        Ok(None) => Ok(None),
        Err(e) => Err(e@),
    }
}

/// The answer of the transfer executor, as the model sees it.
pub open spec fn sent_view(reply: Result<(), SSHError>) -> Result<(), SSHErrorView> {
    match reply {
        Ok(()) => Ok(()),
        Err(e) => Err(e@),
    }
}

/// The answer to a write to the metadata store, as the model sees it.
pub open spec fn recorded_view(reply: Result<(), StoreError>) -> Result<(), StoreErrorView> {
    match reply {
        Ok(()) => Ok(()),
        Err(e) => Err(e@),
    }
}

impl Hashing {
    /// Starts the upload of `file`, whose remote counterpart is `remote`.
    pub fn new(file: File<Local>, options: UploadOptions, remote: String) -> (step: Self)
        ensures
            step@ == (HashingView { file: file@, options, remote: remote@ }),
    {
        Hashing { file, options, remote }
    }

    pub fn request(&self) -> (request: UploadRequest)
        ensures
            request@ == self@.request(),
    {
        UploadRequest::Hash(self.file.path.clone())
    }

    /// Takes the fingerprint, or ends the upload where the content could
    /// not be read.
    pub fn hashed(self, reply: Result<Identity, IOError>) -> (step: Step<Finding>)
        ensures
            step@ == self@.hashed(hashed_view(reply)),
    {
        let options = self.options;
        let remote = self.remote;
        match self.file.hash(reply) {
            Ok(file) => Step::Next(Finding { file, options, remote }),
            Err((e, file)) => Step::Done(UploadOutcome::ReadFailed(file, e)),
        }
    }
}

impl Finding {
    pub fn request(&self) -> (request: UploadRequest)
        ensures
            request@ == self@.request(),
    {
        UploadRequest::Find(self.file.path.clone())
    }

    /// Classifies the file against the record that was found and applies
    /// the caller's policy. A failure of the store ends the upload before
    /// anything was sent, and so does an answer that is the record of
    /// another path.
    pub fn found(self, reply: Result<Option<RemoteFile>, StoreError>) -> (step: Step<Sending>)
        ensures
            step@ == self@.found(found_view(reply)),
    {
        let options = self.options;
        let remote = self.remote;
        match reply {
            Err(e) => Step::Done(UploadOutcome::MetadataFailed(self.file, e, Cleanup::NotNeeded)),
            Ok(record) => {
                let recorded = match record {
                    Some(found) => {
                        if found.path != self.file.path {
                            return Step::Done(
                                UploadOutcome::MetadataFailed(
                                    self.file,
                                    StoreError {
                                        message: String::from_str(
                                            "the store answered with the record of another path",
                                        ),
                                    },
                                    Cleanup::NotNeeded,
                                ),
                            );
                        }
                        Some(Identity::new(found.hash, found.size))
                    },
                    None => None,
                };
                match self.file.reconcile_against(recorded) {
                    Classification::New(file) => Step::Next(
                        Sending { file, replaces: None, remote },
                    ),
                    Classification::Synced(file) => Step::Done(UploadOutcome::Synced(file)),
                    Classification::Diverged(file) => {
                        if options.overwrite {
                            let (local, recorded) = crate::fs::file::Split::split(file);
                            Step::Next(
                                Sending {
                                    file: local,
                                    replaces: Some(recorded.state.remote),
                                    remote,
                                },
                            )
                        } else if options.confirm {
                            Step::Done(UploadOutcome::ConfirmationNeeded(file))
                        } else {
                            let (local, recorded) = crate::fs::file::Split::split(file);
                            Step::Done(UploadOutcome::OverwriteRefused(local, recorded))
                        }
                    },
                }
            },
        }
    }
}

impl Sending {
    pub fn request(&self) -> (request: UploadRequest)
        ensures
            request@ == self@.request(),
    {
        UploadRequest::Send(
            self.file.path.clone(),
            self.remote.clone(),
            self.file.state.local.size(),
        )
    }

    /// Takes the answer of the transfer executor. A failed transfer ends
    /// the upload: the metadata store is not asked for anything.
    pub fn sent(self, reply: Result<(), SSHError>) -> (step: Step<Recording>)
        ensures
            step@ == self@.sent(sent_view(reply)),
            reply is Err ==> step@ is Done,
    {
        match reply {
            Ok(()) => Step::Next(
                Recording { file: self.file, replaces: self.replaces, remote: self.remote },
            ),
            Err(e) => Step::Done(UploadOutcome::TransferFailed(self.file, e)),
        }
    }
}

impl Recording {
    pub fn request(&self) -> (request: UploadRequest)
        ensures
            request@ == self@.request(),
    {
        let record = self.file.to_remote_file();
        match &self.replaces {
            Some(expected) => UploadRequest::Update(record, expected.clone()),
            None => UploadRequest::Insert(record),
        }
    }

    /// Takes the answer of the metadata store. Where the record could not
    /// be written, the content that was just sent has to be deleted again.
    pub fn recorded(self, reply: Result<(), StoreError>) -> (step: Step<Cleaning>)
        ensures
            step@ == self@.recorded(recorded_view(reply)),
            reply is Err ==> (step@ matches StepView::Next(cleaning) && cleaning.request()
                == UploadRequestView::Delete(self@.remote)),
    {
        match reply {
            Ok(()) => Step::Done(UploadOutcome::Synced(self.file.upcast())),
            Err(e) => Step::Next(Cleaning { file: self.file, error: e, remote: self.remote }),
        }
    }
}

impl Cleaning {
    pub fn request(&self) -> (request: UploadRequest)
        ensures
            request@ == self@.request(),
    {
        UploadRequest::Delete(self.remote.clone())
    }

    /// Takes the answer to the deletion. The failure of the store is
    /// reported either way, beside what became of the content.
    pub fn cleaned(self, reply: Result<(), SSHError>) -> (outcome: UploadOutcome)
        ensures
            outcome@ == self@.cleaned(sent_view(reply)),
    {
        match reply {
            Ok(()) => UploadOutcome::MetadataFailed(self.file, self.error, Cleanup::Cleaned),
            Err(e) => UploadOutcome::MetadataFailed(self.file, self.error, Cleanup::Orphaned(e)),
        }
    }
}

/// One answer for each step of an upload. An upload that ends early leaves
/// the later answers unused.
pub struct Answers {
    pub hashed: Result<IdentityView, IOErrorView>,
    pub found: Result<Option<RemoteFileView>, StoreErrorView>,
    pub sent: Result<(), SSHErrorView>,
    pub recorded: Result<(), StoreErrorView>,
    pub deleted: Result<(), SSHErrorView>,
}

/// A whole upload: everything it asked for, in order, and how it ended.
pub struct Run {
    pub requests: Seq<UploadRequestView>,
    pub outcome: UploadOutcomeView,
}

/// The upload that starts at `start` and is given `answers`.
pub open spec fn run(start: HashingView, answers: Answers) -> Run {
    let asked = seq![start.request()];
    match start.hashed(answers.hashed) {
        StepView::Done(outcome) => Run { requests: asked, outcome },
        StepView::Next(finding) => {
            let asked = asked.push(finding.request());
            match finding.found(answers.found) {
                StepView::Done(outcome) => Run { requests: asked, outcome },
                StepView::Next(sending) => {
                    let asked = asked.push(sending.request());
                    match sending.sent(answers.sent) {
                        StepView::Done(outcome) => Run { requests: asked, outcome },
                        StepView::Next(recording) => {
                            let asked = asked.push(recording.request());
                            match recording.recorded(answers.recorded) {
                                StepView::Done(outcome) => Run { requests: asked, outcome },
                                StepView::Next(cleaning) => Run {
                                    requests: asked.push(cleaning.request()),
                                    outcome: cleaning.cleaned(answers.deleted),
                                },
                            }
                        },
                    }
                },
            }
        },
    }
}

/// The policy table. Once the content is fingerprinted and the store has
/// answered, the class of the file and the caller's options fix what the
/// upload does:
///
/// * a synchronised file ends the upload at once, as synchronised;
/// * a diverged file that may not be overwritten ends it at once, asking for
///   a confirmation where the caller wants to be asked and refusing where not;
/// * a new file is sent, and a diverged file that may be overwritten is sent:
///   the one gets its record created, the other updated, and nothing else is
///   asked but the deletion of what was sent.
///
/// An upload that ends at once has asked for nothing that changes anything.
/// The table speaks of the record of the file's own path: an answer of the
/// store that is the record of another path is a failure of the store, see
/// [`lemma_misplaced_record_ends_the_upload`].
pub proof fn lemma_policy_table(start: HashingView, answers: Answers)
    requires
        answers.hashed is Ok,
        answers.found is Ok,
        answers.found->Ok_0 matches Some(record) ==> record.path == start.file.path,
    ensures
        ({
            let file = FileView { path: start.file.path, stage: answers.hashed->Ok_0 };
            let finding = FindingView { file, options: start.options, remote: start.remote };
            let done = run(start, answers);
            let quiet = done.requests =~= seq![start.request(), finding.request()];
            let sends = done.requests.len() >= 3 && done.requests[2] == UploadRequestView::Send(
                file.path,
                start.remote,
                file.stage.size,
            );
            match finding.class(answers.found->Ok_0) {
                ClassificationView::New(_) => {
                    &&& sends
                    &&& forall|i: int|
                        3 <= i < done.requests.len() ==> done.requests[i]
                            == UploadRequestView::Insert(record_of(file)) || done.requests[i]
                            == UploadRequestView::Delete(start.remote)
                },
                ClassificationView::Synced(synced) => {
                    &&& quiet
                    &&& synced == file
                    &&& done.outcome == UploadOutcomeView::Synced(file)
                },
                ClassificationView::Diverged(diverged) => if start.options.overwrite {
                    &&& sends
                    &&& forall|i: int|
                        3 <= i < done.requests.len() ==> done.requests[i]
                            == UploadRequestView::Update(record_of(file), diverged.stage.remote)
                            || done.requests[i] == UploadRequestView::Delete(start.remote)
                } else if start.options.confirm {
                    &&& quiet
                    &&& done.outcome == UploadOutcomeView::ConfirmationNeeded(diverged)
                } else {
                    &&& quiet
                    &&& done.outcome == UploadOutcomeView::OverwriteRefused(
                        file,
                        FileView { path: file.path, stage: diverged.stage.remote },
                    )
                },
            }
        }),
{
}

/// A record of another path ends the upload: where the store answers the
/// lookup with the record of a path it was not asked for, the upload has
/// asked for nothing that changes anything and reports the store as failed.
pub proof fn lemma_misplaced_record_ends_the_upload(start: HashingView, answers: Answers)
    requires
        answers.hashed is Ok,
        answers.found matches Ok(Some(record)) && record.path != start.file.path,
    ensures
        run(start, answers).requests =~= seq![
            start.request(),
            UploadRequestView::Find(start.file.path),
        ],
        run(start, answers).outcome == UploadOutcomeView::MetadataFailed(
            FileView { path: start.file.path, stage: answers.hashed->Ok_0 },
            StoreErrorView { message: misplaced_record() },
            CleanupView::NotNeeded,
        ),
{
}

/// No premature write: an upload whose transfer failed has asked nothing of
/// the metadata store but the lookup, and has deleted nothing.
pub proof fn lemma_failed_transfer_writes_no_metadata(start: HashingView, answers: Answers)
    requires
        answers.sent is Err,
    ensures
        forall|i: int|
            0 <= i < run(start, answers).requests.len() ==> {
                &&& !(#[trigger] run(start, answers).requests[i]).writes_metadata()
                &&& !(run(start, answers).requests[i] is Delete)
            },
{
}

/// Write after transfer: whenever an upload asks for a record to be
/// written, the request just before it was the transfer, and it succeeded.
pub proof fn lemma_record_follows_transfer(start: HashingView, answers: Answers, at: int)
    requires
        0 <= at < run(start, answers).requests.len(),
        run(start, answers).requests[at].writes_metadata(),
    ensures
        at >= 1,
        run(start, answers).requests[at - 1] is Send,
        answers.sent is Ok,
{
}

/// No orphan is left silently: where the record could not be written, the
/// very next request deletes the remote path that the transfer wrote to, and
/// the outcome reports the failure of the store.
pub proof fn lemma_failed_record_is_cleaned_up(start: HashingView, answers: Answers, at: int)
    requires
        0 <= at < run(start, answers).requests.len(),
        run(start, answers).requests[at].writes_metadata(),
        answers.recorded is Err,
    ensures
        at >= 1,
        at + 1 < run(start, answers).requests.len(),
        run(start, answers).requests[at - 1] matches UploadRequestView::Send(_, written, _)
            && run(start, answers).requests[at + 1] == UploadRequestView::Delete(written),
        run(start, answers).outcome matches UploadOutcomeView::MetadataFailed(_, e, cleanup) && e
            == answers.recorded->Err_0 && !(cleanup is NotNeeded),
{
}

/// Nothing that changes the remote side or the store is asked for before
/// the content is fingerprinted and the store has been looked up.
pub proof fn lemma_reads_come_first(start: HashingView, answers: Answers, at: int)
    requires
        0 <= at < run(start, answers).requests.len(),
        run(start, answers).requests[at].mutates(),
    ensures
        at >= 2,
        run(start, answers).requests[0] is Hash,
        run(start, answers).requests[1] is Find,
        answers.hashed is Ok,
        answers.found is Ok,
{
}

} // verus!
