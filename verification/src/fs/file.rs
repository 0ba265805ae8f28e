//! A file on its way from "path known" to "synchronised".
//!
//! The stage of a file is part of its type. Every transition takes the file
//! by value and gives back a file of the next stage under the same path, so
//! a file cannot be classified twice or used in a stage it has left.

use vstd::prelude::*;
use vstd::std_specs::cmp::PartialEqSpecImpl;
use vstd::std_specs::convert::FromSpecImpl;
use std::fmt::Debug;
use crate::db::file::{RemoteFile, RemoteFileView};
use super::state::{Diff, DiffView, Identity, IdentityView, Local, LocalHashed, Remote, Sync};

verus! {

/// What a [`File`] stands for: its path and the view of its stage.
pub struct FileView<V> {
    pub path: Seq<char>,
    pub stage: V,
}

/// A path, relative to the local root, together with what is known of the
/// file in its present stage.
#[derive(Debug)]
pub struct File<S> {
    pub path: String,
    pub state: S,
}

/// A failure to read local content in full.
#[derive(Debug)]
pub struct IOError {
    pub message: String,
}

pub struct IOErrorView {
    pub message: Seq<char>,
}

impl View for IOError {
    type V = IOErrorView;

    open spec fn view(&self) -> IOErrorView {
        IOErrorView { message: self.message@ }
    }
}

impl<S> File<S> {
    pub fn new(path: String, state: S) -> (file: Self)
        ensures
            file == (File { path, state }),
    {
        Self { path, state }
    }
}

impl<S: View> View for File<S> {
    type V = FileView<S::V>;

    open spec fn view(&self) -> FileView<S::V> {
        FileView { path: self.path@, stage: self.state@ }
    }
}

/// What a [`SyncState`] stands for.
pub enum SyncStateView {
    Sync(FileView<IdentityView>),
    Diff(FileView<DiffView>),
}

/// A local file held against the record of the metadata store.
#[derive(Debug)]
pub enum SyncState {
    /// Both sides hold the same content.
    Sync(File<Sync>),
    /// The two sides differ.
    Diff(File<Diff>),
}

impl View for SyncState {
    type V = SyncStateView;

    open spec fn view(&self) -> SyncStateView {
        match self {
            SyncState::Sync(file) => SyncStateView::Sync(file@),
            SyncState::Diff(file) => SyncStateView::Diff(file@),
        }
    }
}

impl SyncState {
    /// A diverged file holds two different identities.
    pub open spec fn wf(&self) -> bool {
        self matches SyncState::Diff(file) ==> file.state.wf()
    }
}

/// What a [`Classification`] stands for.
pub enum ClassificationView {
    New(FileView<IdentityView>),
    Synced(FileView<IdentityView>),
    Diverged(FileView<DiffView>),
}

/// Where a fingerprinted file stands with respect to the metadata store.
#[derive(Debug)]
pub enum Classification {
    /// The store has no record of the path.
    New(File<LocalHashed>),
    /// The store records the identity the file has.
    Synced(File<Sync>),
    /// The store records another identity.
    Diverged(File<Diff>),
}

impl View for Classification {
    type V = ClassificationView;

    open spec fn view(&self) -> ClassificationView {
        match self {
            Classification::New(file) => ClassificationView::New(file@),
            Classification::Synced(file) => ClassificationView::Synced(file@),
            Classification::Diverged(file) => ClassificationView::Diverged(file@),
        }
    }
}

impl Classification {
    /// A diverged file holds two different identities.
    pub open spec fn wf(&self) -> bool {
        self matches Classification::Diverged(file) ==> file.state.wf()
    }
}

/// A local identity held against a recorded one: equal identities are in
/// sync, different ones have diverged.
pub open spec fn attached(path: Seq<char>, local: IdentityView, remote: IdentityView)
    -> SyncStateView {
    if local == remote {
        SyncStateView::Sync(FileView { path, stage: local })
    } else {
        SyncStateView::Diff(FileView { path, stage: DiffView { local, remote } })
    }
}

/// The classification of a local identity against what the store records
/// for the path, if it records anything.
pub open spec fn classified(path: Seq<char>, local: IdentityView, remote: Option<IdentityView>)
    -> ClassificationView {
    match remote {
        None => ClassificationView::New(FileView { path, stage: local }),
        Some(recorded) => if recorded == local {
            ClassificationView::Synced(FileView { path, stage: local })
        } else {
            ClassificationView::Diverged(
                FileView { path, stage: DiffView { local, remote: recorded } },
            )
        },
    }
}

/// Every pair of a local identity and an optional recorded one falls in
/// exactly one class: new where nothing is recorded, synced where the
/// recorded identity is the local one, diverged where it is another.
pub proof fn lemma_classification_total(
    path: Seq<char>,
    local: IdentityView,
    remote: Option<IdentityView>,
)
    ensures
        classified(path, local, remote) is New <==> remote is None,
        classified(path, local, remote) is Synced <==> remote == Some(local),
        classified(path, local, remote) is Diverged <==> (remote is Some && remote != Some(
            local,
        )),
        classified(path, local, remote) matches ClassificationView::Diverged(file)
            ==> file.stage.local != file.stage.remote,
{
}

/// Anything that can be written down as a record of the metadata store.
pub trait ToRemoteFile {
    /// The record this value stands for.
    spec fn record(&self) -> RemoteFileView;

    fn to_remote_file(&self) -> (record: RemoteFile)
        ensures
            record@ == self.record(),
    ;
}

/// Anything that names a local file.
pub trait LocalFile {
    /// The path of the file, relative to the local root.
    spec fn location(&self) -> Seq<char>;

    fn path(&self) -> (path: String)
        ensures
            path@ == self.location(),
    ;
}

/// A file whose local content has been fingerprinted and which can
/// therefore be held against the metadata store and uploaded.
pub trait Upload: LocalFile + Debug + ToRemoteFile + Sized {
    /// The identity of the local content.
    spec fn local_view(&self) -> IdentityView;

    fn local_identity(&self) -> (id: Identity)
        ensures
            id@ == self.local_view(),
    ;

    /// Holds the file against the record of the same path.
    fn attach_remote(self, f: File<Remote>) -> (state: SyncState)
        requires
            f@.path == self.location(),
        ensures
            state@ == attached(self.location(), self.local_view(), f@.stage),
            state.wf(),
    ;

    /// The file with everything but its local identity forgotten.
    fn downcast(&self) -> (file: File<LocalHashed>)
        ensures
            file@ == (FileView { path: self.location(), stage: self.local_view() }),
    {
        File::new(self.path(), LocalHashed::new(self.local_identity()))
    }

    /// The file as synchronised under its local identity. To be used only
    /// once the store is known to record that identity.
    fn upcast(&self) -> (file: File<Sync>)
        ensures
            file@ == (FileView { path: self.location(), stage: self.local_view() }),
    {
        File::new(self.path(), Sync { id: self.local_identity() })
    }
}

/// A file that has a local and a remote side and can be taken apart.
pub trait Split {
    /// The local side.
    spec fn local_half(&self) -> FileView<IdentityView>;

    /// The remote side.
    spec fn remote_half(&self) -> FileView<IdentityView>;

    fn split(self) -> (halves: (File<LocalHashed>, File<Remote>))
        ensures
            halves.0@ == self.local_half(),
            halves.1@ == self.remote_half(),
    ;
}

impl<S> LocalFile for File<S> {
    open spec fn location(&self) -> Seq<char> {
        self.path@
    }

    fn path(&self) -> (path: String) {
        self.path.clone()
    }
}

impl File<Local> {
    /// Moves the file to its fingerprinted stage, given how reading its
    /// content ended. Where reading failed the file comes back as it was,
    /// beside the error, so that the caller can try again or report the path.
    pub fn hash(self, read: Result<Identity, IOError>) -> (hashed: Result<
        File<LocalHashed>,
        (IOError, File<Local>),
    >)
        ensures
            match read {
                Ok(id) => hashed matches Ok(file) && file@ == (FileView {
                    path: self.path@,
                    stage: id@,
                }),
                Err(e) => hashed == Err::<File<LocalHashed>, (IOError, File<Local>)>((e, self)),
            },
    {
        match read {
            Ok(id) => Ok(File { state: LocalHashed::new(id), path: self.path }),
            Err(e) => Err((e, self)),
        }
    }
}

impl File<LocalHashed> {
    /// The file as synchronised under its local identity. Nothing here
    /// checks that the remote side holds that identity.
    pub fn upcast(self) -> (file: File<Sync>)
        ensures
            file@ == self@,
    {
        File { path: self.path, state: Sync { id: self.state.local } }
    }

    /// Classifies the file against the identity the store records for its
    /// path, if it records one.
    pub fn reconcile_against(self, remote: Option<Identity>) -> (class: Classification)
        ensures
            class@ == classified(
                self.path@,
                self.state@,
                match remote {
                    Some(id) => Some(id@),
                    None => None,
                },
            ),
            class.wf(),
    {
        match remote {
            None => Classification::New(self),
            Some(id) => {
                if id == self.state.local {
                    Classification::Synced(self.upcast())
                } else {
                    Classification::Diverged(
                        File { path: self.path, state: Diff { local: self.state.local, remote: id } },
                    )
                }
            },
        }
    }
}

impl ToRemoteFile for File<LocalHashed> {
    open spec fn record(&self) -> RemoteFileView {
        RemoteFileView {
            path: self.path@,
            hash: self.state.local@.digest,
            size: self.state.local@.size,
        }
    }

    fn to_remote_file(&self) -> (record: RemoteFile) {
        RemoteFile::new(self.path.clone(), self.state.local.hash(), self.state.local.size())
    }
}

impl ToRemoteFile for File<Remote> {
    open spec fn record(&self) -> RemoteFileView {
        RemoteFileView {
            path: self.path@,
            hash: self.state.remote@.digest,
            size: self.state.remote@.size,
        }
    }

    fn to_remote_file(&self) -> (record: RemoteFile) {
        RemoteFile::new(self.path.clone(), self.state.remote.hash(), self.state.remote.size())
    }
}

impl ToRemoteFile for File<Sync> {
    open spec fn record(&self) -> RemoteFileView {
        RemoteFileView { path: self.path@, hash: self.state.id@.digest, size: self.state.id@.size }
    }

    fn to_remote_file(&self) -> (record: RemoteFile) {
        RemoteFile::new(self.path.clone(), self.state.id.hash(), self.state.id.size())
    }
}

impl ToRemoteFile for File<Diff> {
    /// A diverged file is recorded under its local identity.
    open spec fn record(&self) -> RemoteFileView {
        RemoteFileView {
            path: self.path@,
            hash: self.state.local@.digest,
            size: self.state.local@.size,
        }
    }

    fn to_remote_file(&self) -> (record: RemoteFile) {
        let id = self.local_identity();
        RemoteFile::new(self.path(), id.hash(), id.size())
    }
}

impl From<RemoteFile> for File<Remote> {
    fn from(value: RemoteFile) -> (file: Self)
        ensures
            file@ == value@.to_local(),
    {
        value.to_local()
    }
}

impl FromSpecImpl<RemoteFile> for File<Remote> {
    open spec fn obeys_from_spec() -> bool {
        false
    }

    open spec fn from_spec(value: RemoteFile) -> Self {
        arbitrary()
    }
}

impl From<String> for File<Local> {
    fn from(value: String) -> (file: Self) {
        Self { path: value, state: Local {  } }
    }
}

impl FromSpecImpl<String> for File<Local> {
    open spec fn obeys_from_spec() -> bool {
        true
    }

    open spec fn from_spec(value: String) -> Self {
        File { path: value, state: Local {  } }
    }
}

impl From<&str> for File<Local> {
    fn from(value: &str) -> (file: Self)
        ensures
            file@ == (FileView { path: value@, stage: () }),
    {
        Self { path: value.to_owned(), state: Local {  } }
    }
}

impl FromSpecImpl<&str> for File<Local> {
    open spec fn obeys_from_spec() -> bool {
        false
    }

    open spec fn from_spec(value: &str) -> Self {
        arbitrary()
    }
}

impl PartialEq for File<LocalHashed> {
    /// Two fingerprinted files are equal when their content is, whatever
    /// their paths.
    fn eq(&self, other: &Self) -> (same: bool) {
        self.state == other.state
    }
}

impl PartialEqSpecImpl for File<LocalHashed> {
    open spec fn obeys_eq_spec() -> bool {
        true
    }

    open spec fn eq_spec(&self, other: &Self) -> bool {
        self.state@ == other.state@
    }
}

impl Upload for File<LocalHashed> {
    open spec fn local_view(&self) -> IdentityView {
        self.state.local@
    }

    fn local_identity(&self) -> (id: Identity) {
        self.state.local.clone()
    }

    fn attach_remote(self, f: File<Remote>) -> (state: SyncState) {
        if self.state.local == f.state.remote {
            SyncState::Sync(File { state: Sync { id: self.state.local }, path: self.path })
        } else {
            SyncState::Diff(
                File {
                    path: self.path,
                    state: Diff { local: self.state.local, remote: f.state.remote },
                },
            )
        }
    }
}

impl Upload for File<Diff> {
    open spec fn local_view(&self) -> IdentityView {
        self.state.local@
    }

    fn local_identity(&self) -> (id: Identity) {
        self.state.local.clone()
    }

    /// Replaces the remote side of the file with the record given.
    fn attach_remote(self, f: File<Remote>) -> (state: SyncState) {
        if self.state.local == f.state.remote {
            SyncState::Sync(File { state: Sync { id: self.state.local }, path: self.path })
        } else {
            SyncState::Diff(
                File {
                    path: self.path,
                    state: Diff { local: self.state.local, remote: f.state.remote },
                },
            )
        }
    }
}

impl Split for File<Diff> {
    open spec fn local_half(&self) -> FileView<IdentityView> {
        FileView { path: self.path@, stage: self.state.local@ }
    }

    open spec fn remote_half(&self) -> FileView<IdentityView> {
        FileView { path: self.path@, stage: self.state.remote@ }
    }

    fn split(self) -> (halves: (File<LocalHashed>, File<Remote>)) {
        (
            File { path: self.path.clone(), state: LocalHashed { local: self.state.local } },
            File { path: self.path, state: Remote { remote: self.state.remote } },
        )
    }
}

impl Split for File<Sync> {
    open spec fn local_half(&self) -> FileView<IdentityView> {
        FileView { path: self.path@, stage: self.state.id@ }
    }

    open spec fn remote_half(&self) -> FileView<IdentityView> {
        FileView { path: self.path@, stage: self.state.id@ }
    }

    fn split(self) -> (halves: (File<LocalHashed>, File<Remote>)) {
        (
            File { path: self.path.clone(), state: LocalHashed { local: self.state.id.clone() } },
            File { path: self.path, state: Remote { remote: self.state.id } },
        )
    }
}

} // verus!
