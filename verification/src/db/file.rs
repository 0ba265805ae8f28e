//! The record the metadata store keeps for one path.

use vstd::prelude::*;
use crate::fs::file::{File, FileView};
use crate::fs::state::{Identity, IdentityView, Remote};

verus! {

/// One record of the metadata store: a path and the identity stored for it.
#[derive(Debug)]
pub struct RemoteFile {
    pub path: String,
    pub hash: String,
    pub size: u64,
}

pub struct RemoteFileView {
    pub path: Seq<char>,
    pub hash: Seq<char>,
    pub size: nat,
}

impl View for RemoteFile {
    type V = RemoteFileView;

    open spec fn view(&self) -> RemoteFileView {
        RemoteFileView { path: self.path@, hash: self.hash@, size: self.size as nat }
    }
}

impl RemoteFileView {
    /// The identity the record stores.
    pub open spec fn identity(self) -> IdentityView {
        IdentityView { digest: self.hash, size: self.size }
    }

    /// The record as a file in its remote stage.
    pub open spec fn to_local(self) -> FileView<IdentityView> {
        FileView { path: self.path, stage: self.identity() }
    }
}

impl RemoteFile {
    pub fn new(path: String, hash: String, size: u64) -> (record: Self)
        ensures
            record@ == (RemoteFileView { path: path@, hash: hash@, size: size as nat }),
    {
        Self { path, hash, size }
    }

    /// The record as a file in its remote stage.
    pub fn to_local(self) -> (file: File<Remote>)
        ensures
            file@ == self@.to_local(),
    {
        File::new(self.path, Remote { remote: Identity::new(self.hash, self.size) })
    }
}

} // verus!
