//! What the engine exchanges with the metadata store.

pub mod file;

pub use file::RemoteFile;

use vstd::prelude::*;

verus! {

/// A failure of the metadata store.
#[derive(Debug)]
pub struct StoreError {
    pub message: String,
}

pub struct StoreErrorView {
    pub message: Seq<char>,
}

impl View for StoreError {
    type V = StoreErrorView;

    open spec fn view(&self) -> StoreErrorView {
        StoreErrorView { message: self.message@ }
    }
}

} // verus!
