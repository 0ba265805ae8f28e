//! Content identities and the typed stages a file moves through.

pub mod file;
pub mod file_success;
pub mod hash;
pub mod state;

pub use file::{Classification, File, LocalFile, Split, SyncState, ToRemoteFile, Upload};
pub use file_success::FileSuccess;
pub use hash::Hasher;
pub use state::Identity;
