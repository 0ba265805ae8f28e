//! The engine itself: a sandbox, the place inside it that relative paths
//! are taken from, and the decisions of an upload.

pub mod paths;
pub mod upload;

pub use paths::PathSpecial;
pub use upload::{UploadError, UploadOptions};

use vstd::prelude::*;
use crate::conf::PathsConf;
use crate::conf::paths::{components, is_absolute, relative_text, PathError, PathErrorView};
use crate::fs::file::File;
use crate::fs::state::Local;
use upload::{Hashing, HashingView};

verus! {

/// A drive: the sandbox, and the directory inside it that paths without a
/// leading separator are relative to.
#[derive(Debug)]
pub struct BDrive {
    pub paths: PathsConf,
    path_key: String,
}

impl BDrive {
    /// The sandbox of the drive.
    pub closed spec fn sandbox(&self) -> PathsConf {
        self.paths
    }

    /// The working directory of the drive, relative to the local root.
    pub closed spec fn key(&self) -> Seq<char> {
        self.path_key@
    }

    /// A drive for the sandbox `paths`, with `cwd` as its working directory.
    /// `cwd` is taken from the top of the file system and has to lie inside
    /// the local root: a drive cannot work from outside its sandbox.
    pub fn new(paths: PathsConf, cwd: &str) -> (made: Result<Self, PathError>)
        ensures
            match made {
                Ok(drive) => {
                    &&& is_absolute(cwd@)
                    &&& paths.inside(components(cwd@))
                    &&& drive.sandbox() == paths
                    &&& drive.key() == relative_text(
                        components(cwd@).skip(paths.root().len() as int),
                    )
                },
                Err(e) => {
                    &&& !(is_absolute(cwd@) && paths.inside(components(cwd@)))
                    &&& e@ == PathErrorView::Outbound(cwd@)
                },
            },
    {
        match paths.below_root(cwd) {
            Some(path_key) => Ok(BDrive { paths, path_key }),
            None => Err(PathError::Outbound(cwd.to_owned())),
        }
    }

    /// Starts the upload of `file` under the caller's policy; without
    /// options nothing on the remote side is ever replaced. The upload
    /// begins by waiting for the content to be fingerprinted.
    pub fn upload(&self, file: File<Local>, options: Option<UploadOptions>) -> (step: Hashing)
        ensures
            step@ == (HashingView {
                file: file@,
                options: match options {
                    Some(given) => given,
                    None => UploadOptions { overwrite: false, confirm: false },
                },
                remote: self.sandbox().spec_to_remote(file.path@),
            }),
    {
        let options = match options {
            Some(given) => given,
            None => UploadOptions::default(),
        };
        let remote = self.paths.to_remote(file.path.as_str());
        Hashing::new(file, options, remote)
    }
}

} // verus!
