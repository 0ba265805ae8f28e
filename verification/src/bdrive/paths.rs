//! Admitting paths into the drive: single files and whole directories.

use vstd::prelude::*;
use vstd::std_specs::convert::FromSpecImpl;
use vstd::string::StringExecFns;
use vstd::string::StrSliceExecFns;
use super::BDrive;
use crate::conf::PathsConf;
use crate::conf::paths::{is_absolute, text_of, PathError, PathErrorView};
use crate::fs::file::{File, FileView};
use crate::fs::state::Local;

verus! {

/// A path that is not a file of the drive, and why.
#[derive(Debug)]
pub enum PathSpecial {
    /// The path leads out of the local root.
    Outbound(String),
    /// The path was passed over on purpose.
    Ignored(String),
    /// The path could not be resolved.
    Malformed(String),
    Unknown,
}

pub enum PathSpecialView {
    Outbound(Seq<char>),
    Ignored(Seq<char>),
    Malformed(Seq<char>),
    Unknown,
}

impl View for PathSpecial {
    type V = PathSpecialView;

    open spec fn view(&self) -> PathSpecialView {
        match self {
            PathSpecial::Outbound(path) => PathSpecialView::Outbound(path@),
            PathSpecial::Ignored(path) => PathSpecialView::Ignored(path@),
            PathSpecial::Malformed(path) => PathSpecialView::Malformed(path@),
            PathSpecial::Unknown => PathSpecialView::Unknown,
        }
    }
}

impl From<PathError> for PathSpecial {
    fn from(value: PathError) -> (special: Self) {
        match value {
            PathError::Outbound(path) => PathSpecial::Outbound(path),
            PathError::Malformed(path) => PathSpecial::Malformed(path),
        }
    }
}

impl FromSpecImpl<PathError> for PathSpecial {
    open spec fn obeys_from_spec() -> bool {
        true
    }

    open spec fn from_spec(value: PathError) -> Self {
        match value {
            PathError::Outbound(path) => PathSpecial::Outbound(path),
            PathError::Malformed(path) => PathSpecial::Malformed(path),
        }
    }
}

/// One entry met while walking a directory, as plain values.
#[derive(Debug)]
pub struct WalkEntry {
    /// The path of the entry, relative to the local root.
    pub path: String,
    /// Whether the entry is a regular file.
    pub is_file: bool,
    /// What the file system made of the path, symbolic links followed;
    /// `None` where it could not resolve it.
    pub resolved: Option<String>,
}

pub struct WalkEntryView {
    pub path: Seq<char>,
    pub is_file: bool,
    pub resolved: Option<Seq<char>>,
}

impl View for WalkEntry {
    type V = WalkEntryView;

    open spec fn view(&self) -> WalkEntryView {
        WalkEntryView {
            path: self.path@,
            is_file: self.is_file,
            resolved: match self.resolved {
                Some(path) => Some(path@),
                None => None,
            },
        }
    }
}

/// What admitting a path gave, as the model sees it.
pub open spec fn admitted_view(found: Result<File<Local>, PathSpecial>) -> Result<
    FileView<()>,
    PathSpecialView,
> {
    match found {
        Ok(file) => Ok(file@),
        Err(special) => Err(special@),
    }
}

/// The path a drive makes of a path it is given: one with a leading
/// separator is taken from the local root, any other from the working
/// directory `key`.
pub open spec fn rooted(key: Seq<char>, path: Seq<char>) -> Seq<char> {
    if is_absolute(path) {
        path.skip(1)
    } else if key.len() == 0 {
        path
    } else {
        key + seq!['/'] + path
    }
}

/// Admitting a path relative to the local root: a path inside the root is
/// a file of the drive; one outside is reported as such under the path as
/// it was given; one that cannot be resolved is malformed.
pub open spec fn admitted(paths: PathsConf, path: Seq<char>, resolved: Option<Seq<char>>)
    -> Result<FileView<()>, PathSpecialView> {
    match paths.spec_absolute(path, resolved) {
        Ok(_) => Ok(FileView { path, stage: () }),
        Err(PathErrorView::Outbound(_)) => Err(PathSpecialView::Outbound(path)),
        Err(PathErrorView::Malformed(given)) => Err(PathSpecialView::Malformed(given)),
    }
}

/// What a walk reports: its regular files, in the order they were met, each
/// admitted or refused by itself.
pub open spec fn scanned(paths: PathsConf, entries: Seq<WalkEntryView>) -> Seq<
    Result<FileView<()>, PathSpecialView>,
> {
    entries.filter(|entry: WalkEntryView| entry.is_file).map_values(
        |entry: WalkEntryView| admitted(paths, entry.path, entry.resolved),
    )
}

impl BDrive {
    /// The path, relative to the local root, that `path` stands for.
    pub fn canonicalize(&self, path: &str) -> (text: String)
        ensures
            text@ == rooted(self.key(), path@),
    {
        let n = path.unicode_len();
        if n > 0 && path.get_char(0) == '/' {
            let rest = path.substring_char(1, n);
            proof {
                assert(path@.subrange(1, n as int) == path@.skip(1));
            }
            String::from_str(rest)
        } else if self.path_key.as_str().unicode_len() == 0 {
            String::from_str(path)
        } else {
            let mut text = self.path_key.clone();
            text.append("/");
            text.append(path);
            proof {
                reveal_strlit("/");
                assert("/"@ =~= seq!['/']);
            }
            text
        }
    }

    fn validate_path(&self, path: String, resolved: Option<&str>) -> (found: Result<
        File<Local>,
        PathSpecial,
    >)
        ensures
            admitted_view(found) == admitted(self.sandbox(), path@, text_of(resolved)),
    {
        match self.paths.is_canonical(path.as_str(), resolved) {
            Ok(true) => Ok(File::from(path)),
            Ok(false) => Err(PathSpecial::Outbound(path)),
            Err(e) => Err(PathSpecial::from(e)),
        }
    }

    /// Admits one path as a file of the drive. `resolved` is what the file
    /// system made of the path that [`BDrive::canonicalize`] gives for `path`.
    pub fn load_file(&self, path: &str, resolved: Option<&str>) -> (found: Result<
        File<Local>,
        PathSpecial,
    >)
        ensures
            admitted_view(found) == admitted(
                self.sandbox(),
                rooted(self.key(), path@),
                text_of(resolved),
            ),
    {
        self.validate_path(self.canonicalize(path), resolved)
    }

    /// Admits what a walk below `path` has met. `resolved` is what the file
    /// system made of the directory itself; a directory that cannot be
    /// resolved is the only failure of the whole. Entries that are not
    /// regular files are passed over; every other entry is reported, admitted
    /// or not, and no entry keeps the ones after it from being looked at.
    pub fn scan_dir(&self, path: &str, resolved: Option<&str>, entries: Vec<WalkEntry>) -> (found:
        Result<Vec<Result<File<Local>, PathSpecial>>, PathError>)
        ensures
            match self.sandbox().spec_absolute(rooted(self.key(), path@), text_of(resolved)) {
                Err(PathErrorView::Malformed(given)) => found matches Err(e) && e@
                    == PathErrorView::Malformed(given),
                _ => found matches Ok(list) && list@.map_values(
                    |one: Result<File<Local>, PathSpecial>| admitted_view(one),
                ) == scanned(
                    self.sandbox(),
                    entries@.map_values(|entry: WalkEntry| entry@),
                ),
            },
    {
        let pc = self.canonicalize(path);
        match self.paths.is_canonical(pc.as_str(), resolved) {
            Err(e) => {
                return Err(e);
            },
            Ok(_) => {},
        }
        let ghost all = entries@.map_values(|entry: WalkEntry| entry@);
        let ghost is_file = |entry: WalkEntryView| entry.is_file;
        let ghost judge = |entry: WalkEntryView|
            admitted(self.sandbox(), entry.path, entry.resolved);
        let ghost view_of = |one: Result<File<Local>, PathSpecial>| admitted_view(one);
        let mut list: Vec<Result<File<Local>, PathSpecial>> = Vec::new();
        let mut i: usize = 0;
        proof {
            reveal(Seq::filter);
            assert(all.take(0) =~= Seq::<WalkEntryView>::empty());
            assert(all.take(0).filter(is_file) =~= Seq::<WalkEntryView>::empty());
            assert(list@.map_values(view_of) =~= all.take(0).filter(is_file).map_values(judge));
        }
        while i < entries.len()
            invariant
                i <= entries.len(),
                all == entries@.map_values(|entry: WalkEntry| entry@),
                is_file == |entry: WalkEntryView| entry.is_file,
                judge == |entry: WalkEntryView|
                    admitted(self.sandbox(), entry.path, entry.resolved),
                view_of == |one: Result<File<Local>, PathSpecial>| admitted_view(one),
                list@.map_values(view_of) == all.take(i as int).filter(is_file).map_values(judge),
            decreases entries.len() - i,
        {
            let entry = &entries[i];
            proof {
                reveal(Seq::filter);
                let upto = all.take(i as int + 1);
                assert(upto.drop_last() == all.take(i as int));
                assert(upto.last() == entry@);
            }
            if entry.is_file {
                let resolved = match &entry.resolved {
                    Some(text) => Some(text.as_str()),
                    None => None,
                };
                let one = self.validate_path(entry.path.clone(), resolved);
                let ghost earlier = list@;
                list.push(one);
                proof {
                    assert(text_of(resolved) == entry@.resolved);
                    assert(list@.map_values(view_of) =~= earlier.map_values(view_of).push(
                        admitted_view(one),
                    ));
                    assert(all.take(i as int + 1).filter(is_file) == all.take(i as int).filter(
                        is_file,
                    ).push(entry@));
                    assert(all.take(i as int + 1).filter(is_file).map_values(judge) =~= all.take(
                        i as int,
                    ).filter(is_file).map_values(judge).push(judge(entry@)));
                }
            } else {
                proof {
                    assert(all.take(i as int + 1).filter(is_file) == all.take(i as int).filter(
                        is_file,
                    ));
                }
            }
            i += 1;
        }
        proof {
            assert(all.take(entries.len() as int) == all);
        }
        Ok(list)
    }
}

} // verus!
