//! The fingerprint of a file's content and the payload of each stage.

use vstd::prelude::*;
use vstd::std_specs::cmp::PartialEqSpecImpl;

verus! {

/// What an [`Identity`] stands for: the digest as text, and the byte count.
pub struct IdentityView {
    pub digest: Seq<char>,
    pub size: nat,
}

/// Content fingerprint: a digest rendered as text plus the size in bytes.
///
/// Two identities are equal exactly when both parts match.
#[derive(Debug)]
pub struct Identity {
    hash: String,
    size: u64,
}

impl View for Identity {
    type V = IdentityView;

    closed spec fn view(&self) -> IdentityView {
        IdentityView { digest: self.hash@, size: self.size as nat }
    }
}

impl Identity {
    pub fn new(hash: String, size: u64) -> (id: Self)
        ensures
            id@ == (IdentityView { digest: hash@, size: size as nat }),
    {
        Self { hash, size }
    }

    pub fn size(&self) -> (n: u64)
        ensures
            n == self@.size,
    {
        self.size
    }

    pub fn hash(&self) -> (digest: String)
        ensures
            digest@ == self@.digest,
    {
        self.hash.clone()
    }
}

impl Clone for Identity {
    fn clone(&self) -> (copy: Self)
        ensures
            copy@ == self@,
    {
        Self { hash: self.hash.clone(), size: self.size }
    }
}

impl PartialEq for Identity {
    fn eq(&self, other: &Self) -> (same: bool) {
        self.hash == other.hash && self.size == other.size
    }
}

impl PartialEqSpecImpl for Identity {
    open spec fn obeys_eq_spec() -> bool {
        true
    }

    open spec fn eq_spec(&self, other: &Self) -> bool {
        self@ == other@
    }
}

/// Stage payload of a file that is only known by its path: nothing has been
/// read or checked yet.
#[derive(Debug)]
pub struct Local {}

/// Stage payload of a file whose content has been fingerprinted.
#[derive(Debug)]
pub struct LocalHashed {
    pub local: Identity,
}

/// Stage payload of a record held by the metadata store.
#[derive(Debug)]
pub struct Remote {
    pub remote: Identity,
}

/// Stage payload of a file whose identity is the same on both sides.
#[derive(Debug)]
pub struct Sync {
    pub id: Identity,
}

/// Stage payload of a file whose two sides differ.
#[derive(Debug)]
pub struct Diff {
    pub local: Identity,
    pub remote: Identity,
}

impl View for Local {
    type V = ();

    open spec fn view(&self) -> () {
        ()
    }
}

impl View for LocalHashed {
    type V = IdentityView;

    open spec fn view(&self) -> IdentityView {
        self.local@
    }
}

impl View for Remote {
    type V = IdentityView;

    open spec fn view(&self) -> IdentityView {
        self.remote@
    }
}

impl View for Sync {
    type V = IdentityView;

    open spec fn view(&self) -> IdentityView {
        self.id@
    }
}

/// The two sides of a diverged file.
pub struct DiffView {
    pub local: IdentityView,
    pub remote: IdentityView,
}

impl View for Diff {
    type V = DiffView;

    open spec fn view(&self) -> DiffView {
        DiffView { local: self.local@, remote: self.remote@ }
    }
}

impl Diff {
    /// A diverged payload never holds two equal identities.
    pub open spec fn wf(&self) -> bool {
        self.local@ != self.remote@
    }
}

impl LocalHashed {
    pub fn new(id: Identity) -> (stage: Self)
        ensures
            stage@ == id@,
    {
        Self { local: id }
    }
}

impl Local {
    pub fn new() -> Self {
        Self {  }
    }
}

impl PartialEq for LocalHashed {
    fn eq(&self, other: &Self) -> (same: bool) {
        self.local == other.local
    }
}

impl PartialEqSpecImpl for LocalHashed {
    open spec fn obeys_eq_spec() -> bool {
        true
    }

    open spec fn eq_spec(&self, other: &Self) -> bool {
        self@ == other@
    }
}

impl PartialEq for Remote {
    fn eq(&self, other: &Self) -> (same: bool) {
        self.remote == other.remote
    }
}

impl PartialEqSpecImpl for Remote {
    open spec fn obeys_eq_spec() -> bool {
        true
    }

    open spec fn eq_spec(&self, other: &Self) -> bool {
        self@ == other@
    }
}

impl PartialEq for Sync {
    fn eq(&self, other: &Self) -> (same: bool) {
        self.id == other.id
    }
}

impl PartialEqSpecImpl for Sync {
    open spec fn obeys_eq_spec() -> bool {
        true
    }

    open spec fn eq_spec(&self, other: &Self) -> bool {
        self@ == other@
    }
}

impl PartialEq for Diff {
    fn eq(&self, other: &Self) -> (same: bool) {
        self.local == other.local && self.remote == other.remote
    }
}

impl PartialEqSpecImpl for Diff {
    open spec fn obeys_eq_spec() -> bool {
        true
    }

    open spec fn eq_spec(&self, other: &Self) -> bool {
        self@ == other@
    }
}

} // verus!
