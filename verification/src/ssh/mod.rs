//! The transfer executor: what has to be asked of the remote side, one
//! request at a time, to get a file written there.
//!
//! The executor never touches the network. It hands out a request, is told
//! how that request ended, and answers with the next request or with the end
//! of the transfer. A missing remote directory is repaired on the way: the
//! executor climbs from the file's parent towards the top until a directory
//! can be made, then makes every directory below it, and opens the file again.

use vstd::prelude::*;
use vstd::string::StringExecFns;
use vstd::string::StrSliceExecFns;
use vstd::std_specs::convert::FromSpecImpl;
use crate::conf::paths::{texts, PathError};

verus! {

/// Permissions of every directory the executor has made.
pub const DIRECTORY_MODE: i32 = 0o755;

/// Size of the buffer the content is streamed through.
pub const BUFF_SIZE: usize = 0x20_0000;

/// The code by which the file transfer subsystem reports a missing file or directory.
pub const SFTP_NO_SUCH_FILE: i32 = 2;

/// Where a transport error comes from.
#[derive(Clone, Copy, PartialEq, Eq, Structural, Debug)]
pub enum ErrorSource {
    /// The secure channel itself.
    Session,
    /// The file transfer subsystem on top of it.
    Sftp,
    /// Reading the local content or writing the remote handle.
    Io,
}

/// An error of the transport, as plain values.
#[derive(Debug)]
pub struct TransportError {
    pub source: ErrorSource,
    pub code: i32,
    pub message: String,
}

pub struct TransportErrorView {
    pub source: ErrorSource,
    pub code: i32,
    pub message: Seq<char>,
}

impl View for TransportError {
    type V = TransportErrorView;

    open spec fn view(&self) -> TransportErrorView {
        TransportErrorView { source: self.source, code: self.code, message: self.message@ }
    }
}

impl TransportErrorView {
    /// Whether the error says that a file or directory does not exist.
    pub open spec fn is_missing(self) -> bool {
        self.source == ErrorSource::Sftp && self.code == SFTP_NO_SUCH_FILE
    }
}

impl TransportError {
    /// Whether the error says that a file or directory does not exist.
    pub fn is_missing(&self) -> (yes: bool)
        ensures
            yes == self@.is_missing(),
    {
        self.source == ErrorSource::Sftp && self.code == SFTP_NO_SUCH_FILE
    }
}

/// Why a transfer failed.
#[derive(Debug)]
pub enum SSHError {
    /// The transport refused to open the file or broke while copying.
    SSH2(TransportError),
    /// A path was not admitted by the sandbox.
    Path(String),
    /// A missing directory could not be made.
    MkdirError(String),
}

pub enum SSHErrorView {
    SSH2(TransportErrorView),
    Path(Seq<char>),
    MkdirError(Seq<char>),
}

impl View for SSHError {
    type V = SSHErrorView;

    open spec fn view(&self) -> SSHErrorView {
        match self {
            SSHError::SSH2(e) => SSHErrorView::SSH2(e@),
            SSHError::Path(text) => SSHErrorView::Path(text@),
            SSHError::MkdirError(text) => SSHErrorView::MkdirError(text@),
        }
    }
}

impl From<PathError> for SSHError {
    /// A path that the sandbox refused, as a failure of the transfer.
    fn from(value: PathError) -> (error: Self)
        ensures
            error@ == SSHErrorView::Path(value@.describe()),
    {
        SSHError::Path(value.describe())
    }
}

impl FromSpecImpl<PathError> for SSHError {
    open spec fn obeys_from_spec() -> bool {
        false
    }

    open spec fn from_spec(value: PathError) -> Self {
        arbitrary()
    }
}

impl From<TransportError> for SSHError {
    fn from(value: TransportError) -> (error: Self) {
        SSHError::SSH2(value)
    }
}

impl FromSpecImpl<TransportError> for SSHError {
    open spec fn obeys_from_spec() -> bool {
        true
    }

    open spec fn from_spec(value: TransportError) -> Self {
        SSHError::SSH2(value)
    }
}

/// The path with its last piece and the separator before it taken away;
/// `None` for a path without a separator.
pub open spec fn parent_of(path: Seq<char>) -> Option<Seq<char>>
    decreases path.len(),
{
    if path.len() == 0 {
        None
    } else if path.last() == '/' {
        Some(path.drop_last())
    } else {
        parent_of(path.drop_last())
    }
}

/// The directories above a path, nearest first. The empty path, which is
/// where a path from the root ends up, is not one of them.
pub open spec fn ancestors(path: Seq<char>) -> Seq<Seq<char>>
    decreases path.len(),
{
    match parent_of(path) {
        Some(parent) => if 0 < parent.len() < path.len() {
            seq![parent] + ancestors(parent)
        } else {
            Seq::empty()
        },
        None => Seq::empty(),
    }
}

proof fn lemma_parent_at(path: Seq<char>, at: int)
    requires
        0 <= at < path.len(),
        path[at] == '/',
        forall|j: int| at < j < path.len() ==> path[j] != '/',
    ensures
        parent_of(path) == Some(path.take(at)),
    decreases path.len(),
{
    if at == path.len() - 1 {
        assert(path.drop_last() == path.take(at));
    } else {
        lemma_parent_at(path.drop_last(), at);
        assert(path.drop_last().take(at) == path.take(at));
    }
}

proof fn lemma_top_has_no_ancestors(path: Seq<char>)
    requires
        forall|j: int| 1 <= j < path.len() ==> path[j] != '/',
    ensures
        parent_of(path) matches Some(parent) ==> parent.len() == 0,
        ancestors(path) == Seq::<Seq<char>>::empty(),
    decreases path.len(),
{
    if path.len() == 0 {
    } else if path.len() == 1 {
        assert(parent_of(path.drop_last()) is None);
    } else {
        lemma_top_has_no_ancestors(path.drop_last());
        assert(parent_of(path) == parent_of(path.drop_last()));
    }
}

proof fn lemma_parent_is_a_prefix(path: Seq<char>)
    ensures
        parent_of(path) matches Some(parent) ==> {
            &&& parent.len() < path.len()
            &&& parent == path.take(parent.len() as int)
            &&& path[parent.len() as int] == '/'
        },
    decreases path.len(),
{
    if path.len() > 0 {
        if path.last() == '/' {
            assert(path.drop_last() == path.take(path.len() - 1));
        } else {
            lemma_parent_is_a_prefix(path.drop_last());
            if let Some(parent) = parent_of(path.drop_last()) {
                assert(path.drop_last().take(parent.len() as int) == path.take(
                    parent.len() as int,
                ));
            }
        }
    }
}

/// Every directory above a path is a proper, non-empty beginning of that
/// path, and what follows it in the path is a separator. Nothing is listed
/// that the path itself does not lead through.
pub proof fn lemma_ancestors_lie_above(path: Seq<char>, rank: int)
    requires
        0 <= rank < ancestors(path).len(),
    ensures
        0 < ancestors(path)[rank].len() < path.len(),
        ancestors(path)[rank] == path.take(ancestors(path)[rank].len() as int),
        path[ancestors(path)[rank].len() as int] == '/',
    decreases path.len(),
{
    lemma_parent_is_a_prefix(path);
    let parent = parent_of(path)->0;
    if rank > 0 {
        assert(ancestors(path)[rank] == ancestors(parent)[rank - 1]);
        lemma_ancestors_lie_above(parent, rank - 1);
        let above = ancestors(parent)[rank - 1];
        assert(parent.take(above.len() as int) == path.take(above.len() as int));
    }
}

/// Lists the directories above `path`, nearest first.
pub fn list_ancestors(path: &str) -> (list: Vec<String>)
    ensures
        texts(list@) == ancestors(path@),
{
    let n = path.unicode_len();
    let mut list: Vec<String> = Vec::new();
    let mut i: usize = n;
    let mut below: usize = n;
    proof {
        assert(path@.take(n as int) == path@);
        assert(texts(list@) + ancestors(path@.take(below as int)) == ancestors(path@));
    }
    while i > 1
        invariant
            n == path@.len(),
            i <= below <= n,
            i >= 1 || n == 0,
            forall|j: int| i <= j < below ==> path@[j] != '/',
            texts(list@) + ancestors(path@.take(below as int)) == ancestors(path@),
        decreases i,
    {
        i -= 1;
        if path.get_char(i) == '/' {
            let dir = String::from_str(path.substring_char(0, i));
            let ghost earlier = list@;
            proof {
                let shorter = path@.take(below as int);
                lemma_parent_at(shorter, i as int);
                assert(shorter.take(i as int) == path@.take(i as int));
                assert(path@.take(i as int) == path@.subrange(0, i as int));
                assert(ancestors(shorter) == seq![dir@] + ancestors(path@.take(i as int)));
            }
            list.push(dir);
            below = i;
            proof {
                assert(texts(list@) == texts(earlier).push(dir@));
                assert(texts(list@) + ancestors(path@.take(below as int)) =~= texts(earlier) + (
                seq![dir@] + ancestors(path@.take(i as int))));
            }
        }
    }
    proof {
        lemma_top_has_no_ancestors(path@.take(below as int));
        assert(texts(list@) + Seq::<Seq<char>>::empty() == texts(list@));
    }
    list
}

/// What the executor asks of the remote side.
#[derive(Debug)]
pub enum TransferRequest {
    /// Open this remote file for writing, emptying it if it exists.
    Open(String),
    /// Make this remote directory with these permissions.
    Mkdir(String, i32),
    /// Stream the local content into the open remote file through a buffer
    /// of this many bytes.
    Copy(usize),
}

pub enum TransferRequestView {
    Open(Seq<char>),
    Mkdir(Seq<char>, i32),
    Copy(usize),
}

impl View for TransferRequest {
    type V = TransferRequestView;

    open spec fn view(&self) -> TransferRequestView {
        match self {
            TransferRequest::Open(path) => TransferRequestView::Open(path@),
            TransferRequest::Mkdir(path, mode) => TransferRequestView::Mkdir(path@, *mode),
            TransferRequest::Copy(buffer) => TransferRequestView::Copy(*buffer),
        }
    }
}

/// Which request of a transfer is waiting for its answer.
#[derive(Clone, Copy, PartialEq, Eq, Structural, Debug)]
pub enum Phase {
    /// The first attempt to open the remote file.
    Opening,
    /// Making the ancestor of this rank, not knowing whether the one above it exists.
    Climbing(usize),
    /// Making the ancestor of this rank, the one above it being in place.
    Descending(usize),
    /// Opening the remote file again after its directories were made.
    Reopening,
    /// Streaming the content.
    Copying,
}

/// A transfer in progress.
#[derive(Debug)]
pub struct Transfer {
    remote: String,
    above: Vec<String>,
    phase: Phase,
}

pub struct TransferView {
    pub remote: Seq<char>,
    pub phase: Phase,
}

/// The outcome of one step: the next request, or the end of the transfer.
#[derive(Debug)]
pub enum TransferStep {
    Ask(Transfer, TransferRequest),
    End(Result<(), SSHError>),
}

pub enum TransferStepView {
    Ask(TransferView, TransferRequestView),
    End(Result<(), SSHErrorView>),
}

impl View for Transfer {
    type V = TransferView;

    closed spec fn view(&self) -> TransferView {
        TransferView { remote: self.remote@, phase: self.phase }
    }
}

impl View for TransferStep {
    type V = TransferStepView;

    open spec fn view(&self) -> TransferStepView {
        match self {
            TransferStep::Ask(transfer, request) => TransferStepView::Ask(transfer@, request@),
            TransferStep::End(Ok(())) => TransferStepView::End(Ok(())),
            TransferStep::End(Err(e)) => TransferStepView::End(Err(e@)),
        }
    }
}

/// The answer to a request, as the model sees it.
pub open spec fn reply_view(reply: Result<(), TransportError>) -> Result<(), TransportErrorView> {
    match reply {
        Ok(()) => Ok(()),
        Err(e) => Err(e@),
    }
}

/// The text reported when no directory above the file could be made.
pub open spec fn reached_root() -> Seq<char> {
    "reached root, cannot recurse further"@
}

impl TransferView {
    /// The phase names a directory that exists above the remote path.
    pub open spec fn wf(self) -> bool {
        match self.phase {
            Phase::Climbing(rank) => rank < ancestors(self.remote).len(),
            Phase::Descending(rank) => rank < ancestors(self.remote).len(),
            _ => true,
        }
    }

    /// The request that is waiting for its answer.
    pub open spec fn pending(self) -> TransferRequestView {
        match self.phase {
            Phase::Opening => TransferRequestView::Open(self.remote),
            Phase::Climbing(rank) => TransferRequestView::Mkdir(
                ancestors(self.remote)[rank as int],
                DIRECTORY_MODE,
            ),
            Phase::Descending(rank) => TransferRequestView::Mkdir(
                ancestors(self.remote)[rank as int],
                DIRECTORY_MODE,
            ),
            Phase::Reopening => TransferRequestView::Open(self.remote),
            Phase::Copying => TransferRequestView::Copy(BUFF_SIZE),
        }
    }

    /// The transfer in another phase.
    pub open spec fn at(self, phase: Phase) -> TransferView {
        TransferView { remote: self.remote, phase }
    }

    /// The transfer in another phase, together with the request of that phase.
    pub open spec fn ask(self, phase: Phase) -> TransferStepView {
        TransferStepView::Ask(self.at(phase), self.at(phase).pending())
    }

    /// What follows the directory of rank `rank` having been made.
    pub open spec fn after_made(self, rank: usize) -> TransferStepView {
        if rank == 0 {
            self.ask(Phase::Reopening)
        } else {
            self.ask(Phase::Descending((rank - 1) as usize))
        }
    }

    /// What follows the answer `reply` to the pending request.
    pub open spec fn step(self, reply: Result<(), TransportErrorView>) -> TransferStepView {
        let count = ancestors(self.remote).len();
        match (self.phase, reply) {
            (Phase::Opening, Ok(())) => self.ask(Phase::Copying),
            (Phase::Opening, Err(e)) => if !e.is_missing() {
                TransferStepView::End(Err(SSHErrorView::SSH2(e)))
            } else if count == 0 {
                TransferStepView::End(Err(SSHErrorView::MkdirError(reached_root())))
            } else {
                self.ask(Phase::Climbing(0))
            },
            (Phase::Climbing(rank), Ok(())) => self.after_made(rank),
            (Phase::Climbing(rank), Err(e)) => if !e.is_missing() {
                TransferStepView::End(Err(SSHErrorView::MkdirError(e.message)))
            } else if rank + 1 < count {
                self.ask(Phase::Climbing((rank + 1) as usize))
            } else {
                TransferStepView::End(Err(SSHErrorView::MkdirError(reached_root())))
            },
            (Phase::Descending(rank), Ok(())) => self.after_made(rank),
            (Phase::Descending(_), Err(e)) => TransferStepView::End(
                Err(SSHErrorView::MkdirError(e.message)),
            ),
            (Phase::Reopening, Ok(())) => self.ask(Phase::Copying),
            (Phase::Reopening, Err(e)) => TransferStepView::End(Err(SSHErrorView::SSH2(e))),
            (Phase::Copying, Ok(())) => TransferStepView::End(Ok(())),
            (Phase::Copying, Err(e)) => TransferStepView::End(Err(SSHErrorView::SSH2(e))),
        }
    }

    /// An upper bound on the number of answers the transfer can still take.
    pub open spec fn remaining(self) -> nat {
        let count = ancestors(self.remote).len();
        match self.phase {
            Phase::Opening => 2 * count + 3,
            Phase::Climbing(rank) => (2 * count + 2 - rank) as nat,
            Phase::Descending(rank) => (rank + 3) as nat,
            Phase::Reopening => 2,
            Phase::Copying => 1,
        }
    }
}

/// Whatever directory a transfer asks to be made lies above the remote
/// file on the file's own path, and is made with the fixed permissions.
pub proof fn lemma_only_ancestors_are_made(transfer: TransferView)
    requires
        transfer.wf(),
        transfer.pending() is Mkdir,
    ensures
        transfer.pending() matches TransferRequestView::Mkdir(dir, mode) && {
            &&& mode == DIRECTORY_MODE
            &&& 0 < dir.len() < transfer.remote.len()
            &&& dir == transfer.remote.take(dir.len() as int)
            &&& transfer.remote[dir.len() as int] == '/'
        },
{
    match transfer.phase {
        Phase::Climbing(rank) => lemma_ancestors_lie_above(transfer.remote, rank as int),
        Phase::Descending(rank) => lemma_ancestors_lie_above(transfer.remote, rank as int),
        _ => {},
    }
}

impl Transfer {
    /// The list of directories belongs to the remote path and the phase
    /// points into it.
    pub closed spec fn wf(&self) -> bool {
        &&& texts(self.above@) == ancestors(self.remote@)
        &&& self@.wf()
    }

    /// Starts the transfer of a file to `remote`: the first request is to
    /// open that file.
    pub fn begin(remote: &str) -> (start: (Transfer, TransferRequest))
        ensures
            start.0.wf(),
            start.0@.wf(),
            start.0@ == (TransferView { remote: remote@, phase: Phase::Opening }),
            start.1@ == start.0@.pending(),
    {
        let transfer = Transfer {
            remote: String::from_str(remote),
            above: list_ancestors(remote),
            phase: Phase::Opening,
        };
        (transfer, TransferRequest::Open(String::from_str(remote)))
    }

    fn ask(self, phase: Phase) -> (step: TransferStep)
        requires
            self.wf(),
            self@.at(phase).wf(),
        ensures
            step@ == self@.ask(phase),
            step matches TransferStep::Ask(next, _) && next.wf(),
    {
        let request = match phase {
            Phase::Opening => TransferRequest::Open(self.remote.clone()),
            Phase::Reopening => TransferRequest::Open(self.remote.clone()),
            Phase::Climbing(rank) => TransferRequest::Mkdir(
                self.above[rank].clone(),
                DIRECTORY_MODE,
            ),
            Phase::Descending(rank) => TransferRequest::Mkdir(
                self.above[rank].clone(),
                DIRECTORY_MODE,
            ),
            Phase::Copying => TransferRequest::Copy(BUFF_SIZE),
        };
        let next = Transfer { remote: self.remote, above: self.above, phase };
        TransferStep::Ask(next, request)
    }

    fn after_made(self, rank: usize) -> (step: TransferStep)
        requires
            self.wf(),
            rank < ancestors(self@.remote).len(),
        ensures
            step@ == self@.after_made(rank),
            step matches TransferStep::Ask(next, _) ==> next.wf(),
    {
        if rank == 0 {
            self.ask(Phase::Reopening)
        } else {
            self.ask(Phase::Descending(rank - 1))
        }
    }

    /// Takes the answer to the pending request and says what comes next.
    ///
    /// A failure to open the file or to make a directory is repaired only
    /// where it says that something is missing; every other failure ends the
    /// transfer. Nothing that was written is taken back here.
    pub fn step(self, reply: Result<(), TransportError>) -> (step: TransferStep)
        requires
            self.wf(),
        ensures
            step@ == self@.step(reply_view(reply)),
            step matches TransferStep::Ask(next, request) ==> {
                &&& next.wf()
                &&& next@.wf()
                &&& request@ == next@.pending()
                &&& next@.remote == self@.remote
                &&& next@.remaining() < self@.remaining()
            },
    {
        let count = self.above.len();
        proof {
            assert(texts(self.above@).len() == count);
            reveal_strlit("reached root, cannot recurse further");
        }
        match (self.phase, reply) {
            (Phase::Opening, Ok(())) => self.ask(Phase::Copying),
            (Phase::Opening, Err(e)) => {
                if !e.is_missing() {
                    TransferStep::End(Err(SSHError::SSH2(e)))
                } else if count == 0 {
                    TransferStep::End(
                        Err(
                            SSHError::MkdirError(
                                String::from_str("reached root, cannot recurse further"),
                            ),
                        ),
                    )
                } else {
                    self.ask(Phase::Climbing(0))
                }
            },
            (Phase::Climbing(rank), Ok(())) => self.after_made(rank),
            (Phase::Climbing(rank), Err(e)) => {
                if !e.is_missing() {
                    TransferStep::End(Err(SSHError::MkdirError(e.message)))
                } else if rank + 1 < count {
                    self.ask(Phase::Climbing(rank + 1))
                } else {
                    TransferStep::End(
                        Err(
                            SSHError::MkdirError(
                                String::from_str("reached root, cannot recurse further"),
                            ),
                        ),
                    )
                }
            },
            (Phase::Descending(rank), Ok(())) => self.after_made(rank),
            (Phase::Descending(_), Err(e)) => TransferStep::End(
                Err(SSHError::MkdirError(e.message)),
            ),
            (Phase::Reopening, Ok(())) => self.ask(Phase::Copying),
            (Phase::Reopening, Err(e)) => TransferStep::End(Err(SSHError::SSH2(e))),
            (Phase::Copying, Ok(())) => TransferStep::End(Ok(())),
            (Phase::Copying, Err(e)) => TransferStep::End(Err(SSHError::SSH2(e))),
        }
    }
}

/// Bytes per second, rounded down, for `size` bytes moved in `micros`
/// microseconds.
pub open spec fn rate_of(size: u64, micros: u64) -> int {
    size * 1_000_000 / micros as int
}

/// The throughput of a transfer in bytes per second.
///
/// There is no rate for a transfer that took no measurable time. A rate too
/// large for the result is reported as the largest value.
pub fn throughput(size: u64, micros: u64) -> (rate: Option<u64>)
    ensures
        micros == 0 <==> rate is None,
        micros > 0 ==> rate == Some(
            if rate_of(size, micros) > u64::MAX {
                u64::MAX
            } else {
                rate_of(size, micros) as u64
            },
        ),
{
    if micros == 0 {
        return None;
    }
    let scaled: u128 = size as u128 * 1_000_000;
    let rate: u128 = scaled / micros as u128;
    if rate > u64::MAX as u128 {
        Some(u64::MAX)
    } else {
        Some(rate as u64)
    }
}

} // verus!
