//! Fingerprinting content: SHA-256 over the whole byte stream, rendered as
//! lowercase hexadecimal, together with the number of bytes read.

use vstd::prelude::*;
use vstd::slice::slice_subrange;
use ring::digest::Context;
use super::state::{Identity, IdentityView};

verus! {

/// `ring::digest::Context`, a digest computation in progress. Nothing inside
/// it is visible here; it is only handed on to the calls below.
#[verifier::external_type_specification]
#[verifier::external_body]
pub struct ExContext(Context);

/// The SHA-256 digest of `data`, as `ring::digest::Context::finish` gives it
/// for a context that was fed `data`. The digest depends on the bytes alone.
pub uninterp spec fn sha256(data: Seq<u8>) -> Seq<u8>;

/// The bytes a digest context has been fed since it was created, in order:
/// what `ring::digest::Context::update` has added to it, call after call.
pub uninterp spec fn context_input(ctx: Context) -> Seq<u8>;

/// The longest input, in bytes, whose length in bits still fits the 64-bit
/// counter that closes a SHA-256 computation.
pub const MAX_CONTENT_LEN: u64 = 0x1fff_ffff_ffff_ffff;

/// The length of a SHA-256 digest in bytes.
pub const DIGEST_LEN: usize = 32;

/// Size of the buffer a caller should read a file through when hashing it.
pub const HASH_BUFFER_LEN: usize = 1024;

/// The lowercase hexadecimal digit for a value below sixteen.
pub open spec fn hex_digit(nibble: int) -> char {
    seq!['0', '1', '2', '3', '4', '5', '6', '7', '8', '9', 'a', 'b', 'c', 'd', 'e', 'f'][nibble]
}

/// Lowercase hexadecimal rendering: two digits per byte, high nibble first.
pub open spec fn hex_lower(data: Seq<u8>) -> Seq<char> {
    Seq::new(
        2 * data.len(),
        |i: int| if i % 2 == 0 {
            hex_digit(data[i / 2] as int / 16)
        } else {
            hex_digit(data[i / 2] as int % 16)
        },
    )
}

/// The identity of a piece of content: the hex digest of all of it, and its length.
pub open spec fn identity_of(content: Seq<u8>) -> IdentityView {
    IdentityView { digest: hex_lower(sha256(content)), size: content.len() }
}

/// `ring::digest::Context::new` with the SHA-256 algorithm: a context that
/// has been fed nothing yet.
#[verifier::external_body]
fn context_new() -> (ctx: Context)
    ensures
        context_input(ctx) == Seq::<u8>::empty(),
{
    Context::new(&ring::digest::SHA256)
}

/// `ring::digest::Context::update`: the context has now been fed `data` after
/// everything it was fed before. The call never fails.
#[verifier::external_body]
fn context_update(ctx: &mut Context, data: &[u8])
    ensures
        context_input(*final(ctx)) == context_input(*old(ctx)) + data@,
{
    ctx.update(data)
}

/// `ring::digest::Context::finish`, with the digest copied out: the SHA-256
/// digest of everything the context was fed, which is 32 bytes long.
/// `finish` panics once the input's length in bits no longer fits in 64 bits,
/// so longer inputs are excluded.
#[verifier::external_body]
fn context_finish(ctx: Context) -> (digest: Vec<u8>)
    requires
        context_input(ctx).len() <= MAX_CONTENT_LEN,
    ensures
        digest@ == sha256(context_input(ctx)),
        digest@.len() == DIGEST_LEN,
{
    ctx.finish().as_ref().to_vec()
}

/// `hex::encode`: every byte becomes two lowercase hexadecimal digits.
#[verifier::external_body]
fn encode_hex(data: &[u8]) -> (text: String)
    ensures
        text@ == hex_lower(data@),
{
    hex::encode(data)
}

/// An identity in the making: content is fed in chunks of any size and the
/// identity of the whole is taken at the end.
pub struct Hasher {
    ctx: Context,
    seen: u64,
}

impl Hasher {
    /// Everything fed so far, in order.
    pub closed spec fn absorbed(&self) -> Seq<u8> {
        context_input(self.ctx)
    }

    /// The byte counter agrees with what was fed and is within the limit.
    pub closed spec fn wf(&self) -> bool {
        &&& self.seen == self.absorbed().len()
        &&& self.seen <= MAX_CONTENT_LEN
    }

    pub fn new() -> (hasher: Self)
        ensures
            hasher.wf(),
            hasher.absorbed() == Seq::<u8>::empty(),
    {
        Hasher { ctx: context_new(), seen: 0 }
    }

    /// Feeds one more chunk. A chunk that would take the content past
    /// [`MAX_CONTENT_LEN`] is refused and leaves the hasher as it was.
    pub fn update(&mut self, chunk: &[u8]) -> (accepted: bool)
        requires
            old(self).wf(),
        ensures
            final(self).wf(),
            accepted == (old(self).absorbed().len() + chunk@.len() <= MAX_CONTENT_LEN),
            accepted ==> final(self).absorbed() == old(self).absorbed() + chunk@,
            !accepted ==> final(self).absorbed() == old(self).absorbed(),
    {
        let room = MAX_CONTENT_LEN - self.seen;
        if chunk.len() as u64 > room {
            return false;
        }
        context_update(&mut self.ctx, chunk);
        self.seen = self.seen + chunk.len() as u64;
        true
    }

    /// Feeds what a read has left at the front of `buffer`: its first
    /// `count` bytes. Content that would go past [`MAX_CONTENT_LEN`] is
    /// refused and leaves the hasher as it was.
    pub fn absorb(&mut self, buffer: &[u8], count: usize) -> (accepted: bool)
        requires
            old(self).wf(),
            count <= buffer@.len(),
        ensures
            final(self).wf(),
            accepted == (old(self).absorbed().len() + count <= MAX_CONTENT_LEN),
            accepted ==> final(self).absorbed() == old(self).absorbed() + buffer@.take(
                count as int,
            ),
            !accepted ==> final(self).absorbed() == old(self).absorbed(),
    {
        let filled = slice_subrange(buffer, 0, count);
        self.update(filled)
    }

    /// The identity of everything that was fed. Its digest is written in
    /// 64 hexadecimal digits.
    pub fn finish(self) -> (id: Identity)
        requires
            self.wf(),
        ensures
            id@ == identity_of(self.absorbed()),
            id@.digest.len() == 2 * DIGEST_LEN,
    {
        let digest = context_finish(self.ctx);
        Identity::new(encode_hex(digest.as_slice()), self.seen)
    }
}

/// Identity determinism: content has one identity. Two identities taken
/// of the same bytes have the same digest and the same size.
pub proof fn lemma_identity_is_deterministic(
    content: Seq<u8>,
    first: IdentityView,
    second: IdentityView,
)
    requires
        first == identity_of(content),
        second == identity_of(content),
    ensures
        first.digest == second.digest,
        first.size == second.size,
        first.size == content.len(),
        first.digest.len() == 2 * sha256(content).len(),
{
}

/// Chunking is irrelevant: what matters to a hasher is the bytes it was fed,
/// not where one chunk ended and the next began. Feeding `first` and then
/// `second` is feeding both at once, and a hasher that was fed nothing before
/// holds exactly what it is fed.
pub proof fn lemma_identity_ignores_chunking(
    before: Seq<u8>,
    first: Seq<u8>,
    second: Seq<u8>,
)
    ensures
        identity_of((before + first) + second) == identity_of(before + (first + second)),
        identity_of(Seq::<u8>::empty() + first) == identity_of(first),
{
    assert((before + first) + second =~= before + (first + second));
    assert(Seq::<u8>::empty() + first =~= first);
}

} // verus!
