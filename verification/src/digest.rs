//! Content fingerprints: SHA-256 over a stream of chunks, written out as
//! lowercase hexadecimal text.
//!
//! The hash itself is computed by the `sha2` crate and the text is produced by
//! `data_encoding`. Both are reached through the trusted items at the top of
//! this module; the chunking, the length bookkeeping and the shape of the
//! resulting text are verified here.
use crate::text::chars_of;
use vstd::prelude::*;

verus! {

/// The longest message, in bytes, that SHA-256 is defined for: its length in
/// bits has to fit in 64 bits.
pub const MAX_MESSAGE_LEN: u64 = 0x1FFF_FFFF_FFFF_FFFF;

/// The size of the pieces in which [`sha256_digest`] feeds its input.
pub const CHUNK_LEN: usize = 1024;

/// The number of bytes in a SHA-256 hash.
pub const HASH_LEN: usize = 32;

/// A running SHA-256 computation of the `sha2` crate.
///
/// Trusted: the hasher is a generic type whose bounds are traits that the
/// verifier cannot be told about, so it is kept behind this opaque struct.
#[verifier::external_body]
pub struct HashState {
    inner: sha2::Sha256,
}

/// The bytes that a hasher has been fed since it was created, in order.
///
/// Trusted: this is the history of one hasher, told by the functions below
/// that create and feed it. The hasher does not store it, and nothing is
/// claimed of hashers that did not come from those functions.
pub uninterp spec fn absorbed(h: HashState) -> Seq<u8>;

/// The SHA-256 hash of a message, as `sha2` computes it.
///
/// Trusted: the hash is named, not defined. All that is claimed of it is
/// that it depends on the message alone and that, where it comes out of a
/// hasher, it has [`HASH_LEN`] bytes.
pub uninterp spec fn sha256_of(message: Seq<u8>) -> Seq<u8>;

/// Trusted: `sha2::Digest::new` for `Sha256` returns a hasher that has been
/// fed nothing yet.
#[verifier::external_body]
fn hash_state_new() -> (h: HashState)
    ensures
        absorbed(h) == Seq::<u8>::empty(),
{
    HashState { inner: <sha2::Sha256 as sha2::Digest>::new() }
}

/// Trusted: `sha2::Digest::update` appends `data` to what the hasher has been
/// fed. The total is kept within the length SHA-256 is defined for, where the
/// crate's block and bit counters cannot overflow.
#[verifier::external_body]
fn hash_state_update(h: &mut HashState, data: &[u8])
    requires
        absorbed(*old(h)).len() + data@.len() <= MAX_MESSAGE_LEN,
    ensures
        absorbed(*final(h)) == absorbed(*old(h)) + data@,
{
    sha2::Digest::update(&mut h.inner, data);
}

/// Trusted: `sha2::Digest::finalize` returns the 32-byte SHA-256 hash of
/// everything the hasher has been fed, a function of those bytes alone.
#[verifier::external_body]
fn hash_state_finalize(h: HashState) -> (hash: Vec<u8>)
    requires
        absorbed(h).len() <= MAX_MESSAGE_LEN,
    ensures
        hash@ == sha256_of(absorbed(h)),
        hash@.len() == HASH_LEN,
{
    sha2::Digest::finalize(h.inner).to_vec()
}

/// Trusted: `data_encoding::HEXLOWER.encode` writes each byte as two
/// characters of `0123456789abcdef`, the high half first. The crate may panic
/// on inputs longer than `usize::MAX / 512`, which are left out.
#[verifier::external_body]
fn hex_encode(bytes: &[u8]) -> (text: String)
    requires
        bytes@.len() <= usize::MAX / 512,
    ensures
        text@ == hex_lower(bytes@),
{
    data_encoding::HEXLOWER.encode(bytes)
}

/// The character for a value below sixteen.
pub open spec fn hex_digit(n: int) -> char {
    seq!['0', '1', '2', '3', '4', '5', '6', '7', '8', '9', 'a', 'b', 'c', 'd', 'e', 'f'][n]
}

/// Lowercase hexadecimal text of a byte string: two characters per byte, the
/// high half of each byte first.
pub open spec fn hex_lower(bytes: Seq<u8>) -> Seq<char> {
    Seq::new(
        2 * bytes.len(),
        |i: int|
            if i % 2 == 0 {
                hex_digit(bytes[i / 2] as int / 16)
            } else {
                hex_digit(bytes[i / 2] as int % 16)
            },
    )
}

/// Whether `c` is one of the sixteen characters of lowercase hexadecimal.
pub open spec fn is_lower_hex(c: char) -> bool {
    ('0' <= c && c <= '9') || ('a' <= c && c <= 'f')
}

/// Whether `text` has the shape of a fingerprint: 64 characters of lowercase
/// hexadecimal.
pub open spec fn is_fingerprint(text: Seq<char>) -> bool {
    &&& text.len() == 2 * HASH_LEN
    &&& forall|i: int| 0 <= i < text.len() ==> is_lower_hex(#[trigger] text[i])
}

/// The fingerprint of a message: its SHA-256 hash in lowercase hexadecimal.
pub open spec fn digest_text(message: Seq<u8>) -> Seq<char> {
    hex_lower(sha256_of(message))
}

/// Hexadecimal text has twice the length of the bytes and holds nothing but
/// lowercase hexadecimal characters.
pub proof fn lemma_hex_lower_shape(bytes: Seq<u8>)
    ensures
        hex_lower(bytes).len() == 2 * bytes.len(),
        forall|i: int| 0 <= i < hex_lower(bytes).len() ==> is_lower_hex(#[trigger] hex_lower(bytes)[i]),
{
}

/// Two byte strings with the same hexadecimal text are the same byte string.
pub proof fn lemma_hex_lower_injective(a: Seq<u8>, b: Seq<u8>)
    requires
        hex_lower(a) == hex_lower(b),
    ensures
        a == b,
{
    assert(a.len() == b.len()) by {
        assert(hex_lower(b).len() == 2 * b.len());
    }
    assert forall|k: int| 0 <= k < a.len() implies a[k] == b[k] by {
        let hi_a = hex_lower(a)[2 * k];
        let hi_b = hex_lower(b)[2 * k];
        let lo_a = hex_lower(a)[2 * k + 1];
        let lo_b = hex_lower(b)[2 * k + 1];
    }
}

/// A SHA-256 computation that is fed piece by piece.
///
/// Its view is the message so far: every byte that [`Digester::update`] has
/// accepted, in order.
pub struct Digester {
    state: HashState,
    fed: u64,
}

impl View for Digester {
    type V = Seq<u8>;

    closed spec fn view(&self) -> Seq<u8> {
        absorbed(self.state)
    }
}

impl Digester {
    /// The message so far is as long as the counter says, and within the
    /// length SHA-256 is defined for.
    pub closed spec fn wf(&self) -> bool {
        &&& self.fed == absorbed(self.state).len()
        &&& self.fed <= MAX_MESSAGE_LEN
    }

    /// Starts a computation over the empty message.
    pub fn new() -> (d: Digester)
        ensures
            d.wf(),
            d@ == Seq::<u8>::empty(),
    {
        Digester { state: hash_state_new(), fed: 0 }
    }

    /// The number of bytes accepted so far.
    pub fn len(&self) -> (n: u64)
        requires
            self.wf(),
        ensures
            n == self@.len(),
            n <= MAX_MESSAGE_LEN,
    {
        self.fed
    }

    /// Appends `chunk` to the message, unless that would take the message
    /// past [`MAX_MESSAGE_LEN`]: then nothing changes and the result is
    /// `false`.
    pub fn update(&mut self, chunk: &[u8]) -> (accepted: bool)
        requires
            old(self).wf(),
        ensures
            final(self).wf(),
            accepted == (old(self)@.len() + chunk@.len() <= MAX_MESSAGE_LEN),
            accepted ==> final(self)@ == old(self)@ + chunk@,
            !accepted ==> final(self)@ == old(self)@,
    {
        let room: u64 = MAX_MESSAGE_LEN - self.fed;
        if chunk.len() as u64 > room {
            return false;
        }
        hash_state_update(&mut self.state, chunk);
        self.fed = self.fed + chunk.len() as u64;
        true
    }

    /// Ends the computation and returns the fingerprint of the message: 64
    /// characters of lowercase hexadecimal.
    pub fn finish(self) -> (text: String)
        requires
            self.wf(),
        ensures
            text@ == digest_text(self@),
            is_fingerprint(text@),
    {
        let hash = hash_state_finalize(self.state);
        proof {
            lemma_hex_lower_shape(hash@);
        }
        hex_encode(hash.as_slice())
    }
}

/// Decides [`is_fingerprint`].
pub fn is_fingerprint_text(text: &str) -> (r: bool)
    ensures
        r == is_fingerprint(text@),
{
    let chars = chars_of(text);
    if chars.len() != 2 * HASH_LEN {
        return false;
    }
    let mut at: usize = 0;
    while at < chars.len()
        invariant
            at <= chars@.len(),
            chars@ == text@,
            forall|i: int| 0 <= i < at ==> is_lower_hex(#[trigger] chars@[i]),
        decreases chars@.len() - at,
    {
        let c = chars[at];
        if !(('0' <= c && c <= '9') || ('a' <= c && c <= 'f')) {
            return false;
        }
        at = at + 1;
    }
    true
}

/// The fingerprint of `data`, fed to the hash in pieces of [`CHUNK_LEN`]
/// bytes. `None` exactly when `data` is longer than SHA-256 is defined for.
pub fn sha256_digest(data: &[u8]) -> (r: Option<String>)
    ensures
        r is Some <==> data@.len() <= MAX_MESSAGE_LEN,
        r is Some ==> r->0@ == digest_text(data@) && is_fingerprint(r->0@),
{
    let mut digester = Digester::new();
    let mut at: usize = 0;
    while at < data.len()
        invariant
            at <= data@.len(),
            digester.wf(),
            digester@ == data@.subrange(0, at as int),
        decreases data@.len() - at,
    {
        let end: usize = if data.len() - at > CHUNK_LEN {
            at + CHUNK_LEN
        } else {
            data.len()
        };
        let chunk = &data[at..end];
        if !digester.update(chunk) {
            return None;
        }
        at = end;
    }
    proof {
        assert(data@.subrange(0, at as int) =~= data@);
    }
    Some(digester.finish())
}

/// The fingerprint is a function of the message: the same bytes have the
/// same fingerprint, whenever and however often it is computed.
pub proof fn lemma_digest_is_deterministic(first: Seq<u8>, second: Seq<u8>)
    requires
        first == second,
    ensures
        digest_text(first) == digest_text(second),
{
}

/// Two messages have the same fingerprint exactly when they have the same
/// hash: the hexadecimal text loses nothing.
pub proof fn lemma_digest_text_faithful(a: Seq<u8>, b: Seq<u8>)
    ensures
        digest_text(a) == digest_text(b) <==> sha256_of(a) == sha256_of(b),
{
    if digest_text(a) == digest_text(b) {
        lemma_hex_lower_injective(sha256_of(a), sha256_of(b));
    }
}

} // verus!
