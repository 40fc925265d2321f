//! SHA-256 digests of file contents, fed chunk by chunk, and their hex form.
use sha2::Digest;
use vstd::prelude::*;

verus! {

/// A running SHA-256 computation: it holds sha2's `Sha256`, whose type is an
/// alias of nested generic wrappers that cannot be declared to Verus, so the
/// struct itself is opaque and its contents are spoken of through
/// [`sha256_input`].
#[verifier::external_body]
pub struct Sha256Hasher {
    inner: sha2::Sha256,
}

/// The bytes that a running SHA-256 computation has absorbed so far.
pub uninterp spec fn sha256_input(h: Sha256Hasher) -> Seq<u8>;

/// The SHA-256 digest of a byte sequence.
pub uninterp spec fn sha256_digest(data: Seq<u8>) -> Seq<u8>;

/// Calls `Sha256::new` (trait `sha2::Digest`); claimed: the new computation
/// has absorbed nothing.
#[verifier::external_body]
fn sha256_new() -> (h: Sha256Hasher)
    ensures
        sha256_input(h) == Seq::<u8>::empty(),
{
    Sha256Hasher { inner: sha2::Sha256::new() }
}

/// Calls `Sha256::update` (trait `sha2::Digest`); claimed: `data` is appended
/// to the bytes absorbed so far, nothing else changes.
#[verifier::external_body]
fn sha256_update(h: &mut Sha256Hasher, data: &[u8])
    ensures
        sha256_input(*final(h)) == sha256_input(*old(h)) + data@,
{
    h.inner.update(data)
}

/// Calls `Sha256::finalize` (trait `sha2::Digest`) and converts the output
/// into an array; claimed: the array is the SHA-256 digest (named
/// [`sha256_digest`]) of all bytes absorbed.
#[verifier::external_body]
fn sha256_finalize(h: Sha256Hasher) -> (d: [u8; 32])
    ensures
        d@ == sha256_digest(sha256_input(h)),
{
    h.inner.finalize().into()
}

/// The digest of a file in progress: the file's bytes are handed over in the
/// chunks in which they were read.
pub struct HashState {
    hasher: Sha256Hasher,
}

impl View for HashState {
    type V = Seq<u8>;

    /// The bytes of the file consumed so far.
    closed spec fn view(&self) -> Seq<u8> {
        sha256_input(self.hasher)
    }
}

impl HashState {
    /// A computation that has consumed nothing.
    pub fn new() -> (s: Self)
        ensures
            s@ == Seq::<u8>::empty(),
    {
        HashState { hasher: sha256_new() }
    }

    /// Handles one read into `buffer` that gave `bytes_read` bytes: a read of
    /// zero bytes marks the end of the file; otherwise the first `bytes_read`
    /// bytes of the buffer are consumed. Returns whether more reads are needed.
    pub fn absorb_read(&mut self, buffer: &[u8], bytes_read: usize) -> (more: bool)
        requires
            bytes_read <= buffer@.len(),
        ensures
            more == (bytes_read != 0),
            final(self)@ == old(self)@ + buffer@.take(bytes_read as int),
    {
        if bytes_read == 0 {
            assert(buffer@.take(0) =~= Seq::<u8>::empty());
            assert(old(self)@ + buffer@.take(0) =~= old(self)@);
            return false;
        }
        let chunk = vstd::slice::slice_subrange(buffer, 0, bytes_read);
        assert(buffer@.subrange(0, bytes_read as int) =~= buffer@.take(bytes_read as int));
        sha256_update(&mut self.hasher, chunk);
        true
    }

    /// The SHA-256 digest of everything consumed.
    pub fn finish(self) -> (d: [u8; 32])
        ensures
            d@ == sha256_digest(self@),
    {
        sha256_finalize(self.hasher)
    }
}

/// The lower-case hexadecimal digit for a value below 16.
pub open spec fn hex_digit(n: int) -> char {
    if n < 10 {
        (48 + n) as char
    } else {
        (87 + n) as char
    }
}

/// The lower-case hexadecimal text of a byte sequence: two digits per byte,
/// the high half of the byte first.
pub open spec fn hex_lower(bytes: Seq<u8>) -> Seq<char>
    decreases bytes.len(),
{
    if bytes.len() == 0 {
        Seq::empty()
    } else {
        seq![hex_digit(bytes[0] as int / 16), hex_digit(bytes[0] as int % 16)] + hex_lower(bytes.drop_first())
    }
}

/// Calls `hex::encode`; claimed: the result is two lower-case hexadecimal
/// digits per byte of `data`, high half first, as [`hex_lower`] spells out.
#[verifier::external_body]
pub(crate) fn hex_encode(data: &[u8]) -> (s: String)
    ensures
        s@ == hex_lower(data@),
{
    hex::encode(data)
}

/// A digest as 64 lower-case hexadecimal digits.
pub fn digest_hex(hash: &[u8; 32]) -> (s: String)
    ensures
        s@ == hex_lower(hash@),
        s@.len() == 64,
{
    proof {
        lemma_hex_length(hash@);
    }
    hex_encode(hash)
}

/// The hex text of `n` bytes has `2 * n` characters.
pub proof fn lemma_hex_length(bytes: Seq<u8>)
    ensures
        hex_lower(bytes).len() == 2 * bytes.len(),
    decreases bytes.len(),
{
    if bytes.len() > 0 {
        lemma_hex_length(bytes.drop_first());
    }
}

proof fn lemma_hex_digit_injective(a: int, b: int)
    requires
        0 <= a < 16,
        0 <= b < 16,
        hex_digit(a) == hex_digit(b),
    ensures
        a == b,
{
    assert(hex_digit(a) as int == if a < 10 { 48 + a } else { 87 + a });
    assert(hex_digit(b) as int == if b < 10 { 48 + b } else { 87 + b });
}

/// Distinct byte sequences have distinct hex texts: the text identifies the
/// bytes it was made from.
pub proof fn lemma_hex_injective(a: Seq<u8>, b: Seq<u8>)
    requires
        hex_lower(a) == hex_lower(b),
    ensures
        a == b,
    decreases a.len(),
{
    lemma_hex_length(a);
    lemma_hex_length(b);
    if a.len() > 0 {
        let ha = hex_lower(a);
        let hb = hex_lower(b);
        assert(ha[0] == hb[0] && ha[1] == hb[1]);
        lemma_hex_digit_injective(a[0] as int / 16, b[0] as int / 16);
        lemma_hex_digit_injective(a[0] as int % 16, b[0] as int % 16);
        assert(a[0] == b[0]);
        let ra = hex_lower(a.drop_first());
        let rb = hex_lower(b.drop_first());
        assert(ra =~= ha.skip(2));
        assert(rb =~= hb.skip(2));
        lemma_hex_injective(a.drop_first(), b.drop_first());
        assert(a =~= seq![a[0]] + a.drop_first());
        assert(b =~= seq![b[0]] + b.drop_first());
    }
}

} // verus!
