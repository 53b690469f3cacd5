//! File fingerprints for change detection: the MD5 digest of the first bytes
//! of a file, its size in decimal and its modification time as text.
use vstd::prelude::*;
use vstd::string::StringSliceAdditionalSpecFns;
use crate::text::{decimal, digit_char, digit_text};

verus! {

/// The MD5 digest of a byte string.
pub uninterp spec fn md5_of(data: Seq<u8>) -> Seq<u8>;

/// Relies on `md5::Md5` (crate md-5) through `Digest::digest`: the MD5 digest
/// of the input, whose output size is 16 bytes.
#[verifier::external_body]
fn md5_digest(data: &[u8]) -> (r: Vec<u8>)
    ensures
        r@ == md5_of(data@),
        r@.len() == 16,
{
    <md5::Md5 as md5::Digest>::digest(data).to_vec()
}

/// How many bytes of the start of a file go into its fingerprint.
pub const HEAD_BYTES: usize = 65536;

/// The bytes of ASCII text.
pub open spec fn ascii_bytes(cs: Seq<char>) -> Seq<u8> {
    cs.map_values(|c: char| c as u8)
}

/// Each byte as two lower-case hexadecimal digits, in order.
pub open spec fn hex_bytes(b: Seq<u8>) -> Seq<char>
    decreases b.len(),
{
    if b.len() == 0 {
        Seq::empty()
    } else {
        hex_bytes(b.drop_last()) + seq![
            digit_char((b.last() / 16) as nat),
            digit_char((b.last() % 16) as nat),
        ]
    }
}

/// What is digested: the head of the file, its size in decimal, and the
/// text of its modification time.
pub open spec fn fingerprint_message(head: Seq<u8>, file_size: nat, modified: Seq<u8>) -> Seq<u8> {
    head + ascii_bytes(decimal(file_size)) + modified
}

/// The bytes of `n` in decimal.
fn decimal_bytes(n: u64) -> (r: Vec<u8>)
    ensures
        r@ == ascii_bytes(decimal(n as nat)),
    decreases n,
{
    if n < 10 {
        let mut v: Vec<u8> = Vec::new();
        v.push(48 + n as u8);
        assert(v@ =~= ascii_bytes(decimal(n as nat)));
        v
    } else {
        let mut v = decimal_bytes(n / 10);
        v.push(48 + (n % 10) as u8);
        assert(v@ =~= ascii_bytes(decimal(n as nat)));
        v
    }
}

/// Writes each byte as two lower-case hexadecimal digits.
pub fn hex_encode(b: &[u8]) -> (r: String)
    ensures
        r@ == hex_bytes(b@),
{
    let mut s = String::new();
    let mut i: usize = 0;
    while i < b.len()
        invariant
            0 <= i <= b@.len(),
            s@ == hex_bytes(b@.subrange(0, i as int)),
        decreases b@.len() - i,
    {
        let x = b[i];
        s.append(digit_text((x / 16) as u64));
        s.append(digit_text((x % 16) as u64));
        assert(b@.subrange(0, i + 1).drop_last() =~= b@.subrange(0, i as int));
        assert(s@ =~= hex_bytes(b@.subrange(0, i + 1)));
        i = i + 1;
    }
    assert(b@.subrange(0, b@.len() as int) =~= b@);
    s
}

/// The fingerprint of a file whose first bytes are `head`, whose size is
/// `file_size`, and whose modification time reads `modified`: the MD5
/// digest of `fingerprint_message`, in hexadecimal.
pub fn fingerprint(head: &[u8], file_size: u64, modified: &str) -> (r: String)
    ensures
        r@ == hex_bytes(md5_of(fingerprint_message(head@, file_size as nat, modified.spec_bytes()))),
        r@.len() == 32,
{
    let mut message: Vec<u8> = Vec::new();
    let mut i: usize = 0;
    while i < head.len()
        invariant
            0 <= i <= head@.len(),
            message@ == head@.subrange(0, i as int),
        decreases head@.len() - i,
    {
        message.push(head[i]);
        assert(message@ =~= head@.subrange(0, i + 1));
        i = i + 1;
    }
    assert(message@ =~= head@);
    let mut size_text = decimal_bytes(file_size);
    message.append(&mut size_text);
    let tail = modified.as_bytes();
    let mut j: usize = 0;
    while j < tail.len()
        invariant
            0 <= j <= tail@.len(),
            tail@ == modified.spec_bytes(),
            message@ == head@ + ascii_bytes(decimal(file_size as nat)) + tail@.subrange(0, j as int),
        decreases tail@.len() - j,
    {
        message.push(tail[j]);
        assert(message@ =~= head@ + ascii_bytes(decimal(file_size as nat)) + tail@.subrange(
            0,
            j + 1,
        ));
        j = j + 1;
    }
    assert(tail@.subrange(0, tail@.len() as int) =~= tail@);
    let digest = md5_digest(message.as_slice());
    proof {
        lemma_hex_bytes_len(digest@);
    }
    hex_encode(digest.as_slice())
}

proof fn lemma_hex_bytes_len(b: Seq<u8>)
    ensures
        hex_bytes(b).len() == 2 * b.len(),
    decreases b.len(),
{
    if b.len() > 0 {
        lemma_hex_bytes_len(b.drop_last());
    }
}

} // verus!
