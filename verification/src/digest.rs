use vstd::prelude::*;
use vstd::utf8::encode_utf8;
use crate::message::{PrePrepareMsg, RequestData, RequestMsg};
use sha2::Digest;

verus! {

/// Decimal digits of `n` as ASCII bytes, most significant first, with no
/// leading zeros (a single `0` for zero itself). This is how a canonical
/// JSON serializer renders an unsigned integer.
pub open spec fn dec_digits(n: nat) -> Seq<u8>
    decreases n,
{
    if n < 10 {
        seq![(48 + n) as u8]
    } else {
        dec_digits(n / 10).push((48 + n % 10) as u8)
    }
}

/// The ASCII byte of the lowercase hexadecimal digit for a value below 16.
pub open spec fn hex_digit_byte(v: u8) -> u8
    recommends
        v < 16,
{
    if v < 10 {
        (48 + v) as u8
    } else {
        (87 + v) as u8
    }
}

/// The lowercase hexadecimal digit character for a value below 16.
pub open spec fn hex_digit_char(v: u8) -> char
    recommends
        v < 16,
{
    hex_digit_byte(v) as char
}

/// Lowercase hexadecimal rendering of a byte string: two digits per byte,
/// bytes in order.
pub open spec fn hex_of(bytes: Seq<u8>) -> Seq<char>
    decreases bytes.len(),
{
    if bytes.len() == 0 {
        Seq::empty()
    } else {
        hex_of(bytes.drop_last()) + seq![
            hex_digit_char(bytes.last() / 16),
            hex_digit_char(bytes.last() % 16),
        ]
    }
}

/// The SHA-256 hash of a byte string. The function is named, not written
/// out: it depends on the input bytes alone, and nothing here states what
/// it returns on given bytes.
pub uninterp spec fn sha256_of(input: Seq<u8>) -> Seq<u8>;

/// Canonical JSON escaping of one byte of UTF-8 string content: quote and
/// backslash get a backslash escape, the common control bytes get their
/// short escape, the remaining control bytes a `\u00XX` escape, and every
/// other byte (including UTF-8 continuation bytes) passes through.
pub open spec fn escape_byte(b: u8) -> Seq<u8> {
    if b == 34 {  // quote
        seq![92u8, 34u8]
    } else if b == 92 {  // backslash
        seq![92u8, 92u8]
    } else if b == 8 {
        seq![92u8, 98u8]  // \b
    } else if b == 9 {
        seq![92u8, 116u8]  // \t
    } else if b == 10 {
        seq![92u8, 110u8]  // \n
    } else if b == 12 {
        seq![92u8, 102u8]  // \f
    } else if b == 13 {
        seq![92u8, 114u8]  // \r
    } else if b < 32 {
        seq![92u8, 117u8, 48u8, 48u8, hex_digit_byte(b / 16), hex_digit_byte(b % 16)]
    } else {
        seq![b]
    }
}

/// Canonical JSON escaping of a whole byte string.
pub open spec fn escape_bytes(s: Seq<u8>) -> Seq<u8>
    decreases s.len(),
{
    if s.len() == 0 {
        Seq::empty()
    } else {
        escape_bytes(s.drop_last()) + escape_byte(s.last())
    }
}

/// The canonical serialization a request is digested over: a JSON object
/// holding operation, time_stamp, client_id and sequence_id in that fixed
/// field order, with the digest field itself omitted.
pub open spec fn canon_bytes(
    op_utf8: Seq<u8>,
    time_stamp: u64,
    client_id: u32,
    sequence_id: u32,
) -> Seq<u8> {
    encode_utf8("{\"operation\":\""@) + escape_bytes(op_utf8) + encode_utf8("\",\"time_stamp\":"@)
        + dec_digits(time_stamp as nat) + encode_utf8(",\"client_id\":"@)
        + dec_digits(client_id as nat) + encode_utf8(",\"sequence_id\":"@)
        + dec_digits(sequence_id as nat) + encode_utf8("}"@)
}

/// The digest of a request: lowercase hex of the SHA-256 hash of the
/// canonical serialization. It reads the operation, timestamp, client id
/// and sequence id only; the digest field itself does not enter.
pub open spec fn digest_of(m: RequestData) -> Seq<char> {
    hex_of(sha256_of(canon_bytes(encode_utf8(m.operation), m.time_stamp, m.client_id, m.sequence_id)))
}

/// Relies on sha2's `Sha256` hasher (`Digest::digest`): the hash depends on
/// the input bytes alone, and the output is exactly 32 bytes.
#[verifier::external_body]
fn sha256_digest(input: &[u8]) -> (r: Vec<u8>)
    ensures
        r@ == sha256_of(input@),
        r@.len() == 32,
{
    sha2::Sha256::digest(input).to_vec()
}

/// Relies on `hex::encode`: lowercase hexadecimal, two digits per byte,
/// bytes in order.
#[verifier::external_body]
fn hex_lower(bytes: &[u8]) -> (r: String)
    ensures
        r@ == hex_of(bytes@),
{
    hex::encode(bytes)
}

/// Append the bytes of a slice to a byte buffer.
fn push_bytes(out: &mut Vec<u8>, s: &[u8])
    ensures
        final(out)@ == old(out)@ + s@,
{
    let mut i: usize = 0;
    while i < s.len()
        invariant
            i <= s@.len(),
            out@ == old(out)@ + s@.take(i as int),
        decreases s@.len() - i,
    {
        proof {
            assert(s@.take(i + 1) =~= s@.take(i as int).push(s@[i as int]));
        }
        out.push(s[i]);
        i = i + 1;
    }
    proof {
        assert(s@.take(s@.len() as int) =~= s@);
    }
}

/// Append a string literal's UTF-8 bytes to a byte buffer.
fn push_str_bytes(out: &mut Vec<u8>, s: &str)
    ensures
        final(out)@ == old(out)@ + encode_utf8(s@),
{
    push_bytes(out, s.as_bytes());
}

/// Append the decimal rendering of `n` to a byte buffer.
fn push_dec(out: &mut Vec<u8>, n: u64)
    ensures
        final(out)@ == old(out)@ + dec_digits(n as nat),
    decreases n,
{
    if n < 10 {
        out.push(48 + n as u8);
        proof {
            assert(old(out)@.push((48 + n as nat) as u8) =~= old(out)@ + dec_digits(n as nat));
        }
    } else {
        push_dec(out, n / 10);
        out.push(48 + (n % 10) as u8);
        proof {
            assert((n / 10) as nat == n as nat / 10);
            assert((old(out)@ + dec_digits(n as nat / 10)).push((48 + n as nat % 10) as u8)
                =~= old(out)@ + dec_digits(n as nat));
        }
    }
}

proof fn lemma_escape_bytes_push(s: Seq<u8>, b: u8)
    ensures
        escape_bytes(s.push(b)) == escape_bytes(s) + escape_byte(b),
{
    assert(s.push(b).drop_last() =~= s);
    assert(s.push(b).last() == b);
}

/// Append the canonical JSON escaping of a byte string to a byte buffer.
fn push_escaped(out: &mut Vec<u8>, s: &[u8])
    ensures
        final(out)@ == old(out)@ + escape_bytes(s@),
{
    let mut i: usize = 0;
    while i < s.len()
        invariant
            i <= s@.len(),
            out@ == old(out)@ + escape_bytes(s@.take(i as int)),
        decreases s@.len() - i,
    {
        let b = s[i];
        let ghost pre = out@;
        if b == 34 {
            out.push(92);
            out.push(34);
        } else if b == 92 {
            out.push(92);
            out.push(92);
        } else if b == 8 {
            out.push(92);
            out.push(98);
        } else if b == 9 {
            out.push(92);
            out.push(116);
        } else if b == 10 {
            out.push(92);
            out.push(110);
        } else if b == 12 {
            out.push(92);
            out.push(102);
        } else if b == 13 {
            out.push(92);
            out.push(114);
        } else if b < 32 {
            out.push(92);
            out.push(117);
            out.push(48);
            out.push(48);
            out.push(if b / 16 < 10 { 48 + b / 16 } else { 87 + b / 16 });
            out.push(if b % 16 < 10 { 48 + b % 16 } else { 87 + b % 16 });
        } else {
            out.push(b);
        }
        proof {
            assert(out@ =~= pre + escape_byte(s@[i as int]));
            lemma_escape_bytes_push(s@.take(i as int), s@[i as int]);
            assert(s@.take(i + 1) =~= s@.take(i as int).push(s@[i as int]));
        }
        i = i + 1;
    }
    proof {
        assert(s@.take(s@.len() as int) =~= s@);
    }
}

/// Compute the digest that binds a request: SHA-256 over the canonical
/// serialization of its fields (digest omitted), carried as lowercase hex.
/// The result depends only on the operation, timestamp, client id and
/// sequence id, which is what makes it stable across processes.
pub fn compute_digest(request_msg: &RequestMsg) -> (r: String)
    ensures
        r@ == digest_of(request_msg@),
        r@.len() == 64,
{
    let mut buf: Vec<u8> = Vec::new();
    push_str_bytes(&mut buf, "{\"operation\":\"");
    push_escaped(&mut buf, request_msg.operation.as_str().as_bytes());
    push_str_bytes(&mut buf, "\",\"time_stamp\":");
    push_dec(&mut buf, request_msg.time_stamp);
    push_str_bytes(&mut buf, ",\"client_id\":");
    push_dec(&mut buf, request_msg.client_id as u64);
    push_str_bytes(&mut buf, ",\"sequence_id\":");
    push_dec(&mut buf, request_msg.sequence_id as u64);
    push_str_bytes(&mut buf, "}");
    proof {
        assert(buf@ =~= canon_bytes(
            encode_utf8(request_msg@.operation),
            request_msg@.time_stamp,
            request_msg@.client_id,
            request_msg@.sequence_id,
        ));
    }
    let hash = sha256_digest(buf.as_slice());
    proof {
        lemma_hex_of_len(hash@);
    }
    hex_lower(hash.as_slice())
}

/// The hexadecimal rendering of a byte string is twice as long as the
/// byte string.
pub proof fn lemma_hex_of_len(bytes: Seq<u8>)
    ensures
        hex_of(bytes).len() == 2 * bytes.len(),
    decreases bytes.len(),
{
    if bytes.len() > 0 {
        lemma_hex_of_len(bytes.drop_last());
    }
}

/// Digest determinism: the digest reads only the operation, timestamp,
/// client id and sequence id, so two requests that agree on those fields
/// have equal digests, in whatever process either is computed.
pub proof fn lemma_digest_deterministic(a: RequestData, b: RequestData)
    ensures
        a.operation == b.operation && a.time_stamp == b.time_stamp && a.client_id == b.client_id
            && a.sequence_id == b.sequence_id ==> digest_of(a) == digest_of(b),
{
}

/// Accept a pre-prepare iff the digest it carries matches the stored
/// request's digest and its view is the replica's current view.
pub fn verify_msg(msg: &PrePrepareMsg, req_view_id: u32, req_digest: String) -> (r: bool)
    ensures
        r == (req_digest@ == msg.digest@ && req_view_id == msg.view_id),
{
    let correct_digest = req_digest == msg.digest;
    let correct_view_id = req_view_id == msg.view_id;
    correct_digest && correct_view_id
}

/// Build the fixed sample request (operation "fake", all numeric fields
/// zero) with its digest filled in.
pub fn generate_fake_request_msg() -> (r: RequestMsg)
    ensures
        r@.operation == "fake"@,
        r@.time_stamp == 0,
        r@.client_id == 0,
        r@.sequence_id == 0,
        r@.digest == digest_of(r@),
{
    let mut request_msg = RequestMsg {
        operation: "fake".to_owned(),
        time_stamp: 0,
        client_id: 0,
        sequence_id: 0,
        digest: String::new(),
    };
    let d = compute_digest(&request_msg);
    request_msg.digest = d;
    request_msg
}

} // verus!
