//! Conversion of lone line feeds to carriage-return/line-feed pairs.
//!
//! Terminal emulators treat a bare `\n` as "cursor down" without a carriage
//! return, which makes text printed through a pipe drift to the right. Every
//! line feed that does not already follow a carriage return gets one.
use vstd::prelude::*;

verus! {

/// The carriage-return byte.
pub const CR: u8 = 0x0d;

/// The line-feed byte.
pub const LF: u8 = 0x0a;

/// The encoding of `data` when the byte written just before it was a carriage
/// return exactly when `prev_cr` holds.
pub open spec fn crlf_from(data: Seq<u8>, prev_cr: bool) -> Seq<u8>
    decreases data.len(),
{
    if data.len() == 0 {
        Seq::empty()
    } else {
        let b = data[0];
        let head = if b == LF && !prev_cr {
            seq![CR, LF]
        } else {
            seq![b]
        };
        head + crlf_from(data.drop_first(), b == CR)
    }
}

/// The bytes written for `data`: each line feed that does not follow a carriage
/// return of `data` itself is preceded by one; every other byte is kept.
pub open spec fn crlf_encoded(data: Seq<u8>) -> Seq<u8> {
    crlf_from(data, false)
}

/// Every line feed in `s` follows a carriage return; one at the very start is
/// allowed only when the byte before `s` was a carriage return (`prev_cr`).
pub open spec fn no_lone_lf_after(s: Seq<u8>, prev_cr: bool) -> bool {
    forall|j: int|
        0 <= j < s.len() && #[trigger] s[j] == LF ==> if j == 0 {
            prev_cr
        } else {
            s[j - 1] == CR
        }
}

/// Every line feed in `s` is the second byte of a `\r\n` pair.
pub open spec fn no_lone_lf(s: Seq<u8>) -> bool {
    no_lone_lf_after(s, false)
}

/// Converts every lone `\n` of `data` into `\r\n`, keeping all other bytes.
pub fn crlf_encode(data: &[u8]) -> (out: Vec<u8>)
    ensures
        out@ == crlf_encoded(data@),
{
    let mut out: Vec<u8> = Vec::new();
    let mut prev_was_cr = false;
    let mut i: usize = 0;
    assert(data@.skip(0) =~= data@);
    assert(out@ + crlf_from(data@, false) =~= crlf_from(data@, false));
    while i < data.len()
        invariant
            i <= data.len(),
            crlf_encoded(data@) == out@ + crlf_from(data@.skip(i as int), prev_was_cr),
        decreases data.len() - i,
    {
        let byte = data[i];
        proof {
            assert(data@.skip(i as int).drop_first() =~= data@.skip(i + 1));
            assert(data@.skip(i as int)[0] == byte);
        }
        if byte == LF && !prev_was_cr {
            out.push(CR);
            out.push(LF);
        } else {
            out.push(byte);
        }
        prev_was_cr = byte == CR;
        i += 1;
    }
    proof {
        assert(data@.skip(i as int) =~= Seq::<u8>::empty());
    }
    out
}

proof fn lemma_crlf_from_no_lone_lf(data: Seq<u8>, prev_cr: bool)
    ensures
        no_lone_lf_after(crlf_from(data, prev_cr), prev_cr),
    decreases data.len(),
{
    if data.len() > 0 {
        let b = data[0];
        lemma_crlf_from_no_lone_lf(data.drop_first(), b == CR);
        let head = if b == LF && !prev_cr {
            seq![CR, LF]
        } else {
            seq![b]
        };
        let rest = crlf_from(data.drop_first(), b == CR);
        let s = crlf_from(data, prev_cr);
        assert(s == head + rest);
        assert forall|j: int| 0 <= j < s.len() && #[trigger] s[j] == LF implies if j == 0 {
            prev_cr
        } else {
            s[j - 1] == CR
        } by {
            if j >= head.len() {
                let k = j - head.len();
                assert(rest[k] == LF);
                if k > 0 {
                    assert(s[j - 1] == rest[k - 1]);
                }
            }
        }
    }
}

proof fn lemma_crlf_from_identity(s: Seq<u8>, prev_cr: bool)
    requires
        no_lone_lf_after(s, prev_cr),
    ensures
        crlf_from(s, prev_cr) == s,
    decreases s.len(),
{
    if s.len() > 0 {
        let rest = s.drop_first();
        assert forall|j: int| 0 <= j < rest.len() && #[trigger] rest[j] == LF implies if j == 0 {
            s[0] == CR
        } else {
            rest[j - 1] == CR
        } by {
            assert(s[j + 1] == LF);
        }
        lemma_crlf_from_identity(rest, s[0] == CR);
        assert(s[0] == LF ==> prev_cr);
        assert(seq![s[0]] + rest =~= s);
    }
}

/// No encoded output holds a line feed that is not the second byte of a
/// `\r\n` pair.
pub proof fn lemma_encoded_has_no_lone_lf(data: Seq<u8>)
    ensures
        no_lone_lf(crlf_encoded(data)),
{
    lemma_crlf_from_no_lone_lf(data, false);
}

/// Input that already has no lone line feed is written unchanged.
pub proof fn lemma_encode_keeps_crlf_text(data: Seq<u8>)
    requires
        no_lone_lf(data),
    ensures
        crlf_encoded(data) == data,
{
    lemma_crlf_from_identity(data, false);
}

/// Encoding twice writes the same bytes as encoding once.
pub proof fn lemma_encode_idempotent(data: Seq<u8>)
    ensures
        crlf_encoded(crlf_encoded(data)) == crlf_encoded(data),
{
    lemma_encoded_has_no_lone_lf(data);
    lemma_encode_keeps_crlf_text(crlf_encoded(data));
}

} // verus!
