//! The guest channel adapter's pure half: line-ending normalization and the
//! JSON framing of request and reply payloads. The guest's terminal-style
//! line discipline wants bare line feeds followed by carriage returns on the
//! way in, and a trailing carriage return and line feed on the way out.

use vstd::prelude::*;

verus! {

/// Spec-level framing of an outgoing line: the payload, then a carriage
/// return and a line feed.
pub open spec fn spec_frame(b: Seq<u8>) -> Seq<u8> {
    b + seq![13u8, 10u8]
}

/// Frame an outgoing line for the guest.
pub fn frame_for_guest(payload: &Vec<u8>) -> (r: Vec<u8>)
    ensures
        r@ == spec_frame(payload@),
{
    let mut r = vstd::slice::slice_to_vec(payload.as_slice());
    r.push(13);
    r.push(10);
    proof {
        assert(r@ =~= spec_frame(payload@));
    }
    r
}

/// Spec-level normalization of guest output: a carriage return is put after
/// every line feed.
pub open spec fn spec_normalize(s: Seq<u8>) -> Seq<u8>
    decreases s.len(),
{
    if s.len() == 0 {
        Seq::empty()
    } else if s[0] == 10 {
        seq![10u8, 13u8] + spec_normalize(s.drop_first())
    } else {
        seq![s[0]] + spec_normalize(s.drop_first())
    }
}

/// Appending one byte on the right extends the normalization on the right.
proof fn lemma_spec_normalize_push(s: Seq<u8>, x: u8)
    ensures
        spec_normalize(s.push(x)) == spec_normalize(s) + (if x == 10 {
            seq![10u8, 13u8]
        } else {
            seq![x]
        }),
    decreases s.len(),
{
    let tail: Seq<u8> = if x == 10 {
        seq![10u8, 13u8]
    } else {
        seq![x]
    };
    if s.len() == 0 {
        assert(s.push(x)[0] == x);
        assert(s.push(x).drop_first() =~= s);
        assert(spec_normalize(s.push(x)) == tail + spec_normalize(s));
        assert(tail + spec_normalize(s) =~= spec_normalize(s) + tail);
    } else {
        lemma_spec_normalize_push(s.drop_first(), x);
        assert(s.push(x).drop_first() =~= s.drop_first().push(x));
        assert(s.push(x)[0] == s[0]);
        if s[0] == 10 {
            assert(spec_normalize(s.push(x)) == seq![10u8, 13u8] + spec_normalize(
                s.drop_first().push(x),
            ));
            assert(seq![10u8, 13u8] + (spec_normalize(s.drop_first()) + tail) =~= (seq![
                10u8,
                13u8,
            ] + spec_normalize(s.drop_first())) + tail);
        } else {
            assert(spec_normalize(s.push(x)) == seq![s[0]] + spec_normalize(
                s.drop_first().push(x),
            ));
            assert(seq![s[0]] + (spec_normalize(s.drop_first()) + tail) =~= (seq![s[0]]
                + spec_normalize(s.drop_first())) + tail);
        }
    }
}

/// Normalize raw guest output for the host's line discipline.
pub fn normalize_guest_output(raw: &Vec<u8>) -> (r: Vec<u8>)
    ensures
        r@ == spec_normalize(raw@),
{
    let mut r: Vec<u8> = Vec::new();
    let mut i: usize = 0;
    while i < raw.len()
        invariant
            i <= raw@.len(),
            r@ == spec_normalize(raw@.take(i as int)),
        decreases raw@.len() - i,
    {
        let b = raw[i];
        if b == 10 {
            r.push(10);
            r.push(13);
        } else {
            r.push(b);
        }
        proof {
            lemma_spec_normalize_push(raw@.take(i as int), b);
            assert(raw@.take(i + 1 as int) =~= raw@.take(i as int).push(raw@[i as int]));
            if b == 10 {
                assert(r@ =~= spec_normalize(raw@.take(i as int)) + seq![10u8, 13u8]);
            } else {
                assert(r@ =~= spec_normalize(raw@.take(i as int)) + seq![b]);
            }
        }
        i += 1;
    }
    proof {
        assert(raw@.take(raw@.len() as int) =~= raw@);
    }
    r
}

/// Law: normalization leaves no bare line feed behind: every line feed is
/// followed at once by a carriage return.
pub proof fn lemma_normalize_no_bare_newline(s: Seq<u8>)
    ensures
        forall|i: int|
            0 <= i < spec_normalize(s).len() && #[trigger] spec_normalize(s)[i] == 10 ==> i + 1
                < spec_normalize(s).len() && spec_normalize(s)[i + 1] == 13,
    decreases s.len(),
{
    if s.len() > 0 {
        lemma_normalize_no_bare_newline(s.drop_first());
        let head: Seq<u8> = if s[0] == 10 {
            seq![10u8, 13u8]
        } else {
            seq![s[0]]
        };
        let rest = spec_normalize(s.drop_first());
        assert(spec_normalize(s) == head + rest);
        assert forall|i: int|
            0 <= i < spec_normalize(s).len() && #[trigger] spec_normalize(s)[i] == 10 implies i
            + 1 < spec_normalize(s).len() && spec_normalize(s)[i + 1] == 13 by {
            if i >= head.len() {
                assert(spec_normalize(s)[i] == rest[i - head.len()]);
                assert(rest[i - head.len()] == 10 ==> rest[i - head.len() + 1] == 13);
                assert(spec_normalize(s)[i + 1] == rest[i + 1 - head.len()]);
            } else {
                if s[0] == 10 {
                    assert(spec_normalize(s)[0] == 10 && spec_normalize(s)[1] == 13);
                    if i == 1 {
                        assert(spec_normalize(s)[1] == 13);
                    }
                }
            }
        }
    }
}

// ---------------------------------------------------------------------------
// JSON framing of the byte payloads, through serde_json.
// ---------------------------------------------------------------------------

/// The JSON text denoting a byte array; a function of the bytes alone.
pub uninterp spec fn json_bytes_of(s: Seq<u8>) -> Seq<u8>;

/// Relies on `serde_json::to_vec` applied to a byte vector: the result is
/// the JSON text of the array of numbers, a function of the bytes alone.
/// Its documentation has serialization fail only when a `Serialize` impl
/// decides to fail or a map has non-string keys; a byte vector has neither,
/// so a result is always produced.
#[verifier::external_body]
fn json_encode_bytes(b: &Vec<u8>) -> (r: Option<Vec<u8>>)
    ensures
        r is Some,
        r matches Some(v) ==> v@ == json_bytes_of(b@),
{
    serde_json::to_vec(b).ok()
}

/// The byte array a JSON text denotes, or nothing when the text denotes no
/// byte array; a function of the text alone.
pub uninterp spec fn json_parsed_bytes(s: Seq<u8>) -> Option<Seq<u8>>;

/// Relies on `serde_json::from_slice::<Vec<u8>>`: it parses exactly the JSON
/// texts denoting byte arrays, to the array denoted, a function of the text
/// alone.
#[verifier::external_body]
fn json_decode_bytes(s: &Vec<u8>) -> (r: Option<Vec<u8>>)
    ensures
        r is Some <==> json_parsed_bytes(s@) is Some,
        r matches Some(v) ==> json_parsed_bytes(s@) == Some(v@),
{
    serde_json::from_slice::<Vec<u8>>(s.as_slice()).ok()
}

/// Build the exact bytes to write to the guest's input for one reply
/// payload: its JSON text, framed as a line.
pub fn encode_reply_frame(payload: &Vec<u8>) -> (r: Vec<u8>)
    ensures
        r@ == spec_frame(json_bytes_of(payload@)),
{
    match json_encode_bytes(payload) {
        Some(text) => frame_for_guest(&text),
        None => {
            proof {
                assert(false);
            }
            Vec::new()
        },
    }
}

/// Recover the command buffer from raw guest output: normalize its line
/// endings, then read it as the JSON text of a byte array. Nothing is
/// returned when the text denotes no byte array; the caller reports the
/// channel failure.
pub fn decode_request_frame(raw: &Vec<u8>) -> (r: Option<Vec<u8>>)
    ensures
        r is Some <==> json_parsed_bytes(spec_normalize(raw@)) is Some,
        r matches Some(v) ==> json_parsed_bytes(spec_normalize(raw@)) == Some(v@),
{
    let normalized = normalize_guest_output(raw);
    json_decode_bytes(&normalized)
}

} // verus!
