//! The wire form of a split-job message.
//!
//! A pending job is sent to the queue as a small JSON object naming the
//! track list and the track. The library frames those bytes itself so
//! that the message content is pinned down exactly.

use crate::tracks::usecase::SplitRequestTrack;
use vstd::prelude::*;
use vstd::string::StringSliceAdditionalSpecFns;
use vstd::utf8::encode_utf8;

verus! {

/// The byte that writes a value below sixteen as a lowercase hex digit.
pub open spec fn hex_digit_byte(n: u8) -> u8 {
    if n < 10 {
        (48 + n) as u8  // '0'..='9'
    } else {
        (87 + n) as u8  // 'a'..='f'
    }
}

/// How one byte of a string value appears inside a JSON string literal:
/// quote and backslash are escaped, control bytes take the `\u00XX`
/// form, and every other byte stands for itself.
pub open spec fn escape_byte(b: u8) -> Seq<u8> {
    if b == 34 {  // '"'
        seq![92u8, 34u8]
    } else if b == 92 {  // '\\'
        seq![92u8, 92u8]
    } else if b < 32 {
        seq![92u8, 117u8, 48u8, 48u8, hex_digit_byte(b / 16), hex_digit_byte(b % 16)]
    } else {
        seq![b]
    }
}

/// A whole string value, escaped byte by byte.
pub open spec fn json_escaped(s: Seq<u8>) -> Seq<u8>
    decreases s.len(),
{
    if s.len() == 0 {
        Seq::empty()
    } else {
        escape_byte(s[0]) + json_escaped(s.drop_first())
    }
}

/// The exact bytes of a split-job message for the given ids.
pub open spec fn split_request_json(tracklist_id: Seq<u8>, track_id: Seq<u8>) -> Seq<u8> {
    "{\"tracklist_id\":\"".spec_bytes() + json_escaped(tracklist_id)
        + "\",\"track_id\":\"".spec_bytes() + json_escaped(track_id) + "\"}".spec_bytes()
}

proof fn lemma_json_escaped_snoc(s: Seq<u8>, b: u8)
    ensures
        json_escaped(s.push(b)) =~= json_escaped(s) + escape_byte(b),
    decreases s.len(),
{
    if s.len() == 0 {
        assert(s.push(b)[0] == b);
        assert(s.push(b).drop_first() =~= Seq::<u8>::empty());
        assert(json_escaped(s.push(b)) == escape_byte(b) + json_escaped(s.push(b).drop_first()));
        assert(json_escaped(s.push(b)) =~= json_escaped(s) + escape_byte(b));
    } else {
        assert(s.push(b)[0] == s[0]);
        assert(s.push(b).drop_first() =~= s.drop_first().push(b));
        lemma_json_escaped_snoc(s.drop_first(), b);
        assert(json_escaped(s.push(b)) == escape_byte(s[0]) + json_escaped(
            s.push(b).drop_first(),
        ));
        assert(json_escaped(s) == escape_byte(s[0]) + json_escaped(s.drop_first()));
        assert(json_escaped(s.push(b)) =~= json_escaped(s) + escape_byte(b));
    }
}

fn hex_digit(n: u8) -> (r: u8)
    requires
        n < 16,
    ensures
        r == hex_digit_byte(n),
{
    if n < 10 {
        48 + n
    } else {
        87 + n
    }
}

/// Appends `s` verbatim.
fn push_bytes(out: &mut Vec<u8>, s: &[u8])
    ensures
        final(out)@ == old(out)@ + s@,
{
    let n = s.len();
    let mut i: usize = 0;
    proof {
        assert(out@ =~= old(out)@ + s@.take(0));
    }
    while i < n
        invariant
            0 <= i <= n,
            n == s@.len(),
            out@ == old(out)@ + s@.take(i as int),
        decreases n - i,
    {
        out.push(s[i]);
        proof {
            assert(s@.take(i as int).push(s@[i as int]) =~= s@.take(i as int + 1));
        }
        i = i + 1;
    }
    proof {
        assert(s@.take(n as int) =~= s@);
    }
}

/// Appends `s` as the body of a JSON string literal, escaped.
fn push_json_escaped(out: &mut Vec<u8>, s: &[u8])
    ensures
        final(out)@ == old(out)@ + json_escaped(s@),
{
    let n = s.len();
    let mut i: usize = 0;
    proof {
        assert(s@.take(0) =~= Seq::<u8>::empty());
        assert(out@ =~= old(out)@ + json_escaped(s@.take(0)));
    }
    while i < n
        invariant
            0 <= i <= n,
            n == s@.len(),
            out@ == old(out)@ + json_escaped(s@.take(i as int)),
        decreases n - i,
    {
        let b = s[i];
        if b == 34 {
            out.push(92);
            out.push(34);
        } else if b == 92 {
            out.push(92);
            out.push(92);
        } else if b < 32 {
            out.push(92);
            out.push(117);
            out.push(48);
            out.push(48);
            out.push(hex_digit(b / 16));
            out.push(hex_digit(b % 16));
        } else {
            out.push(b);
        }
        proof {
            lemma_json_escaped_snoc(s@.take(i as int), s@[i as int]);
            assert(s@.take(i as int).push(s@[i as int]) =~= s@.take(i as int + 1));
        }
        i = i + 1;
    }
    proof {
        assert(s@.take(n as int) =~= s@);
    }
}

impl SplitRequestTrack {
    /// The message bytes this job is published as: a JSON object with the
    /// track-list id and the track id, in that order.
    pub fn payload(&self) -> (r: Vec<u8>)
        ensures
            r@ == split_request_json(
                encode_utf8(self.tracklist_id@),
                encode_utf8(self.track_id@),
            ),
    {
        let mut out: Vec<u8> = Vec::new();
        push_bytes(&mut out, "{\"tracklist_id\":\"".as_bytes());
        push_json_escaped(&mut out, self.tracklist_id.as_str().as_bytes());
        push_bytes(&mut out, "\",\"track_id\":\"".as_bytes());
        push_json_escaped(&mut out, self.track_id.as_str().as_bytes());
        push_bytes(&mut out, "\"}".as_bytes());
        proof {
            assert(out@ =~= split_request_json(
                encode_utf8(self.tracklist_id@),
                encode_utf8(self.track_id@),
            ));
        }
        out
    }
}

} // verus!
