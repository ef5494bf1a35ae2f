//! The console bridge: framing of perception payloads.
//!
//! The browser side emits console lines of the form `__TF_BRIDGE__<base64>`;
//! this module recognises the frame and decodes the base64 body back into
//! bytes. Turning those bytes into typed events is the embedding process's
//! concern. The bridge also counts frames and tracks the last heartbeat.

use vstd::prelude::*;
use vstd::string::StringSliceAdditionalSpecFns;

verus! {

/// The magic prefix identifying bridge frames in console output.
pub const BRIDGE_PREFIX: &'static str = "__TF_BRIDGE__";

/// The bytes of the frame prefix, `__TF_BRIDGE__` in ASCII.
pub open spec fn frame_prefix() -> Seq<u8> {
    seq![95u8, 95u8, 84u8, 70u8, 95u8, 66u8, 82u8, 73u8, 68u8, 71u8, 69u8, 95u8, 95u8]
}

/// Powers of two.
pub open spec fn two_pow(e: nat) -> nat
    decreases e,
{
    if e == 0 {
        1
    } else {
        2 * two_pow((e - 1) as nat)
    }
}

/// The small powers of two the decoder's bit budget can reach.
proof fn lemma_two_pow_small()
    ensures
        two_pow(0) == 1,
        two_pow(2) == 4,
        two_pow(4) == 16,
        two_pow(6) == 64,
        two_pow(8) == 256,
        two_pow(10) == 1024,
        two_pow(12) == 4096,
{
    assert(two_pow(0) == 1);
    assert(two_pow(1) == 2);
    assert(two_pow(2) == 4);
    assert(two_pow(3) == 8);
    assert(two_pow(4) == 16);
    assert(two_pow(5) == 32);
    assert(two_pow(6) == 64);
    assert(two_pow(7) == 128);
    assert(two_pow(8) == 256);
    assert(two_pow(9) == 512);
    assert(two_pow(10) == 1024);
    assert(two_pow(11) == 2048);
    assert(two_pow(12) == 4096);
}

/// The value of one byte in the standard base64 alphabet, or -1 when the
/// byte is not in the alphabet.
pub open spec fn b64_value(b: u8) -> int {
    if 65 <= b <= 90 {
        b - 65
    } else if 97 <= b <= 122 {
        26 + b - 97
    } else if 48 <= b <= 57 {
        52 + b - 48
    } else if b == 43 {
        62
    } else if b == 47 {
        63
    } else {
        -1
    }
}

/// Decode base64 bytes, six bits at a time: `buffer` holds `bits` not yet
/// emitted bits; whenever eight are available, one byte is emitted. A byte
/// outside the alphabet fails the whole decode.
pub open spec fn b64_decode_rec(s: Seq<u8>, buffer: int, bits: nat) -> Option<Seq<u8>>
    decreases s.len(),
{
    if s.len() == 0 {
        Some(Seq::<u8>::empty())
    } else {
        let v = b64_value(s[0]);
        if v < 0 {
            None::<Seq<u8>>
        } else {
            let acc = buffer * 64 + v;
            let nbits = bits + 6;
            if nbits >= 8 {
                let rem = (nbits - 8) as nat;
                let emitted = acc / two_pow(rem) as int;
                let kept = acc % two_pow(rem) as int;
                match b64_decode_rec(s.drop_first(), kept, rem) {
                    Some(rest) => Some(seq![emitted as u8] + rest),
                    None => None::<Seq<u8>>,
                }
            } else {
                b64_decode_rec(s.drop_first(), acc, nbits)
            }
        }
    }
}

/// The input without its trailing padding bytes (`=` is 61 in ASCII).
pub open spec fn strip_padding(s: Seq<u8>) -> Seq<u8>
    decreases s.len(),
{
    if s.len() > 0 && s.last() == 61 {
        strip_padding(s.drop_last())
    } else {
        s
    }
}

/// What decoding a base64 text means: padding is ignored, then the bytes
/// are decoded six bits at a time.
pub open spec fn b64_decoded(s: Seq<u8>) -> Option<Seq<u8>> {
    b64_decode_rec(strip_padding(s), 0, 0)
}

/// The value of one byte in the base64 alphabet.
fn b64_byte_value(b: u8) -> (r: Option<u8>)
    ensures
        r matches Some(v) ==> b64_value(b) == v as int,
        r is Some <==> b64_value(b) >= 0,
{
    if 65 <= b && b <= 90 {
        Some(b - 65)
    } else if 97 <= b && b <= 122 {
        Some(26 + (b - 97))
    } else if 48 <= b && b <= 57 {
        Some(52 + (b - 48))
    } else if b == 43 {
        Some(62)
    } else if b == 47 {
        Some(63)
    } else {
        None
    }
}

/// Decode the bytes of `s` from position `i` on, with `bits` bits of value
/// `buffer` still pending.
fn decode_from(s: &Vec<u8>, i: usize, buffer: u32, bits: usize) -> (r: Option<Vec<u8>>)
    requires
        i <= s@.len(),
        bits == 0 || bits == 2 || bits == 4 || bits == 6,
        buffer < two_pow(bits as nat),
    ensures
        ({
            let m = b64_decode_rec(s@.skip(i as int), buffer as int, bits as nat);
            match r {
                Some(v) => m == Some(v@),
                None => m is None,
            }
        }),
    decreases s@.len() - i,
{
    proof {
        lemma_two_pow_small();
    }
    if i == s.len() {
        proof {
            assert(s@.skip(i as int).len() == 0);
        }
        return Some(Vec::new());
    }
    proof {
        assert(s@.skip(i as int)[0] == s@[i as int]);
        assert(s@.skip(i as int).drop_first() =~= s@.skip(i + 1));
    }
    let val = match b64_byte_value(s[i]) {
        None => {
            return None;
        },
        Some(v) => v,
    };
    let acc: u32 = buffer * 64 + val as u32;
    let nbits = bits + 6;
    if nbits >= 8 {
        let rem = nbits - 8;
        let p: u32 = if rem == 0 {
            1
        } else if rem == 2 {
            4
        } else {
            16
        };
        proof {
            assert(p as int == two_pow(rem as nat));
            assert(acc < two_pow(bits as nat) * 64);
            assert(acc < p * 256);
        }
        let emitted: u32 = acc / p;
        let kept: u32 = acc % p;
        proof {
            assert(emitted < 256);
            assert(kept < p);
        }
        match decode_from(s, i + 1, kept, rem) {
            Some(rest) => {
                let mut out: Vec<u8> = Vec::new();
                out.push(emitted as u8);
                let mut tail = rest;
                out.append(&mut tail);
                Some(out)
            },
            None => None,
        }
    } else {
        decode_from(s, i + 1, acc, nbits)
    }
}

/// Copy a range of a byte slice.
fn copy_range(bytes: &[u8], from: usize, to: usize) -> (r: Vec<u8>)
    requires
        from <= to <= bytes@.len(),
    ensures
        r@ == bytes@.subrange(from as int, to as int),
{
    let mut out: Vec<u8> = Vec::new();
    let mut i: usize = from;
    while i < to
        invariant
            from <= i <= to <= bytes@.len(),
            out@ =~= bytes@.subrange(from as int, i as int),
        decreases to - i,
    {
        out.push(bytes[i]);
        proof {
            assert(out@ =~= bytes@.subrange(from as int, i + 1));
        }
        i = i + 1;
    }
    proof {
        assert(out@ =~= bytes@.subrange(from as int, to as int));
    }
    out
}

/// The length of the input once trailing padding is dropped.
fn stripped_len(bytes: &[u8]) -> (r: usize)
    ensures
        r <= bytes@.len(),
        strip_padding(bytes@) == bytes@.subrange(0, r as int),
{
    let mut m = bytes.len();
    proof {
        assert(bytes@.subrange(0, m as int) =~= bytes@);
    }
    while m > 0 && bytes[m - 1] == 61
        invariant
            m <= bytes@.len(),
            strip_padding(bytes@) == strip_padding(bytes@.subrange(0, m as int)),
        decreases m,
    {
        proof {
            let cur = bytes@.subrange(0, m as int);
            assert(cur.last() == bytes@[m - 1]);
            assert(cur.drop_last() =~= bytes@.subrange(0, m - 1));
        }
        m = m - 1;
    }
    proof {
        let cur = bytes@.subrange(0, m as int);
        if m > 0 {
            assert(cur.last() == bytes@[m - 1]);
        }
        assert(strip_padding(cur) == cur);
    }
    m
}

/// Decode a base64 text into bytes. Trailing `=` padding is ignored; any
/// other byte outside the base64 alphabet is an error.
pub fn base64_decode(input: &str) -> (r: Result<Vec<u8>, String>)
    ensures
        ({
            match b64_decoded(input.spec_bytes()) {
                Some(bytes) => r matches Ok(v) && v@ == bytes,
                None => r matches Err(e) && e@ == "invalid base64 character"@,
            }
        }),
{
    let bytes = input.as_bytes();
    let m = stripped_len(bytes);
    let stripped = copy_range(bytes, 0, m);
    proof {
        assert(stripped@.skip(0) =~= stripped@);
        assert(two_pow(0) == 1);
    }
    match decode_from(&stripped, 0, 0, 0) {
        Some(v) => Ok(v),
        None => Err("invalid base64 character".to_owned()),
    }
}

/// The kind of a bridge frame.
#[derive(Clone, Copy, PartialEq, Eq, Structural, Debug)]
pub enum BridgeMessageType {
    /// A perception signal: a message, a chat change, and the like.
    Perception,
    /// A heartbeat proving the bridge alive.
    Heartbeat,
    /// An error reported by the browser side.
    Error,
    /// The browser side asks for the current definitions.
    DefinitionRequest,
}

/// A decoded bridge frame.
#[derive(Clone, Debug)]
pub struct BridgeMessage {
    pub msg_type: BridgeMessageType,
    pub payload: Vec<u8>,
    pub timestamp: i64,
}

/// Whether a console line is a bridge frame: it starts with the magic
/// prefix.
pub open spec fn is_frame(raw: Seq<u8>) -> bool {
    raw.len() >= 13 && raw.subrange(0, 13) == frame_prefix()
}

/// Recognise a bridge frame and decode its base64 body into bytes. A line
/// without the prefix, or with a malformed body, yields nothing and is
/// dropped without affecting any state.
pub fn extract_frame(raw: &str) -> (r: Option<Vec<u8>>)
    ensures
        !is_frame(raw.spec_bytes()) ==> r is None,
        is_frame(raw.spec_bytes()) ==> match b64_decoded(raw.spec_bytes().skip(13)) {
            Some(bytes) => r matches Some(v) && v@ == bytes,
            None => r is None,
        },
{
    let bytes = raw.as_bytes();
    if bytes.len() < 13 {
        return None;
    }
    let mut k: usize = 0;
    let prefix: [u8; 13] = [95, 95, 84, 70, 95, 66, 82, 73, 68, 71, 69, 95, 95];
    while k < 13
        invariant
            k <= 13,
            bytes@.len() >= 13,
            bytes@ == raw.spec_bytes(),
            prefix@ =~= frame_prefix(),
            forall|j: int| 0 <= j < k ==> bytes@[j] == frame_prefix()[j],
        decreases 13 - k,
    {
        if bytes[k] != prefix[k] {
            proof {
                assert(bytes@.subrange(0, 13)[k as int] != frame_prefix()[k as int]);
            }
            return None;
        }
        k = k + 1;
    }
    proof {
        assert(bytes@.subrange(0, 13) =~= frame_prefix());
    }
    let body = copy_range(bytes, 13, bytes.len());
    proof {
        assert(body@ =~= bytes@.skip(13));
    }
    let m = stripped_len_vec(&body);
    let stripped = copy_range_vec(&body, m);
    proof {
        assert(stripped@.skip(0) =~= stripped@);
        assert(two_pow(0) == 1);
    }
    decode_from(&stripped, 0, 0, 0)
}

/// The length of the vector once trailing padding is dropped.
fn stripped_len_vec(bytes: &Vec<u8>) -> (r: usize)
    ensures
        r <= bytes@.len(),
        strip_padding(bytes@) == bytes@.subrange(0, r as int),
{
    let mut m = bytes.len();
    proof {
        assert(bytes@.subrange(0, m as int) =~= bytes@);
    }
    while m > 0 && bytes[m - 1] == 61
        invariant
            m <= bytes@.len(),
            strip_padding(bytes@) == strip_padding(bytes@.subrange(0, m as int)),
        decreases m,
    {
        proof {
            let cur = bytes@.subrange(0, m as int);
            assert(cur.last() == bytes@[m - 1]);
            assert(cur.drop_last() =~= bytes@.subrange(0, m - 1));
        }
        m = m - 1;
    }
    proof {
        let cur = bytes@.subrange(0, m as int);
        if m > 0 {
            assert(cur.last() == bytes@[m - 1]);
        }
        assert(strip_padding(cur) == cur);
    }
    m
}

/// Copy the first `to` bytes of the vector.
fn copy_range_vec(bytes: &Vec<u8>, to: usize) -> (r: Vec<u8>)
    requires
        to <= bytes@.len(),
    ensures
        r@ == bytes@.subrange(0, to as int),
{
    let mut out: Vec<u8> = Vec::new();
    let mut i: usize = 0;
    while i < to
        invariant
            i <= to <= bytes@.len(),
            out@ =~= bytes@.subrange(0, i as int),
        decreases to - i,
    {
        out.push(bytes[i]);
        proof {
            assert(out@ =~= bytes@.subrange(0, i + 1));
        }
        i = i + 1;
    }
    proof {
        assert(out@ =~= bytes@.subrange(0, to as int));
    }
    out
}

/// The console bridge handler: counts frames and tracks the last heartbeat.
pub struct ConsoleBridge {
    message_count: u64,
    last_heartbeat: Option<i64>,
}

impl ConsoleBridge {
    /// The number of frames noted so far.
    pub closed spec fn spec_message_count(self) -> u64 {
        self.message_count
    }

    /// The timestamp of the last heartbeat, if any was noted.
    pub closed spec fn spec_last_heartbeat(self) -> Option<i64> {
        self.last_heartbeat
    }

    /// A bridge with no frames seen.
    pub fn new() -> (r: ConsoleBridge)
        ensures
            r.spec_message_count() == 0,
            r.spec_last_heartbeat() is None,
    {
        ConsoleBridge { message_count: 0, last_heartbeat: None }
    }

    /// Note one decoded frame: the count rises by one (it saturates at its
    /// limit) and a heartbeat records its timestamp.
    pub fn note_frame(&mut self, heartbeat: bool, timestamp: i64)
        ensures
            old(self).spec_message_count() < u64::MAX ==> final(self).spec_message_count() == old(
                self,
            ).spec_message_count() + 1,
            old(self).spec_message_count() == u64::MAX ==> final(self).spec_message_count()
                == u64::MAX,
            heartbeat ==> final(self).spec_last_heartbeat() == Some(timestamp),
            !heartbeat ==> final(self).spec_last_heartbeat() == old(self).spec_last_heartbeat(),
    {
        if self.message_count < u64::MAX {
            self.message_count = self.message_count + 1;
        }
        if heartbeat {
            self.last_heartbeat = Some(timestamp);
        }
    }

    /// The number of frames noted so far.
    pub fn message_count(&self) -> (r: u64)
        ensures
            r == self.spec_message_count(),
    {
        self.message_count
    }

    /// Whether a heartbeat was seen within the last `max_age_secs` seconds,
    /// judged against `now_millis`.
    pub fn is_alive(&self, now_millis: i64, max_age_secs: i64) -> (r: bool)
        ensures
            r == match self.spec_last_heartbeat() {
                Some(ts) => now_millis - ts < max_age_secs * 1000,
                None => false,
            },
    {
        match self.last_heartbeat {
            Some(ts) => {
                let age: i128 = now_millis as i128 - ts as i128;
                let limit: i128 = max_age_secs as i128 * 1000;
                age < limit
            },
            None => false,
        }
    }

    /// The bootstrap script the browser side runs: it reports captured
    /// events as bridge frames on the console.
    pub fn generate_injection_script() -> (r: String)
        ensures
            r@ == "(function(){var P='__TF_BRIDGE__';window.__tfEmit=function(b64){console.debug(P+b64);};console.debug(P+'cg==');})();"@,
    {
        "(function(){var P='__TF_BRIDGE__';window.__tfEmit=function(b64){console.debug(P+b64);};console.debug(P+'cg==');})();".to_owned()
    }
}

} // verus!
