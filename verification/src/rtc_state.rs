//! Bookkeeping of WebRTC peers: peer and data-channel ids, the queue of
//! events each peer collects for scripts, and the encoding of binary
//! channel messages as base64 text.

use vstd::prelude::*;
use std::collections::HashMap;

verus! {

broadcast use vstd::std_specs::hash::group_hash_axioms;

/// Events a peer reports to scripts.
#[derive(Clone, Debug)]
pub enum RtcEventOut {
    ChannelOpen { channel_id: u32, label: String },
    ChannelClose { channel_id: u32 },
    ChannelData { channel_id: u32, data: String, binary: bool },
    ConnectionState { state: String },
    IceCandidate { candidate: String, sdp_mid: String },
    Error { message: String },
    Track { track_id: u32, stream_id: u32, kind: String },
}

/// A new peer as scripts see it.
#[derive(Clone, Debug)]
pub struct PeerInfo {
    pub id: u32,
    pub local_addr: String,
}

/// A created offer.
#[derive(Clone, Debug)]
pub struct OfferResult {
    pub sdp: String,
}

/// A created answer.
#[derive(Clone, Debug)]
pub struct AnswerResult {
    pub sdp: String,
}

/// Errors of the peer ops.
#[derive(Clone, Copy, Debug, PartialEq, Eq, Structural)]
pub enum RtcError {
    PeerNotFound,
    ChannelNotFound,
}

/// One peer: its open data channels (id to the host's channel handle),
/// the next channel id, and the events not yet polled.
#[derive(Clone, Debug)]
pub struct RtcPeer {
    pub channels: HashMap<u32, u64>,
    pub next_channel_id: u32,
    pub events: Vec<RtcEventOut>,
}

/// All peers by id, and the next peer id (from 1).
pub struct WebRtcState {
    peers: HashMap<u32, RtcPeer>,
    next_id: u32,
}

impl WebRtcState {
    pub closed spec fn peers(&self) -> Map<u32, RtcPeer> {
        self.peers@
    }

    pub closed spec fn next(&self) -> u32 {
        self.next_id
    }

    /// No peers; the first peer id is 1.
    pub fn new() -> (s: Self)
        ensures
            s.peers() == Map::<u32, RtcPeer>::empty(),
            s.next() == 1,
    {
        WebRtcState { peers: HashMap::new(), next_id: 1 }
    }

    /// Hands out the next peer id.
    pub fn alloc_id(&mut self) -> (id: u32)
        requires
            old(self).next() < u32::MAX,
        ensures
            id == old(self).next(),
            final(self).next() == old(self).next() + 1,
            final(self).peers() == old(self).peers(),
    {
        let id = self.next_id;
        self.next_id = self.next_id + 1;
        id
    }

    /// Registers a connected peer under an id, with no channels or events.
    pub fn add_peer(&mut self, id: u32)
        ensures
            final(self).next() == old(self).next(),
            final(self).peers().dom() == old(self).peers().dom().insert(id),
            forall|k: u32| k != id && old(self).peers().contains_key(k) ==>
                #[trigger] final(self).peers()[k] == old(self).peers()[k],
            final(self).peers()[id].channels@ == Map::<u32, u64>::empty(),
            final(self).peers()[id].next_channel_id == 0,
            final(self).peers()[id].events@.len() == 0,
    {
        self.peers.insert(id, RtcPeer { channels: HashMap::new(), next_channel_id: 0, events: Vec::new() });
        assert(self.peers@.dom() =~= old(self).peers@.dom().insert(id));
    }

    /// Reserves the next data-channel id of a peer.
    pub fn reserve_channel_id(&mut self, peer_id: u32) -> (r: Result<u32, RtcError>)
        requires
            old(self).peers().contains_key(peer_id) ==> old(self).peers()[peer_id].next_channel_id < u32::MAX,
        ensures
            !old(self).peers().contains_key(peer_id) ==> r == Err::<u32, RtcError>(RtcError::PeerNotFound)
                && final(self).peers() == old(self).peers(),
            old(self).peers().contains_key(peer_id) ==> {
                let p = old(self).peers()[peer_id];
                &&& r == Ok::<u32, RtcError>(p.next_channel_id)
                &&& final(self).peers() == old(self).peers().insert(peer_id,
                    RtcPeer { next_channel_id: (p.next_channel_id + 1) as u32, ..p })
            },
            final(self).next() == old(self).next(),
    {
        match self.peers.remove(&peer_id) {
            None => {
                assert(self.peers@ =~= old(self).peers@);
                Err(RtcError::PeerNotFound)
            },
            Some(mut p) => {
                let id = p.next_channel_id;
                p.next_channel_id = p.next_channel_id + 1;
                self.peers.insert(peer_id, p);
                assert(self.peers@ =~= old(self).peers@.insert(peer_id,
                    RtcPeer { next_channel_id: (id + 1) as u32, ..old(self).peers@[peer_id] }));
                Ok(id)
            },
        }
    }

    /// Records an opened data channel of a peer; unknown peers are ignored.
    pub fn register_channel(&mut self, peer_id: u32, channel_id: u32, handle: u64)
        ensures
            final(self).next() == old(self).next(),
            final(self).peers().dom() == old(self).peers().dom(),
            old(self).peers().contains_key(peer_id) ==>
                final(self).peers()[peer_id].channels@ == old(self).peers()[peer_id].channels@.insert(channel_id, handle),
            forall|k: u32| k != peer_id && old(self).peers().contains_key(k) ==>
                #[trigger] final(self).peers()[k] == old(self).peers()[k],
    {
        match self.peers.remove(&peer_id) {
            None => {
                assert(self.peers@ =~= old(self).peers@);
            },
            Some(mut p) => {
                p.channels.insert(channel_id, handle);
                self.peers.insert(peer_id, p);
                assert(self.peers@.dom() =~= old(self).peers@.dom());
            },
        }
    }

    /// The handle of a data channel.
    pub fn channel(&self, peer_id: u32, channel_id: u32) -> (r: Result<u64, RtcError>)
        ensures
            !self.peers().contains_key(peer_id) ==> r == Err::<u64, RtcError>(RtcError::PeerNotFound),
            self.peers().contains_key(peer_id) && !self.peers()[peer_id].channels@.contains_key(channel_id)
                ==> r == Err::<u64, RtcError>(RtcError::ChannelNotFound),
            self.peers().contains_key(peer_id) && self.peers()[peer_id].channels@.contains_key(channel_id)
                ==> r == Ok::<u64, RtcError>(self.peers()[peer_id].channels@[channel_id]),
    {
        match self.peers.get(&peer_id) {
            None => Err(RtcError::PeerNotFound),
            Some(p) => match p.channels.get(&channel_id) {
                None => Err(RtcError::ChannelNotFound),
                Some(h) => Ok(*h),
            },
        }
    }

    /// Queues an event for a peer; events for unknown peers are dropped.
    pub fn push_event(&mut self, peer_id: u32, ev: RtcEventOut)
        ensures
            final(self).next() == old(self).next(),
            final(self).peers().dom() == old(self).peers().dom(),
            old(self).peers().contains_key(peer_id) ==>
                final(self).peers()[peer_id].events@ == old(self).peers()[peer_id].events@.push(ev)
                && final(self).peers()[peer_id].channels == old(self).peers()[peer_id].channels
                && final(self).peers()[peer_id].next_channel_id == old(self).peers()[peer_id].next_channel_id,
            forall|k: u32| k != peer_id && old(self).peers().contains_key(k) ==>
                #[trigger] final(self).peers()[k] == old(self).peers()[k],
    {
        match self.peers.remove(&peer_id) {
            None => {
                assert(self.peers@ =~= old(self).peers@);
            },
            Some(mut p) => {
                p.events.push(ev);
                self.peers.insert(peer_id, p);
                assert(self.peers@.dom() =~= old(self).peers@.dom());
            },
        }
    }

    /// Hands out every queued event of a peer, oldest first, and empties its queue.
    pub fn poll(&mut self, peer_id: u32) -> (r: Result<Vec<RtcEventOut>, RtcError>)
        ensures
            final(self).next() == old(self).next(),
            !old(self).peers().contains_key(peer_id) ==> r == Err::<Vec<RtcEventOut>, RtcError>(RtcError::PeerNotFound)
                && final(self).peers() == old(self).peers(),
            old(self).peers().contains_key(peer_id) ==> {
                let p = old(self).peers()[peer_id];
                &&& r matches Ok(v) && v@ == p.events@
                &&& final(self).peers().dom() == old(self).peers().dom()
                &&& final(self).peers()[peer_id].events@.len() == 0
                &&& final(self).peers()[peer_id].channels == p.channels
                &&& final(self).peers()[peer_id].next_channel_id == p.next_channel_id
            },
            forall|k: u32| k != peer_id && old(self).peers().contains_key(k) ==>
                #[trigger] final(self).peers()[k] == old(self).peers()[k],
    {
        match self.peers.remove(&peer_id) {
            None => {
                assert(self.peers@ =~= old(self).peers@);
                Err(RtcError::PeerNotFound)
            },
            Some(p) => {
                let RtcPeer { channels, next_channel_id, events } = p;
                self.peers.insert(peer_id, RtcPeer { channels, next_channel_id, events: Vec::new() });
                assert(self.peers@.dom() =~= old(self).peers@.dom());
                Ok(events)
            },
        }
    }

    /// Forgets a peer; says whether it existed (and so must be closed).
    pub fn close(&mut self, peer_id: u32) -> (r: bool)
        ensures
            r == old(self).peers().contains_key(peer_id),
            final(self).peers() == old(self).peers().remove(peer_id),
            final(self).next() == old(self).next(),
    {
        self.peers.remove(&peer_id).is_some()
    }
}

/// The shared peer registry, created on first use and kept afterwards.
pub fn webrtc(slot: &mut Option<WebRtcState>) -> (state: &mut WebRtcState)
    ensures
        *old(slot) is None ==> state.next() == 1 && state.peers() == Map::<u32, RtcPeer>::empty(),
        *final(slot) == Some(*final(state)),
        *old(slot) is Some ==> *state == old(slot)->0,
{
    if slot.is_none() {
        *slot = Some(WebRtcState::new());
    }
    slot.get_or_insert(WebRtcState { peers: HashMap::new(), next_id: 1 })
}

// ----------------------------------------------------------------------------
// Base64
// ----------------------------------------------------------------------------

/// The standard base64 alphabet.
pub open spec fn b64_char(v: int) -> char {
    if v < 26 { (('A' as int) + v) as char }
    else if v < 52 { (('a' as int) + v - 26) as char }
    else if v < 62 { (('0' as int) + v - 52) as char }
    else if v == 62 { '+' }
    else { '/' }
}

/// Encoding of one group of `n` (1 to 3) bytes as four characters, padded with `=`.
pub open spec fn b64_group_vals(b0: int, b1: int, b2: int, n: int) -> Seq<char> {
    let triple = b0 * 65536 + b1 * 256 + b2;
    seq![
        b64_char(triple / 262144 % 64),
        b64_char(triple / 4096 % 64),
        if n > 1 { b64_char(triple / 64 % 64) } else { '=' },
        if n > 2 { b64_char(triple % 64) } else { '=' },
    ]
}

/// Encoding of one group of up to three bytes; missing bytes count as zero.
pub open spec fn b64_group(d: Seq<u8>) -> Seq<char> {
    b64_group_vals(
        d[0] as int,
        if d.len() > 1 { d[1] as int } else { 0 },
        if d.len() > 2 { d[2] as int } else { 0 },
        d.len() as int,
    )
}

/// Standard padded base64 of a byte string, three bytes at a time.
pub open spec fn base64_spec(d: Seq<u8>) -> Seq<char>
    decreases d.len(),
{
    if d.len() == 0 {
        seq![]
    } else if d.len() <= 3 {
        b64_group(d)
    } else {
        b64_group(d.take(3)) + base64_spec(d.skip(3))
    }
}

fn char_from(b: u8) -> (c: char)
    requires
        b < 128,
    ensures
        c as int == b as int,
{
    b as char
}

fn b64_digit(v: u32) -> (c: char)
    requires
        v < 64,
    ensures
        c == b64_char(v as int),
{
    if v < 26 {
        char_from((65 + v) as u8)
    } else if v < 52 {
        char_from((97 + v - 26) as u8)
    } else if v < 62 {
        char_from((48 + v - 52) as u8)
    } else if v == 62 {
        '+'
    } else {
        '/'
    }
}

fn push_group(out: &mut Vec<char>, b0: u8, b1: u8, b2: u8, n: usize)
    requires
        1 <= n <= 3,
    ensures
        final(out)@ == old(out)@ + b64_group_vals(b0 as int, b1 as int, b2 as int, n as int),
{
    let triple: u32 = (b0 as u32) * 65536 + (b1 as u32) * 256 + (b2 as u32);
    assert(((triple >> 18) & 0x3F) == triple / 262144 % 64
        && ((triple >> 12) & 0x3F) == triple / 4096 % 64
        && ((triple >> 6) & 0x3F) == triple / 64 % 64
        && (triple & 0x3F) == triple % 64
        && (triple >> 18) & 0x3F < 64 && (triple >> 12) & 0x3F < 64
        && (triple >> 6) & 0x3F < 64 && triple & 0x3F < 64) by (bit_vector);
    out.push(b64_digit((triple >> 18) & 0x3F));
    out.push(b64_digit((triple >> 12) & 0x3F));
    if n > 1 {
        out.push(b64_digit((triple >> 6) & 0x3F));
    } else {
        out.push('=');
    }
    if n > 2 {
        out.push(b64_digit(triple & 0x3F));
    } else {
        out.push('=');
    }
    assert(final(out)@ =~= old(out)@ + b64_group_vals(b0 as int, b1 as int, b2 as int, n as int));
}

/// The value of a base64 character, -1 for a character outside the alphabet.
pub open spec fn b64_value(c: char) -> int {
    if 'A' <= c && c <= 'Z' { (c as int) - ('A' as int) }
    else if 'a' <= c && c <= 'z' { (c as int) - ('a' as int) + 26 }
    else if '0' <= c && c <= '9' { (c as int) - ('0' as int) + 52 }
    else if c == '+' { 62 }
    else if c == '/' { 63 }
    else { -1 }
}

/// The alphabet gives each of the 64 digit values its own character, none of
/// them the padding character.
pub proof fn lemma_b64_alphabet(v: int)
    requires
        0 <= v < 64,
    ensures
        b64_value(b64_char(v)) == v,
        b64_char(v) != '=',
{
}

/// A group decodes back to its bytes: the digit values of its characters,
/// read as a base-64 number (padding counting as zero), give the group's
/// bytes as a base-256 number; the group is padded with one `=` per missing
/// byte.
pub proof fn lemma_b64_group_decodes(d: Seq<u8>)
    requires
        1 <= d.len() <= 3,
    ensures
        ({
            let g = b64_group(d);
            let digit = |c: char| if c == '=' { 0int } else { b64_value(c) };
            &&& g.len() == 4
            &&& digit(g[0]) * 262144 + digit(g[1]) * 4096 + digit(g[2]) * 64 + digit(g[3])
                == (d[0] as int) * 65536 + (if d.len() > 1 { d[1] as int } else { 0 }) * 256
                    + (if d.len() > 2 { d[2] as int } else { 0 })
            &&& (g[2] == '=' <==> d.len() < 2)
            &&& (g[3] == '=' <==> d.len() < 3)
        }),
{
    let b0: int = d[0] as int;
    let b1: int = if d.len() > 1 { d[1] as int } else { 0 };
    let b2: int = if d.len() > 2 { d[2] as int } else { 0 };
    let t: int = b0 * 65536 + b1 * 256 + b2;
    assert(0 <= t < 16777216) by (nonlinear_arith)
        requires 0 <= b0 < 256, 0 <= b1 < 256, 0 <= b2 < 256, t == b0 * 65536 + b1 * 256 + b2;
    let q0 = t / 262144 % 64;
    let q1 = t / 4096 % 64;
    let q2 = t / 64 % 64;
    let q3 = t % 64;
    assert(0 <= q0 < 64 && 0 <= q1 < 64 && 0 <= q2 < 64 && 0 <= q3 < 64);
    lemma_b64_alphabet(q0);
    lemma_b64_alphabet(q1);
    lemma_b64_alphabet(q2);
    lemma_b64_alphabet(q3);
    assert(q0 * 262144 + q1 * 4096 + q2 * 64 + q3 == t) by (nonlinear_arith)
        requires 0 <= t < 16777216, q0 == t / 262144 % 64, q1 == t / 4096 % 64,
            q2 == t / 64 % 64, q3 == t % 64;
    if d.len() < 3 {
        assert(q3 == 0) by (nonlinear_arith)
            requires q3 == t % 64, t == b0 * 65536 + b1 * 256 + b2, b2 == 0;
    }
    if d.len() < 2 {
        assert(q2 == 0) by (nonlinear_arith)
            requires q2 == t / 64 % 64, t == b0 * 65536 + b1 * 256 + b2, b2 == 0, b1 == 0;
    }
}

/// Base64 text is four characters for every started group of three bytes.
pub proof fn lemma_base64_len(d: Seq<u8>)
    ensures
        base64_spec(d).len() == 4 * ((d.len() + 2) / 3),
    decreases d.len(),
{
    if d.len() > 3 {
        lemma_base64_len(d.skip(3));
    }
}

/// Base64 text is the groups of its bytes, in order: characters `4k` to
/// `4k + 3` encode bytes `3k` to `3k + 2` (fewer in the last group), so each
/// group decodes back to its own bytes.
pub proof fn lemma_base64_groups(d: Seq<u8>, k: int)
    requires
        0 <= k,
        3 * k < d.len(),
    ensures
        base64_spec(d).len() >= 4 * k + 4,
        base64_spec(d).subrange(4 * k, 4 * k + 4)
            == b64_group(d.subrange(3 * k, if 3 * k + 3 <= d.len() { 3 * k + 3 } else { d.len() as int })),
    decreases d.len(),
{
    lemma_base64_len(d);
    assert(4 * k + 4 <= 4 * ((d.len() + 2) / 3));
    if d.len() <= 3 {
        assert(d.subrange(0, d.len() as int) =~= d);
        assert(base64_spec(d).subrange(0, 4) =~= base64_spec(d));
    } else {
        let head = b64_group(d.take(3));
        let rest = d.skip(3);
        assert(base64_spec(d) == head + base64_spec(rest));
        if k == 0 {
            assert(d.subrange(0, 3) =~= d.take(3));
            assert(base64_spec(d).subrange(0, 4) =~= head);
        } else {
            lemma_base64_groups(rest, k - 1);
            let e: int = if 3 * k + 3 <= d.len() { 3 * k + 3 } else { d.len() as int };
            assert(rest.subrange(3 * (k - 1), e - 3) =~= d.subrange(3 * k, e));
            assert(base64_spec(d).subrange(4 * k, 4 * k + 4)
                =~= base64_spec(rest).subrange(4 * (k - 1), 4 * (k - 1) + 4));
        }
    }
}

/// Encodes bytes as standard padded base64.
pub fn base64_encode(data: &[u8]) -> (r: String)
    ensures
        r@ == base64_spec(data@),
{
    let mut out: Vec<char> = Vec::new();
    let mut i: usize = 0;
    assert(data@.skip(0) =~= data@);
    while i < data.len()
        invariant
            i <= data.len(),
            out@ + base64_spec(data@.skip(i as int)) == base64_spec(data@),
        decreases data.len() - i,
    {
        let ghost rest = data@.skip(i as int);
        let ghost prev = out@;
        let n: usize = if data.len() - i > 3 { 3 } else { data.len() - i };
        let b0 = data[i];
        let b1 = if n > 1 { data[i + 1] } else { 0 };
        let b2 = if n > 2 { data[i + 2] } else { 0 };
        push_group(&mut out, b0, b1, b2, n);
        proof {
            let g = if rest.len() <= 3 { rest } else { rest.take(3) };
            assert(b64_group(g) == b64_group_vals(b0 as int, b1 as int, b2 as int, n as int));
            if rest.len() > 3 {
                assert(rest.skip(3) =~= data@.skip(i as int + 3));
                assert(base64_spec(rest) == b64_group(g) + base64_spec(rest.skip(3)));
                assert(prev + (b64_group(g) + base64_spec(rest.skip(3)))
                    =~= (prev + b64_group(g)) + base64_spec(rest.skip(3)));
            } else {
                assert(data@.skip(i as int + n as int) =~= seq![]);
                assert(base64_spec(data@.skip(i as int + n as int)) =~= seq![]);
                assert(out@ + seq![] =~= out@);
            }
        }
        i = i + n;
    }
    assert(data@.skip(i as int) =~= seq![]);
    assert(out@ + seq![] =~= out@);
    crate::text::string_from_chars(&out)
}

} // verus!
