//! Point-to-point LoRa beacon: what is sent in each frame, how sent frames are
//! counted, and what is kept of a received frame.
use vstd::prelude::*;
use crate::decimal::{
    all_digits, decimal_digits, digits_value, lemma_decimal_digits_faithful,
    lemma_decimal_digits_injective, lemma_decimal_digits_len_u64, push_decimal,
};

verus! {

/// Carrier frequency the radio is tuned to, in MHz.
pub const BAND_MHZ: i64 = 866;

/// Size of the radio's frame buffer, in bytes.
pub const FRAME_CAPACITY: usize = 255;

/// How long the radio listens for a reply after each transmission, in milliseconds
/// (the radio driver counts this timeout in milliseconds).
pub const LISTEN_TIMEOUT_MS: i32 = 5;

/// Pause between two rounds of transmit and listen, in milliseconds.
pub const ROUND_PAUSE_MS: u32 = 1000;

/// The bytes of the text `Hello Dude ` that opens every beacon message.
pub open spec fn greeting() -> Seq<u8> {
    seq![72u8, 101, 108, 108, 111, 32, 68, 117, 100, 101, 32]
}

/// The beacon message sent after `n` successful transmissions: the greeting
/// followed by `n` in decimal.
pub open spec fn beacon_message(n: nat) -> Seq<u8> {
    greeting() + decimal_digits(n)
}

/// A frame as handed to the radio: a buffer of the radio's capacity and the
/// number of leading bytes that carry the payload.
pub struct Frame {
    pub buffer: Vec<u8>,
    pub len: usize,
}

impl Frame {
    /// The frame carries exactly `payload`, padded with zero bytes up to capacity.
    pub open spec fn carries(&self, payload: Seq<u8>) -> bool {
        &&& self.buffer@.len() == FRAME_CAPACITY
        &&& self.len == payload.len()
        &&& self.buffer@.take(self.len as int) == payload
        &&& forall|i: int| self.len <= i < FRAME_CAPACITY ==> #[trigger] self.buffer@[i] == 0u8
    }
}

/// The bytes of the beacon message for `packets_sent` successful transmissions.
pub fn beacon_bytes(packets_sent: usize) -> (message: Vec<u8>)
    ensures
        message@ == beacon_message(packets_sent as nat),
        message@.len() <= 31,
        message@.len() >= 12,
        message@.take(11) == greeting(),
        all_digits(message@.skip(11)),
        digits_value(message@.skip(11)) == packets_sent,
{
    let text = "Hello Dude ";
    proof {
        reveal_strlit("Hello Dude ");
        assert(text@ =~= seq!['H', 'e', 'l', 'l', 'o', ' ', 'D', 'u', 'd', 'e', ' ']);
        assert(vstd::string::is_ascii(text));
        vstd::string::is_ascii_spec_bytes(text);
    }
    let mut message: Vec<u8> = Vec::new();
    message.extend_from_slice(text.as_bytes());
    assert(message@ =~= greeting());
    push_decimal(packets_sent as u64, &mut message);
    proof {
        lemma_decimal_digits_len_u64(packets_sent as u64);
        lemma_beacon_message_layout(packets_sent as nat);
    }
    message
}

/// Lays `payload` out in a zero-filled frame buffer of the radio's capacity.
pub fn frame_payload(payload: &[u8]) -> (frame: Frame)
    requires
        payload@.len() <= FRAME_CAPACITY,
    ensures
        frame.carries(payload@),
{
    let mut buffer: Vec<u8> = vec![0u8; FRAME_CAPACITY];
    let n = payload.len();
    let mut i: usize = 0;
    while i < n
        invariant
            n == payload@.len(),
            n <= FRAME_CAPACITY,
            i <= n,
            buffer@.len() == FRAME_CAPACITY,
            forall|j: int| 0 <= j < i ==> buffer@[j] == payload@[j],
            forall|j: int| i <= j < FRAME_CAPACITY ==> #[trigger] buffer@[j] == 0u8,
        decreases n - i,
    {
        buffer.set(i, payload[i]);
        i = i + 1;
    }
    assert(buffer@.take(n as int) =~= payload@);
    Frame { buffer, len: n }
}

/// The sending side of the beacon: how many frames the radio has accepted so far.
pub struct Beacon {
    pub packets_sent: usize,
}

impl Beacon {
    /// A beacon that has not sent anything yet.
    pub fn new() -> (beacon: Beacon)
        ensures
            beacon.packets_sent == 0,
    {
        Beacon { packets_sent: 0 }
    }

    /// The frame to hand to the radio next: the beacon message for the current count.
    pub fn next_frame(&self) -> (frame: Frame)
        ensures
            frame.carries(beacon_message(self.packets_sent as nat)),
            12 <= frame.len <= 31,
            frame.buffer@.take(11) == greeting(),
            all_digits(frame.buffer@.subrange(11, frame.len as int)),
            digits_value(frame.buffer@.subrange(11, frame.len as int)) == self.packets_sent,
    {
        let message = beacon_bytes(self.packets_sent);
        let frame = frame_payload(message.as_slice());
        assert(frame.buffer@.take(11) =~= message@.take(frame.len as int).take(11));
        assert(frame.buffer@.subrange(11, frame.len as int) =~= message@.skip(11));
        frame
    }

    /// Records the radio's answer to a transmission. An accepted frame is counted and
    /// its number (the count before this frame) is returned for the log; a refused
    /// frame leaves the count as it was.
    pub fn record_transmission(&mut self, accepted: bool) -> (reported: Option<usize>)
        requires
            accepted ==> old(self).packets_sent < usize::MAX,
        ensures
            accepted ==> final(self).packets_sent == old(self).packets_sent + 1
                && reported == Some(old(self).packets_sent),
            !accepted ==> final(self).packets_sent == old(self).packets_sent && reported is None,
    {
        if accepted {
            let number = self.packets_sent;
            self.packets_sent = number + 1;
            Some(number)
        } else {
            None
        }
    }
}

/// The payload of a received frame: the first `size` bytes of the buffer the radio
/// returned, `size` being the byte count the radio reported.
pub fn received_payload(buffer: &[u8], size: usize) -> (payload: Vec<u8>)
    requires
        size <= buffer@.len(),
    ensures
        payload@ == buffer@.take(size as int),
{
    let mut payload: Vec<u8> = Vec::new();
    let mut i: usize = 0;
    while i < size
        invariant
            size <= buffer@.len(),
            i <= size,
            payload@ == buffer@.take(i as int),
        decreases size - i,
    {
        payload.push(buffer[i]);
        i = i + 1;
        assert(payload@ =~= buffer@.take(i as int));
    }
    payload
}

/// Every beacon message is the greeting `Hello Dude ` followed by the count written
/// in decimal: it opens with those eleven bytes, and what follows them is a
/// non-empty run of ASCII digits, without a leading zero unless the count is zero,
/// that reads back as the count.
pub proof fn lemma_beacon_message_layout(n: nat)
    ensures
        beacon_message(n).len() >= 12,
        beacon_message(n).take(11) == seq![72u8, 101, 108, 108, 111, 32, 68, 117, 100, 101, 32],
        beacon_message(n).take(11) == greeting(),
        all_digits(beacon_message(n).skip(11)),
        beacon_message(n).skip(11)[0] == 48u8 ==> n == 0,
        digits_value(beacon_message(n).skip(11)) == n,
{
    lemma_decimal_digits_faithful(n);
    assert(beacon_message(n).take(11) =~= greeting());
    assert(beacon_message(n).skip(11) =~= decimal_digits(n));
}

/// Beacon messages for different counts differ, so every accepted frame is
/// distinguishable from the ones before it.
pub proof fn lemma_beacon_messages_distinct(a: nat, b: nat)
    requires
        a != b,
    ensures
        beacon_message(a) != beacon_message(b),
{
    if beacon_message(a) == beacon_message(b) {
        let g = greeting().len() as int;
        assert(beacon_message(a).skip(g) =~= decimal_digits(a));
        assert(beacon_message(b).skip(g) =~= decimal_digits(b));
        lemma_decimal_digits_injective(a, b);
    }
}

} // verus!
