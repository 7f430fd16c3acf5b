use vstd::prelude::*;
use vstd::arithmetic::div_mod::lemma_fundamental_div_mod;
use crate::errors::Error;
use crate::packet::checksum::checksum;
use crate::packet::checksum::checksum_spec;

verus! {

/// Length of the ICMP echo header:
/// `type(1) | code(1) | checksum(2) | identifier(2) | sequence(2)`.
pub const HEADER_SIZE: usize = 8;

/// The protocol variant an echo message is encoded for. It selects
/// the type codes and whether a received buffer carries an IPv4
/// header in front of the ICMP payload.
#[derive(Clone, Copy, Debug, PartialEq, Eq, Structural)]
pub enum ProtocolVariant {
    IcmpV4,
    IcmpV6,
}

/// The type code of an echo request for `v`: 8 for IPv4, 128 for IPv6.
pub open spec fn request_type(v: ProtocolVariant) -> u8 {
    match v {
        ProtocolVariant::IcmpV4 => 8,
        ProtocolVariant::IcmpV6 => 128,
    }
}

/// The type code of an echo reply for `v`: 0 for IPv4, 129 for IPv6.
pub open spec fn reply_type(v: ProtocolVariant) -> u8 {
    match v {
        ProtocolVariant::IcmpV4 => 0,
        ProtocolVariant::IcmpV6 => 129,
    }
}

pub open spec fn high_byte(x: u16) -> u8 {
    (x / 256) as u8
}

pub open spec fn low_byte(x: u16) -> u8 {
    (x % 256) as u8
}

/// An echo message for type code `t` with its checksum field (bytes 2
/// and 3) still zeroed, followed by the untouched tail of the output
/// buffer.
pub open spec fn message_zeroed(t: u8, ident: u16, seq_cnt: u16, payload: Seq<u8>) -> Seq<u8> {
    seq![
        t,
        0u8,
        0u8,
        0u8,
        high_byte(ident),
        low_byte(ident),
        high_byte(seq_cnt),
        low_byte(seq_cnt),
    ] + payload
}

/// The wire bytes of an encoded echo message: the zeroed message plus
/// the buffer tail, with the checksum of that whole buffer written
/// big-endian into bytes 2 and 3.
pub open spec fn encoded_with_tail(
    t: u8,
    ident: u16,
    seq_cnt: u16,
    payload: Seq<u8>,
    tail: Seq<u8>,
) -> Seq<u8> {
    let z = message_zeroed(t, ident, seq_cnt, payload) + tail;
    let c = checksum_spec(z);
    z.update(2, high_byte(c)).update(3, low_byte(c))
}

/// The wire bytes of an echo message in a buffer of exactly the
/// message's size.
pub open spec fn encoded_message(t: u8, ident: u16, seq_cnt: u16, payload: Seq<u8>) -> Seq<u8> {
    encoded_with_tail(t, ident, seq_cnt, payload, Seq::<u8>::empty())
}

/// What decoding a received buffer against the expected type code
/// yields: `None` if the buffer is shorter than the header or its type
/// byte differs, otherwise the identifier, the sequence number and the
/// payload (everything after the header).
pub open spec fn decoded(s: Seq<u8>, expected_type: u8) -> Option<(u16, u16, Seq<u8>)> {
    if s.len() < 8 || s[0] != expected_type {
        None
    } else {
        Some(
            (
                ((s[4] as nat) * 256 + (s[5] as nat)) as u16,
                ((s[6] as nat) * 256 + (s[7] as nat)) as u16,
                s.skip(8),
            ),
        )
    }
}

/// A logical echo request, immutable once built.
#[derive(Debug)]
pub struct EchoRequest {
    pub ident: u16,
    pub seq_cnt: u16,
    pub payload: Vec<u8>,
}

/// A logical echo reply, produced by decoding inbound wire bytes.
#[derive(Debug)]
pub struct EchoReply {
    pub ident: u16,
    pub seq_cnt: u16,
    pub payload: Vec<u8>,
}

impl EchoRequest {
    /// Encodes this request for `variant` into the front of `buffer`:
    /// writes the header with a zeroed checksum field and the payload,
    /// computes the checksum over the whole buffer, and writes it back
    /// into bytes 2 and 3. Fails with `Error::InternalError` when the
    /// buffer is smaller than header plus payload, leaving it as it
    /// was.
    pub fn encode(&self, variant: ProtocolVariant, buffer: &mut Vec<u8>) -> (r: Result<(), Error>)
        ensures
            old(buffer)@.len() < 8 + self.payload@.len() ==> r == Err::<(), Error>(
                Error::InternalError,
            ) && final(buffer)@ == old(buffer)@,
            old(buffer)@.len() >= 8 + self.payload@.len() ==> r == Ok::<(), Error>(())
                && final(buffer)@ == encoded_with_tail(
                request_type(variant),
                self.ident,
                self.seq_cnt,
                self.payload@,
                old(buffer)@.skip(8 + self.payload@.len() as int),
            ),
    {
        let plen = self.payload.len();
        if buffer.len() < 8 || buffer.len() - 8 < plen {
            return Err(Error::InternalError);
        }
        let t: u8 = match variant {
            ProtocolVariant::IcmpV4 => 8,
            ProtocolVariant::IcmpV6 => 128,
        };
        buffer[0] = t;
        buffer[1] = 0;
        buffer[2] = 0;
        buffer[3] = 0;
        buffer[4] = (self.ident / 256) as u8;
        buffer[5] = (self.ident % 256) as u8;
        buffer[6] = (self.seq_cnt / 256) as u8;
        buffer[7] = (self.seq_cnt % 256) as u8;
        let mut k: usize = 0;
        while k < plen
            invariant
                plen == self.payload@.len(),
                8 + plen <= usize::MAX,
                k <= plen,
                buffer@.len() == old(buffer)@.len(),
                buffer@.len() >= 8 + plen,
                buffer@[0] == request_type(variant),
                buffer@[1] == 0u8,
                buffer@[2] == 0u8,
                buffer@[3] == 0u8,
                buffer@[4] == high_byte(self.ident),
                buffer@[5] == low_byte(self.ident),
                buffer@[6] == high_byte(self.seq_cnt),
                buffer@[7] == low_byte(self.seq_cnt),
                forall|j: int| 0 <= j < k ==> buffer@[8 + j] == self.payload@[j],
                forall|j: int|
                    8 + plen <= j < buffer@.len() ==> buffer@[j] == old(buffer)@[j],
            decreases plen - k,
        {
            buffer[8 + k] = self.payload[k];
            k = k + 1;
        }
        let ghost z = message_zeroed(
            request_type(variant),
            self.ident,
            self.seq_cnt,
            self.payload@,
        ) + old(buffer)@.skip(8 + plen as int);
        proof {
            assert(buffer@ =~= z);
        }
        let c = checksum(buffer.as_slice());
        buffer[2] = (c / 256) as u8;
        buffer[3] = (c % 256) as u8;
        proof {
            assert(buffer@ == z.update(2, high_byte(c)).update(3, low_byte(c)));
        }
        Ok(())
    }
}

impl EchoReply {
    /// Decodes a received buffer as an echo reply for `variant`. Fails
    /// with `Error::DecodeEchoReplyError` exactly when the buffer is
    /// shorter than the header or its type byte is not the reply type
    /// for `variant`; on success returns the identifier, the sequence
    /// number, and the payload behind the header. The checksum is not
    /// re-validated: a delivered packet is taken as delivered intact.
    pub fn decode(buffer: &[u8], variant: ProtocolVariant) -> (r: Result<EchoReply, Error>)
        ensures
            match r {
                Ok(rep) => decoded(buffer@, reply_type(variant)) == Some(
                    (rep.ident, rep.seq_cnt, rep.payload@),
                ),
                Err(e) => decoded(buffer@, reply_type(variant)) is None && e
                    == Error::DecodeEchoReplyError,
            },
    {
        let n: usize = buffer.len();
        if n < 8 {
            return Err(Error::DecodeEchoReplyError);
        }
        let expected: u8 = match variant {
            ProtocolVariant::IcmpV4 => 0,
            ProtocolVariant::IcmpV6 => 129,
        };
        if buffer[0] != expected {
            return Err(Error::DecodeEchoReplyError);
        }
        let ident: u16 = (buffer[4] as u16) * 256 + (buffer[5] as u16);
        let seq_cnt: u16 = (buffer[6] as u16) * 256 + (buffer[7] as u16);
        let mut payload: Vec<u8> = Vec::new();
        let mut k: usize = 8;
        while k < n
            invariant
                n == buffer@.len(),
                8 <= k <= n,
                payload@ == buffer@.subrange(8, k as int),
            decreases n - k,
        {
            payload.push(buffer[k]);
            k = k + 1;
        }
        proof {
            assert(payload@ =~= buffer@.skip(8));
        }
        Ok(EchoReply { ident, seq_cnt, payload })
    }
}

/// The round-trip law of the codec: decoding an encoded echo message
/// against the type code it was encoded with returns exactly the
/// identifier, sequence number and payload that went in, for the
/// request as well as the reply type code of either protocol variant.
pub proof fn lemma_codec_round_trip(
    variant: ProtocolVariant,
    ident: u16,
    seq_cnt: u16,
    payload: Seq<u8>,
)
    ensures
        decoded(encoded_message(request_type(variant), ident, seq_cnt, payload), request_type(variant))
            == Some((ident, seq_cnt, payload)),
        decoded(encoded_message(reply_type(variant), ident, seq_cnt, payload), reply_type(variant))
            == Some((ident, seq_cnt, payload)),
{
    lemma_decode_encoded(request_type(variant), ident, seq_cnt, payload);
    lemma_decode_encoded(reply_type(variant), ident, seq_cnt, payload);
}

proof fn lemma_decode_encoded(t: u8, ident: u16, seq_cnt: u16, payload: Seq<u8>)
    ensures
        decoded(encoded_message(t, ident, seq_cnt, payload), t) == Some(
            (ident, seq_cnt, payload),
        ),
{
    let e = encoded_message(t, ident, seq_cnt, payload);
    assert(e.len() == 8 + payload.len());
    assert(e[0] == t);
    assert(e[4] == high_byte(ident) && e[5] == low_byte(ident));
    assert(e[6] == high_byte(seq_cnt) && e[7] == low_byte(seq_cnt));
    lemma_fundamental_div_mod(ident as int, 256);
    lemma_fundamental_div_mod(seq_cnt as int, 256);
    assert((high_byte(ident) as nat) * 256 + (low_byte(ident) as nat) == ident);
    assert((high_byte(seq_cnt) as nat) * 256 + (low_byte(seq_cnt) as nat) == seq_cnt);
    assert(e.skip(8) =~= payload);
}

} // verus!
