//! Framing of commands for the APW12 power supply, which listens on I2C.
//!
//! A command packet is `11 55 aa`, a length byte (payload length + 3), the
//! payload, a checksum byte and a trailing `00`. The checksum is the length
//! byte plus every payload byte, modulo 256.
use vstd::prelude::*;

verus! {

/// Why a payload cannot be framed.
#[derive(Debug, Clone, Copy, PartialEq, Eq, Structural)]
pub enum PacketError {
    /// The payload is so long that its length byte would not fit in a byte.
    PayloadTooLong,
}

/// The APW12 power supply's command protocol.
pub struct S19xpApw12;

/// The sum of the bytes of `s`, as an integer.
pub open spec fn byte_sum(s: Seq<u8>) -> int
    decreases s.len(),
{
    if s.len() == 0 {
        0
    } else {
        byte_sum(s.drop_last()) + s.last()
    }
}

/// The length byte of a packet that carries `payload`.
pub open spec fn length_byte(payload: Seq<u8>) -> int {
    payload.len() + 3int
}

/// The checksum byte of a packet that carries `payload`.
pub open spec fn checksum_byte(payload: Seq<u8>) -> u8 {
    ((length_byte(payload) + byte_sum(payload)) % 256) as u8
}

/// The packet that carries `payload`.
pub open spec fn spec_packet(payload: Seq<u8>) -> Seq<u8> {
    seq![0x11u8, 0x55u8, 0xaau8, length_byte(payload) as u8] + payload + seq![
        checksum_byte(payload),
        0x00u8,
    ]
}

impl S19xpApw12 {
    /// Frames `payload` as a command packet. A payload longer than 252 bytes
    /// has no length byte and is refused.
    pub fn packet(payload: &[u8]) -> (res: Result<Vec<u8>, PacketError>)
        ensures
            payload@.len() > 252 ==> res == Err::<Vec<u8>, PacketError>(
                PacketError::PayloadTooLong,
            ),
            payload@.len() <= 252 ==> (res matches Ok(p) && p@ == spec_packet(payload@)),
    {
        if payload.len() > 252 {
            return Err(PacketError::PayloadTooLong);
        }
        let len: u8 = (payload.len() + 3) as u8;
        let mut checksum: u8 = len;
        let mut packet: Vec<u8> = Vec::new();
        packet.push(0x11);
        packet.push(0x55);
        packet.push(0xaa);
        packet.push(len);
        let mut i: usize = 0;
        while i < payload.len()
            invariant
                i <= payload@.len() <= 252,
                len == payload@.len() + 3,
                checksum == (len + byte_sum(payload@.take(i as int))) % 256,
                packet@ == seq![0x11u8, 0x55u8, 0xaau8, len] + payload@.take(i as int),
            decreases payload.len() - i,
        {
            let b = payload[i];
            assert(payload@.take(i + 1).drop_last() =~= payload@.take(i as int));
            checksum = checksum.wrapping_add(b);
            packet.push(b);
            i += 1;
            assert(packet@ =~= seq![0x11u8, 0x55u8, 0xaau8, len] + payload@.take(i as int));
        }
        assert(payload@.take(i as int) =~= payload@);
        packet.push(checksum);
        packet.push(0x00);
        assert(packet@ =~= spec_packet(payload@));
        Ok(packet)
    }
}

/// A receiver that adds up the length byte and the payload of a packet, and
/// compares the sum modulo 256 with the checksum byte, accepts every packet
/// that `packet` frames; and the length byte tells it where the payload ends.
pub proof fn lemma_packet_checks_out(payload: Seq<u8>)
    requires
        payload.len() <= 252,
    ensures
        spec_packet(payload).len() == payload.len() + 6,
        spec_packet(payload)[3] as int == payload.len() + 3,
        spec_packet(payload).subrange(4, 4 + payload.len() as int) == payload,
        spec_packet(payload)[4 + payload.len() as int] as int == (spec_packet(payload)[3] + byte_sum(
            payload,
        )) % 256,
        spec_packet(payload).last() == 0,
{
    let p = spec_packet(payload);
    let head = seq![0x11u8, 0x55u8, 0xaau8, length_byte(payload) as u8];
    let tail = seq![checksum_byte(payload), 0x00u8];
    assert(head.len() == 4);
    assert(tail.len() == 2);
    assert(p == head + payload + tail);
    assert((head + payload).len() == 4 + payload.len());
    assert(p.len() == 4 + payload.len() + 2);
    assert(p.subrange(4, 4 + payload.len() as int) =~= payload);
}

} // verus!
