//! Analog channels.
use vstd::prelude::*;
use crate::bits::{hi_byte, le16, lemma_le16_round_trip, lo_byte, read_le16, write_le16};
use crate::packing::{Pack, PackingError, Unpack};

verus! {

/// Six 16-bit analog channels; packed into twelve bytes, each channel little-endian.
#[derive(Clone, Copy, Debug, PartialEq, Eq, Structural)]
pub struct AnalogInputs {
    pub a0: u16,
    pub a1: u16,
    pub a2: u16,
    pub a3: u16,
    pub a4: u16,
    pub a5: u16,
}

impl AnalogInputs {
    /// All channels zero.
    pub open spec fn zero() -> AnalogInputs {
        AnalogInputs { a0: 0, a1: 0, a2: 0, a3: 0, a4: 0, a5: 0 }
    }

    /// Channel `k`.
    pub open spec fn channel(&self, k: int) -> u16 {
        if k == 0 {
            self.a0
        } else if k == 1 {
            self.a1
        } else if k == 2 {
            self.a2
        } else if k == 3 {
            self.a3
        } else if k == 4 {
            self.a4
        } else {
            self.a5
        }
    }

    /// The channels held in twelve packed bytes.
    pub open spec fn from_bytes(b: Seq<u8>) -> AnalogInputs {
        AnalogInputs {
            a0: le16(b[0], b[1]),
            a1: le16(b[2], b[3]),
            a2: le16(b[4], b[5]),
            a3: le16(b[6], b[7]),
            a4: le16(b[8], b[9]),
            a5: le16(b[10], b[11]),
        }
    }

    /// The twelve packed bytes.
    pub fn to_bytes(&self) -> (r: [u8; 12])
        ensures
            r@ == self.packed(),
    {
        let (l0, h0) = write_le16(self.a0);
        let (l1, h1) = write_le16(self.a1);
        let (l2, h2) = write_le16(self.a2);
        let (l3, h3) = write_le16(self.a3);
        let (l4, h4) = write_le16(self.a4);
        let (l5, h5) = write_le16(self.a5);
        let r = [l0, h0, l1, h1, l2, h2, l3, h3, l4, h4, l5, h5];
        assert(r@ =~= self.packed());
        r
    }

    /// Read the channels from the twelve bytes of `buffer` that start at `off`.
    pub fn read_from(buffer: &[u8], off: usize) -> (r: AnalogInputs)
        requires
            off + 12 <= buffer@.len(),
        ensures
            r == AnalogInputs::from_bytes(buffer@.subrange(off as int, off + 12)),
    {
        AnalogInputs {
            a0: read_le16(buffer[off], buffer[off + 1]),
            a1: read_le16(buffer[off + 2], buffer[off + 3]),
            a2: read_le16(buffer[off + 4], buffer[off + 5]),
            a3: read_le16(buffer[off + 6], buffer[off + 7]),
            a4: read_le16(buffer[off + 8], buffer[off + 9]),
            a5: read_le16(buffer[off + 10], buffer[off + 11]),
        }
    }

    /// Unpacking the packed bytes gives the channels back.
    pub proof fn lemma_round_trip(self)
        ensures
            self.packed().len() == 12,
            AnalogInputs::from_bytes(self.packed()) == self,
    {
        lemma_le16_round_trip(self.a0);
        lemma_le16_round_trip(self.a1);
        lemma_le16_round_trip(self.a2);
        lemma_le16_round_trip(self.a3);
        lemma_le16_round_trip(self.a4);
        lemma_le16_round_trip(self.a5);
    }
}

impl Default for AnalogInputs {
    fn default() -> (r: AnalogInputs)
        ensures
            r == AnalogInputs::zero(),
    {
        AnalogInputs { a0: 0, a1: 0, a2: 0, a3: 0, a4: 0, a5: 0 }
    }
}

impl Pack for AnalogInputs {
    open spec fn packed_len() -> nat {
        12
    }

    open spec fn packed(&self) -> Seq<u8> {
        Seq::new(
            12,
            |i: int|
                if i % 2 == 0 {
                    lo_byte(self.channel(i / 2))
                } else {
                    hi_byte(self.channel(i / 2))
                },
        )
    }

    fn pack(self, buffer: &mut [u8]) -> (r: Result<(), PackingError>) {
        if buffer.len() < 12 {
            return Err(PackingError::InvalidBufferSize);
        }
        let bytes = self.to_bytes();
        crate::packing::copy_into(buffer, 0, &bytes);
        assert(final(buffer)@ =~= self.packed() + old(buffer)@.skip(12));
        Ok(())
    }
}

impl Unpack for AnalogInputs {
    open spec fn unpacked(bytes: Seq<u8>) -> Result<AnalogInputs, PackingError> {
        if bytes.len() < 12 {
            Err(PackingError::InvalidBufferSize)
        } else {
            Ok(AnalogInputs::from_bytes(bytes.take(12)))
        }
    }

    fn unpack(buffer: &[u8]) -> (r: Result<AnalogInputs, PackingError>) {
        if buffer.len() < 12 {
            return Err(PackingError::InvalidBufferSize);
        }
        let r = AnalogInputs::read_from(buffer, 0);
        assert(buffer@.subrange(0, 12) =~= buffer@.take(12));
        Ok(r)
    }
}

} // verus!
