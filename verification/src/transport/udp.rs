//! UDP headers: eight bytes, four 16-bit fields.
use crate::window::{replace_u16, u16_at, u16_from_be, u16_to_be, write_bytes};
use vstd::prelude::*;

verus! {

/// A view onto the UDP header at the front of a datagram, for reading and
/// writing.
pub struct Udp<'pkt> {
    slice: &'pkt mut [u8],
}

/// Why a buffer does not start with a UDP header.
#[derive(Debug, Clone, Copy, PartialEq, Eq, Structural)]
pub enum Error {
    /// The buffer, of the length given, is shorter than 8 bytes.
    InvalidLength(usize),
}

impl<'pkt> View for Udp<'pkt> {
    type V = Seq<u8>;

    /// The bytes of the header.
    closed spec fn view(&self) -> Seq<u8> {
        self.slice@
    }
}

impl<'pkt> Udp<'pkt> {
    /// The length of a UDP header.
    pub const SIZE: usize = 8;

    /// The borrowed bytes that the view reads and writes.
    pub closed spec fn window(&self) -> &'pkt mut [u8] {
        self.slice
    }

    /// A view that is done with leaves the borrowed bytes as it last held
    /// them.
    pub proof fn lemma_released(self)
        requires
            has_resolved(self),
        ensures
            final(self.window())@ == self@,
    {
    }

    /// The view holds exactly the eight bytes of a header.
    pub open spec fn wf(&self) -> bool {
        self@.len() == 8
    }

    /// Views the UDP header at the front of `slice` and hands back the bytes
    /// behind it. A buffer of 8 bytes or more starts with a header; a shorter
    /// one is refused with its length.
    pub fn new(slice: &'pkt mut [u8]) -> (r: Result<(Self, &'pkt mut [u8]), Error>)
        ensures
            old(slice)@.len() < 8 ==> (r matches Err(e) && e == Error::InvalidLength(
                old(slice)@.len() as usize,
            )),
            old(slice)@.len() >= 8 ==> (r matches Ok((udp, rest)) && udp.wf() && udp@ == old(
                slice,
            )@.subrange(0, 8) && rest@ == old(slice)@.subrange(8, old(slice)@.len() as int)
                && udp@ + rest@ == old(slice)@ && final(slice)@ == final(udp.window())@
                + final(rest)@),
    {
        if slice.len() < Self::SIZE {
            return Err(Error::InvalidLength(slice.len()));
        }
        let (parsed, rem) = slice.split_at_mut(Self::SIZE);
        assert(parsed@ + rem@ =~= old(slice)@);
        Ok((Self { slice: parsed }, rem))
    }

    /// The source port, bytes 0 and 1.
    pub fn source(&self) -> (r: u16)
        requires
            self.wf(),
        ensures
            r == u16_at(self@, 0),
    {
        u16_from_be(&[self.slice[0], self.slice[1]])
    }

    /// The destination port, bytes 2 and 3.
    pub fn destination(&self) -> (r: u16)
        requires
            self.wf(),
        ensures
            r == u16_at(self@, 2),
    {
        u16_from_be(&[self.slice[2], self.slice[3]])
    }

    /// The length field, bytes 4 and 5.
    pub fn length(&self) -> (r: u16)
        requires
            self.wf(),
        ensures
            r == u16_at(self@, 4),
    {
        u16_from_be(&[self.slice[4], self.slice[5]])
    }

    /// The checksum field, bytes 6 and 7, as it stands.
    pub fn checksum(&self) -> (r: &[u8; 2])
        requires
            self.wf(),
        ensures
            r@ == self@.subrange(6, 8),
    {
        self.slice[6..8].first_chunk::<2>().unwrap()
    }

    /// Writes the source port.
    pub fn set_source(&mut self, source: u16)
        requires
            old(self).wf(),
        ensures
            final(self).wf(),
            final(self)@ == replace_u16(old(self)@, 0, source),
            u16_at(final(self)@, 0) == source,
            final(final(self).window())@ == final(old(self).window())@,
    {
        let bytes = u16_to_be(source);
        write_bytes(self.slice, 0, &bytes);
        assert(self@ =~= replace_u16(old(self)@, 0, source));
    }

    /// Writes the destination port.
    pub fn set_destination(&mut self, destination: u16)
        requires
            old(self).wf(),
        ensures
            final(self).wf(),
            final(self)@ == replace_u16(old(self)@, 2, destination),
            u16_at(final(self)@, 2) == destination,
            final(final(self).window())@ == final(old(self).window())@,
    {
        let bytes = u16_to_be(destination);
        write_bytes(self.slice, 2, &bytes);
        assert(self@ =~= replace_u16(old(self)@, 2, destination));
    }

    /// Writes the length field.
    pub fn set_length(&mut self, length: u16)
        requires
            old(self).wf(),
        ensures
            final(self).wf(),
            final(self)@ == replace_u16(old(self)@, 4, length),
            u16_at(final(self)@, 4) == length,
            final(final(self).window())@ == final(old(self).window())@,
    {
        let bytes = u16_to_be(length);
        write_bytes(self.slice, 4, &bytes);
        assert(self@ =~= replace_u16(old(self)@, 4, length));
    }

    /// Writes the checksum field.
    pub fn set_checksum(&mut self, checksum: u16)
        requires
            old(self).wf(),
        ensures
            final(self).wf(),
            final(self)@ == replace_u16(old(self)@, 6, checksum),
            u16_at(final(self)@, 6) == checksum,
            final(final(self).window())@ == final(old(self).window())@,
    {
        let bytes = u16_to_be(checksum);
        write_bytes(self.slice, 6, &bytes);
        assert(self@ =~= replace_u16(old(self)@, 6, checksum));
    }

    /// Writes zero to the checksum field: the datagram then carries no
    /// checksum.
    pub fn set_checksum_zero(&mut self)
        requires
            old(self).wf(),
        ensures
            final(self).wf(),
            final(self)@ == old(self)@.update(6, 0).update(7, 0),
            u16_at(final(self)@, 6) == 0,
            final(final(self).window())@ == final(old(self).window())@,
    {
        self.set_checksum(0);
    }
}

} // verus!
