//! IPv4 headers.
//!
//! The header is 20 bytes and up to 40 bytes of options. The low four bits of
//! its first byte give its length in words of four bytes, the high four bits
//! the version, which is 4.
use crate::checksum::{
    complement16, diff_sum, finish, internet_checksum, lemma_fold16_absorb, lemma_fold16_range,
    lemma_word_sum_concat, lemma_word_sum_nonnegative, word_sum,
};
use crate::network::ipnum::InetProtocol;
use crate::window::{
    hi8, lo8, replace_bytes, replace_u16, replace_u32, u16_at, u16_from_be, u16_to_be, u32_at,
    u32_from_be, u32_to_be, write_bytes, Window,
};
use etherparse::checksum::Sum16BitWords;
use vstd::prelude::*;
use vstd::std_specs::convert::FromSpecImpl;

verus! {

/// A view onto the IPv4 header at the front of a packet.
pub struct IPv4<P = ()> {
    slice: P,
    size: IPv4Size,
}

/// A header length that no IPv4 header can have.
#[derive(Debug, Clone, Copy, PartialEq, Eq, Structural)]
pub enum IhlError {
    /// The number given is not one of 5 to 15.
    InvalidIhl(u8),
}

/// Why a buffer does not start with an IPv4 header.
#[derive(Debug, Clone, Copy, PartialEq, Eq, Structural)]
pub enum Error {
    /// The header length field is below 5.
    InvalidIhl(IhlError),
    /// The buffer, of the length given, is shorter than 20 bytes.
    InvalidSize(usize),
    /// The buffer, of the length given, is shorter than the header length
    /// field says the header is.
    InvalidSizeForIhl(usize, IPv4Size),
    /// The version field holds the number given, which is not 4.
    InvalidVersion(u8),
}

/// The length of an IPv4 header: 20 to 60 bytes in steps of 4.
#[derive(Debug, PartialEq, Eq, Structural, PartialOrd, Ord, Clone, Copy)]
pub enum IPv4Size {
    /// 20 bytes: no options
    S20,
    /// 24 bytes
    S24,
    /// 28 bytes
    S28,
    /// 32 bytes
    S32,
    /// 36 bytes
    S36,
    /// 40 bytes
    S40,
    /// 44 bytes
    S44,
    /// 48 bytes
    S48,
    /// 52 bytes
    S52,
    /// 56 bytes
    S56,
    /// 60 bytes: 40 bytes of options
    S60,
}

impl From<IhlError> for Error {
    fn from(value: IhlError) -> (r: Self) {
        Error::InvalidIhl(value)
    }
}

impl FromSpecImpl<IhlError> for Error {
    open spec fn obeys_from_spec() -> bool {
        true
    }

    open spec fn from_spec(value: IhlError) -> Self {
        Error::InvalidIhl(value)
    }
}

impl IPv4Size {
    /// The length in bytes.
    pub open spec fn spec_as_usize(self) -> usize {
        match self {
            IPv4Size::S20 => 20,
            IPv4Size::S24 => 24,
            IPv4Size::S28 => 28,
            IPv4Size::S32 => 32,
            IPv4Size::S36 => 36,
            IPv4Size::S40 => 40,
            IPv4Size::S44 => 44,
            IPv4Size::S48 => 48,
            IPv4Size::S52 => 52,
            IPv4Size::S56 => 56,
            IPv4Size::S60 => 60,
        }
    }

    /// The length in bytes.
    #[verifier::when_used_as_spec(spec_as_usize)]
    pub fn as_usize(self) -> (r: usize)
        ensures
            r == self.spec_as_usize(),
    {
        match self {
            IPv4Size::S20 => 20,
            IPv4Size::S24 => 24,
            IPv4Size::S28 => 28,
            IPv4Size::S32 => 32,
            IPv4Size::S36 => 36,
            IPv4Size::S40 => 40,
            IPv4Size::S44 => 44,
            IPv4Size::S48 => 48,
            IPv4Size::S52 => 52,
            IPv4Size::S56 => 56,
            IPv4Size::S60 => 60,
        }
    }

    /// The header length that a header length field stands for: four bytes for
    /// each unit, from 5 units on.
    pub open spec fn of_ihl(ihl: u8) -> Result<IPv4Size, IhlError> {
        match ihl {
            5 => Ok(IPv4Size::S20),
            6 => Ok(IPv4Size::S24),
            7 => Ok(IPv4Size::S28),
            8 => Ok(IPv4Size::S32),
            9 => Ok(IPv4Size::S36),
            10 => Ok(IPv4Size::S40),
            11 => Ok(IPv4Size::S44),
            12 => Ok(IPv4Size::S48),
            13 => Ok(IPv4Size::S52),
            14 => Ok(IPv4Size::S56),
            15 => Ok(IPv4Size::S60),
            x => Err(IhlError::InvalidIhl(x)),
        }
    }

    /// The header length that a header length field stands for. The numbers 5
    /// to 15 stand for 20 to 60 bytes; any other number is refused and handed
    /// back in the error.
    pub fn try_from_ihl_u8(ihl: u8) -> (r: Result<Self, IhlError>)
        ensures
            r == Self::of_ihl(ihl),
            r is Ok <==> 5 <= ihl <= 15,
            r matches Ok(size) ==> size.as_usize() == 4 * ihl,
            r matches Err(e) ==> e == IhlError::InvalidIhl(ihl),
    {
        Ok(
            match ihl {
                5 => IPv4Size::S20,
                6 => IPv4Size::S24,
                7 => IPv4Size::S28,
                8 => IPv4Size::S32,
                9 => IPv4Size::S36,
                10 => IPv4Size::S40,
                11 => IPv4Size::S44,
                12 => IPv4Size::S48,
                13 => IPv4Size::S52,
                14 => IPv4Size::S56,
                15 => IPv4Size::S60,
                x => {
                    return Err(IhlError::InvalidIhl(x));
                },
            },
        )
    }
}

/// What the front of a buffer measures as: the length of the IPv4 header
/// there, or the reason why there is none. The checks come in this order: 20
/// bytes at least, a header length field of 5 at least, version 4, and as many
/// bytes as the header length field asks for.
pub open spec fn measure(buf: Seq<u8>) -> Result<IPv4Size, Error> {
    if buf.len() < 20 {
        Err(Error::InvalidSize(buf.len() as usize))
    } else {
        match IPv4Size::of_ihl(buf[0] & 0xF) {
            Err(e) => Err(Error::InvalidIhl(e)),
            Ok(size) => if buf[0] >> 4 != 4 {
                Err(Error::InvalidVersion(buf[0] >> 4))
            } else if buf.len() < size.as_usize() {
                Err(Error::InvalidSizeForIhl(buf.len() as usize, size))
            } else {
                Ok(size)
            },
        }
    }
}

/// The bytes of a header that its checksum covers: all but the checksum
/// field, bytes 10 and 11.
pub open spec fn checksummed(header: Seq<u8>) -> Seq<u8> {
    header.subrange(0, 10) + header.subrange(12, header.len() as int)
}

/// The checksum of a header: the Internet checksum over the whole header with
/// the checksum field left out.
pub open spec fn ipv4_checksum(header: Seq<u8>) -> int {
    internet_checksum(checksummed(header))
}

/// Byte 1 of a header with its upper six bits, the DSCP, set to `dscp`. The
/// lower two bits stay.
pub open spec fn with_dscp(byte: u8, dscp: u8) -> u8 {
    (dscp << 2) | (byte & 0b11)
}

/// Byte 1 of a header with its lower two bits, the ECN, set to `ecn`. The
/// upper six bits stay.
pub open spec fn with_ecn(byte: u8, ecn: u8) -> u8 {
    (byte & 0b1111_1100) | (ecn & 0b11)
}

/// DSCP and ECN share a byte and do not disturb each other: what is set is
/// read back, and the other keeps its value.
pub proof fn lemma_dscp_ecn_independent(byte: u8, dscp: u8, ecn: u8)
    by (bit_vector)
    ensures
        dscp <= 0x3F ==> with_dscp(byte, dscp) >> 2 == dscp,
        with_dscp(byte, dscp) >> 2 == dscp & 0x3F,
        with_dscp(byte, dscp) & 0b11 == byte & 0b11,
        ecn <= 3 ==> with_ecn(byte, ecn) & 0b11 == ecn,
        with_ecn(byte, ecn) & 0b11 == ecn & 0b11,
        with_ecn(byte, ecn) >> 2 == byte >> 2,
        byte >> 2 <= 0x3F,
        byte & 0b11 <= 3,
{
}

/// Measures the IPv4 header at the front of `buf`.
fn measure_header(buf: &[u8]) -> (r: Result<IPv4Size, Error>)
    ensures
        r == measure(buf@),
{
    if buf.len() < IPv4::MIN_LEN {
        return Err(Error::InvalidSize(buf.len()));
    }
    let size = match IPv4Size::try_from_ihl_u8(buf[0] & 0xF) {
        Ok(size) => size,
        Err(e) => {
            return Err(Error::from(e));
        },
    };
    if buf[0] >> 4 != 4 {
        return Err(Error::InvalidVersion(buf[0] >> 4));
    }
    if buf.len() < size.as_usize() {
        return Err(Error::InvalidSizeForIhl(buf.len(), size));
    }
    Ok(size)
}

impl IPv4<()> {
    /// The length of a header without options.
    pub const MIN_LEN: usize = 20;

    /// The length of a header with as many options as it can hold.
    pub const MAX_LEN: usize = 60;
}

impl<P: Window> View for IPv4<P> {
    type V = Seq<u8>;

    /// The bytes of the header.
    closed spec fn view(&self) -> Seq<u8> {
        self.slice.bytes()
    }
}

impl<'pkt> IPv4<&'pkt [u8]> {
    /// Views the IPv4 header at the front of `slice` and hands back the bytes
    /// behind it.
    pub fn new(slice: &'pkt [u8]) -> (r: Result<(Self, &'pkt [u8]), Error>)
        ensures
            match measure(slice@) {
                Ok(size) => r matches Ok((ip, rest)) && ip.wf() && ip.spec_size() == size && ip@
                    == slice@.subrange(0, size.as_usize() as int) && rest@ == slice@.subrange(
                    size.as_usize() as int,
                    slice@.len() as int,
                ) && ip@ + rest@ == slice@,
                Err(e) => r matches Err(x) && x == e,
            },
    {
        let size = match measure_header(slice) {
            Ok(size) => size,
            Err(e) => {
                return Err(e);
            },
        };
        let (parsed, rem) = slice.split_at(size.as_usize());
        assert(parsed@ + rem@ =~= slice@);
        Ok((Self { slice: parsed, size }, rem))
    }
}

impl<'pkt> IPv4<&'pkt mut [u8]> {
    /// The borrowed bytes that the view reads and writes.
    pub closed spec fn window(&self) -> &'pkt mut [u8] {
        self.slice
    }

    /// A view that is done with leaves the borrowed bytes as it last held
    /// them.
    pub proof fn lemma_released(self)
        requires
            has_resolved(self),
        ensures
            final(self.window())@ == self@,
    {
    }

    /// Views the IPv4 header at the front of `slice` for reading and writing,
    /// and hands back the bytes behind it.
    pub fn new_mut(slice: &'pkt mut [u8]) -> (r: Result<(Self, &'pkt mut [u8]), Error>)
        ensures
            match measure(old(slice)@) {
                Ok(size) => r matches Ok((ip, rest)) && ip.wf() && ip.spec_size() == size && ip@
                    == old(slice)@.subrange(0, size.as_usize() as int) && rest@ == old(
                    slice,
                )@.subrange(size.as_usize() as int, old(slice)@.len() as int) && ip@ + rest@
                    == old(slice)@ && final(slice)@ == final(ip.window())@ + final(rest)@,
                Err(e) => r matches Err(x) && x == e,
            },
    {
        let size = match measure_header(slice) {
            Ok(size) => size,
            Err(e) => {
                return Err(e);
            },
        };
        let (parsed, rem) = slice.split_at_mut(size.as_usize());
        assert(parsed@ + rem@ =~= old(slice)@);
        Ok((Self { slice: parsed, size }, rem))
    }

    /// Writes the checksum field, bytes 10 and 11.
    pub fn set_csum(&mut self, csum: u16)
        requires
            old(self).wf(),
        ensures
            final(self).wf(),
            final(self).spec_size() == old(self).spec_size(),
            final(self)@ == replace_u16(old(self)@, 10, csum),
            u16_at(final(self)@, 10) == csum,
            ipv4_checksum(final(self)@) == ipv4_checksum(old(self)@),
            final(final(self).window())@ == final(old(self).window())@,
    {
        let bytes = u16_to_be(csum);
        write_bytes(self.slice, 10, &bytes);
        assert(self@ =~= replace_u16(old(self)@, 10, csum));
        assert(checksummed(self@) =~= checksummed(old(self)@));
    }

    /// Computes the checksum of the header as it stands and writes it to the
    /// checksum field. The header then sums to zero, checksum field
    /// included, and computing the checksum again gives the same.
    pub fn update_csum(&mut self)
        requires
            old(self).wf(),
        ensures
            final(self).wf(),
            final(self).spec_size() == old(self).spec_size(),
            final(self)@ == replace_u16(old(self)@, 10, ipv4_checksum(old(self)@) as u16),
            u16_at(final(self)@, 10) == ipv4_checksum(final(self)@),
            ipv4_checksum(final(self)@) == ipv4_checksum(old(self)@),
            internet_checksum(final(self)@) == 0,
            final(final(self).window())@ == final(old(self).window())@,
    {
        let csum = self.calc_csum();
        proof {
            lemma_checksum_self_check(self@);
        }
        self.set_csum(csum)
    }

    /// The bytes of the header, for writing. Their number cannot change, so
    /// the view keeps its size whatever is written, the header length field
    /// included.
    pub fn slice_mut(&mut self) -> (r: &mut [u8])
        ensures
            r@ == old(self)@,
            final(self)@ == final(r)@,
            final(self).spec_size() == old(self).spec_size(),
            final(final(self).window())@ == final(old(self).window())@,
    {
        &mut *self.slice
    }

    /// Writes the source address, bytes 12 to 15.
    pub fn set_source(&mut self, source: &[u8; 4])
        requires
            old(self).wf(),
        ensures
            final(self).wf(),
            final(self).spec_size() == old(self).spec_size(),
            final(self)@ == replace_bytes(old(self)@, 12, source@),
            final(self)@.subrange(12, 16) == source@,
            final(final(self).window())@ == final(old(self).window())@,
    {
        write_bytes(self.slice, 12, source);
        assert(self@.subrange(12, 16) =~= source@);
    }

    /// Writes the source address as a number.
    pub fn set_source_u32(&mut self, source: u32)
        requires
            old(self).wf(),
        ensures
            final(self).wf(),
            final(self).spec_size() == old(self).spec_size(),
            final(self)@ == replace_u32(old(self)@, 12, source),
            u32_at(final(self)@, 12) == source,
            final(final(self).window())@ == final(old(self).window())@,
    {
        let bytes = u32_to_be(source);
        write_bytes(self.slice, 12, &bytes);
        assert(self@ =~= replace_u32(old(self)@, 12, source));
    }

    /// Writes the destination address as a number.
    pub fn set_destination_u32(&mut self, destination: u32)
        requires
            old(self).wf(),
        ensures
            final(self).wf(),
            final(self).spec_size() == old(self).spec_size(),
            final(self)@ == replace_u32(old(self)@, 16, destination),
            u32_at(final(self)@, 16) == destination,
            final(final(self).window())@ == final(old(self).window())@,
    {
        let bytes = u32_to_be(destination);
        write_bytes(self.slice, 16, &bytes);
        assert(self@ =~= replace_u32(old(self)@, 16, destination));
    }

    /// Writes the destination address, bytes 16 to 19.
    pub fn set_destination(&mut self, destination: &[u8; 4])
        requires
            old(self).wf(),
        ensures
            final(self).wf(),
            final(self).spec_size() == old(self).spec_size(),
            final(self)@ == replace_bytes(old(self)@, 16, destination@),
            final(self)@.subrange(16, 20) == destination@,
            final(final(self).window())@ == final(old(self).window())@,
    {
        write_bytes(self.slice, 16, destination);
        assert(self@.subrange(16, 20) =~= destination@);
    }

    /// Writes the total length field, bytes 2 and 3, as given.
    pub fn set_total_length(&mut self, value: &[u8; 2])
        requires
            old(self).wf(),
        ensures
            final(self).wf(),
            final(self).spec_size() == old(self).spec_size(),
            final(self)@ == replace_bytes(old(self)@, 2, value@),
            final(self)@.subrange(2, 4) == value@,
            final(final(self).window())@ == final(old(self).window())@,
    {
        write_bytes(self.slice, 2, value);
        assert(self@.subrange(2, 4) =~= value@);
    }

    /// Writes the total length field as a number.
    pub fn set_total_length_u16(&mut self, value: u16)
        requires
            old(self).wf(),
        ensures
            final(self).wf(),
            final(self).spec_size() == old(self).spec_size(),
            final(self)@ == replace_u16(old(self)@, 2, value),
            u16_at(final(self)@, 2) == value,
            final(final(self).window())@ == final(old(self).window())@,
    {
        let bytes = u16_to_be(value);
        write_bytes(self.slice, 2, &bytes);
        assert(self@ =~= replace_u16(old(self)@, 2, value));
    }

    /// Writes the protocol field, byte 9.
    pub fn set_protocol(&mut self, protocol: InetProtocol)
        requires
            old(self).wf(),
        ensures
            final(self).wf(),
            final(self).spec_size() == old(self).spec_size(),
            final(self)@ == old(self)@.update(9, protocol.number()),
            final(self)@[9] == protocol.number(),
            final(final(self).window())@ == final(old(self).window())@,
    {
        self.slice[9] = u8::from(protocol);
    }

    /// Writes the ECN, the lower two bits of byte 1, from the lower two bits
    /// of `ecn`. The DSCP in the same byte stays.
    pub fn set_ecn(&mut self, ecn: u8)
        requires
            old(self).wf(),
        ensures
            final(self).wf(),
            final(self).spec_size() == old(self).spec_size(),
            final(self)@ == old(self)@.update(1, with_ecn(old(self)@[1], ecn)),
            final(self)@[1] & 0b11 == ecn & 0b11,
            ecn <= 3 ==> final(self)@[1] & 0b11 == ecn,
            final(self)@[1] >> 2 == old(self)@[1] >> 2,
            final(final(self).window())@ == final(old(self).window())@,
    {
        proof {
            lemma_dscp_ecn_independent(self@[1], 0, ecn);
        }
        self.slice[1] = (self.slice[1] & 0b1111_1100) | (ecn & 0b11);
    }

    /// Writes the DSCP, the upper six bits of byte 1, from the lower six bits
    /// of `dscp`. The ECN in the same byte stays.
    pub fn set_dscp(&mut self, dscp: u8)
        requires
            old(self).wf(),
        ensures
            final(self).wf(),
            final(self).spec_size() == old(self).spec_size(),
            final(self)@ == old(self)@.update(1, with_dscp(old(self)@[1], dscp)),
            final(self)@[1] >> 2 == dscp & 0x3F,
            dscp <= 0x3F ==> final(self)@[1] >> 2 == dscp,
            final(self)@[1] & 0b11 == old(self)@[1] & 0b11,
            final(final(self).window())@ == final(old(self).window())@,
    {
        proof {
            lemma_dscp_ecn_independent(self@[1], dscp, 0);
        }
        self.slice[1] = (dscp << 2) | (self.slice[1] & 0b11);
    }
}

impl<P: Window> IPv4<P> {
    /// The size that the header was measured to have when the view was made.
    pub closed spec fn spec_size(&self) -> IPv4Size {
        self.size
    }

    /// The view holds exactly the bytes of a header of its size.
    pub open spec fn wf(&self) -> bool {
        self@.len() == self.spec_size().as_usize()
    }

    /// The checksum field, bytes 10 and 11.
    pub fn csum(&self) -> (r: u16)
        requires
            self.wf(),
        ensures
            r == u16_at(self@, 10),
    {
        let bytes = self.slice.as_bytes();
        u16_from_be(&[bytes[10], bytes[11]])
    }

    /// The checksum that the header should carry: the Internet checksum over
    /// the whole header with the checksum field left out.
    pub fn calc_csum(&self) -> (r: u16)
        requires
            self.wf(),
        ensures
            r == ipv4_checksum(self@),
    {
        let bytes = self.slice.as_bytes();
        let front = &bytes[0..10];
        let back = &bytes[12..self.size.as_usize()];
        let sum = Sum16BitWords::new().add_slice(front).add_slice(back);
        proof {
            lemma_word_sum_nonnegative(front@);
            lemma_word_sum_nonnegative(back@);
            lemma_word_sum_concat(front@, back@);
            lemma_fold16_absorb(word_sum(front@), word_sum(back@));
        }
        finish(sum, Ghost(word_sum(checksummed(self@))))
    }

    /// The bytes of the header.
    pub fn slice(&self) -> (r: &[u8])
        ensures
            r@ == self@,
    {
        self.slice.as_bytes()
    }

    /// The version field, the upper four bits of byte 0.
    pub fn version(&self) -> (r: u8)
        requires
            self.wf(),
        ensures
            r == self@[0] >> 4,
    {
        self.slice.as_bytes()[0] >> 4
    }

    /// The source address, bytes 12 to 15.
    pub fn source(&self) -> (r: &[u8; 4])
        requires
            self.wf(),
        ensures
            r@ == self@.subrange(12, 16),
    {
        self.slice.as_bytes()[12..16].first_chunk::<4>().unwrap()
    }

    /// The source address as a number.
    pub fn source_u32(&self) -> (r: u32)
        requires
            self.wf(),
        ensures
            r == u32_at(self@, 12),
    {
        let bytes = self.slice.as_bytes();
        u32_from_be(&[bytes[12], bytes[13], bytes[14], bytes[15]])
    }

    /// The destination address as a number.
    pub fn destination_u32(&self) -> (r: u32)
        requires
            self.wf(),
        ensures
            r == u32_at(self@, 16),
    {
        let bytes = self.slice.as_bytes();
        u32_from_be(&[bytes[16], bytes[17], bytes[18], bytes[19]])
    }

    /// The destination address, bytes 16 to 19.
    pub fn destination(&self) -> (r: &[u8; 4])
        requires
            self.wf(),
        ensures
            r@ == self@.subrange(16, 20),
    {
        self.slice.as_bytes()[16..20].first_chunk::<4>().unwrap()
    }

    /// The time to live, byte 8.
    pub fn ttl(&self) -> (r: u8)
        requires
            self.wf(),
        ensures
            r == self@[8],
    {
        self.slice.as_bytes()[8]
    }

    /// The options: what the header holds behind its first 20 bytes.
    pub fn options(&self) -> (r: &[u8])
        requires
            self.wf(),
        ensures
            r@ == self@.subrange(20, self@.len() as int),
            r@.len() == self.spec_size().as_usize() - 20,
    {
        &self.slice.as_bytes()[IPv4::MIN_LEN..self.size.as_usize()]
    }

    /// The DSCP, the upper six bits of byte 1.
    pub fn dscp(&self) -> (r: u8)
        requires
            self.wf(),
        ensures
            r == self@[1] >> 2,
            r <= 0x3F,
    {
        proof {
            lemma_dscp_ecn_independent(self@[1], 0, 0);
        }
        self.slice.as_bytes()[1] >> 2
    }

    /// The ECN, the lower two bits of byte 1.
    pub fn ecn(&self) -> (r: u8)
        requires
            self.wf(),
        ensures
            r == self@[1] & 0b11,
            r <= 3,
    {
        proof {
            lemma_dscp_ecn_independent(self@[1], 0, 0);
        }
        self.slice.as_bytes()[1] & 0b11
    }

    /// The total length field, bytes 2 and 3.
    pub fn total_length(&self) -> (r: u16)
        requires
            self.wf(),
        ensures
            r == u16_at(self@, 2),
    {
        let bytes = self.slice.as_bytes();
        u16_from_be(&[bytes[2], bytes[3]])
    }

    /// The identification field, bytes 4 and 5.
    pub fn identification(&self) -> (r: u16)
        requires
            self.wf(),
        ensures
            r == u16_at(self@, 4),
    {
        let bytes = self.slice.as_bytes();
        u16_from_be(&[bytes[4], bytes[5]])
    }

    /// The total length field, bytes 2 and 3.
    pub fn total_length_u16(&self) -> (r: u16)
        requires
            self.wf(),
        ensures
            r == u16_at(self@, 2),
    {
        let bytes = self.slice.as_bytes();
        u16_from_be(&[bytes[2], bytes[3]])
    }

    /// The fragment offset, the lower 13 bits of bytes 6 and 7, as two bytes
    /// in network byte order.
    pub fn fragment_offset(&self) -> (r: [u8; 2])
        requires
            self.wf(),
        ensures
            r@ == seq![self@[6] & 0b11111, self@[7]],
    {
        let bytes = self.slice.as_bytes();
        let res: [u8; 2] = [bytes[6] & 0b11111, bytes[7]];
        assert(res@ =~= seq![self@[6] & 0b11111, self@[7]]);
        res
    }

    /// The flag "don't fragment", bit 6 of byte 6.
    pub fn dont_fragment(&self) -> (r: bool)
        requires
            self.wf(),
        ensures
            r == ((self@[6] >> 6) & 0b01 == 1),
    {
        (self.slice.as_bytes()[6] >> 6) & 0b01 == 1
    }

    /// The flag "more fragments", bit 5 of byte 6.
    pub fn more_fragments(&self) -> (r: bool)
        requires
            self.wf(),
        ensures
            r == ((self@[6] >> 5) & 0b001 == 1),
    {
        (self.slice.as_bytes()[6] >> 5) & 0b001 == 1
    }

    /// The protocol of what the packet carries, by the number in byte 9.
    pub fn protocol(&self) -> (r: InetProtocol)
        requires
            self.wf(),
        ensures
            r == InetProtocol::of_number(self@[9]),
    {
        InetProtocol::from(self.slice.as_bytes()[9])
    }

    /// The protocol field, byte 9, as it stands.
    pub fn protocol_u8(&self) -> (r: u8)
        requires
            self.wf(),
        ensures
            r == self@[9],
    {
        self.slice.as_bytes()[9]
    }

    /// The header length field, the lower four bits of byte 0, as it stands
    /// now. The view keeps the size it was made with.
    pub fn ihl_u8(&self) -> (r: u8)
        requires
            self.wf(),
        ensures
            r == self@[0] & 0xF,
    {
        self.slice.as_bytes()[0] & 0xF
    }

    /// The header length that the header length field stands for as it stands
    /// now, which is the view's size until the field is written.
    pub fn calc_size(&self) -> (r: Result<IPv4Size, IhlError>)
        requires
            self.wf(),
        ensures
            r == IPv4Size::of_ihl(self@[0] & 0xF),
    {
        IPv4Size::try_from_ihl_u8(self.ihl_u8())
    }

    /// The size that the header was measured to have when the view was made.
    pub fn size(&self) -> (r: IPv4Size)
        ensures
            r == self.spec_size(),
            self.wf() ==> r.as_usize() == self@.len(),
    {
        self.size
    }

    /// The version field. The same as `version`.
    pub fn get_version(&self) -> (r: u8)
        requires
            self.wf(),
        ensures
            r == self@[0] >> 4,
    {
        self.version()
    }

    /// The source address. The same as `source`.
    pub fn get_source(&self) -> (r: &[u8; 4])
        requires
            self.wf(),
        ensures
            r@ == self@.subrange(12, 16),
    {
        self.source()
    }

    /// The source address as a number. The same as `source_u32`.
    pub fn get_source_u32(&self) -> (r: u32)
        requires
            self.wf(),
        ensures
            r == u32_at(self@, 12),
    {
        self.source_u32()
    }

    /// The destination address as a number. The same as `destination_u32`.
    pub fn get_destination_u32(&self) -> (r: u32)
        requires
            self.wf(),
        ensures
            r == u32_at(self@, 16),
    {
        self.destination_u32()
    }

    /// The destination address. The same as `destination`.
    pub fn get_destination(&self) -> (r: &[u8; 4])
        requires
            self.wf(),
        ensures
            r@ == self@.subrange(16, 20),
    {
        self.destination()
    }

    /// The DSCP. The same as `dscp`.
    pub fn get_dscp(&self) -> (r: u8)
        requires
            self.wf(),
        ensures
            r == self@[1] >> 2,
            r <= 0x3F,
    {
        self.dscp()
    }

    /// The ECN. The same as `ecn`.
    pub fn get_ecn(&self) -> (r: u8)
        requires
            self.wf(),
        ensures
            r == self@[1] & 0b11,
            r <= 3,
    {
        self.ecn()
    }

    /// The total length field, bytes 2 and 3, as it stands.
    pub fn get_total_length(&self) -> (r: &[u8; 2])
        requires
            self.wf(),
        ensures
            r@ == self@.subrange(2, 4),
    {
        self.slice.as_bytes()[2..4].first_chunk::<2>().unwrap()
    }

    /// The total length field as a number. The same as `total_length_u16`.
    pub fn get_total_length_u16(&self) -> (r: u16)
        requires
            self.wf(),
        ensures
            r == u16_at(self@, 2),
    {
        self.total_length_u16()
    }

    /// The protocol of what the packet carries. The same as `protocol`.
    pub fn get_protocol(&self) -> (r: InetProtocol)
        requires
            self.wf(),
        ensures
            r == InetProtocol::of_number(self@[9]),
    {
        self.protocol()
    }

    /// The header length field as it stands now. The same as `ihl_u8`.
    pub fn get_ihl_u8(&self) -> (r: u8)
        requires
            self.wf(),
        ensures
            r == self@[0] & 0xF,
    {
        self.ihl_u8()
    }
}

/// A header whose checksum field holds its checksum sums to zero, checksum
/// field included, and its checksum computed again is the same.
pub proof fn lemma_checksum_self_check(header: Seq<u8>)
    requires
        header.len() >= 12,
        header.len() % 2 == 0,
    ensures
        0 <= ipv4_checksum(header) <= 0xffff,
        internet_checksum(replace_u16(header, 10, ipv4_checksum(header) as u16)) == 0,
        ipv4_checksum(replace_u16(header, 10, ipv4_checksum(header) as u16)) == ipv4_checksum(
            header,
        ),
        u16_at(replace_u16(header, 10, ipv4_checksum(header) as u16), 10) == ipv4_checksum(header),
{
    let covered = word_sum(checksummed(header));
    lemma_word_sum_nonnegative(checksummed(header));
    lemma_fold16_range(covered);
    let csum = ipv4_checksum(header) as u16;
    let stored = replace_u16(header, 10, csum);
    assert(checksummed(stored) =~= checksummed(header));
    let front = header.subrange(0, 10);
    let field = seq![hi8(csum), lo8(csum)];
    let back = header.subrange(12, header.len() as int);
    assert(stored =~= front + (field + back));
    lemma_word_sum_concat(front, field + back);
    lemma_word_sum_concat(field, back);
    lemma_word_sum_concat(front, back);
    assert(word_sum(field.subrange(2, 2)) == 0);
    assert(word_sum(stored) == covered + csum);
    lemma_fold16_absorb(covered, csum as int);
}

/// Where a 16-bit field at an even offset, other than the checksum field,
/// changes, the checksum brought up to date from the old checksum, the old
/// field and the new field is the checksum of the changed header, bit for
/// bit. Left out are changes after which the header holds nothing but zero
/// bytes outside its checksum field: its checksum is 0xffff, and the update
/// gives 0.
pub proof fn lemma_incremental_update_u16(header: Seq<u8>, at: int, new: u16)
    requires
        12 <= header.len(),
        0 <= at,
        at + 2 <= header.len(),
        at % 2 == 0,
        at != 10,
        exists|i: int|
            0 <= i < header.len() && !(10 <= i < 12) && #[trigger] replace_u16(header, at, new)[i]
                != 0,
    ensures
        0 <= ipv4_checksum(header) <= 0xffff,
        complement16(
            diff_sum(
                u16_at(header, at) as u32,
                new as u32,
                (0xffff - ipv4_checksum(header)) as u32,
            ),
        ) == ipv4_checksum(replace_u16(header, at, new)),
{
    let covered = checksummed(header);
    let changed = replace_u16(header, at, new);
    let moved: int = if at < 10 {
        at
    } else {
        at - 2
    };
    lemma_word_sum_nonnegative(covered);
    lemma_fold16_range(word_sum(covered));
    let seed = (0xffff - ipv4_checksum(header)) as u32;
    lemma_fold16_range(seed as int);
    assert(checksummed(changed) =~= replace_u16(covered, moved, new));
    let i = choose|i: int|
        0 <= i < header.len() && !(10 <= i < 12) && #[trigger] replace_u16(header, at, new)[i]
            != 0;
    let j: int = if i < 10 {
        i
    } else {
        i - 2
    };
    assert(replace_u16(covered, moved, new)[j] != 0);
    crate::checksum::lemma_incremental_update_u16(covered, moved, new, seed);
}

/// The same for a 32-bit field at an even offset that does not touch the
/// checksum field, such as an address.
pub proof fn lemma_incremental_update_u32(header: Seq<u8>, at: int, new: u32)
    requires
        12 <= header.len(),
        0 <= at,
        at + 4 <= header.len(),
        at % 2 == 0,
        at + 4 <= 10 || 12 <= at,
        exists|i: int|
            0 <= i < header.len() && !(10 <= i < 12) && #[trigger] replace_u32(header, at, new)[i]
                != 0,
    ensures
        0 <= ipv4_checksum(header) <= 0xffff,
        complement16(
            diff_sum(u32_at(header, at), new, (0xffff - ipv4_checksum(header)) as u32),
        ) == ipv4_checksum(replace_u32(header, at, new)),
{
    let covered = checksummed(header);
    let changed = replace_u32(header, at, new);
    let moved: int = if at < 10 {
        at
    } else {
        at - 2
    };
    lemma_word_sum_nonnegative(covered);
    lemma_fold16_range(word_sum(covered));
    let seed = (0xffff - ipv4_checksum(header)) as u32;
    lemma_fold16_range(seed as int);
    assert(checksummed(changed) =~= replace_u32(covered, moved, new));
    let i = choose|i: int|
        0 <= i < header.len() && !(10 <= i < 12) && #[trigger] replace_u32(header, at, new)[i]
            != 0;
    let j: int = if i < 10 {
        i
    } else {
        i - 2
    };
    assert(replace_u32(covered, moved, new)[j] != 0);
    crate::checksum::lemma_incremental_update_u32(covered, moved, new, seed);
}

} // verus!
