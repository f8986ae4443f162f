//! TCP headers.
//!
//! The header is 20 bytes and up to 40 bytes of options. The upper four bits
//! of byte 12 give its length in words of four bytes.
use crate::checksum::{
    complement16, diff_sum, finish, fold16, folded, internet_checksum, lemma_fold16_absorb,
    lemma_fold16_range, lemma_word_sum_concat, lemma_word_sum_nonnegative, lemma_word_sum_words,
    word_sum,
};
use crate::network::ipnum::InetProtocol;
use crate::window::{
    be16, hi8, lo8, replace_u16, replace_u32, u16_at, u16_from_be, u16_to_be, u32_at,
    u32_from_be, u32_to_be, write_bytes, Window,
};
use etherparse::checksum::Sum16BitWords;
use vstd::prelude::*;

verus! {

/// A view onto the TCP header at the front of a segment.
pub struct Tcp<P = ()> {
    slice: P,
    size: TcpSize,
}

/// Why a buffer does not start with a TCP header.
#[derive(Debug, Clone, Copy, PartialEq, Eq, Structural)]
pub enum Error {
    /// The buffer, of the length given, is shorter than 20 bytes.
    InvalidSize(usize),
    /// The buffer, of the length given, is shorter than the data offset field
    /// says the header is.
    InvalidSizeForOffset(usize, TcpSize),
    /// The data offset field is below 5.
    InvalidDataOffset(DataOffsetError),
}

/// The length of a TCP header: 20 to 60 bytes in steps of 4.
#[derive(Debug, PartialEq, Eq, Structural, PartialOrd, Ord, Clone, Copy)]
pub enum TcpSize {
    /// 20 bytes: no options
    S20,
    /// 24 bytes
    S24,
    /// 28 bytes
    S28,
    /// 32 bytes
    S32,
    /// 36 bytes
    S36,
    /// 40 bytes
    S40,
    /// 44 bytes
    S44,
    /// 48 bytes
    S48,
    /// 52 bytes
    S52,
    /// 56 bytes
    S56,
    /// 60 bytes: 40 bytes of options
    S60,
}

/// A data offset that no TCP header can have.
#[derive(Debug, Clone, Copy, PartialEq, Eq, Structural)]
pub enum DataOffsetError {
    /// The number given is not one of 5 to 15.
    InvalidOffset(u8),
}

/// A segment too long for the 16-bit length that its checksum covers.
#[derive(Debug, Clone, Copy, PartialEq, Eq, Structural)]
pub struct ValueTooBigError {
    /// The length of the payload that was given.
    pub actual: usize,
    /// The longest payload that fits behind the header.
    pub max_allowed: usize,
}

impl TcpSize {
    /// The length in bytes.
    pub open spec fn spec_as_usize(self) -> usize {
        match self {
            TcpSize::S20 => 20,
            TcpSize::S24 => 24,
            TcpSize::S28 => 28,
            TcpSize::S32 => 32,
            TcpSize::S36 => 36,
            TcpSize::S40 => 40,
            TcpSize::S44 => 44,
            TcpSize::S48 => 48,
            TcpSize::S52 => 52,
            TcpSize::S56 => 56,
            TcpSize::S60 => 60,
        }
    }

    /// The length in bytes.
    #[verifier::when_used_as_spec(spec_as_usize)]
    pub fn as_usize(self) -> (r: usize)
        ensures
            r == self.spec_as_usize(),
    {
        match self {
            TcpSize::S20 => 20,
            TcpSize::S24 => 24,
            TcpSize::S28 => 28,
            TcpSize::S32 => 32,
            TcpSize::S36 => 36,
            TcpSize::S40 => 40,
            TcpSize::S44 => 44,
            TcpSize::S48 => 48,
            TcpSize::S52 => 52,
            TcpSize::S56 => 56,
            TcpSize::S60 => 60,
        }
    }

    /// The header length that a data offset field stands for: four bytes for
    /// each unit, from 5 units on.
    pub open spec fn of_data_offset(offset: u8) -> Result<TcpSize, DataOffsetError> {
        match offset {
            5 => Ok(TcpSize::S20),
            6 => Ok(TcpSize::S24),
            7 => Ok(TcpSize::S28),
            8 => Ok(TcpSize::S32),
            9 => Ok(TcpSize::S36),
            10 => Ok(TcpSize::S40),
            11 => Ok(TcpSize::S44),
            12 => Ok(TcpSize::S48),
            13 => Ok(TcpSize::S52),
            14 => Ok(TcpSize::S56),
            15 => Ok(TcpSize::S60),
            x => Err(DataOffsetError::InvalidOffset(x)),
        }
    }

    /// The header length that a data offset field stands for. The numbers 5 to
    /// 15 stand for 20 to 60 bytes; any other number is refused and handed
    /// back in the error.
    pub fn try_from_data_offset_u8(ihl: u8) -> (r: Result<Self, DataOffsetError>)
        ensures
            r == Self::of_data_offset(ihl),
            r is Ok <==> 5 <= ihl <= 15,
            r matches Ok(size) ==> size.as_usize() == 4 * ihl,
            r matches Err(e) ==> e == DataOffsetError::InvalidOffset(ihl),
    {
        Ok(
            match ihl {
                5 => TcpSize::S20,
                6 => TcpSize::S24,
                7 => TcpSize::S28,
                8 => TcpSize::S32,
                9 => TcpSize::S36,
                10 => TcpSize::S40,
                11 => TcpSize::S44,
                12 => TcpSize::S48,
                13 => TcpSize::S52,
                14 => TcpSize::S56,
                15 => TcpSize::S60,
                x => {
                    return Err(DataOffsetError::InvalidOffset(x));
                },
            },
        )
    }
}

/// What the front of a buffer measures as: the length of the TCP header there,
/// or the reason why there is none. The checks come in this order: 20 bytes at
/// least, a data offset field of 5 at least, and as many bytes as the data
/// offset field asks for.
pub open spec fn measure(buf: Seq<u8>) -> Result<TcpSize, Error> {
    if buf.len() < 20 {
        Err(Error::InvalidSize(buf.len() as usize))
    } else {
        match TcpSize::of_data_offset(buf[12] >> 4) {
            Err(e) => Err(Error::InvalidDataOffset(e)),
            Ok(size) => if buf.len() < size.as_usize() {
                Err(Error::InvalidSizeForOffset(buf.len() as usize, size))
            } else {
                Ok(size)
            },
        }
    }
}

/// The virtual header that the checksum of a segment carried by IPv4 covers in
/// front of the segment: the two addresses, a zero byte, the protocol number of
/// TCP, and the length of the segment.
pub open spec fn pseudo_header(source: Seq<u8>, destination: Seq<u8>, tcp_len: u16) -> Seq<u8> {
    source + destination + seq![0u8, 6u8] + seq![hi8(tcp_len), lo8(tcp_len)]
}

/// The bytes of a header that its checksum covers: all but the checksum
/// field, bytes 16 and 17, which is left out and not counted as zero.
pub open spec fn checksummed(header: Seq<u8>) -> Seq<u8> {
    header.subrange(0, 16) + header.subrange(18, header.len() as int)
}

/// The checksum of a segment carried by IPv4 between two addresses: the
/// Internet checksum over the pseudo-header, the header with its options and
/// without its checksum field, and the payload.
pub open spec fn tcp_checksum(
    header: Seq<u8>,
    source: Seq<u8>,
    destination: Seq<u8>,
    payload: Seq<u8>,
) -> int {
    internet_checksum(
        pseudo_header(source, destination, (header.len() + payload.len()) as u16) + checksummed(
            header,
        ) + payload,
    )
}

/// Byte 12 of a header with its upper four bits, the data offset, set to
/// `data_offset`. The lower four bits, the NS flag among them, stay.
pub open spec fn with_data_offset(byte: u8, data_offset: u8) -> u8 {
    (data_offset << 4) | (byte & 0x0F)
}

/// The data offset and the NS flag share a byte: a data offset that is set is
/// read back, and the NS flag keeps its value.
pub proof fn lemma_data_offset_independent(byte: u8, data_offset: u8)
    by (bit_vector)
    ensures
        data_offset <= 15 ==> with_data_offset(byte, data_offset) >> 4 == data_offset,
        with_data_offset(byte, data_offset) >> 4 == data_offset & 0x0F,
        with_data_offset(byte, data_offset) & 1 == byte & 1,
        with_data_offset(byte, data_offset) & 0x0F == byte & 0x0F,
        byte >> 4 <= 15,
{
}

/// Measures the TCP header at the front of `buf`.
fn measure_header(buf: &[u8]) -> (r: Result<TcpSize, Error>)
    ensures
        r == measure(buf@),
{
    if buf.len() < Tcp::MIN_LEN {
        return Err(Error::InvalidSize(buf.len()));
    }
    let size = match TcpSize::try_from_data_offset_u8(buf[12] >> 4) {
        Ok(size) => size,
        Err(e) => {
            return Err(Error::InvalidDataOffset(e));
        },
    };
    if buf.len() < size.as_usize() {
        return Err(Error::InvalidSizeForOffset(buf.len(), size));
    }
    Ok(size)
}

impl Tcp<()> {
    /// The length of a header without options.
    pub const MIN_LEN: usize = 20;

    /// The length of a header with as many options as it can hold.
    pub const MAX_LEN: usize = 60;
}

impl<P: Window> View for Tcp<P> {
    type V = Seq<u8>;

    /// The bytes of the header.
    closed spec fn view(&self) -> Seq<u8> {
        self.slice.bytes()
    }
}

impl<'pkt> Tcp<&'pkt [u8]> {
    /// Views the TCP header at the front of `slice` and hands back the bytes
    /// behind it.
    pub fn new(slice: &'pkt [u8]) -> (r: Result<(Self, &'pkt [u8]), Error>)
        ensures
            match measure(slice@) {
                Ok(size) => r matches Ok((tcp, rest)) && tcp.wf() && tcp.spec_size() == size
                    && tcp@ == slice@.subrange(0, size.as_usize() as int) && rest@
                    == slice@.subrange(size.as_usize() as int, slice@.len() as int) && tcp@
                    + rest@ == slice@,
                Err(e) => r matches Err(x) && x == e,
            },
    {
        let size = match measure_header(slice) {
            Ok(size) => size,
            Err(e) => {
                return Err(e);
            },
        };
        let (parsed, rem) = slice.split_at(size.as_usize());
        assert(parsed@ + rem@ =~= slice@);
        Ok((Self { slice: parsed, size }, rem))
    }
}

impl<'pkt> Tcp<&'pkt mut [u8]> {
    /// The borrowed bytes that the view reads and writes.
    pub closed spec fn window(&self) -> &'pkt mut [u8] {
        self.slice
    }

    /// A view that is done with leaves the borrowed bytes as it last held
    /// them.
    pub proof fn lemma_released(self)
        requires
            has_resolved(self),
        ensures
            final(self.window())@ == self@,
    {
    }

    /// Views the TCP header at the front of `slice` for reading and writing,
    /// and hands back the bytes behind it.
    pub fn new_mut(slice: &'pkt mut [u8]) -> (r: Result<(Self, &'pkt mut [u8]), Error>)
        ensures
            match measure(old(slice)@) {
                Ok(size) => r matches Ok((tcp, rest)) && tcp.wf() && tcp.spec_size() == size
                    && tcp@ == old(slice)@.subrange(0, size.as_usize() as int) && rest@ == old(
                    slice,
                )@.subrange(size.as_usize() as int, old(slice)@.len() as int) && tcp@ + rest@
                    == old(slice)@ && final(slice)@ == final(tcp.window())@ + final(rest)@,
                Err(e) => r matches Err(x) && x == e,
            },
    {
        let size = match measure_header(slice) {
            Ok(size) => size,
            Err(e) => {
                return Err(e);
            },
        };
        let (parsed, rem) = slice.split_at_mut(size.as_usize());
        assert(parsed@ + rem@ =~= old(slice)@);
        Ok((Self { slice: parsed, size }, rem))
    }

    /// Writes the destination port, bytes 2 and 3.
    pub fn set_destination(&mut self, port: u16)
        requires
            old(self).wf(),
        ensures
            final(self).wf(),
            final(self).spec_size() == old(self).spec_size(),
            final(self)@ == replace_u16(old(self)@, 2, port),
            u16_at(final(self)@, 2) == port,
            final(final(self).window())@ == final(old(self).window())@,
    {
        let bytes = u16_to_be(port);
        write_bytes(self.slice, 2, &bytes);
        assert(self@ =~= replace_u16(old(self)@, 2, port));
    }

    /// Writes the source port, bytes 0 and 1.
    pub fn set_source(&mut self, port: u16)
        requires
            old(self).wf(),
        ensures
            final(self).wf(),
            final(self).spec_size() == old(self).spec_size(),
            final(self)@ == replace_u16(old(self)@, 0, port),
            u16_at(final(self)@, 0) == port,
            final(final(self).window())@ == final(old(self).window())@,
    {
        let bytes = u16_to_be(port);
        write_bytes(self.slice, 0, &bytes);
        assert(self@ =~= replace_u16(old(self)@, 0, port));
    }

    /// Writes the window size, bytes 14 and 15.
    pub fn set_window_size(&mut self, window_size: u16)
        requires
            old(self).wf(),
        ensures
            final(self).wf(),
            final(self).spec_size() == old(self).spec_size(),
            final(self)@ == replace_u16(old(self)@, 14, window_size),
            u16_at(final(self)@, 14) == window_size,
            final(final(self).window())@ == final(old(self).window())@,
    {
        let bytes = u16_to_be(window_size);
        write_bytes(self.slice, 14, &bytes);
        assert(self@ =~= replace_u16(old(self)@, 14, window_size));
    }

    /// The bytes of the header, for writing. Their number cannot change, so
    /// the view keeps its size whatever is written, the data offset field
    /// included.
    pub fn slice_mut(&mut self) -> (r: &mut [u8])
        ensures
            r@ == old(self)@,
            final(self)@ == final(r)@,
            final(self).spec_size() == old(self).spec_size(),
            final(final(self).window())@ == final(old(self).window())@,
    {
        &mut *self.slice
    }

    /// Writes the checksum field, bytes 16 and 17.
    pub fn set_csum(&mut self, csum: u16)
        requires
            old(self).wf(),
        ensures
            final(self).wf(),
            final(self).spec_size() == old(self).spec_size(),
            final(self)@ == replace_u16(old(self)@, 16, csum),
            u16_at(final(self)@, 16) == csum,
            checksummed(final(self)@) == checksummed(old(self)@),
            final(final(self).window())@ == final(old(self).window())@,
    {
        let bytes = u16_to_be(csum);
        write_bytes(self.slice, 16, &bytes);
        assert(self@ =~= replace_u16(old(self)@, 16, csum));
        assert(checksummed(self@) =~= checksummed(old(self)@));
    }

    /// Writes the urgent pointer, bytes 18 and 19.
    pub fn set_urgent_pointer(&mut self, urgent_pointer: u16)
        requires
            old(self).wf(),
        ensures
            final(self).wf(),
            final(self).spec_size() == old(self).spec_size(),
            final(self)@ == replace_u16(old(self)@, 18, urgent_pointer),
            u16_at(final(self)@, 18) == urgent_pointer,
            final(final(self).window())@ == final(old(self).window())@,
    {
        let bytes = u16_to_be(urgent_pointer);
        write_bytes(self.slice, 18, &bytes);
        assert(self@ =~= replace_u16(old(self)@, 18, urgent_pointer));
    }

    /// Writes the sequence number, bytes 4 to 7.
    pub fn set_sequence_num(&mut self, num: u32)
        requires
            old(self).wf(),
        ensures
            final(self).wf(),
            final(self).spec_size() == old(self).spec_size(),
            final(self)@ == replace_u32(old(self)@, 4, num),
            u32_at(final(self)@, 4) == num,
            final(final(self).window())@ == final(old(self).window())@,
    {
        let bytes = u32_to_be(num);
        write_bytes(self.slice, 4, &bytes);
        assert(self@ =~= replace_u32(old(self)@, 4, num));
    }

    /// Writes the acknowledgment number, bytes 8 to 11.
    pub fn set_ack_num(&mut self, ack: u32)
        requires
            old(self).wf(),
        ensures
            final(self).wf(),
            final(self).spec_size() == old(self).spec_size(),
            final(self)@ == replace_u32(old(self)@, 8, ack),
            u32_at(final(self)@, 8) == ack,
            final(final(self).window())@ == final(old(self).window())@,
    {
        let bytes = u32_to_be(ack);
        write_bytes(self.slice, 8, &bytes);
        assert(self@ =~= replace_u32(old(self)@, 8, ack));
    }

    /// Writes the data offset, the upper four bits of byte 12, from the lower
    /// four bits of `data_offset`. The lower four bits of the byte, the NS flag
    /// among them, stay, and the view keeps its size.
    pub fn set_data_offset(&mut self, data_offset: u8)
        requires
            old(self).wf(),
        ensures
            final(self).wf(),
            final(self).spec_size() == old(self).spec_size(),
            final(self)@ == old(self)@.update(12, with_data_offset(old(self)@[12], data_offset)),
            final(self)@[12] >> 4 == data_offset & 0x0F,
            data_offset <= 15 ==> final(self)@[12] >> 4 == data_offset,
            final(self)@[12] & 1 == old(self)@[12] & 1,
            final(final(self).window())@ == final(old(self).window())@,
    {
        proof {
            lemma_data_offset_independent(self@[12], data_offset);
        }
        self.slice[12] = (data_offset << 4) | (self.slice[12] & 0x0F);
    }

    /// Writes the eight flags of byte 13 at once.
    pub fn set_flags(&mut self, flags: u8)
        requires
            old(self).wf(),
        ensures
            final(self).wf(),
            final(self).spec_size() == old(self).spec_size(),
            final(self)@ == old(self)@.update(13, flags),
            final(self)@[13] == flags,
            final(final(self).window())@ == final(old(self).window())@,
    {
        self.slice[13] = flags;
    }
}

impl<P: Window> Tcp<P> {
    /// The size that the header was measured to have when the view was made.
    pub closed spec fn spec_size(&self) -> TcpSize {
        self.size
    }

    /// The view holds exactly the bytes of a header of its size.
    pub open spec fn wf(&self) -> bool {
        self@.len() == self.spec_size().as_usize()
    }

    /// The size that the header was measured to have when the view was made.
    pub fn size(&self) -> (r: TcpSize)
        ensures
            r == self.spec_size(),
            self.wf() ==> r.as_usize() == self@.len(),
    {
        self.size
    }

    /// The checksum that the segment should carry when IPv4 carries it from
    /// `source_ip` to `destination_ip` with `payload` behind this header.
    ///
    /// The checksum covers a 16-bit length of header and payload together, so
    /// a payload that makes the segment longer than 65535 bytes is refused.
    pub fn calc_checksum_ipv4_raw(
        &self,
        source_ip: [u8; 4],
        destination_ip: [u8; 4],
        payload: &[u8],
    ) -> (r: Result<u16, ValueTooBigError>)
        requires
            self.wf(),
        ensures
            self@.len() + payload@.len() > 0xffff ==> r == Err::<u16, ValueTooBigError>(
                (ValueTooBigError {
                    actual: payload@.len() as usize,
                    max_allowed: (0xffff - self@.len()) as usize,
                }),
            ),
            self@.len() + payload@.len() <= 0xffff ==> (r matches Ok(csum) && csum
                == tcp_checksum(self@, source_ip@, destination_ip@, payload@)),
    {
        let max_payload: usize = 0xffff - self.size.as_usize();
        if max_payload < payload.len() {
            return Err(ValueTooBigError { actual: payload.len(), max_allowed: max_payload });
        }
        let tcp_len: u16 = self.size.as_usize() as u16 + (payload.len() as u16);
        let length = u16_to_be(tcp_len);
        let sum = Sum16BitWords::new().add_4bytes(source_ip).add_4bytes(destination_ip).add_2bytes(
            [0, u8::from(InetProtocol::TCP)],
        ).add_2bytes(length);
        let ghost pseudo = pseudo_header(source_ip@, destination_ip@, tcp_len);
        proof {
            let tail = seq![0u8, 6u8] + seq![hi8(tcp_len), lo8(tcp_len)];
            assert(pseudo =~= source_ip@ + (destination_ip@ + tail));
            lemma_word_sum_concat(source_ip@, destination_ip@ + tail);
            lemma_word_sum_concat(destination_ip@, tail);
            lemma_word_sum_words(source_ip@);
            lemma_word_sum_words(destination_ip@);
            lemma_word_sum_words(tail);
            let a = be16(source_ip@[0], source_ip@[1]) + be16(source_ip@[2], source_ip@[3]);
            let b = be16(destination_ip@[0], destination_ip@[1]) + be16(
                destination_ip@[2],
                destination_ip@[3],
            );
            lemma_fold16_range(a);
            lemma_fold16_absorb(a, b);
            lemma_fold16_absorb(a + b, 6);
            lemma_fold16_absorb(a + b + 6, tcp_len as int);
            assert(word_sum(pseudo) == a + b + 6 + tcp_len);
        }
        let csum = self.calc_checksum_post_ip(sum, payload, Ghost(word_sum(pseudo)));
        proof {
            assert(pseudo.len() == 12);
            lemma_word_sum_concat(pseudo, checksummed(self@) + payload@);
            lemma_word_sum_concat(checksummed(self@), payload@);
            assert(pseudo + checksummed(self@) + payload@ =~= pseudo + (checksummed(self@)
                + payload@));
        }
        Ok(csum)
    }

    /// Adds header and payload to the sum of a pseudo-header, whose words add
    /// up to `before`, and ends the sum.
    fn calc_checksum_post_ip(
        &self,
        ip_pseudo_header_sum: Sum16BitWords,
        payload: &[u8],
        Ghost(before): Ghost<int>,
    ) -> (r: u16)
        requires
            self.wf(),
            0 <= before,
            folded(ip_pseudo_header_sum) == fold16(before),
        ensures
            r == 0xffff - fold16(
                before + word_sum(checksummed(self@)) + word_sum(payload@),
            ),
    {
        let bytes = self.slice.as_bytes();
        let front = &bytes[0..16];
        let back = &bytes[18..self.size.as_usize()];
        let sum = ip_pseudo_header_sum.add_slice(front).add_slice(back).add_slice(payload);
        proof {
            lemma_word_sum_nonnegative(front@);
            lemma_word_sum_nonnegative(back@);
            lemma_word_sum_nonnegative(payload@);
            lemma_word_sum_concat(front@, back@);
            lemma_fold16_absorb(before, word_sum(front@));
            lemma_fold16_absorb(before + word_sum(front@), word_sum(back@));
            lemma_fold16_absorb(
                before + word_sum(front@) + word_sum(back@),
                word_sum(payload@),
            );
        }
        finish(sum, Ghost(before + word_sum(checksummed(self@)) + word_sum(payload@)))
    }

    /// The destination port, bytes 2 and 3.
    pub fn destination(&self) -> (r: u16)
        requires
            self.wf(),
        ensures
            r == u16_at(self@, 2),
    {
        let bytes = self.slice.as_bytes();
        u16_from_be(&[bytes[2], bytes[3]])
    }

    /// The source port, bytes 0 and 1.
    pub fn source(&self) -> (r: u16)
        requires
            self.wf(),
        ensures
            r == u16_at(self@, 0),
    {
        let bytes = self.slice.as_bytes();
        u16_from_be(&[bytes[0], bytes[1]])
    }

    /// The window size, bytes 14 and 15.
    pub fn window_size(&self) -> (r: u16)
        requires
            self.wf(),
        ensures
            r == u16_at(self@, 14),
    {
        let bytes = self.slice.as_bytes();
        u16_from_be(&[bytes[14], bytes[15]])
    }

    /// The bytes of the header.
    pub fn slice(&self) -> (r: &[u8])
        ensures
            r@ == self@,
    {
        self.slice.as_bytes()
    }

    /// The checksum field, bytes 16 and 17.
    pub fn csum(&self) -> (r: u16)
        requires
            self.wf(),
        ensures
            r == u16_at(self@, 16),
    {
        let bytes = self.slice.as_bytes();
        u16_from_be(&[bytes[16], bytes[17]])
    }

    /// The urgent pointer, bytes 18 and 19.
    pub fn urgent_pointer(&self) -> (r: u16)
        requires
            self.wf(),
        ensures
            r == u16_at(self@, 18),
    {
        let bytes = self.slice.as_bytes();
        u16_from_be(&[bytes[18], bytes[19]])
    }

    /// The sequence number, bytes 4 to 7.
    pub fn sequence_num(&self) -> (r: u32)
        requires
            self.wf(),
        ensures
            r == u32_at(self@, 4),
    {
        let bytes = self.slice.as_bytes();
        u32_from_be(&[bytes[4], bytes[5], bytes[6], bytes[7]])
    }

    /// The acknowledgment number, bytes 8 to 11.
    pub fn ack_num(&self) -> (r: u32)
        requires
            self.wf(),
        ensures
            r == u32_at(self@, 8),
    {
        let bytes = self.slice.as_bytes();
        u32_from_be(&[bytes[8], bytes[9], bytes[10], bytes[11]])
    }

    /// The data offset field, the upper four bits of byte 12, as it stands
    /// now. The view keeps the size it was made with.
    pub fn data_offset(&self) -> (r: u8)
        requires
            self.wf(),
        ensures
            r == self@[12] >> 4,
            r <= 15,
    {
        proof {
            lemma_data_offset_independent(self@[12], 0);
        }
        self.slice.as_bytes()[12] >> 4
    }

    /// The eight flags of byte 13 at once, CWR the highest bit and FIN the
    /// lowest.
    pub fn flags(&self) -> (r: u8)
        requires
            self.wf(),
        ensures
            r == self@[13],
    {
        self.slice.as_bytes()[13]
    }

    /// The options: what the header holds behind its first 20 bytes.
    pub fn options(&self) -> (r: &[u8])
        requires
            self.wf(),
        ensures
            r@ == self@.subrange(20, self@.len() as int),
            r@.len() == self.spec_size().as_usize() - 20,
    {
        &self.slice.as_bytes()[Tcp::MIN_LEN..self.size.as_usize()]
    }

    /// The flag CWR, bit 7 of byte 13.
    pub fn cwr(&self) -> (r: bool)
        requires
            self.wf(),
        ensures
            r == (self@[13] >> 7 == 1),
    {
        self.slice.as_bytes()[13] >> 7 == 1
    }

    /// The flag ECE, bit 6 of byte 13.
    pub fn ece(&self) -> (r: bool)
        requires
            self.wf(),
        ensures
            r == ((self@[13] >> 6) & 1 == 1),
    {
        (self.slice.as_bytes()[13] >> 6) & 1 == 1
    }

    /// The flag URG, bit 5 of byte 13.
    pub fn urg(&self) -> (r: bool)
        requires
            self.wf(),
        ensures
            r == ((self@[13] >> 5) & 1 == 1),
    {
        (self.slice.as_bytes()[13] >> 5) & 1 == 1
    }

    /// The flag ACK, bit 4 of byte 13.
    pub fn ack(&self) -> (r: bool)
        requires
            self.wf(),
        ensures
            r == ((self@[13] >> 4) & 1 == 1),
    {
        (self.slice.as_bytes()[13] >> 4) & 1 == 1
    }

    /// The flag PSH, bit 3 of byte 13.
    pub fn psh(&self) -> (r: bool)
        requires
            self.wf(),
        ensures
            r == ((self@[13] >> 3) & 1 == 1),
    {
        (self.slice.as_bytes()[13] >> 3) & 1 == 1
    }

    /// The flag RST, bit 2 of byte 13.
    pub fn rst(&self) -> (r: bool)
        requires
            self.wf(),
        ensures
            r == ((self@[13] >> 2) & 1 == 1),
    {
        (self.slice.as_bytes()[13] >> 2) & 1 == 1
    }

    /// The flag SYN, bit 1 of byte 13.
    pub fn syn(&self) -> (r: bool)
        requires
            self.wf(),
        ensures
            r == ((self@[13] >> 1) & 1 == 1),
    {
        (self.slice.as_bytes()[13] >> 1) & 1 == 1
    }

    /// The flag FIN, bit 0 of byte 13.
    pub fn fin(&self) -> (r: bool)
        requires
            self.wf(),
        ensures
            r == (self@[13] & 1 == 1),
    {
        self.slice.as_bytes()[13] & 1 == 1
    }

    /// The flag NS, bit 0 of byte 12.
    pub fn ns(&self) -> (r: bool)
        requires
            self.wf(),
        ensures
            r == (self@[12] & 1 == 1),
    {
        self.slice.as_bytes()[12] & 1 == 1
    }
}

/// Where a 16-bit field of the header at an even offset, other than the
/// checksum field, changes, the checksum brought up to date from the old
/// checksum, the old field and the new field is the checksum of the changed
/// segment, bit for bit.
pub proof fn lemma_incremental_update_u16(
    header: Seq<u8>,
    source: Seq<u8>,
    destination: Seq<u8>,
    payload: Seq<u8>,
    at: int,
    new: u16,
)
    requires
        18 <= header.len(),
        source.len() == 4,
        destination.len() == 4,
        0 <= at,
        at + 2 <= header.len(),
        at % 2 == 0,
        at != 16,
    ensures
        0 <= tcp_checksum(header, source, destination, payload) <= 0xffff,
        complement16(
            diff_sum(
                u16_at(header, at) as u32,
                new as u32,
                (0xffff - tcp_checksum(header, source, destination, payload)) as u32,
            ),
        ) == tcp_checksum(replace_u16(header, at, new), source, destination, payload),
{
    let tcp_len = (header.len() + payload.len()) as u16;
    let pseudo = pseudo_header(source, destination, tcp_len);
    let covered = pseudo + checksummed(header) + payload;
    let changed = replace_u16(header, at, new);
    let moved: int = if at < 16 {
        12 + at
    } else {
        10 + at
    };
    lemma_word_sum_nonnegative(covered);
    lemma_fold16_range(word_sum(covered));
    let seed = (0xffff - tcp_checksum(header, source, destination, payload)) as u32;
    lemma_fold16_range(seed as int);
    assert(pseudo + checksummed(changed) + payload =~= replace_u16(covered, moved, new));
    assert(replace_u16(covered, moved, new)[9] == 6);
    crate::checksum::lemma_incremental_update_u16(covered, moved, new, seed);
}

/// The same for a 32-bit field of the header at an even offset that does not
/// touch the checksum field: the sequence and the acknowledgment number.
pub proof fn lemma_incremental_update_u32(
    header: Seq<u8>,
    source: Seq<u8>,
    destination: Seq<u8>,
    payload: Seq<u8>,
    at: int,
    new: u32,
)
    requires
        18 <= header.len(),
        source.len() == 4,
        destination.len() == 4,
        0 <= at,
        at + 4 <= header.len(),
        at % 2 == 0,
        at + 4 <= 16 || 18 <= at,
    ensures
        0 <= tcp_checksum(header, source, destination, payload) <= 0xffff,
        complement16(
            diff_sum(
                u32_at(header, at),
                new,
                (0xffff - tcp_checksum(header, source, destination, payload)) as u32,
            ),
        ) == tcp_checksum(replace_u32(header, at, new), source, destination, payload),
{
    let tcp_len = (header.len() + payload.len()) as u16;
    let pseudo = pseudo_header(source, destination, tcp_len);
    let covered = pseudo + checksummed(header) + payload;
    let changed = replace_u32(header, at, new);
    let moved: int = if at < 16 {
        12 + at
    } else {
        10 + at
    };
    lemma_word_sum_nonnegative(covered);
    lemma_fold16_range(word_sum(covered));
    let seed = (0xffff - tcp_checksum(header, source, destination, payload)) as u32;
    lemma_fold16_range(seed as int);
    assert(pseudo + checksummed(changed) + payload =~= replace_u32(covered, moved, new));
    assert(replace_u32(covered, moved, new)[9] == 6);
    crate::checksum::lemma_incremental_update_u32(covered, moved, new, seed);
}

/// The same for the addresses of the packet that carries the segment: where
/// the source or the destination address is rewritten, the checksum of the
/// segment is brought up to date from the old and the new address.
pub proof fn lemma_incremental_update_address(
    header: Seq<u8>,
    source: Seq<u8>,
    destination: Seq<u8>,
    payload: Seq<u8>,
    new: u32,
)
    requires
        18 <= header.len(),
        source.len() == 4,
        destination.len() == 4,
    ensures
        0 <= tcp_checksum(header, source, destination, payload) <= 0xffff,
        complement16(
            diff_sum(
                u32_at(source, 0),
                new,
                (0xffff - tcp_checksum(header, source, destination, payload)) as u32,
            ),
        ) == tcp_checksum(header, replace_u32(source, 0, new), destination, payload),
        complement16(
            diff_sum(
                u32_at(destination, 0),
                new,
                (0xffff - tcp_checksum(header, source, destination, payload)) as u32,
            ),
        ) == tcp_checksum(header, source, replace_u32(destination, 0, new), payload),
{
    let tcp_len = (header.len() + payload.len()) as u16;
    let pseudo = pseudo_header(source, destination, tcp_len);
    let covered = pseudo + checksummed(header) + payload;
    lemma_word_sum_nonnegative(covered);
    lemma_fold16_range(word_sum(covered));
    let seed = (0xffff - tcp_checksum(header, source, destination, payload)) as u32;
    lemma_fold16_range(seed as int);
    assert(pseudo_header(replace_u32(source, 0, new), destination, tcp_len) + checksummed(header)
        + payload =~= replace_u32(covered, 0, new));
    assert(replace_u32(covered, 0, new)[9] == 6);
    crate::checksum::lemma_incremental_update_u32(covered, 0, new, seed);
    assert(pseudo_header(source, replace_u32(destination, 0, new), tcp_len) + checksummed(header)
        + payload =~= replace_u32(covered, 4, new));
    assert(replace_u32(covered, 4, new)[9] == 6);
    crate::checksum::lemma_incremental_update_u32(covered, 4, new, seed);
}

} // verus!
