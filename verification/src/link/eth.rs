//! Ethernet II headers with no, one or two VLAN tags.
//!
//! The header is 14 bytes without a tag, 16 with one and 18 with two. The two
//! bytes behind the addresses say which: they are the EtherType of an untagged
//! frame, or the identifier of the first tag.
use crate::window::{replace_bytes, replace_u16, u16_at, u16_from_be, u16_to_be, write_bytes, Window};
use vstd::prelude::*;
use vstd::std_specs::convert::{FromSpecImpl, TryFromSpecImpl};

verus! {

/// A view onto the Ethernet header at the front of a frame.
pub struct Ethernet<P = ()> {
    slice: P,
    size: EtherSize,
}

/// What an Ethernet frame carries, by the number in its EtherType field.
#[derive(Debug, Clone, Copy, PartialEq, Eq, Structural, Hash)]
pub enum EtherType {
    /// Internet Protocol version 4
    IPv4,
    /// Internet Protocol version 6
    IPv6,
    /// Address Resolution Protocol
    Arp,
    /// Wake-on-LAN
    WakeOnLan,
    /// A frame with one VLAN tag (IEEE 802.1Q)
    VlanTaggedFrame,
    /// Provider bridging (IEEE 802.1ad)
    ProviderBridging,
    /// A frame with two VLAN tags
    VlanDoubleTaggedFrame,
    /// A number without a name here, kept as it came.
    Other(u16),
}

/// The length of an Ethernet header: one of three.
#[derive(Debug, Clone, Copy, PartialEq, Eq, Structural, Hash, PartialOrd, Ord)]
pub enum EtherSize {
    /// 14 bytes: no VLAN tag
    S14,
    /// 16 bytes: one VLAN tag
    S16,
    /// 18 bytes: two VLAN tags
    S18,
}

/// Why a buffer does not start with an Ethernet header.
#[derive(Debug, Clone, Copy, PartialEq, Eq, Structural)]
pub enum Error {
    /// The buffer, of the length given, is shorter than 14 bytes.
    WrongSize(usize),
    /// The buffer has 14 bytes, but fewer than the tags announced at bytes 12
    /// and 13 need. Holds what was announced and the buffer's length.
    WrongSizeForType(EtherType, usize),
}

impl EtherType {
    /// The meaning of a number. Every number has one: a number without a name
    /// is kept in `Other`.
    pub open spec fn of_number(value: u16) -> EtherType {
        match value {
            0x0800 => EtherType::IPv4,
            0x86dd => EtherType::IPv6,
            0x0806 => EtherType::Arp,
            0x0842 => EtherType::WakeOnLan,
            0x8100 => EtherType::VlanTaggedFrame,
            0x88A8 => EtherType::ProviderBridging,
            0x9100 => EtherType::VlanDoubleTaggedFrame,
            x => EtherType::Other(x),
        }
    }

    /// The number that stands for an EtherType on the wire.
    pub open spec fn number(self) -> u16 {
        match self {
            EtherType::IPv4 => 0x0800,
            EtherType::IPv6 => 0x86dd,
            EtherType::Arp => 0x0806,
            EtherType::WakeOnLan => 0x0842,
            EtherType::VlanTaggedFrame => 0x8100,
            EtherType::ProviderBridging => 0x88A8,
            EtherType::VlanDoubleTaggedFrame => 0x9100,
            EtherType::Other(v) => v,
        }
    }

    /// Whether this is the value that `of_number` gives for its number: a name,
    /// or `Other` around a number that has none.
    pub open spec fn is_canonical(self) -> bool {
        EtherType::of_number(self.number()) == self
    }
}

impl From<EtherType> for u16 {
    fn from(value: EtherType) -> (r: Self) {
        match value {
            EtherType::IPv4 => 0x0800,
            EtherType::IPv6 => 0x86dd,
            EtherType::Arp => 0x0806,
            EtherType::WakeOnLan => 0x0842,
            EtherType::VlanTaggedFrame => 0x8100,
            EtherType::ProviderBridging => 0x88A8,
            EtherType::VlanDoubleTaggedFrame => 0x9100,
            EtherType::Other(v) => v,
        }
    }
}

impl FromSpecImpl<EtherType> for u16 {
    open spec fn obeys_from_spec() -> bool {
        true
    }

    open spec fn from_spec(value: EtherType) -> Self {
        value.number()
    }
}

impl From<[u8; 2]> for EtherType {
    fn from(value: [u8; 2]) -> (r: Self) {
        let num = u16_from_be(&value);
        EtherType::from(num)
    }
}

impl FromSpecImpl<[u8; 2]> for EtherType {
    open spec fn obeys_from_spec() -> bool {
        true
    }

    open spec fn from_spec(value: [u8; 2]) -> Self {
        EtherType::of_number(u16_at(value@, 0))
    }
}

impl TryFrom<&[u8]> for EtherType {
    type Error = ();

    fn try_from(value: &[u8]) -> (r: Result<Self, Self::Error>) {
        if value.len() < 2 {
            return Err(());
        }
        let array = *value.first_chunk::<2>().unwrap();
        Ok(EtherType::from(array))
    }
}

impl TryFromSpecImpl<&[u8]> for EtherType {
    open spec fn obeys_try_from_spec() -> bool {
        true
    }

    open spec fn try_from_spec(value: &[u8]) -> Result<Self, Self::Error> {
        if value@.len() < 2 {
            Err(())
        } else {
            Ok(EtherType::of_number(u16_at(value@, 0)))
        }
    }
}

impl From<u16> for EtherType {
    fn from(value: u16) -> (r: Self) {
        match value {
            0x0800 => Self::IPv4,
            0x86dd => Self::IPv6,
            0x0806 => Self::Arp,
            0x0842 => Self::WakeOnLan,
            0x8100 => Self::VlanTaggedFrame,
            0x88A8 => Self::ProviderBridging,
            0x9100 => Self::VlanDoubleTaggedFrame,
            x => Self::Other(x),
        }
    }
}

impl FromSpecImpl<u16> for EtherType {
    open spec fn obeys_from_spec() -> bool {
        true
    }

    open spec fn from_spec(value: u16) -> Self {
        EtherType::of_number(value)
    }
}

/// Decoding a number and encoding the result gives the number back, and
/// encoding an EtherType and decoding the number gives the EtherType back, but
/// for `Other` around a number that has a name, which decodes to the name.
pub proof fn lemma_ethertype_round_trip(value: u16, ethertype: EtherType)
    ensures
        EtherType::of_number(value).number() == value,
        EtherType::of_number(value).is_canonical(),
        !(ethertype is Other) ==> ethertype.is_canonical(),
        EtherType::of_number(ethertype.number()).number() == ethertype.number(),
{
}

impl EtherSize {
    /// The length in bytes.
    pub open spec fn spec_as_usize(self) -> usize {
        match self {
            EtherSize::S14 => 14,
            EtherSize::S16 => 16,
            EtherSize::S18 => 18,
        }
    }

    /// The length in bytes.
    #[verifier::when_used_as_spec(spec_as_usize)]
    pub fn as_usize(self) -> (r: usize)
        ensures
            r == self.spec_as_usize(),
    {
        match self {
            EtherSize::S14 => 14,
            EtherSize::S16 => 16,
            EtherSize::S18 => 18,
        }
    }
}

/// What the front of a buffer measures as: the length of the Ethernet header
/// there, or the reason why there is none.
///
/// Bytes 12 and 13 announce two tags by 0x9100 and one tag by 0x8100; any other
/// number there is the EtherType of an untagged frame. A buffer must hold the
/// 14 bytes of an untagged header before those two bytes are looked at, and
/// then what the tags need.
pub open spec fn measure(buf: Seq<u8>) -> Result<EtherSize, Error> {
    if buf.len() < 14 {
        Err(Error::WrongSize(buf.len() as usize))
    } else {
        let announced = EtherType::of_number(u16_at(buf, 12));
        if announced == EtherType::VlanDoubleTaggedFrame {
            if buf.len() >= 18 {
                Ok(EtherSize::S18)
            } else {
                Err(Error::WrongSizeForType(announced, buf.len() as usize))
            }
        } else if announced == EtherType::VlanTaggedFrame {
            if buf.len() >= 16 {
                Ok(EtherSize::S16)
            } else {
                Err(Error::WrongSizeForType(announced, buf.len() as usize))
            }
        } else {
            Ok(EtherSize::S14)
        }
    }
}

/// Measures the Ethernet header at the front of `buf`, reading no byte that a
/// length check has not covered.
fn measure_header(buf: &[u8]) -> (r: Result<EtherSize, Error>)
    ensures
        r == measure(buf@),
{
    if buf.len() < Ethernet::MIN_LEN {
        return Err(Error::WrongSize(buf.len()));
    }
    let announced = EtherType::from([buf[12], buf[13]]);
    match announced {
        EtherType::VlanDoubleTaggedFrame => {
            if buf.len() >= Ethernet::MAX_LEN {
                Ok(EtherSize::S18)
            } else {
                Err(Error::WrongSizeForType(announced, buf.len()))
            }
        },
        EtherType::VlanTaggedFrame => {
            if buf.len() >= Ethernet::MIN_LEN + 2 {
                Ok(EtherSize::S16)
            } else {
                Err(Error::WrongSizeForType(announced, buf.len()))
            }
        },
        _ => Ok(EtherSize::S14),
    }
}

impl Ethernet<()> {
    /// The length of a header without a VLAN tag.
    pub const MIN_LEN: usize = 14;

    /// The length of a header with two VLAN tags.
    pub const MAX_LEN: usize = 18;
}

impl<P: Window> View for Ethernet<P> {
    type V = Seq<u8>;

    /// The bytes of the header.
    closed spec fn view(&self) -> Seq<u8> {
        self.slice.bytes()
    }
}

impl<'pkt> Ethernet<&'pkt [u8]> {
    /// Views the Ethernet header at the front of `slice` and hands back the
    /// bytes behind it.
    pub fn new(slice: &'pkt [u8]) -> (r: Result<(Ethernet<&'pkt [u8]>, &'pkt [u8]), Error>)
        ensures
            match measure(slice@) {
                Ok(size) => r matches Ok((eth, rest)) && eth.wf() && eth.spec_size() == size
                    && eth@ == slice@.subrange(0, size.as_usize() as int) && rest@
                    == slice@.subrange(size.as_usize() as int, slice@.len() as int) && eth@
                    + rest@ == slice@,
                Err(e) => r matches Err(x) && x == e,
            },
    {
        let size = match measure_header(slice) {
            Ok(size) => size,
            Err(e) => {
                return Err(e);
            },
        };
        let (parsed, rem) = slice.split_at(size.as_usize());
        assert(parsed@ + rem@ =~= slice@);
        Ok((Ethernet { slice: parsed, size }, rem))
    }
}

impl<'pkt> Ethernet<&'pkt mut [u8]> {
    /// The borrowed bytes that the view reads and writes.
    pub closed spec fn window(&self) -> &'pkt mut [u8] {
        self.slice
    }

    /// A view that is done with leaves the borrowed bytes as it last held
    /// them.
    pub proof fn lemma_released(self)
        requires
            has_resolved(self),
        ensures
            final(self.window())@ == self@,
    {
    }

    /// Views the Ethernet header at the front of `slice` for reading and
    /// writing, and hands back the bytes behind it.
    pub fn new_mut(slice: &'pkt mut [u8]) -> (r: Result<
        (Ethernet<&'pkt mut [u8]>, &'pkt mut [u8]),
        Error,
    >)
        ensures
            match measure(old(slice)@) {
                Ok(size) => r matches Ok((eth, rest)) && eth.wf() && eth.spec_size() == size
                    && eth@ == old(slice)@.subrange(0, size.as_usize() as int) && rest@ == old(
                    slice,
                )@.subrange(size.as_usize() as int, old(slice)@.len() as int) && eth@ + rest@
                    == old(slice)@ && final(slice)@ == final(eth.window())@ + final(rest)@,
                Err(e) => r matches Err(x) && x == e,
            },
    {
        let size = match measure_header(slice) {
            Ok(size) => size,
            Err(e) => {
                return Err(e);
            },
        };
        let (parsed, rem) = slice.split_at_mut(size.as_usize());
        assert(parsed@ + rem@ =~= old(slice)@);
        Ok((Ethernet { slice: parsed, size }, rem))
    }

    /// Views the first 14 bytes of `slice` as the header of an untagged frame,
    /// without looking at them, and hands back the bytes behind them. For a
    /// caller who knows that the frame has no VLAN tag.
    pub fn new_min(slice: &'pkt mut [u8]) -> (r: (Self, &'pkt mut [u8]))
        requires
            old(slice)@.len() >= 14,
        ensures
            r.0.wf(),
            r.0.spec_size() == EtherSize::S14,
            r.0@ == old(slice)@.subrange(0, 14),
            r.1@ == old(slice)@.subrange(14, old(slice)@.len() as int),
            r.0@ + r.1@ == old(slice)@,
            final(slice)@ == final(r.0.window())@ + final(r.1)@,
    {
        let (parsed, rem) = slice.split_at_mut(Ethernet::MIN_LEN);
        assert(parsed@ + rem@ =~= old(slice)@);
        (Ethernet { slice: parsed, size: EtherSize::S14 }, rem)
    }

    /// Writes the destination address, the first six bytes.
    pub fn set_destination(&mut self, new_dest: &[u8; 6])
        requires
            old(self).wf(),
        ensures
            final(self).wf(),
            final(self).spec_size() == old(self).spec_size(),
            final(self)@ == replace_bytes(old(self)@, 0, new_dest@),
            final(self)@.subrange(0, 6) == new_dest@,
            final(final(self).window())@ == final(old(self).window())@,
    {
        write_bytes(self.slice, 0, new_dest);
        assert(self@.subrange(0, 6) =~= new_dest@);
    }

    /// Writes the source address, bytes 6 to 11.
    pub fn set_source(&mut self, new_dest: &[u8; 6])
        requires
            old(self).wf(),
        ensures
            final(self).wf(),
            final(self).spec_size() == old(self).spec_size(),
            final(self)@ == replace_bytes(old(self)@, 6, new_dest@),
            final(self)@.subrange(6, 12) == new_dest@,
            final(final(self).window())@ == final(old(self).window())@,
    {
        write_bytes(self.slice, 6, new_dest);
        assert(self@.subrange(6, 12) =~= new_dest@);
    }

    /// Writes the EtherType, the last two bytes of the header: behind the VLAN
    /// tags, where there are any. The header keeps its length.
    pub fn set_ethertype(&mut self, ethertype: EtherType)
        requires
            old(self).wf(),
        ensures
            final(self).wf(),
            final(self).spec_size() == old(self).spec_size(),
            final(self)@ == replace_u16(old(self)@, old(self)@.len() - 2, ethertype.number()),
            u16_at(final(self)@, final(self)@.len() - 2) == ethertype.number(),
            final(final(self).window())@ == final(old(self).window())@,
    {
        let at: usize = self.size.as_usize() - 2;
        let bytes = u16_to_be(u16::from(ethertype));
        write_bytes(self.slice, at, &bytes);
        assert(self@ =~= replace_u16(old(self)@, old(self)@.len() - 2, ethertype.number()));
    }

    /// The bytes of the header, for writing. Their number cannot change, so
    /// the view stays a view of a header of its size, whatever is written.
    pub fn slice_mut(&mut self) -> (r: &mut [u8])
        ensures
            r@ == old(self)@,
            final(self)@ == final(r)@,
            final(self).spec_size() == old(self).spec_size(),
            final(final(self).window())@ == final(old(self).window())@,
    {
        &mut *self.slice
    }
}

impl<P: Window> Ethernet<P> {
    /// The size that the header was measured to have when the view was made.
    pub closed spec fn spec_size(&self) -> EtherSize {
        self.size
    }

    /// The view holds exactly the bytes of a header of its size.
    pub open spec fn wf(&self) -> bool {
        self@.len() == self.spec_size().as_usize()
    }

    /// The EtherType of what the frame carries: the last two bytes of the
    /// header, behind the VLAN tags where there are any.
    pub fn ethertype(&self) -> (r: EtherType)
        requires
            self.wf(),
        ensures
            r == EtherType::of_number(u16_at(self@, self@.len() - 2)),
    {
        let bytes = self.slice.as_bytes();
        match self.size {
            EtherSize::S18 => EtherType::from([bytes[16], bytes[17]]),
            EtherSize::S16 => EtherType::from([bytes[14], bytes[15]]),
            EtherSize::S14 => EtherType::from([bytes[12], bytes[13]]),
        }
    }

    /// The destination address, the first six bytes.
    pub fn destination(&self) -> (r: &[u8; 6])
        requires
            self.wf(),
        ensures
            r@ == self@.subrange(0, 6),
    {
        self.slice.as_bytes()[0..6].first_chunk::<6>().unwrap()
    }

    /// The bytes of the header.
    pub fn slice(&self) -> (r: &[u8])
        ensures
            r@ == self@,
    {
        self.slice.as_bytes()
    }

    /// The length of the header in bytes.
    pub fn size_usize(&self) -> (r: usize)
        ensures
            r == self.spec_size().as_usize(),
            self.wf() ==> r == self@.len(),
    {
        self.size.as_usize()
    }

    /// The size that the header was measured to have when the view was made.
    pub fn size(&self) -> (r: EtherSize)
        ensures
            r == self.spec_size(),
    {
        self.size
    }

    /// The source address, bytes 6 to 11.
    pub fn source(&self) -> (r: &[u8; 6])
        requires
            self.wf(),
        ensures
            r@ == self@.subrange(6, 12),
    {
        self.slice.as_bytes()[6..12].first_chunk::<6>().unwrap()
    }

    /// The EtherType of what the frame carries. The same as `ethertype`.
    pub fn get_ethertype(&self) -> (r: EtherType)
        requires
            self.wf(),
        ensures
            r == EtherType::of_number(u16_at(self@, self@.len() - 2)),
    {
        self.ethertype()
    }

    /// The destination address. The same as `destination`.
    pub fn get_destination(&self) -> (r: &[u8; 6])
        requires
            self.wf(),
        ensures
            r@ == self@.subrange(0, 6),
    {
        self.destination()
    }

    /// The length of the header in bytes. The same as `size_usize`.
    pub fn get_size_usize(&self) -> (r: usize)
        ensures
            r == self.spec_size().as_usize(),
            self.wf() ==> r == self@.len(),
    {
        self.size_usize()
    }

    /// The size of the header. The same as `size`.
    pub fn get_size(&self) -> (r: EtherSize)
        ensures
            r == self.spec_size(),
    {
        self.size
    }

    /// The source address. The same as `source`.
    pub fn get_source(&self) -> (r: &[u8; 6])
        requires
            self.wf(),
        ensures
            r@ == self@.subrange(6, 12),
    {
        self.source()
    }
}

} // verus!
