//! The protocol numbers that an IPv4 header carries in its protocol field.
use vstd::prelude::*;
use vstd::std_specs::convert::FromSpecImpl;

verus! {

/// An Internet protocol number: the assigned numbers by name, and every other
/// number kept as it came.
#[allow(non_camel_case_types)]
#[derive(PartialEq, Eq, Structural, PartialOrd, Ord, Hash, Clone, Copy, Debug)]
pub enum InetProtocol {
    /// IPv6 Hop-by-Hop Option
    IPV6_HEADER_HOP_BY_HOP,
    /// Internet Control Message
    ICMP,
    /// Internet Group Management
    IGMP,
    /// Gateway-to-Gateway
    GGP,
    /// IPv4 encapsulation
    IPV4,
    /// Stream
    STREAM,
    /// Transmission Control
    TCP,
    /// CBT
    CBT,
    /// Exterior Gateway Protocol
    EGP,
    /// any private interior gateway (used by Cisco for their IGRP)
    IGP,
    /// BBN RCC Monitoring
    BBN_RCC_MON,
    /// Network Voice Protocol
    NVP_II,
    /// PUP
    PUP,
    /// ARGUS (deprecated)
    ARGUS,
    /// EMCON
    EMCON,
    /// Cross Net Debugger
    XNET,
    /// Chaos
    CHAOS,
    /// User Datagram
    UDP,
    /// Multiplexing
    MUX,
    /// DCN Measurement Subsystems
    DCN_MEAS,
    /// Host Monitoring
    HMP,
    /// Packet Radio Measurement
    PRM,
    /// XEROX NS IDP
    XNS_IDP,
    /// Trunk-1
    TRUNK1,
    /// Trunk-2
    TRUNK2,
    /// Leaf-1
    LEAF1,
    /// Leaf-2
    LEAF2,
    /// Reliable Data Protocol
    RDP,
    /// Internet Reliable Transaction
    IRTP,
    /// ISO Transport Protocol Class 4
    ISO_TP4,
    /// Bulk Data Transfer Protocol
    NET_BLT,
    /// MFE Network Services Protocol
    MFE_NSP,
    /// MERIT Internodal Protocol
    MERIT_INP,
    /// Datagram Congestion Control Protocol
    DCCP,
    /// Third Party Connect Protocol
    THIRD_PARTY_CONNECT_PROTOCOL,
    /// Inter-Domain Policy Routing Protocol
    IDPR,
    /// XTP
    XTP,
    /// Datagram Delivery Protocol
    DDP,
    /// IDPR Control Message Transport Proto
    IDPR_CMTP,
    /// TP++ Transport Protocol
    TP_PLUS_PLUS,
    /// IL Transport Protocol
    IL,
    /// IPv6 encapsulation
    IPV6,
    /// Source Demand Routing Protocol
    SDRP,
    /// Routing Header for IPv6
    IPV6_ROUTE_HEADER,
    /// Fragment Header for IPv6
    IPV6_FRAGMENTATION_HEADER,
    /// Inter-Domain Routing Protocol
    IDRP,
    /// Reservation Protocol
    RSVP,
    /// Generic Routing Encapsulation
    GRE,
    /// Dynamic Source Routing Protocol
    DSR,
    /// BNA
    BNA,
    /// Encapsulating Security Payload
    ENCAPSULATING_SECURITY_PAYLOAD,
    /// Authentication Header
    AUTHENTICATION_HEADER,
    /// Integrated Net Layer Security  TUBA
    INLSP,
    /// IP with Encryption (deprecated)
    SWIPE,
    /// NBMA Address Resolution Protocol
    NARP,
    /// IP Mobility
    MOBILE,
    /// Transport Layer Security Protocol using Kryptonet key management
    TLSP,
    /// SKIP
    SKIP,
    /// ICMP for IPv6
    IPV6_ICMP,
    /// No Next Header for IPv6
    IPV6_NO_NEXT_HEADER,
    /// Destination Options for IPv6
    IPV6_DESTINATION_OPTIONS,
    /// any host internal protocol
    ANY_HOST_INTERNAL_PROTOCOL,
    /// CFTP
    CFTP,
    /// any local network
    ANY_LOCAL_NETWORK,
    /// SATNET and Backroom EXPAK
    SAT_EXPAK,
    /// Kryptolan
    KRYTOLAN,
    /// MIT Remote Virtual Disk Protocol
    RVD,
    /// Internet Pluribus Packet Core
    IPPC,
    /// any distributed file system
    ANY_DISTRIBUTED_FILE_SYSTEM,
    /// SATNET Monitoring
    SAT_MON,
    /// VISA Protocol
    VISA,
    /// Internet Packet Core Utility
    IPCV,
    /// Computer Protocol Network Executive
    CPNX,
    /// Computer Protocol Heart Beat
    CPHB,
    /// Wang Span Network
    WSN,
    /// Packet Video Protocol
    PVP,
    /// Backroom SATNET Monitoring
    BR_SAT_MON,
    /// SUN ND PROTOCOL-Temporary
    SUN_ND,
    /// WIDEBAND Monitoring
    WB_MON,
    /// WIDEBAND EXPAK
    WB_EXPAK,
    /// ISO Internet Protocol
    ISO_IP,
    /// VMTP
    VMTP,
    /// SECURE-VMTP
    SECURE_VMTP,
    /// VINES
    VINES,
    /// Transaction Transport Protocol or Internet Protocol Traffic Manager
    TTP_OR_IPTM,
    /// NSFNET-IGP
    NSFNET_IGP,
    /// Dissimilar Gateway Protocol
    DGP,
    /// TCF
    TCF,
    /// EIGRP
    EIGRP,
    /// OSPFIGP
    OSPFIGP,
    /// Sprite RPC Protocol
    SPRITE_RPC,
    /// Locus Address Resolution Protocol
    LARP,
    /// Multicast Transport Protocol
    MTP,
    /// AX.25 Frames
    AX25,
    /// IP-within-IP Encapsulation Protocol
    IPIP,
    /// Mobile Internetworking Control Pro. (deprecated)
    MICP,
    /// Semaphore Communications Sec. Pro.
    SCC_SP,
    /// Ethernet-within-IP Encapsulation
    ETHER_IP,
    /// Encapsulation Header
    ENCAP,
    /// GMTP
    GMTP,
    /// Ipsilon Flow Management Protocol
    IFMP,
    /// PNNI over IP
    PNNI,
    /// Protocol Independent Multicast
    PIM,
    /// ARIS
    ARIS,
    /// SCPS
    SCPS,
    /// QNX
    QNX,
    /// Active Networks
    ACTIVE_NETWORKS,
    /// IP Payload Compression Protocol
    IP_COMP,
    /// Sitara Networks Protocol
    SITRA_NETWORKS_PROTOCOL,
    /// Compaq Peer Protocol
    COMPAQ_PEER,
    /// IPX in IP
    IPX_IN_IP,
    /// Virtual Router Redundancy Protocol
    VRRP,
    /// PGM Reliable Transport Protocol
    PGM,
    /// any 0-hop protocol
    ANY_ZERO_HOP_PROTOCOL,
    /// Layer Two Tunneling Protocol
    LAYER2_TUNNELING_PROTOCOL,
    /// D-II Data Exchange (DDX)
    DDX,
    /// Interactive Agent Transfer Protocol
    IATP,
    /// Schedule Transfer Protocol
    STP,
    /// SpectraLink Radio Protocol
    SRP,
    /// UTI
    UTI,
    /// Simple Message Protocol
    SIMPLE_MESSAGE_PROTOCOL,
    /// Simple Multicast Protocol (deprecated)
    SM,
    /// Performance Transparency Protocol
    PTP,
    /// ISIS over IPv4
    ISIS_OVER_IPV4,
    /// FIRE
    FIRE,
    /// Combat Radio Transport Protocol
    CRTP,
    /// Combat Radio User Datagram
    CRUDP,
    /// SSCOPMCE
    SSCOPMCE,
    /// IPLT
    IPLT,
    /// Secure Packet Shield
    SPS,
    /// Private IP Encapsulation within IP
    PIPE,
    /// Stream Control Transmission Protocol
    SCTP,
    /// Fibre Channel
    FC,
    /// RSVP-E2E-IGNORE
    RSVP_E2E_IGNORE,
    /// MobilityHeader
    MOBILITY_HEADER,
    /// UDPLite
    UDP_LITE,
    /// RFC4023
    MPLS_IN_IP,
    /// MANET Protocols
    MANET,
    /// Host Identity Protocol
    HIP,
    /// Shim6 Protocol
    SHIM6,
    /// Wrapped Encapsulating Security Payload
    WESP,
    /// Robust Header Compression
    ROHC,
    /// Use for experimentation and testing
    EXPERIMENTAL_AND_TESTING_0,
    /// Use for experimentation and testing
    EXPERIMENTAL_AND_TESTING_1,
    /// A number without a name here, kept as it came.
    Other(u8),
}

impl InetProtocol {
    /// The protocol that a number stands for. Every number has one: a number
    /// without a name is kept in `Other`.
    pub open spec fn of_number(value: u8) -> InetProtocol {
        match value {
            0 => InetProtocol::IPV6_HEADER_HOP_BY_HOP,
            1 => InetProtocol::ICMP,
            2 => InetProtocol::IGMP,
            3 => InetProtocol::GGP,
            4 => InetProtocol::IPV4,
            5 => InetProtocol::STREAM,
            6 => InetProtocol::TCP,
            7 => InetProtocol::CBT,
            8 => InetProtocol::EGP,
            9 => InetProtocol::IGP,
            10 => InetProtocol::BBN_RCC_MON,
            11 => InetProtocol::NVP_II,
            12 => InetProtocol::PUP,
            13 => InetProtocol::ARGUS,
            14 => InetProtocol::EMCON,
            15 => InetProtocol::XNET,
            16 => InetProtocol::CHAOS,
            17 => InetProtocol::UDP,
            18 => InetProtocol::MUX,
            19 => InetProtocol::DCN_MEAS,
            20 => InetProtocol::HMP,
            21 => InetProtocol::PRM,
            22 => InetProtocol::XNS_IDP,
            23 => InetProtocol::TRUNK1,
            24 => InetProtocol::TRUNK2,
            25 => InetProtocol::LEAF1,
            26 => InetProtocol::LEAF2,
            27 => InetProtocol::RDP,
            28 => InetProtocol::IRTP,
            29 => InetProtocol::ISO_TP4,
            30 => InetProtocol::NET_BLT,
            31 => InetProtocol::MFE_NSP,
            32 => InetProtocol::MERIT_INP,
            33 => InetProtocol::DCCP,
            34 => InetProtocol::THIRD_PARTY_CONNECT_PROTOCOL,
            35 => InetProtocol::IDPR,
            36 => InetProtocol::XTP,
            37 => InetProtocol::DDP,
            38 => InetProtocol::IDPR_CMTP,
            39 => InetProtocol::TP_PLUS_PLUS,
            40 => InetProtocol::IL,
            41 => InetProtocol::IPV6,
            42 => InetProtocol::SDRP,
            43 => InetProtocol::IPV6_ROUTE_HEADER,
            44 => InetProtocol::IPV6_FRAGMENTATION_HEADER,
            45 => InetProtocol::IDRP,
            46 => InetProtocol::RSVP,
            47 => InetProtocol::GRE,
            48 => InetProtocol::DSR,
            49 => InetProtocol::BNA,
            50 => InetProtocol::ENCAPSULATING_SECURITY_PAYLOAD,
            51 => InetProtocol::AUTHENTICATION_HEADER,
            52 => InetProtocol::INLSP,
            53 => InetProtocol::SWIPE,
            54 => InetProtocol::NARP,
            55 => InetProtocol::MOBILE,
            56 => InetProtocol::TLSP,
            57 => InetProtocol::SKIP,
            58 => InetProtocol::IPV6_ICMP,
            59 => InetProtocol::IPV6_NO_NEXT_HEADER,
            60 => InetProtocol::IPV6_DESTINATION_OPTIONS,
            61 => InetProtocol::ANY_HOST_INTERNAL_PROTOCOL,
            62 => InetProtocol::CFTP,
            63 => InetProtocol::ANY_LOCAL_NETWORK,
            64 => InetProtocol::SAT_EXPAK,
            65 => InetProtocol::KRYTOLAN,
            66 => InetProtocol::RVD,
            67 => InetProtocol::IPPC,
            68 => InetProtocol::ANY_DISTRIBUTED_FILE_SYSTEM,
            69 => InetProtocol::SAT_MON,
            70 => InetProtocol::VISA,
            71 => InetProtocol::IPCV,
            72 => InetProtocol::CPNX,
            73 => InetProtocol::CPHB,
            74 => InetProtocol::WSN,
            75 => InetProtocol::PVP,
            76 => InetProtocol::BR_SAT_MON,
            77 => InetProtocol::SUN_ND,
            78 => InetProtocol::WB_MON,
            79 => InetProtocol::WB_EXPAK,
            80 => InetProtocol::ISO_IP,
            81 => InetProtocol::VMTP,
            82 => InetProtocol::SECURE_VMTP,
            83 => InetProtocol::VINES,
            84 => InetProtocol::TTP_OR_IPTM,
            85 => InetProtocol::NSFNET_IGP,
            86 => InetProtocol::DGP,
            87 => InetProtocol::TCF,
            88 => InetProtocol::EIGRP,
            89 => InetProtocol::OSPFIGP,
            90 => InetProtocol::SPRITE_RPC,
            91 => InetProtocol::LARP,
            92 => InetProtocol::MTP,
            93 => InetProtocol::AX25,
            94 => InetProtocol::IPIP,
            95 => InetProtocol::MICP,
            96 => InetProtocol::SCC_SP,
            97 => InetProtocol::ETHER_IP,
            98 => InetProtocol::ENCAP,
            100 => InetProtocol::GMTP,
            101 => InetProtocol::IFMP,
            102 => InetProtocol::PNNI,
            103 => InetProtocol::PIM,
            104 => InetProtocol::ARIS,
            105 => InetProtocol::SCPS,
            106 => InetProtocol::QNX,
            107 => InetProtocol::ACTIVE_NETWORKS,
            108 => InetProtocol::IP_COMP,
            109 => InetProtocol::SITRA_NETWORKS_PROTOCOL,
            110 => InetProtocol::COMPAQ_PEER,
            111 => InetProtocol::IPX_IN_IP,
            112 => InetProtocol::VRRP,
            113 => InetProtocol::PGM,
            114 => InetProtocol::ANY_ZERO_HOP_PROTOCOL,
            115 => InetProtocol::LAYER2_TUNNELING_PROTOCOL,
            116 => InetProtocol::DDX,
            117 => InetProtocol::IATP,
            118 => InetProtocol::STP,
            119 => InetProtocol::SRP,
            120 => InetProtocol::UTI,
            121 => InetProtocol::SIMPLE_MESSAGE_PROTOCOL,
            122 => InetProtocol::SM,
            123 => InetProtocol::PTP,
            124 => InetProtocol::ISIS_OVER_IPV4,
            125 => InetProtocol::FIRE,
            126 => InetProtocol::CRTP,
            127 => InetProtocol::CRUDP,
            128 => InetProtocol::SSCOPMCE,
            129 => InetProtocol::IPLT,
            130 => InetProtocol::SPS,
            131 => InetProtocol::PIPE,
            132 => InetProtocol::SCTP,
            133 => InetProtocol::FC,
            134 => InetProtocol::RSVP_E2E_IGNORE,
            135 => InetProtocol::MOBILITY_HEADER,
            136 => InetProtocol::UDP_LITE,
            137 => InetProtocol::MPLS_IN_IP,
            138 => InetProtocol::MANET,
            139 => InetProtocol::HIP,
            140 => InetProtocol::SHIM6,
            141 => InetProtocol::WESP,
            142 => InetProtocol::ROHC,
            253 => InetProtocol::EXPERIMENTAL_AND_TESTING_0,
            254 => InetProtocol::EXPERIMENTAL_AND_TESTING_1,
            x => InetProtocol::Other(x),
        }
    }

    /// The number that stands for a protocol on the wire.
    pub open spec fn number(self) -> u8 {
        match self {
            InetProtocol::IPV6_HEADER_HOP_BY_HOP => 0,
            InetProtocol::ICMP => 1,
            InetProtocol::IGMP => 2,
            InetProtocol::GGP => 3,
            InetProtocol::IPV4 => 4,
            InetProtocol::STREAM => 5,
            InetProtocol::TCP => 6,
            InetProtocol::CBT => 7,
            InetProtocol::EGP => 8,
            InetProtocol::IGP => 9,
            InetProtocol::BBN_RCC_MON => 10,
            InetProtocol::NVP_II => 11,
            InetProtocol::PUP => 12,
            InetProtocol::ARGUS => 13,
            InetProtocol::EMCON => 14,
            InetProtocol::XNET => 15,
            InetProtocol::CHAOS => 16,
            InetProtocol::UDP => 17,
            InetProtocol::MUX => 18,
            InetProtocol::DCN_MEAS => 19,
            InetProtocol::HMP => 20,
            InetProtocol::PRM => 21,
            InetProtocol::XNS_IDP => 22,
            InetProtocol::TRUNK1 => 23,
            InetProtocol::TRUNK2 => 24,
            InetProtocol::LEAF1 => 25,
            InetProtocol::LEAF2 => 26,
            InetProtocol::RDP => 27,
            InetProtocol::IRTP => 28,
            InetProtocol::ISO_TP4 => 29,
            InetProtocol::NET_BLT => 30,
            InetProtocol::MFE_NSP => 31,
            InetProtocol::MERIT_INP => 32,
            InetProtocol::DCCP => 33,
            InetProtocol::THIRD_PARTY_CONNECT_PROTOCOL => 34,
            InetProtocol::IDPR => 35,
            InetProtocol::XTP => 36,
            InetProtocol::DDP => 37,
            InetProtocol::IDPR_CMTP => 38,
            InetProtocol::TP_PLUS_PLUS => 39,
            InetProtocol::IL => 40,
            InetProtocol::IPV6 => 41,
            InetProtocol::SDRP => 42,
            InetProtocol::IPV6_ROUTE_HEADER => 43,
            InetProtocol::IPV6_FRAGMENTATION_HEADER => 44,
            InetProtocol::IDRP => 45,
            InetProtocol::RSVP => 46,
            InetProtocol::GRE => 47,
            InetProtocol::DSR => 48,
            InetProtocol::BNA => 49,
            InetProtocol::ENCAPSULATING_SECURITY_PAYLOAD => 50,
            InetProtocol::AUTHENTICATION_HEADER => 51,
            InetProtocol::INLSP => 52,
            InetProtocol::SWIPE => 53,
            InetProtocol::NARP => 54,
            InetProtocol::MOBILE => 55,
            InetProtocol::TLSP => 56,
            InetProtocol::SKIP => 57,
            InetProtocol::IPV6_ICMP => 58,
            InetProtocol::IPV6_NO_NEXT_HEADER => 59,
            InetProtocol::IPV6_DESTINATION_OPTIONS => 60,
            InetProtocol::ANY_HOST_INTERNAL_PROTOCOL => 61,
            InetProtocol::CFTP => 62,
            InetProtocol::ANY_LOCAL_NETWORK => 63,
            InetProtocol::SAT_EXPAK => 64,
            InetProtocol::KRYTOLAN => 65,
            InetProtocol::RVD => 66,
            InetProtocol::IPPC => 67,
            InetProtocol::ANY_DISTRIBUTED_FILE_SYSTEM => 68,
            InetProtocol::SAT_MON => 69,
            InetProtocol::VISA => 70,
            InetProtocol::IPCV => 71,
            InetProtocol::CPNX => 72,
            InetProtocol::CPHB => 73,
            InetProtocol::WSN => 74,
            InetProtocol::PVP => 75,
            InetProtocol::BR_SAT_MON => 76,
            InetProtocol::SUN_ND => 77,
            InetProtocol::WB_MON => 78,
            InetProtocol::WB_EXPAK => 79,
            InetProtocol::ISO_IP => 80,
            InetProtocol::VMTP => 81,
            InetProtocol::SECURE_VMTP => 82,
            InetProtocol::VINES => 83,
            InetProtocol::TTP_OR_IPTM => 84,
            InetProtocol::NSFNET_IGP => 85,
            InetProtocol::DGP => 86,
            InetProtocol::TCF => 87,
            InetProtocol::EIGRP => 88,
            InetProtocol::OSPFIGP => 89,
            InetProtocol::SPRITE_RPC => 90,
            InetProtocol::LARP => 91,
            InetProtocol::MTP => 92,
            InetProtocol::AX25 => 93,
            InetProtocol::IPIP => 94,
            InetProtocol::MICP => 95,
            InetProtocol::SCC_SP => 96,
            InetProtocol::ETHER_IP => 97,
            InetProtocol::ENCAP => 98,
            InetProtocol::GMTP => 100,
            InetProtocol::IFMP => 101,
            InetProtocol::PNNI => 102,
            InetProtocol::PIM => 103,
            InetProtocol::ARIS => 104,
            InetProtocol::SCPS => 105,
            InetProtocol::QNX => 106,
            InetProtocol::ACTIVE_NETWORKS => 107,
            InetProtocol::IP_COMP => 108,
            InetProtocol::SITRA_NETWORKS_PROTOCOL => 109,
            InetProtocol::COMPAQ_PEER => 110,
            InetProtocol::IPX_IN_IP => 111,
            InetProtocol::VRRP => 112,
            InetProtocol::PGM => 113,
            InetProtocol::ANY_ZERO_HOP_PROTOCOL => 114,
            InetProtocol::LAYER2_TUNNELING_PROTOCOL => 115,
            InetProtocol::DDX => 116,
            InetProtocol::IATP => 117,
            InetProtocol::STP => 118,
            InetProtocol::SRP => 119,
            InetProtocol::UTI => 120,
            InetProtocol::SIMPLE_MESSAGE_PROTOCOL => 121,
            InetProtocol::SM => 122,
            InetProtocol::PTP => 123,
            InetProtocol::ISIS_OVER_IPV4 => 124,
            InetProtocol::FIRE => 125,
            InetProtocol::CRTP => 126,
            InetProtocol::CRUDP => 127,
            InetProtocol::SSCOPMCE => 128,
            InetProtocol::IPLT => 129,
            InetProtocol::SPS => 130,
            InetProtocol::PIPE => 131,
            InetProtocol::SCTP => 132,
            InetProtocol::FC => 133,
            InetProtocol::RSVP_E2E_IGNORE => 134,
            InetProtocol::MOBILITY_HEADER => 135,
            InetProtocol::UDP_LITE => 136,
            InetProtocol::MPLS_IN_IP => 137,
            InetProtocol::MANET => 138,
            InetProtocol::HIP => 139,
            InetProtocol::SHIM6 => 140,
            InetProtocol::WESP => 141,
            InetProtocol::ROHC => 142,
            InetProtocol::EXPERIMENTAL_AND_TESTING_0 => 253,
            InetProtocol::EXPERIMENTAL_AND_TESTING_1 => 254,
            InetProtocol::Other(x) => x,
        }
    }

    /// Whether a number has a name among the variants.
    pub open spec fn is_assigned(value: u8) -> bool {
        value <= 98 || (100 <= value && value <= 142) || value == 253 || value == 254
    }

    /// Whether this is the value that `of_number` gives for its number: a name,
    /// or `Other` around a number that has none.
    pub open spec fn is_canonical(self) -> bool {
        match self {
            InetProtocol::Other(x) => !Self::is_assigned(x),
            _ => true,
        }
    }
}

impl From<u8> for InetProtocol {
    fn from(value: u8) -> (r: Self) {
        match value {
            0 => Self::IPV6_HEADER_HOP_BY_HOP,
            1 => Self::ICMP,
            2 => Self::IGMP,
            3 => Self::GGP,
            4 => Self::IPV4,
            5 => Self::STREAM,
            6 => Self::TCP,
            7 => Self::CBT,
            8 => Self::EGP,
            9 => Self::IGP,
            10 => Self::BBN_RCC_MON,
            11 => Self::NVP_II,
            12 => Self::PUP,
            13 => Self::ARGUS,
            14 => Self::EMCON,
            15 => Self::XNET,
            16 => Self::CHAOS,
            17 => Self::UDP,
            18 => Self::MUX,
            19 => Self::DCN_MEAS,
            20 => Self::HMP,
            21 => Self::PRM,
            22 => Self::XNS_IDP,
            23 => Self::TRUNK1,
            24 => Self::TRUNK2,
            25 => Self::LEAF1,
            26 => Self::LEAF2,
            27 => Self::RDP,
            28 => Self::IRTP,
            29 => Self::ISO_TP4,
            30 => Self::NET_BLT,
            31 => Self::MFE_NSP,
            32 => Self::MERIT_INP,
            33 => Self::DCCP,
            34 => Self::THIRD_PARTY_CONNECT_PROTOCOL,
            35 => Self::IDPR,
            36 => Self::XTP,
            37 => Self::DDP,
            38 => Self::IDPR_CMTP,
            39 => Self::TP_PLUS_PLUS,
            40 => Self::IL,
            41 => Self::IPV6,
            42 => Self::SDRP,
            43 => Self::IPV6_ROUTE_HEADER,
            44 => Self::IPV6_FRAGMENTATION_HEADER,
            45 => Self::IDRP,
            46 => Self::RSVP,
            47 => Self::GRE,
            48 => Self::DSR,
            49 => Self::BNA,
            50 => Self::ENCAPSULATING_SECURITY_PAYLOAD,
            51 => Self::AUTHENTICATION_HEADER,
            52 => Self::INLSP,
            53 => Self::SWIPE,
            54 => Self::NARP,
            55 => Self::MOBILE,
            56 => Self::TLSP,
            57 => Self::SKIP,
            58 => Self::IPV6_ICMP,
            59 => Self::IPV6_NO_NEXT_HEADER,
            60 => Self::IPV6_DESTINATION_OPTIONS,
            61 => Self::ANY_HOST_INTERNAL_PROTOCOL,
            62 => Self::CFTP,
            63 => Self::ANY_LOCAL_NETWORK,
            64 => Self::SAT_EXPAK,
            65 => Self::KRYTOLAN,
            66 => Self::RVD,
            67 => Self::IPPC,
            68 => Self::ANY_DISTRIBUTED_FILE_SYSTEM,
            69 => Self::SAT_MON,
            70 => Self::VISA,
            71 => Self::IPCV,
            72 => Self::CPNX,
            73 => Self::CPHB,
            74 => Self::WSN,
            75 => Self::PVP,
            76 => Self::BR_SAT_MON,
            77 => Self::SUN_ND,
            78 => Self::WB_MON,
            79 => Self::WB_EXPAK,
            80 => Self::ISO_IP,
            81 => Self::VMTP,
            82 => Self::SECURE_VMTP,
            83 => Self::VINES,
            84 => Self::TTP_OR_IPTM,
            85 => Self::NSFNET_IGP,
            86 => Self::DGP,
            87 => Self::TCF,
            88 => Self::EIGRP,
            89 => Self::OSPFIGP,
            90 => Self::SPRITE_RPC,
            91 => Self::LARP,
            92 => Self::MTP,
            93 => Self::AX25,
            94 => Self::IPIP,
            95 => Self::MICP,
            96 => Self::SCC_SP,
            97 => Self::ETHER_IP,
            98 => Self::ENCAP,
            100 => Self::GMTP,
            101 => Self::IFMP,
            102 => Self::PNNI,
            103 => Self::PIM,
            104 => Self::ARIS,
            105 => Self::SCPS,
            106 => Self::QNX,
            107 => Self::ACTIVE_NETWORKS,
            108 => Self::IP_COMP,
            109 => Self::SITRA_NETWORKS_PROTOCOL,
            110 => Self::COMPAQ_PEER,
            111 => Self::IPX_IN_IP,
            112 => Self::VRRP,
            113 => Self::PGM,
            114 => Self::ANY_ZERO_HOP_PROTOCOL,
            115 => Self::LAYER2_TUNNELING_PROTOCOL,
            116 => Self::DDX,
            117 => Self::IATP,
            118 => Self::STP,
            119 => Self::SRP,
            120 => Self::UTI,
            121 => Self::SIMPLE_MESSAGE_PROTOCOL,
            122 => Self::SM,
            123 => Self::PTP,
            124 => Self::ISIS_OVER_IPV4,
            125 => Self::FIRE,
            126 => Self::CRTP,
            127 => Self::CRUDP,
            128 => Self::SSCOPMCE,
            129 => Self::IPLT,
            130 => Self::SPS,
            131 => Self::PIPE,
            132 => Self::SCTP,
            133 => Self::FC,
            134 => Self::RSVP_E2E_IGNORE,
            135 => Self::MOBILITY_HEADER,
            136 => Self::UDP_LITE,
            137 => Self::MPLS_IN_IP,
            138 => Self::MANET,
            139 => Self::HIP,
            140 => Self::SHIM6,
            141 => Self::WESP,
            142 => Self::ROHC,
            253 => Self::EXPERIMENTAL_AND_TESTING_0,
            254 => Self::EXPERIMENTAL_AND_TESTING_1,
            x => Self::Other(x),
        }
    }
}

impl FromSpecImpl<u8> for InetProtocol {
    open spec fn obeys_from_spec() -> bool {
        true
    }

    open spec fn from_spec(value: u8) -> Self {
        InetProtocol::of_number(value)
    }
}

impl From<InetProtocol> for u8 {
    fn from(value: InetProtocol) -> (r: Self) {
        match value {
            InetProtocol::IPV6_HEADER_HOP_BY_HOP => 0,
            InetProtocol::ICMP => 1,
            InetProtocol::IGMP => 2,
            InetProtocol::GGP => 3,
            InetProtocol::IPV4 => 4,
            InetProtocol::STREAM => 5,
            InetProtocol::TCP => 6,
            InetProtocol::CBT => 7,
            InetProtocol::EGP => 8,
            InetProtocol::IGP => 9,
            InetProtocol::BBN_RCC_MON => 10,
            InetProtocol::NVP_II => 11,
            InetProtocol::PUP => 12,
            InetProtocol::ARGUS => 13,
            InetProtocol::EMCON => 14,
            InetProtocol::XNET => 15,
            InetProtocol::CHAOS => 16,
            InetProtocol::UDP => 17,
            InetProtocol::MUX => 18,
            InetProtocol::DCN_MEAS => 19,
            InetProtocol::HMP => 20,
            InetProtocol::PRM => 21,
            InetProtocol::XNS_IDP => 22,
            InetProtocol::TRUNK1 => 23,
            InetProtocol::TRUNK2 => 24,
            InetProtocol::LEAF1 => 25,
            InetProtocol::LEAF2 => 26,
            InetProtocol::RDP => 27,
            InetProtocol::IRTP => 28,
            InetProtocol::ISO_TP4 => 29,
            InetProtocol::NET_BLT => 30,
            InetProtocol::MFE_NSP => 31,
            InetProtocol::MERIT_INP => 32,
            InetProtocol::DCCP => 33,
            InetProtocol::THIRD_PARTY_CONNECT_PROTOCOL => 34,
            InetProtocol::IDPR => 35,
            InetProtocol::XTP => 36,
            InetProtocol::DDP => 37,
            InetProtocol::IDPR_CMTP => 38,
            InetProtocol::TP_PLUS_PLUS => 39,
            InetProtocol::IL => 40,
            InetProtocol::IPV6 => 41,
            InetProtocol::SDRP => 42,
            InetProtocol::IPV6_ROUTE_HEADER => 43,
            InetProtocol::IPV6_FRAGMENTATION_HEADER => 44,
            InetProtocol::IDRP => 45,
            InetProtocol::RSVP => 46,
            InetProtocol::GRE => 47,
            InetProtocol::DSR => 48,
            InetProtocol::BNA => 49,
            InetProtocol::ENCAPSULATING_SECURITY_PAYLOAD => 50,
            InetProtocol::AUTHENTICATION_HEADER => 51,
            InetProtocol::INLSP => 52,
            InetProtocol::SWIPE => 53,
            InetProtocol::NARP => 54,
            InetProtocol::MOBILE => 55,
            InetProtocol::TLSP => 56,
            InetProtocol::SKIP => 57,
            InetProtocol::IPV6_ICMP => 58,
            InetProtocol::IPV6_NO_NEXT_HEADER => 59,
            InetProtocol::IPV6_DESTINATION_OPTIONS => 60,
            InetProtocol::ANY_HOST_INTERNAL_PROTOCOL => 61,
            InetProtocol::CFTP => 62,
            InetProtocol::ANY_LOCAL_NETWORK => 63,
            InetProtocol::SAT_EXPAK => 64,
            InetProtocol::KRYTOLAN => 65,
            InetProtocol::RVD => 66,
            InetProtocol::IPPC => 67,
            InetProtocol::ANY_DISTRIBUTED_FILE_SYSTEM => 68,
            InetProtocol::SAT_MON => 69,
            InetProtocol::VISA => 70,
            InetProtocol::IPCV => 71,
            InetProtocol::CPNX => 72,
            InetProtocol::CPHB => 73,
            InetProtocol::WSN => 74,
            InetProtocol::PVP => 75,
            InetProtocol::BR_SAT_MON => 76,
            InetProtocol::SUN_ND => 77,
            InetProtocol::WB_MON => 78,
            InetProtocol::WB_EXPAK => 79,
            InetProtocol::ISO_IP => 80,
            InetProtocol::VMTP => 81,
            InetProtocol::SECURE_VMTP => 82,
            InetProtocol::VINES => 83,
            InetProtocol::TTP_OR_IPTM => 84,
            InetProtocol::NSFNET_IGP => 85,
            InetProtocol::DGP => 86,
            InetProtocol::TCF => 87,
            InetProtocol::EIGRP => 88,
            InetProtocol::OSPFIGP => 89,
            InetProtocol::SPRITE_RPC => 90,
            InetProtocol::LARP => 91,
            InetProtocol::MTP => 92,
            InetProtocol::AX25 => 93,
            InetProtocol::IPIP => 94,
            InetProtocol::MICP => 95,
            InetProtocol::SCC_SP => 96,
            InetProtocol::ETHER_IP => 97,
            InetProtocol::ENCAP => 98,
            InetProtocol::GMTP => 100,
            InetProtocol::IFMP => 101,
            InetProtocol::PNNI => 102,
            InetProtocol::PIM => 103,
            InetProtocol::ARIS => 104,
            InetProtocol::SCPS => 105,
            InetProtocol::QNX => 106,
            InetProtocol::ACTIVE_NETWORKS => 107,
            InetProtocol::IP_COMP => 108,
            InetProtocol::SITRA_NETWORKS_PROTOCOL => 109,
            InetProtocol::COMPAQ_PEER => 110,
            InetProtocol::IPX_IN_IP => 111,
            InetProtocol::VRRP => 112,
            InetProtocol::PGM => 113,
            InetProtocol::ANY_ZERO_HOP_PROTOCOL => 114,
            InetProtocol::LAYER2_TUNNELING_PROTOCOL => 115,
            InetProtocol::DDX => 116,
            InetProtocol::IATP => 117,
            InetProtocol::STP => 118,
            InetProtocol::SRP => 119,
            InetProtocol::UTI => 120,
            InetProtocol::SIMPLE_MESSAGE_PROTOCOL => 121,
            InetProtocol::SM => 122,
            InetProtocol::PTP => 123,
            InetProtocol::ISIS_OVER_IPV4 => 124,
            InetProtocol::FIRE => 125,
            InetProtocol::CRTP => 126,
            InetProtocol::CRUDP => 127,
            InetProtocol::SSCOPMCE => 128,
            InetProtocol::IPLT => 129,
            InetProtocol::SPS => 130,
            InetProtocol::PIPE => 131,
            InetProtocol::SCTP => 132,
            InetProtocol::FC => 133,
            InetProtocol::RSVP_E2E_IGNORE => 134,
            InetProtocol::MOBILITY_HEADER => 135,
            InetProtocol::UDP_LITE => 136,
            InetProtocol::MPLS_IN_IP => 137,
            InetProtocol::MANET => 138,
            InetProtocol::HIP => 139,
            InetProtocol::SHIM6 => 140,
            InetProtocol::WESP => 141,
            InetProtocol::ROHC => 142,
            InetProtocol::EXPERIMENTAL_AND_TESTING_0 => 253,
            InetProtocol::EXPERIMENTAL_AND_TESTING_1 => 254,
            InetProtocol::Other(x) => x,
        }
    }
}

impl FromSpecImpl<InetProtocol> for u8 {
    open spec fn obeys_from_spec() -> bool {
        true
    }

    open spec fn from_spec(value: InetProtocol) -> Self {
        value.number()
    }
}

/// Decoding a number and encoding the result gives the number back: no number
/// fails to decode and none is altered.
pub proof fn lemma_number_round_trip(value: u8)
    ensures
        InetProtocol::of_number(value).number() == value,
        InetProtocol::of_number(value).is_canonical(),
        InetProtocol::of_number(value) is Other <==> !InetProtocol::is_assigned(value),
{
}

/// Encoding a protocol and decoding the number gives the protocol back, but for
/// `Other` around a number that has a name, which decodes to the name.
pub proof fn lemma_protocol_round_trip(protocol: InetProtocol)
    ensures
        protocol.is_canonical() ==> InetProtocol::of_number(protocol.number()) == protocol,
        InetProtocol::of_number(protocol.number()).number() == protocol.number(),
{
}

} // verus!
