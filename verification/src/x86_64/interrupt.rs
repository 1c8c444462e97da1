//! Interrupt vectors and interrupt gate descriptors.
use vstd::prelude::*;
use super::segmentation::SegmentSelector;
use super::Rflags;

verus! {

/// Kind of an interrupt gate.
#[derive(Copy, Clone, Debug, PartialEq, Eq, Structural)]
pub enum ExceptionType {
    /// Trap gate: interrupts stay enabled in the handler.
    Trap,
    /// Interrupt gate: interrupts are disabled on entry.
    Interrupt,
}

/// The vectors of the interrupt descriptor table, in vector order.
#[derive(Copy, Clone, Debug, PartialEq, Eq, Structural)]
pub enum ExceptionVector {
    DivideError,
    Debug,
    NonMaskableInterrupt,
    Breakpoint,
    OverflowException,
    BoundRangeExceeded,
    InvalidOpcode,
    DeviceNotAvailable,
    DoubleFault,
    CoprocessorSegmentOverrun,
    InvalidTss,
    SegmentNotPresent,
    StackFault,
    GeneralProtection,
    PageFault,
    _Reserved0,
    X87FpuFloatingPointError,
    AlignmentCheckException,
    MachineCheckException,
    SimdFloatingPointException,
    VirtualizationException,
    _Reserved1,
    _Reserved2,
    _Reserved3,
    _Reserved4,
    _Reserved5,
    _Reserved6,
    _Reserved7,
    _Reserved8,
    _Reserved9,
    _Reserved10,
    _Reserved11,
    UserDefined0,
    UserDefined1,
    UserDefined2,
    UserDefined3,
    UserDefined4,
    UserDefined5,
    UserDefined6,
    UserDefined7,
    UserDefined8,
    UserDefined9,
    UserDefined10,
    UserDefined11,
    UserDefined12,
    UserDefined13,
    UserDefined14,
    UserDefined15,
    UserDefined16,
    UserDefined17,
    UserDefined18,
    UserDefined19,
    UserDefined20,
    UserDefined21,
    UserDefined22,
    UserDefined23,
    UserDefined24,
    UserDefined25,
    UserDefined26,
    UserDefined27,
    UserDefined28,
    UserDefined29,
    UserDefined30,
    UserDefined31,
    UserDefined32,
    UserDefined33,
    UserDefined34,
    UserDefined35,
    UserDefined36,
    UserDefined37,
    UserDefined38,
    UserDefined39,
    UserDefined40,
    UserDefined41,
    UserDefined42,
    UserDefined43,
    UserDefined44,
    UserDefined45,
    UserDefined46,
    UserDefined47,
    UserDefined48,
    UserDefined49,
    UserDefined50,
    UserDefined51,
    UserDefined52,
    UserDefined53,
    UserDefined54,
    UserDefined55,
    UserDefined56,
    UserDefined57,
    UserDefined58,
    UserDefined59,
    UserDefined60,
    UserDefined61,
    UserDefined62,
    UserDefined63,
    UserDefined64,
    UserDefined65,
    UserDefined66,
    UserDefined67,
    UserDefined68,
    UserDefined69,
    UserDefined70,
    UserDefined71,
    UserDefined72,
    UserDefined73,
    UserDefined74,
    UserDefined75,
    UserDefined76,
    UserDefined77,
    UserDefined78,
    UserDefined79,
    UserDefined80,
    UserDefined81,
    UserDefined82,
    UserDefined83,
    UserDefined84,
    UserDefined85,
    UserDefined86,
    UserDefined87,
    UserDefined88,
    UserDefined89,
    UserDefined90,
    UserDefined91,
    UserDefined92,
    UserDefined93,
    UserDefined94,
    UserDefined95,
    UserDefined96,
    UserDefined97,
    UserDefined98,
    UserDefined99,
    UserDefined100,
    UserDefined101,
    UserDefined102,
    UserDefined103,
    UserDefined104,
    UserDefined105,
    UserDefined106,
    UserDefined107,
    UserDefined108,
    UserDefined109,
    UserDefined110,
    UserDefined111,
    UserDefined112,
    UserDefined113,
    UserDefined114,
    UserDefined115,
    UserDefined116,
    UserDefined117,
    UserDefined118,
    UserDefined119,
    UserDefined120,
    UserDefined121,
    UserDefined122,
    UserDefined123,
    UserDefined124,
    UserDefined125,
    UserDefined126,
    UserDefined127,
    UserDefined128,
    UserDefined129,
    UserDefined130,
    UserDefined131,
    UserDefined132,
    UserDefined133,
    UserDefined134,
    UserDefined135,
    UserDefined136,
    UserDefined137,
    UserDefined138,
    UserDefined139,
    UserDefined140,
    UserDefined141,
    UserDefined142,
    UserDefined143,
    UserDefined144,
    UserDefined145,
    UserDefined146,
    UserDefined147,
    UserDefined148,
    UserDefined149,
    UserDefined150,
    UserDefined151,
    UserDefined152,
    UserDefined153,
    UserDefined154,
    UserDefined155,
    UserDefined156,
    UserDefined157,
    UserDefined158,
    UserDefined159,
    UserDefined160,
    UserDefined161,
    UserDefined162,
    UserDefined163,
    UserDefined164,
    UserDefined165,
    UserDefined166,
    UserDefined167,
    UserDefined168,
    UserDefined169,
    UserDefined170,
    UserDefined171,
    UserDefined172,
    UserDefined173,
    UserDefined174,
    UserDefined175,
    UserDefined176,
    UserDefined177,
    UserDefined178,
    UserDefined179,
    UserDefined180,
    UserDefined181,
    UserDefined182,
    UserDefined183,
    UserDefined184,
    UserDefined185,
    UserDefined186,
    UserDefined187,
    UserDefined188,
    UserDefined189,
    UserDefined190,
    UserDefined191,
    UserDefined192,
    UserDefined193,
    UserDefined194,
    UserDefined195,
    UserDefined196,
    UserDefined197,
    UserDefined198,
    UserDefined199,
    UserDefined200,
    UserDefined201,
    UserDefined202,
    UserDefined203,
    UserDefined204,
    UserDefined205,
    UserDefined206,
    UserDefined207,
    UserDefined208,
    UserDefined209,
    UserDefined210,
    UserDefined211,
    UserDefined212,
    UserDefined213,
    UserDefined214,
    UserDefined215,
    UserDefined216,
    UserDefined217,
    UserDefined218,
    UserDefined219,
    UserDefined220,
    UserDefined221,
    UserDefined222,
    UserDefined223,
}

impl ExceptionVector {
    /// The vector number.
    pub open spec fn number(self) -> nat {
        match self {
            ExceptionVector::DivideError => 0,
            ExceptionVector::Debug => 1,
            ExceptionVector::NonMaskableInterrupt => 2,
            ExceptionVector::Breakpoint => 3,
            ExceptionVector::OverflowException => 4,
            ExceptionVector::BoundRangeExceeded => 5,
            ExceptionVector::InvalidOpcode => 6,
            ExceptionVector::DeviceNotAvailable => 7,
            ExceptionVector::DoubleFault => 8,
            ExceptionVector::CoprocessorSegmentOverrun => 9,
            ExceptionVector::InvalidTss => 10,
            ExceptionVector::SegmentNotPresent => 11,
            ExceptionVector::StackFault => 12,
            ExceptionVector::GeneralProtection => 13,
            ExceptionVector::PageFault => 14,
            ExceptionVector::_Reserved0 => 15,
            ExceptionVector::X87FpuFloatingPointError => 16,
            ExceptionVector::AlignmentCheckException => 17,
            ExceptionVector::MachineCheckException => 18,
            ExceptionVector::SimdFloatingPointException => 19,
            ExceptionVector::VirtualizationException => 20,
            ExceptionVector::_Reserved1 => 21,
            ExceptionVector::_Reserved2 => 22,
            ExceptionVector::_Reserved3 => 23,
            ExceptionVector::_Reserved4 => 24,
            ExceptionVector::_Reserved5 => 25,
            ExceptionVector::_Reserved6 => 26,
            ExceptionVector::_Reserved7 => 27,
            ExceptionVector::_Reserved8 => 28,
            ExceptionVector::_Reserved9 => 29,
            ExceptionVector::_Reserved10 => 30,
            ExceptionVector::_Reserved11 => 31,
            ExceptionVector::UserDefined0 => 32,
            ExceptionVector::UserDefined1 => 33,
            ExceptionVector::UserDefined2 => 34,
            ExceptionVector::UserDefined3 => 35,
            ExceptionVector::UserDefined4 => 36,
            ExceptionVector::UserDefined5 => 37,
            ExceptionVector::UserDefined6 => 38,
            ExceptionVector::UserDefined7 => 39,
            ExceptionVector::UserDefined8 => 40,
            ExceptionVector::UserDefined9 => 41,
            ExceptionVector::UserDefined10 => 42,
            ExceptionVector::UserDefined11 => 43,
            ExceptionVector::UserDefined12 => 44,
            ExceptionVector::UserDefined13 => 45,
            ExceptionVector::UserDefined14 => 46,
            ExceptionVector::UserDefined15 => 47,
            ExceptionVector::UserDefined16 => 48,
            ExceptionVector::UserDefined17 => 49,
            ExceptionVector::UserDefined18 => 50,
            ExceptionVector::UserDefined19 => 51,
            ExceptionVector::UserDefined20 => 52,
            ExceptionVector::UserDefined21 => 53,
            ExceptionVector::UserDefined22 => 54,
            ExceptionVector::UserDefined23 => 55,
            ExceptionVector::UserDefined24 => 56,
            ExceptionVector::UserDefined25 => 57,
            ExceptionVector::UserDefined26 => 58,
            ExceptionVector::UserDefined27 => 59,
            ExceptionVector::UserDefined28 => 60,
            ExceptionVector::UserDefined29 => 61,
            ExceptionVector::UserDefined30 => 62,
            ExceptionVector::UserDefined31 => 63,
            ExceptionVector::UserDefined32 => 64,
            ExceptionVector::UserDefined33 => 65,
            ExceptionVector::UserDefined34 => 66,
            ExceptionVector::UserDefined35 => 67,
            ExceptionVector::UserDefined36 => 68,
            ExceptionVector::UserDefined37 => 69,
            ExceptionVector::UserDefined38 => 70,
            ExceptionVector::UserDefined39 => 71,
            ExceptionVector::UserDefined40 => 72,
            ExceptionVector::UserDefined41 => 73,
            ExceptionVector::UserDefined42 => 74,
            ExceptionVector::UserDefined43 => 75,
            ExceptionVector::UserDefined44 => 76,
            ExceptionVector::UserDefined45 => 77,
            ExceptionVector::UserDefined46 => 78,
            ExceptionVector::UserDefined47 => 79,
            ExceptionVector::UserDefined48 => 80,
            ExceptionVector::UserDefined49 => 81,
            ExceptionVector::UserDefined50 => 82,
            ExceptionVector::UserDefined51 => 83,
            ExceptionVector::UserDefined52 => 84,
            ExceptionVector::UserDefined53 => 85,
            ExceptionVector::UserDefined54 => 86,
            ExceptionVector::UserDefined55 => 87,
            ExceptionVector::UserDefined56 => 88,
            ExceptionVector::UserDefined57 => 89,
            ExceptionVector::UserDefined58 => 90,
            ExceptionVector::UserDefined59 => 91,
            ExceptionVector::UserDefined60 => 92,
            ExceptionVector::UserDefined61 => 93,
            ExceptionVector::UserDefined62 => 94,
            ExceptionVector::UserDefined63 => 95,
            ExceptionVector::UserDefined64 => 96,
            ExceptionVector::UserDefined65 => 97,
            ExceptionVector::UserDefined66 => 98,
            ExceptionVector::UserDefined67 => 99,
            ExceptionVector::UserDefined68 => 100,
            ExceptionVector::UserDefined69 => 101,
            ExceptionVector::UserDefined70 => 102,
            ExceptionVector::UserDefined71 => 103,
            ExceptionVector::UserDefined72 => 104,
            ExceptionVector::UserDefined73 => 105,
            ExceptionVector::UserDefined74 => 106,
            ExceptionVector::UserDefined75 => 107,
            ExceptionVector::UserDefined76 => 108,
            ExceptionVector::UserDefined77 => 109,
            ExceptionVector::UserDefined78 => 110,
            ExceptionVector::UserDefined79 => 111,
            ExceptionVector::UserDefined80 => 112,
            ExceptionVector::UserDefined81 => 113,
            ExceptionVector::UserDefined82 => 114,
            ExceptionVector::UserDefined83 => 115,
            ExceptionVector::UserDefined84 => 116,
            ExceptionVector::UserDefined85 => 117,
            ExceptionVector::UserDefined86 => 118,
            ExceptionVector::UserDefined87 => 119,
            ExceptionVector::UserDefined88 => 120,
            ExceptionVector::UserDefined89 => 121,
            ExceptionVector::UserDefined90 => 122,
            ExceptionVector::UserDefined91 => 123,
            ExceptionVector::UserDefined92 => 124,
            ExceptionVector::UserDefined93 => 125,
            ExceptionVector::UserDefined94 => 126,
            ExceptionVector::UserDefined95 => 127,
            ExceptionVector::UserDefined96 => 128,
            ExceptionVector::UserDefined97 => 129,
            ExceptionVector::UserDefined98 => 130,
            ExceptionVector::UserDefined99 => 131,
            ExceptionVector::UserDefined100 => 132,
            ExceptionVector::UserDefined101 => 133,
            ExceptionVector::UserDefined102 => 134,
            ExceptionVector::UserDefined103 => 135,
            ExceptionVector::UserDefined104 => 136,
            ExceptionVector::UserDefined105 => 137,
            ExceptionVector::UserDefined106 => 138,
            ExceptionVector::UserDefined107 => 139,
            ExceptionVector::UserDefined108 => 140,
            ExceptionVector::UserDefined109 => 141,
            ExceptionVector::UserDefined110 => 142,
            ExceptionVector::UserDefined111 => 143,
            ExceptionVector::UserDefined112 => 144,
            ExceptionVector::UserDefined113 => 145,
            ExceptionVector::UserDefined114 => 146,
            ExceptionVector::UserDefined115 => 147,
            ExceptionVector::UserDefined116 => 148,
            ExceptionVector::UserDefined117 => 149,
            ExceptionVector::UserDefined118 => 150,
            ExceptionVector::UserDefined119 => 151,
            ExceptionVector::UserDefined120 => 152,
            ExceptionVector::UserDefined121 => 153,
            ExceptionVector::UserDefined122 => 154,
            ExceptionVector::UserDefined123 => 155,
            ExceptionVector::UserDefined124 => 156,
            ExceptionVector::UserDefined125 => 157,
            ExceptionVector::UserDefined126 => 158,
            ExceptionVector::UserDefined127 => 159,
            ExceptionVector::UserDefined128 => 160,
            ExceptionVector::UserDefined129 => 161,
            ExceptionVector::UserDefined130 => 162,
            ExceptionVector::UserDefined131 => 163,
            ExceptionVector::UserDefined132 => 164,
            ExceptionVector::UserDefined133 => 165,
            ExceptionVector::UserDefined134 => 166,
            ExceptionVector::UserDefined135 => 167,
            ExceptionVector::UserDefined136 => 168,
            ExceptionVector::UserDefined137 => 169,
            ExceptionVector::UserDefined138 => 170,
            ExceptionVector::UserDefined139 => 171,
            ExceptionVector::UserDefined140 => 172,
            ExceptionVector::UserDefined141 => 173,
            ExceptionVector::UserDefined142 => 174,
            ExceptionVector::UserDefined143 => 175,
            ExceptionVector::UserDefined144 => 176,
            ExceptionVector::UserDefined145 => 177,
            ExceptionVector::UserDefined146 => 178,
            ExceptionVector::UserDefined147 => 179,
            ExceptionVector::UserDefined148 => 180,
            ExceptionVector::UserDefined149 => 181,
            ExceptionVector::UserDefined150 => 182,
            ExceptionVector::UserDefined151 => 183,
            ExceptionVector::UserDefined152 => 184,
            ExceptionVector::UserDefined153 => 185,
            ExceptionVector::UserDefined154 => 186,
            ExceptionVector::UserDefined155 => 187,
            ExceptionVector::UserDefined156 => 188,
            ExceptionVector::UserDefined157 => 189,
            ExceptionVector::UserDefined158 => 190,
            ExceptionVector::UserDefined159 => 191,
            ExceptionVector::UserDefined160 => 192,
            ExceptionVector::UserDefined161 => 193,
            ExceptionVector::UserDefined162 => 194,
            ExceptionVector::UserDefined163 => 195,
            ExceptionVector::UserDefined164 => 196,
            ExceptionVector::UserDefined165 => 197,
            ExceptionVector::UserDefined166 => 198,
            ExceptionVector::UserDefined167 => 199,
            ExceptionVector::UserDefined168 => 200,
            ExceptionVector::UserDefined169 => 201,
            ExceptionVector::UserDefined170 => 202,
            ExceptionVector::UserDefined171 => 203,
            ExceptionVector::UserDefined172 => 204,
            ExceptionVector::UserDefined173 => 205,
            ExceptionVector::UserDefined174 => 206,
            ExceptionVector::UserDefined175 => 207,
            ExceptionVector::UserDefined176 => 208,
            ExceptionVector::UserDefined177 => 209,
            ExceptionVector::UserDefined178 => 210,
            ExceptionVector::UserDefined179 => 211,
            ExceptionVector::UserDefined180 => 212,
            ExceptionVector::UserDefined181 => 213,
            ExceptionVector::UserDefined182 => 214,
            ExceptionVector::UserDefined183 => 215,
            ExceptionVector::UserDefined184 => 216,
            ExceptionVector::UserDefined185 => 217,
            ExceptionVector::UserDefined186 => 218,
            ExceptionVector::UserDefined187 => 219,
            ExceptionVector::UserDefined188 => 220,
            ExceptionVector::UserDefined189 => 221,
            ExceptionVector::UserDefined190 => 222,
            ExceptionVector::UserDefined191 => 223,
            ExceptionVector::UserDefined192 => 224,
            ExceptionVector::UserDefined193 => 225,
            ExceptionVector::UserDefined194 => 226,
            ExceptionVector::UserDefined195 => 227,
            ExceptionVector::UserDefined196 => 228,
            ExceptionVector::UserDefined197 => 229,
            ExceptionVector::UserDefined198 => 230,
            ExceptionVector::UserDefined199 => 231,
            ExceptionVector::UserDefined200 => 232,
            ExceptionVector::UserDefined201 => 233,
            ExceptionVector::UserDefined202 => 234,
            ExceptionVector::UserDefined203 => 235,
            ExceptionVector::UserDefined204 => 236,
            ExceptionVector::UserDefined205 => 237,
            ExceptionVector::UserDefined206 => 238,
            ExceptionVector::UserDefined207 => 239,
            ExceptionVector::UserDefined208 => 240,
            ExceptionVector::UserDefined209 => 241,
            ExceptionVector::UserDefined210 => 242,
            ExceptionVector::UserDefined211 => 243,
            ExceptionVector::UserDefined212 => 244,
            ExceptionVector::UserDefined213 => 245,
            ExceptionVector::UserDefined214 => 246,
            ExceptionVector::UserDefined215 => 247,
            ExceptionVector::UserDefined216 => 248,
            ExceptionVector::UserDefined217 => 249,
            ExceptionVector::UserDefined218 => 250,
            ExceptionVector::UserDefined219 => 251,
            ExceptionVector::UserDefined220 => 252,
            ExceptionVector::UserDefined221 => 253,
            ExceptionVector::UserDefined222 => 254,
            ExceptionVector::UserDefined223 => 255,
        }
    }

    /// The vector with number `n`.
    pub open spec fn of_number(n: u8) -> ExceptionVector {
        match n {
            0u8 => ExceptionVector::DivideError,
            1u8 => ExceptionVector::Debug,
            2u8 => ExceptionVector::NonMaskableInterrupt,
            3u8 => ExceptionVector::Breakpoint,
            4u8 => ExceptionVector::OverflowException,
            5u8 => ExceptionVector::BoundRangeExceeded,
            6u8 => ExceptionVector::InvalidOpcode,
            7u8 => ExceptionVector::DeviceNotAvailable,
            8u8 => ExceptionVector::DoubleFault,
            9u8 => ExceptionVector::CoprocessorSegmentOverrun,
            10u8 => ExceptionVector::InvalidTss,
            11u8 => ExceptionVector::SegmentNotPresent,
            12u8 => ExceptionVector::StackFault,
            13u8 => ExceptionVector::GeneralProtection,
            14u8 => ExceptionVector::PageFault,
            15u8 => ExceptionVector::_Reserved0,
            16u8 => ExceptionVector::X87FpuFloatingPointError,
            17u8 => ExceptionVector::AlignmentCheckException,
            18u8 => ExceptionVector::MachineCheckException,
            19u8 => ExceptionVector::SimdFloatingPointException,
            20u8 => ExceptionVector::VirtualizationException,
            21u8 => ExceptionVector::_Reserved1,
            22u8 => ExceptionVector::_Reserved2,
            23u8 => ExceptionVector::_Reserved3,
            24u8 => ExceptionVector::_Reserved4,
            25u8 => ExceptionVector::_Reserved5,
            26u8 => ExceptionVector::_Reserved6,
            27u8 => ExceptionVector::_Reserved7,
            28u8 => ExceptionVector::_Reserved8,
            29u8 => ExceptionVector::_Reserved9,
            30u8 => ExceptionVector::_Reserved10,
            31u8 => ExceptionVector::_Reserved11,
            32u8 => ExceptionVector::UserDefined0,
            33u8 => ExceptionVector::UserDefined1,
            34u8 => ExceptionVector::UserDefined2,
            35u8 => ExceptionVector::UserDefined3,
            36u8 => ExceptionVector::UserDefined4,
            37u8 => ExceptionVector::UserDefined5,
            38u8 => ExceptionVector::UserDefined6,
            39u8 => ExceptionVector::UserDefined7,
            40u8 => ExceptionVector::UserDefined8,
            41u8 => ExceptionVector::UserDefined9,
            42u8 => ExceptionVector::UserDefined10,
            43u8 => ExceptionVector::UserDefined11,
            44u8 => ExceptionVector::UserDefined12,
            45u8 => ExceptionVector::UserDefined13,
            46u8 => ExceptionVector::UserDefined14,
            47u8 => ExceptionVector::UserDefined15,
            48u8 => ExceptionVector::UserDefined16,
            49u8 => ExceptionVector::UserDefined17,
            50u8 => ExceptionVector::UserDefined18,
            51u8 => ExceptionVector::UserDefined19,
            52u8 => ExceptionVector::UserDefined20,
            53u8 => ExceptionVector::UserDefined21,
            54u8 => ExceptionVector::UserDefined22,
            55u8 => ExceptionVector::UserDefined23,
            56u8 => ExceptionVector::UserDefined24,
            57u8 => ExceptionVector::UserDefined25,
            58u8 => ExceptionVector::UserDefined26,
            59u8 => ExceptionVector::UserDefined27,
            60u8 => ExceptionVector::UserDefined28,
            61u8 => ExceptionVector::UserDefined29,
            62u8 => ExceptionVector::UserDefined30,
            63u8 => ExceptionVector::UserDefined31,
            64u8 => ExceptionVector::UserDefined32,
            65u8 => ExceptionVector::UserDefined33,
            66u8 => ExceptionVector::UserDefined34,
            67u8 => ExceptionVector::UserDefined35,
            68u8 => ExceptionVector::UserDefined36,
            69u8 => ExceptionVector::UserDefined37,
            70u8 => ExceptionVector::UserDefined38,
            71u8 => ExceptionVector::UserDefined39,
            72u8 => ExceptionVector::UserDefined40,
            73u8 => ExceptionVector::UserDefined41,
            74u8 => ExceptionVector::UserDefined42,
            75u8 => ExceptionVector::UserDefined43,
            76u8 => ExceptionVector::UserDefined44,
            77u8 => ExceptionVector::UserDefined45,
            78u8 => ExceptionVector::UserDefined46,
            79u8 => ExceptionVector::UserDefined47,
            80u8 => ExceptionVector::UserDefined48,
            81u8 => ExceptionVector::UserDefined49,
            82u8 => ExceptionVector::UserDefined50,
            83u8 => ExceptionVector::UserDefined51,
            84u8 => ExceptionVector::UserDefined52,
            85u8 => ExceptionVector::UserDefined53,
            86u8 => ExceptionVector::UserDefined54,
            87u8 => ExceptionVector::UserDefined55,
            88u8 => ExceptionVector::UserDefined56,
            89u8 => ExceptionVector::UserDefined57,
            90u8 => ExceptionVector::UserDefined58,
            91u8 => ExceptionVector::UserDefined59,
            92u8 => ExceptionVector::UserDefined60,
            93u8 => ExceptionVector::UserDefined61,
            94u8 => ExceptionVector::UserDefined62,
            95u8 => ExceptionVector::UserDefined63,
            96u8 => ExceptionVector::UserDefined64,
            97u8 => ExceptionVector::UserDefined65,
            98u8 => ExceptionVector::UserDefined66,
            99u8 => ExceptionVector::UserDefined67,
            100u8 => ExceptionVector::UserDefined68,
            101u8 => ExceptionVector::UserDefined69,
            102u8 => ExceptionVector::UserDefined70,
            103u8 => ExceptionVector::UserDefined71,
            104u8 => ExceptionVector::UserDefined72,
            105u8 => ExceptionVector::UserDefined73,
            106u8 => ExceptionVector::UserDefined74,
            107u8 => ExceptionVector::UserDefined75,
            108u8 => ExceptionVector::UserDefined76,
            109u8 => ExceptionVector::UserDefined77,
            110u8 => ExceptionVector::UserDefined78,
            111u8 => ExceptionVector::UserDefined79,
            112u8 => ExceptionVector::UserDefined80,
            113u8 => ExceptionVector::UserDefined81,
            114u8 => ExceptionVector::UserDefined82,
            115u8 => ExceptionVector::UserDefined83,
            116u8 => ExceptionVector::UserDefined84,
            117u8 => ExceptionVector::UserDefined85,
            118u8 => ExceptionVector::UserDefined86,
            119u8 => ExceptionVector::UserDefined87,
            120u8 => ExceptionVector::UserDefined88,
            121u8 => ExceptionVector::UserDefined89,
            122u8 => ExceptionVector::UserDefined90,
            123u8 => ExceptionVector::UserDefined91,
            124u8 => ExceptionVector::UserDefined92,
            125u8 => ExceptionVector::UserDefined93,
            126u8 => ExceptionVector::UserDefined94,
            127u8 => ExceptionVector::UserDefined95,
            128u8 => ExceptionVector::UserDefined96,
            129u8 => ExceptionVector::UserDefined97,
            130u8 => ExceptionVector::UserDefined98,
            131u8 => ExceptionVector::UserDefined99,
            132u8 => ExceptionVector::UserDefined100,
            133u8 => ExceptionVector::UserDefined101,
            134u8 => ExceptionVector::UserDefined102,
            135u8 => ExceptionVector::UserDefined103,
            136u8 => ExceptionVector::UserDefined104,
            137u8 => ExceptionVector::UserDefined105,
            138u8 => ExceptionVector::UserDefined106,
            139u8 => ExceptionVector::UserDefined107,
            140u8 => ExceptionVector::UserDefined108,
            141u8 => ExceptionVector::UserDefined109,
            142u8 => ExceptionVector::UserDefined110,
            143u8 => ExceptionVector::UserDefined111,
            144u8 => ExceptionVector::UserDefined112,
            145u8 => ExceptionVector::UserDefined113,
            146u8 => ExceptionVector::UserDefined114,
            147u8 => ExceptionVector::UserDefined115,
            148u8 => ExceptionVector::UserDefined116,
            149u8 => ExceptionVector::UserDefined117,
            150u8 => ExceptionVector::UserDefined118,
            151u8 => ExceptionVector::UserDefined119,
            152u8 => ExceptionVector::UserDefined120,
            153u8 => ExceptionVector::UserDefined121,
            154u8 => ExceptionVector::UserDefined122,
            155u8 => ExceptionVector::UserDefined123,
            156u8 => ExceptionVector::UserDefined124,
            157u8 => ExceptionVector::UserDefined125,
            158u8 => ExceptionVector::UserDefined126,
            159u8 => ExceptionVector::UserDefined127,
            160u8 => ExceptionVector::UserDefined128,
            161u8 => ExceptionVector::UserDefined129,
            162u8 => ExceptionVector::UserDefined130,
            163u8 => ExceptionVector::UserDefined131,
            164u8 => ExceptionVector::UserDefined132,
            165u8 => ExceptionVector::UserDefined133,
            166u8 => ExceptionVector::UserDefined134,
            167u8 => ExceptionVector::UserDefined135,
            168u8 => ExceptionVector::UserDefined136,
            169u8 => ExceptionVector::UserDefined137,
            170u8 => ExceptionVector::UserDefined138,
            171u8 => ExceptionVector::UserDefined139,
            172u8 => ExceptionVector::UserDefined140,
            173u8 => ExceptionVector::UserDefined141,
            174u8 => ExceptionVector::UserDefined142,
            175u8 => ExceptionVector::UserDefined143,
            176u8 => ExceptionVector::UserDefined144,
            177u8 => ExceptionVector::UserDefined145,
            178u8 => ExceptionVector::UserDefined146,
            179u8 => ExceptionVector::UserDefined147,
            180u8 => ExceptionVector::UserDefined148,
            181u8 => ExceptionVector::UserDefined149,
            182u8 => ExceptionVector::UserDefined150,
            183u8 => ExceptionVector::UserDefined151,
            184u8 => ExceptionVector::UserDefined152,
            185u8 => ExceptionVector::UserDefined153,
            186u8 => ExceptionVector::UserDefined154,
            187u8 => ExceptionVector::UserDefined155,
            188u8 => ExceptionVector::UserDefined156,
            189u8 => ExceptionVector::UserDefined157,
            190u8 => ExceptionVector::UserDefined158,
            191u8 => ExceptionVector::UserDefined159,
            192u8 => ExceptionVector::UserDefined160,
            193u8 => ExceptionVector::UserDefined161,
            194u8 => ExceptionVector::UserDefined162,
            195u8 => ExceptionVector::UserDefined163,
            196u8 => ExceptionVector::UserDefined164,
            197u8 => ExceptionVector::UserDefined165,
            198u8 => ExceptionVector::UserDefined166,
            199u8 => ExceptionVector::UserDefined167,
            200u8 => ExceptionVector::UserDefined168,
            201u8 => ExceptionVector::UserDefined169,
            202u8 => ExceptionVector::UserDefined170,
            203u8 => ExceptionVector::UserDefined171,
            204u8 => ExceptionVector::UserDefined172,
            205u8 => ExceptionVector::UserDefined173,
            206u8 => ExceptionVector::UserDefined174,
            207u8 => ExceptionVector::UserDefined175,
            208u8 => ExceptionVector::UserDefined176,
            209u8 => ExceptionVector::UserDefined177,
            210u8 => ExceptionVector::UserDefined178,
            211u8 => ExceptionVector::UserDefined179,
            212u8 => ExceptionVector::UserDefined180,
            213u8 => ExceptionVector::UserDefined181,
            214u8 => ExceptionVector::UserDefined182,
            215u8 => ExceptionVector::UserDefined183,
            216u8 => ExceptionVector::UserDefined184,
            217u8 => ExceptionVector::UserDefined185,
            218u8 => ExceptionVector::UserDefined186,
            219u8 => ExceptionVector::UserDefined187,
            220u8 => ExceptionVector::UserDefined188,
            221u8 => ExceptionVector::UserDefined189,
            222u8 => ExceptionVector::UserDefined190,
            223u8 => ExceptionVector::UserDefined191,
            224u8 => ExceptionVector::UserDefined192,
            225u8 => ExceptionVector::UserDefined193,
            226u8 => ExceptionVector::UserDefined194,
            227u8 => ExceptionVector::UserDefined195,
            228u8 => ExceptionVector::UserDefined196,
            229u8 => ExceptionVector::UserDefined197,
            230u8 => ExceptionVector::UserDefined198,
            231u8 => ExceptionVector::UserDefined199,
            232u8 => ExceptionVector::UserDefined200,
            233u8 => ExceptionVector::UserDefined201,
            234u8 => ExceptionVector::UserDefined202,
            235u8 => ExceptionVector::UserDefined203,
            236u8 => ExceptionVector::UserDefined204,
            237u8 => ExceptionVector::UserDefined205,
            238u8 => ExceptionVector::UserDefined206,
            239u8 => ExceptionVector::UserDefined207,
            240u8 => ExceptionVector::UserDefined208,
            241u8 => ExceptionVector::UserDefined209,
            242u8 => ExceptionVector::UserDefined210,
            243u8 => ExceptionVector::UserDefined211,
            244u8 => ExceptionVector::UserDefined212,
            245u8 => ExceptionVector::UserDefined213,
            246u8 => ExceptionVector::UserDefined214,
            247u8 => ExceptionVector::UserDefined215,
            248u8 => ExceptionVector::UserDefined216,
            249u8 => ExceptionVector::UserDefined217,
            250u8 => ExceptionVector::UserDefined218,
            251u8 => ExceptionVector::UserDefined219,
            252u8 => ExceptionVector::UserDefined220,
            253u8 => ExceptionVector::UserDefined221,
            254u8 => ExceptionVector::UserDefined222,
            255u8 => ExceptionVector::UserDefined223,
        }
    }

    /// The vector with number `x`, if there is one.
    pub fn new(x: usize) -> (r: Option<ExceptionVector>)
        ensures
            r is Some <==> x < 256,
            r is Some ==> r->0.number() == x && r->0 == ExceptionVector::of_number(x as u8),
    {
        if x < 256 {
            let v = Self::from_u8(x as u8);
            proof {
                lemma_of_number_number(x as u8);
            }
            Some(v)
        } else {
            None
        }
    }

    /// The vector with number `n`.
    fn from_u8(n: u8) -> (r: ExceptionVector)
        ensures
            r == ExceptionVector::of_number(n),
    {
        match n {
            0u8 => ExceptionVector::DivideError,
            1u8 => ExceptionVector::Debug,
            2u8 => ExceptionVector::NonMaskableInterrupt,
            3u8 => ExceptionVector::Breakpoint,
            4u8 => ExceptionVector::OverflowException,
            5u8 => ExceptionVector::BoundRangeExceeded,
            6u8 => ExceptionVector::InvalidOpcode,
            7u8 => ExceptionVector::DeviceNotAvailable,
            8u8 => ExceptionVector::DoubleFault,
            9u8 => ExceptionVector::CoprocessorSegmentOverrun,
            10u8 => ExceptionVector::InvalidTss,
            11u8 => ExceptionVector::SegmentNotPresent,
            12u8 => ExceptionVector::StackFault,
            13u8 => ExceptionVector::GeneralProtection,
            14u8 => ExceptionVector::PageFault,
            15u8 => ExceptionVector::_Reserved0,
            16u8 => ExceptionVector::X87FpuFloatingPointError,
            17u8 => ExceptionVector::AlignmentCheckException,
            18u8 => ExceptionVector::MachineCheckException,
            19u8 => ExceptionVector::SimdFloatingPointException,
            20u8 => ExceptionVector::VirtualizationException,
            21u8 => ExceptionVector::_Reserved1,
            22u8 => ExceptionVector::_Reserved2,
            23u8 => ExceptionVector::_Reserved3,
            24u8 => ExceptionVector::_Reserved4,
            25u8 => ExceptionVector::_Reserved5,
            26u8 => ExceptionVector::_Reserved6,
            27u8 => ExceptionVector::_Reserved7,
            28u8 => ExceptionVector::_Reserved8,
            29u8 => ExceptionVector::_Reserved9,
            30u8 => ExceptionVector::_Reserved10,
            31u8 => ExceptionVector::_Reserved11,
            32u8 => ExceptionVector::UserDefined0,
            33u8 => ExceptionVector::UserDefined1,
            34u8 => ExceptionVector::UserDefined2,
            35u8 => ExceptionVector::UserDefined3,
            36u8 => ExceptionVector::UserDefined4,
            37u8 => ExceptionVector::UserDefined5,
            38u8 => ExceptionVector::UserDefined6,
            39u8 => ExceptionVector::UserDefined7,
            40u8 => ExceptionVector::UserDefined8,
            41u8 => ExceptionVector::UserDefined9,
            42u8 => ExceptionVector::UserDefined10,
            43u8 => ExceptionVector::UserDefined11,
            44u8 => ExceptionVector::UserDefined12,
            45u8 => ExceptionVector::UserDefined13,
            46u8 => ExceptionVector::UserDefined14,
            47u8 => ExceptionVector::UserDefined15,
            48u8 => ExceptionVector::UserDefined16,
            49u8 => ExceptionVector::UserDefined17,
            50u8 => ExceptionVector::UserDefined18,
            51u8 => ExceptionVector::UserDefined19,
            52u8 => ExceptionVector::UserDefined20,
            53u8 => ExceptionVector::UserDefined21,
            54u8 => ExceptionVector::UserDefined22,
            55u8 => ExceptionVector::UserDefined23,
            56u8 => ExceptionVector::UserDefined24,
            57u8 => ExceptionVector::UserDefined25,
            58u8 => ExceptionVector::UserDefined26,
            59u8 => ExceptionVector::UserDefined27,
            60u8 => ExceptionVector::UserDefined28,
            61u8 => ExceptionVector::UserDefined29,
            62u8 => ExceptionVector::UserDefined30,
            63u8 => ExceptionVector::UserDefined31,
            64u8 => ExceptionVector::UserDefined32,
            65u8 => ExceptionVector::UserDefined33,
            66u8 => ExceptionVector::UserDefined34,
            67u8 => ExceptionVector::UserDefined35,
            68u8 => ExceptionVector::UserDefined36,
            69u8 => ExceptionVector::UserDefined37,
            70u8 => ExceptionVector::UserDefined38,
            71u8 => ExceptionVector::UserDefined39,
            72u8 => ExceptionVector::UserDefined40,
            73u8 => ExceptionVector::UserDefined41,
            74u8 => ExceptionVector::UserDefined42,
            75u8 => ExceptionVector::UserDefined43,
            76u8 => ExceptionVector::UserDefined44,
            77u8 => ExceptionVector::UserDefined45,
            78u8 => ExceptionVector::UserDefined46,
            79u8 => ExceptionVector::UserDefined47,
            80u8 => ExceptionVector::UserDefined48,
            81u8 => ExceptionVector::UserDefined49,
            82u8 => ExceptionVector::UserDefined50,
            83u8 => ExceptionVector::UserDefined51,
            84u8 => ExceptionVector::UserDefined52,
            85u8 => ExceptionVector::UserDefined53,
            86u8 => ExceptionVector::UserDefined54,
            87u8 => ExceptionVector::UserDefined55,
            88u8 => ExceptionVector::UserDefined56,
            89u8 => ExceptionVector::UserDefined57,
            90u8 => ExceptionVector::UserDefined58,
            91u8 => ExceptionVector::UserDefined59,
            92u8 => ExceptionVector::UserDefined60,
            93u8 => ExceptionVector::UserDefined61,
            94u8 => ExceptionVector::UserDefined62,
            95u8 => ExceptionVector::UserDefined63,
            96u8 => ExceptionVector::UserDefined64,
            97u8 => ExceptionVector::UserDefined65,
            98u8 => ExceptionVector::UserDefined66,
            99u8 => ExceptionVector::UserDefined67,
            100u8 => ExceptionVector::UserDefined68,
            101u8 => ExceptionVector::UserDefined69,
            102u8 => ExceptionVector::UserDefined70,
            103u8 => ExceptionVector::UserDefined71,
            104u8 => ExceptionVector::UserDefined72,
            105u8 => ExceptionVector::UserDefined73,
            106u8 => ExceptionVector::UserDefined74,
            107u8 => ExceptionVector::UserDefined75,
            108u8 => ExceptionVector::UserDefined76,
            109u8 => ExceptionVector::UserDefined77,
            110u8 => ExceptionVector::UserDefined78,
            111u8 => ExceptionVector::UserDefined79,
            112u8 => ExceptionVector::UserDefined80,
            113u8 => ExceptionVector::UserDefined81,
            114u8 => ExceptionVector::UserDefined82,
            115u8 => ExceptionVector::UserDefined83,
            116u8 => ExceptionVector::UserDefined84,
            117u8 => ExceptionVector::UserDefined85,
            118u8 => ExceptionVector::UserDefined86,
            119u8 => ExceptionVector::UserDefined87,
            120u8 => ExceptionVector::UserDefined88,
            121u8 => ExceptionVector::UserDefined89,
            122u8 => ExceptionVector::UserDefined90,
            123u8 => ExceptionVector::UserDefined91,
            124u8 => ExceptionVector::UserDefined92,
            125u8 => ExceptionVector::UserDefined93,
            126u8 => ExceptionVector::UserDefined94,
            127u8 => ExceptionVector::UserDefined95,
            128u8 => ExceptionVector::UserDefined96,
            129u8 => ExceptionVector::UserDefined97,
            130u8 => ExceptionVector::UserDefined98,
            131u8 => ExceptionVector::UserDefined99,
            132u8 => ExceptionVector::UserDefined100,
            133u8 => ExceptionVector::UserDefined101,
            134u8 => ExceptionVector::UserDefined102,
            135u8 => ExceptionVector::UserDefined103,
            136u8 => ExceptionVector::UserDefined104,
            137u8 => ExceptionVector::UserDefined105,
            138u8 => ExceptionVector::UserDefined106,
            139u8 => ExceptionVector::UserDefined107,
            140u8 => ExceptionVector::UserDefined108,
            141u8 => ExceptionVector::UserDefined109,
            142u8 => ExceptionVector::UserDefined110,
            143u8 => ExceptionVector::UserDefined111,
            144u8 => ExceptionVector::UserDefined112,
            145u8 => ExceptionVector::UserDefined113,
            146u8 => ExceptionVector::UserDefined114,
            147u8 => ExceptionVector::UserDefined115,
            148u8 => ExceptionVector::UserDefined116,
            149u8 => ExceptionVector::UserDefined117,
            150u8 => ExceptionVector::UserDefined118,
            151u8 => ExceptionVector::UserDefined119,
            152u8 => ExceptionVector::UserDefined120,
            153u8 => ExceptionVector::UserDefined121,
            154u8 => ExceptionVector::UserDefined122,
            155u8 => ExceptionVector::UserDefined123,
            156u8 => ExceptionVector::UserDefined124,
            157u8 => ExceptionVector::UserDefined125,
            158u8 => ExceptionVector::UserDefined126,
            159u8 => ExceptionVector::UserDefined127,
            160u8 => ExceptionVector::UserDefined128,
            161u8 => ExceptionVector::UserDefined129,
            162u8 => ExceptionVector::UserDefined130,
            163u8 => ExceptionVector::UserDefined131,
            164u8 => ExceptionVector::UserDefined132,
            165u8 => ExceptionVector::UserDefined133,
            166u8 => ExceptionVector::UserDefined134,
            167u8 => ExceptionVector::UserDefined135,
            168u8 => ExceptionVector::UserDefined136,
            169u8 => ExceptionVector::UserDefined137,
            170u8 => ExceptionVector::UserDefined138,
            171u8 => ExceptionVector::UserDefined139,
            172u8 => ExceptionVector::UserDefined140,
            173u8 => ExceptionVector::UserDefined141,
            174u8 => ExceptionVector::UserDefined142,
            175u8 => ExceptionVector::UserDefined143,
            176u8 => ExceptionVector::UserDefined144,
            177u8 => ExceptionVector::UserDefined145,
            178u8 => ExceptionVector::UserDefined146,
            179u8 => ExceptionVector::UserDefined147,
            180u8 => ExceptionVector::UserDefined148,
            181u8 => ExceptionVector::UserDefined149,
            182u8 => ExceptionVector::UserDefined150,
            183u8 => ExceptionVector::UserDefined151,
            184u8 => ExceptionVector::UserDefined152,
            185u8 => ExceptionVector::UserDefined153,
            186u8 => ExceptionVector::UserDefined154,
            187u8 => ExceptionVector::UserDefined155,
            188u8 => ExceptionVector::UserDefined156,
            189u8 => ExceptionVector::UserDefined157,
            190u8 => ExceptionVector::UserDefined158,
            191u8 => ExceptionVector::UserDefined159,
            192u8 => ExceptionVector::UserDefined160,
            193u8 => ExceptionVector::UserDefined161,
            194u8 => ExceptionVector::UserDefined162,
            195u8 => ExceptionVector::UserDefined163,
            196u8 => ExceptionVector::UserDefined164,
            197u8 => ExceptionVector::UserDefined165,
            198u8 => ExceptionVector::UserDefined166,
            199u8 => ExceptionVector::UserDefined167,
            200u8 => ExceptionVector::UserDefined168,
            201u8 => ExceptionVector::UserDefined169,
            202u8 => ExceptionVector::UserDefined170,
            203u8 => ExceptionVector::UserDefined171,
            204u8 => ExceptionVector::UserDefined172,
            205u8 => ExceptionVector::UserDefined173,
            206u8 => ExceptionVector::UserDefined174,
            207u8 => ExceptionVector::UserDefined175,
            208u8 => ExceptionVector::UserDefined176,
            209u8 => ExceptionVector::UserDefined177,
            210u8 => ExceptionVector::UserDefined178,
            211u8 => ExceptionVector::UserDefined179,
            212u8 => ExceptionVector::UserDefined180,
            213u8 => ExceptionVector::UserDefined181,
            214u8 => ExceptionVector::UserDefined182,
            215u8 => ExceptionVector::UserDefined183,
            216u8 => ExceptionVector::UserDefined184,
            217u8 => ExceptionVector::UserDefined185,
            218u8 => ExceptionVector::UserDefined186,
            219u8 => ExceptionVector::UserDefined187,
            220u8 => ExceptionVector::UserDefined188,
            221u8 => ExceptionVector::UserDefined189,
            222u8 => ExceptionVector::UserDefined190,
            223u8 => ExceptionVector::UserDefined191,
            224u8 => ExceptionVector::UserDefined192,
            225u8 => ExceptionVector::UserDefined193,
            226u8 => ExceptionVector::UserDefined194,
            227u8 => ExceptionVector::UserDefined195,
            228u8 => ExceptionVector::UserDefined196,
            229u8 => ExceptionVector::UserDefined197,
            230u8 => ExceptionVector::UserDefined198,
            231u8 => ExceptionVector::UserDefined199,
            232u8 => ExceptionVector::UserDefined200,
            233u8 => ExceptionVector::UserDefined201,
            234u8 => ExceptionVector::UserDefined202,
            235u8 => ExceptionVector::UserDefined203,
            236u8 => ExceptionVector::UserDefined204,
            237u8 => ExceptionVector::UserDefined205,
            238u8 => ExceptionVector::UserDefined206,
            239u8 => ExceptionVector::UserDefined207,
            240u8 => ExceptionVector::UserDefined208,
            241u8 => ExceptionVector::UserDefined209,
            242u8 => ExceptionVector::UserDefined210,
            243u8 => ExceptionVector::UserDefined211,
            244u8 => ExceptionVector::UserDefined212,
            245u8 => ExceptionVector::UserDefined213,
            246u8 => ExceptionVector::UserDefined214,
            247u8 => ExceptionVector::UserDefined215,
            248u8 => ExceptionVector::UserDefined216,
            249u8 => ExceptionVector::UserDefined217,
            250u8 => ExceptionVector::UserDefined218,
            251u8 => ExceptionVector::UserDefined219,
            252u8 => ExceptionVector::UserDefined220,
            253u8 => ExceptionVector::UserDefined221,
            254u8 => ExceptionVector::UserDefined222,
            255u8 => ExceptionVector::UserDefined223,
        }
    }

    /// The vector number.
    pub fn into_raw(self) -> (r: usize)
        ensures
            r == self.number(),
            r < 256,
    {
        match self {
            ExceptionVector::DivideError => 0,
            ExceptionVector::Debug => 1,
            ExceptionVector::NonMaskableInterrupt => 2,
            ExceptionVector::Breakpoint => 3,
            ExceptionVector::OverflowException => 4,
            ExceptionVector::BoundRangeExceeded => 5,
            ExceptionVector::InvalidOpcode => 6,
            ExceptionVector::DeviceNotAvailable => 7,
            ExceptionVector::DoubleFault => 8,
            ExceptionVector::CoprocessorSegmentOverrun => 9,
            ExceptionVector::InvalidTss => 10,
            ExceptionVector::SegmentNotPresent => 11,
            ExceptionVector::StackFault => 12,
            ExceptionVector::GeneralProtection => 13,
            ExceptionVector::PageFault => 14,
            ExceptionVector::_Reserved0 => 15,
            ExceptionVector::X87FpuFloatingPointError => 16,
            ExceptionVector::AlignmentCheckException => 17,
            ExceptionVector::MachineCheckException => 18,
            ExceptionVector::SimdFloatingPointException => 19,
            ExceptionVector::VirtualizationException => 20,
            ExceptionVector::_Reserved1 => 21,
            ExceptionVector::_Reserved2 => 22,
            ExceptionVector::_Reserved3 => 23,
            ExceptionVector::_Reserved4 => 24,
            ExceptionVector::_Reserved5 => 25,
            ExceptionVector::_Reserved6 => 26,
            ExceptionVector::_Reserved7 => 27,
            ExceptionVector::_Reserved8 => 28,
            ExceptionVector::_Reserved9 => 29,
            ExceptionVector::_Reserved10 => 30,
            ExceptionVector::_Reserved11 => 31,
            ExceptionVector::UserDefined0 => 32,
            ExceptionVector::UserDefined1 => 33,
            ExceptionVector::UserDefined2 => 34,
            ExceptionVector::UserDefined3 => 35,
            ExceptionVector::UserDefined4 => 36,
            ExceptionVector::UserDefined5 => 37,
            ExceptionVector::UserDefined6 => 38,
            ExceptionVector::UserDefined7 => 39,
            ExceptionVector::UserDefined8 => 40,
            ExceptionVector::UserDefined9 => 41,
            ExceptionVector::UserDefined10 => 42,
            ExceptionVector::UserDefined11 => 43,
            ExceptionVector::UserDefined12 => 44,
            ExceptionVector::UserDefined13 => 45,
            ExceptionVector::UserDefined14 => 46,
            ExceptionVector::UserDefined15 => 47,
            ExceptionVector::UserDefined16 => 48,
            ExceptionVector::UserDefined17 => 49,
            ExceptionVector::UserDefined18 => 50,
            ExceptionVector::UserDefined19 => 51,
            ExceptionVector::UserDefined20 => 52,
            ExceptionVector::UserDefined21 => 53,
            ExceptionVector::UserDefined22 => 54,
            ExceptionVector::UserDefined23 => 55,
            ExceptionVector::UserDefined24 => 56,
            ExceptionVector::UserDefined25 => 57,
            ExceptionVector::UserDefined26 => 58,
            ExceptionVector::UserDefined27 => 59,
            ExceptionVector::UserDefined28 => 60,
            ExceptionVector::UserDefined29 => 61,
            ExceptionVector::UserDefined30 => 62,
            ExceptionVector::UserDefined31 => 63,
            ExceptionVector::UserDefined32 => 64,
            ExceptionVector::UserDefined33 => 65,
            ExceptionVector::UserDefined34 => 66,
            ExceptionVector::UserDefined35 => 67,
            ExceptionVector::UserDefined36 => 68,
            ExceptionVector::UserDefined37 => 69,
            ExceptionVector::UserDefined38 => 70,
            ExceptionVector::UserDefined39 => 71,
            ExceptionVector::UserDefined40 => 72,
            ExceptionVector::UserDefined41 => 73,
            ExceptionVector::UserDefined42 => 74,
            ExceptionVector::UserDefined43 => 75,
            ExceptionVector::UserDefined44 => 76,
            ExceptionVector::UserDefined45 => 77,
            ExceptionVector::UserDefined46 => 78,
            ExceptionVector::UserDefined47 => 79,
            ExceptionVector::UserDefined48 => 80,
            ExceptionVector::UserDefined49 => 81,
            ExceptionVector::UserDefined50 => 82,
            ExceptionVector::UserDefined51 => 83,
            ExceptionVector::UserDefined52 => 84,
            ExceptionVector::UserDefined53 => 85,
            ExceptionVector::UserDefined54 => 86,
            ExceptionVector::UserDefined55 => 87,
            ExceptionVector::UserDefined56 => 88,
            ExceptionVector::UserDefined57 => 89,
            ExceptionVector::UserDefined58 => 90,
            ExceptionVector::UserDefined59 => 91,
            ExceptionVector::UserDefined60 => 92,
            ExceptionVector::UserDefined61 => 93,
            ExceptionVector::UserDefined62 => 94,
            ExceptionVector::UserDefined63 => 95,
            ExceptionVector::UserDefined64 => 96,
            ExceptionVector::UserDefined65 => 97,
            ExceptionVector::UserDefined66 => 98,
            ExceptionVector::UserDefined67 => 99,
            ExceptionVector::UserDefined68 => 100,
            ExceptionVector::UserDefined69 => 101,
            ExceptionVector::UserDefined70 => 102,
            ExceptionVector::UserDefined71 => 103,
            ExceptionVector::UserDefined72 => 104,
            ExceptionVector::UserDefined73 => 105,
            ExceptionVector::UserDefined74 => 106,
            ExceptionVector::UserDefined75 => 107,
            ExceptionVector::UserDefined76 => 108,
            ExceptionVector::UserDefined77 => 109,
            ExceptionVector::UserDefined78 => 110,
            ExceptionVector::UserDefined79 => 111,
            ExceptionVector::UserDefined80 => 112,
            ExceptionVector::UserDefined81 => 113,
            ExceptionVector::UserDefined82 => 114,
            ExceptionVector::UserDefined83 => 115,
            ExceptionVector::UserDefined84 => 116,
            ExceptionVector::UserDefined85 => 117,
            ExceptionVector::UserDefined86 => 118,
            ExceptionVector::UserDefined87 => 119,
            ExceptionVector::UserDefined88 => 120,
            ExceptionVector::UserDefined89 => 121,
            ExceptionVector::UserDefined90 => 122,
            ExceptionVector::UserDefined91 => 123,
            ExceptionVector::UserDefined92 => 124,
            ExceptionVector::UserDefined93 => 125,
            ExceptionVector::UserDefined94 => 126,
            ExceptionVector::UserDefined95 => 127,
            ExceptionVector::UserDefined96 => 128,
            ExceptionVector::UserDefined97 => 129,
            ExceptionVector::UserDefined98 => 130,
            ExceptionVector::UserDefined99 => 131,
            ExceptionVector::UserDefined100 => 132,
            ExceptionVector::UserDefined101 => 133,
            ExceptionVector::UserDefined102 => 134,
            ExceptionVector::UserDefined103 => 135,
            ExceptionVector::UserDefined104 => 136,
            ExceptionVector::UserDefined105 => 137,
            ExceptionVector::UserDefined106 => 138,
            ExceptionVector::UserDefined107 => 139,
            ExceptionVector::UserDefined108 => 140,
            ExceptionVector::UserDefined109 => 141,
            ExceptionVector::UserDefined110 => 142,
            ExceptionVector::UserDefined111 => 143,
            ExceptionVector::UserDefined112 => 144,
            ExceptionVector::UserDefined113 => 145,
            ExceptionVector::UserDefined114 => 146,
            ExceptionVector::UserDefined115 => 147,
            ExceptionVector::UserDefined116 => 148,
            ExceptionVector::UserDefined117 => 149,
            ExceptionVector::UserDefined118 => 150,
            ExceptionVector::UserDefined119 => 151,
            ExceptionVector::UserDefined120 => 152,
            ExceptionVector::UserDefined121 => 153,
            ExceptionVector::UserDefined122 => 154,
            ExceptionVector::UserDefined123 => 155,
            ExceptionVector::UserDefined124 => 156,
            ExceptionVector::UserDefined125 => 157,
            ExceptionVector::UserDefined126 => 158,
            ExceptionVector::UserDefined127 => 159,
            ExceptionVector::UserDefined128 => 160,
            ExceptionVector::UserDefined129 => 161,
            ExceptionVector::UserDefined130 => 162,
            ExceptionVector::UserDefined131 => 163,
            ExceptionVector::UserDefined132 => 164,
            ExceptionVector::UserDefined133 => 165,
            ExceptionVector::UserDefined134 => 166,
            ExceptionVector::UserDefined135 => 167,
            ExceptionVector::UserDefined136 => 168,
            ExceptionVector::UserDefined137 => 169,
            ExceptionVector::UserDefined138 => 170,
            ExceptionVector::UserDefined139 => 171,
            ExceptionVector::UserDefined140 => 172,
            ExceptionVector::UserDefined141 => 173,
            ExceptionVector::UserDefined142 => 174,
            ExceptionVector::UserDefined143 => 175,
            ExceptionVector::UserDefined144 => 176,
            ExceptionVector::UserDefined145 => 177,
            ExceptionVector::UserDefined146 => 178,
            ExceptionVector::UserDefined147 => 179,
            ExceptionVector::UserDefined148 => 180,
            ExceptionVector::UserDefined149 => 181,
            ExceptionVector::UserDefined150 => 182,
            ExceptionVector::UserDefined151 => 183,
            ExceptionVector::UserDefined152 => 184,
            ExceptionVector::UserDefined153 => 185,
            ExceptionVector::UserDefined154 => 186,
            ExceptionVector::UserDefined155 => 187,
            ExceptionVector::UserDefined156 => 188,
            ExceptionVector::UserDefined157 => 189,
            ExceptionVector::UserDefined158 => 190,
            ExceptionVector::UserDefined159 => 191,
            ExceptionVector::UserDefined160 => 192,
            ExceptionVector::UserDefined161 => 193,
            ExceptionVector::UserDefined162 => 194,
            ExceptionVector::UserDefined163 => 195,
            ExceptionVector::UserDefined164 => 196,
            ExceptionVector::UserDefined165 => 197,
            ExceptionVector::UserDefined166 => 198,
            ExceptionVector::UserDefined167 => 199,
            ExceptionVector::UserDefined168 => 200,
            ExceptionVector::UserDefined169 => 201,
            ExceptionVector::UserDefined170 => 202,
            ExceptionVector::UserDefined171 => 203,
            ExceptionVector::UserDefined172 => 204,
            ExceptionVector::UserDefined173 => 205,
            ExceptionVector::UserDefined174 => 206,
            ExceptionVector::UserDefined175 => 207,
            ExceptionVector::UserDefined176 => 208,
            ExceptionVector::UserDefined177 => 209,
            ExceptionVector::UserDefined178 => 210,
            ExceptionVector::UserDefined179 => 211,
            ExceptionVector::UserDefined180 => 212,
            ExceptionVector::UserDefined181 => 213,
            ExceptionVector::UserDefined182 => 214,
            ExceptionVector::UserDefined183 => 215,
            ExceptionVector::UserDefined184 => 216,
            ExceptionVector::UserDefined185 => 217,
            ExceptionVector::UserDefined186 => 218,
            ExceptionVector::UserDefined187 => 219,
            ExceptionVector::UserDefined188 => 220,
            ExceptionVector::UserDefined189 => 221,
            ExceptionVector::UserDefined190 => 222,
            ExceptionVector::UserDefined191 => 223,
            ExceptionVector::UserDefined192 => 224,
            ExceptionVector::UserDefined193 => 225,
            ExceptionVector::UserDefined194 => 226,
            ExceptionVector::UserDefined195 => 227,
            ExceptionVector::UserDefined196 => 228,
            ExceptionVector::UserDefined197 => 229,
            ExceptionVector::UserDefined198 => 230,
            ExceptionVector::UserDefined199 => 231,
            ExceptionVector::UserDefined200 => 232,
            ExceptionVector::UserDefined201 => 233,
            ExceptionVector::UserDefined202 => 234,
            ExceptionVector::UserDefined203 => 235,
            ExceptionVector::UserDefined204 => 236,
            ExceptionVector::UserDefined205 => 237,
            ExceptionVector::UserDefined206 => 238,
            ExceptionVector::UserDefined207 => 239,
            ExceptionVector::UserDefined208 => 240,
            ExceptionVector::UserDefined209 => 241,
            ExceptionVector::UserDefined210 => 242,
            ExceptionVector::UserDefined211 => 243,
            ExceptionVector::UserDefined212 => 244,
            ExceptionVector::UserDefined213 => 245,
            ExceptionVector::UserDefined214 => 246,
            ExceptionVector::UserDefined215 => 247,
            ExceptionVector::UserDefined216 => 248,
            ExceptionVector::UserDefined217 => 249,
            ExceptionVector::UserDefined218 => 250,
            ExceptionVector::UserDefined219 => 251,
            ExceptionVector::UserDefined220 => 252,
            ExceptionVector::UserDefined221 => 253,
            ExceptionVector::UserDefined222 => 254,
            ExceptionVector::UserDefined223 => 255,
        }
    }
}

/// The vector of a number has that number.
pub proof fn lemma_of_number_number(n: u8)
    ensures
        ExceptionVector::of_number(n).number() == n,
{
}

/// Every vector has a number below 256 and is the vector of that number.
pub proof fn lemma_vector_number_round_trip(v: ExceptionVector)
    ensures
        v.number() < 256,
        ExceptionVector::of_number(v.number() as u8) == v,
{
}

/// Stack frame that the CPU pushes on an interrupt.
#[derive(Copy, Clone, Debug, PartialEq, Eq, Structural)]
pub struct InterruptStackFrame {
    pub rip: usize,
    pub cs: SegmentSelector,
    pub pad0: u16,
    pub pad1: u32,
    pub rflags: Rflags,
    pub rsp: usize,
    pub ss: SegmentSelector,
    pub pad2: u16,
    pub pad3: u32,
}

/// Must be zero.
#[derive(Copy, Clone, Debug, PartialEq, Eq, Structural)]
pub struct MustbeZero(pub u64);

/// The fault was a protection violation (else a non-present page).
pub const PF_PRESENT: u64 = 0x1;
/// The fault was caused by a write access.
pub const PF_WRITE_ACCESS: u64 = 0x2;
/// The fault was caused while CPL = 3.
pub const PF_USER: u64 = 0x4;
/// A reserved bit was set in a paging entry.
pub const PF_RESERVED_WRITE: u64 = 0x8;
/// The fault was caused by an instruction fetch.
pub const PF_INSTRUCTION_FETCH: u64 = 0x10;

/// X86_64's interrupt gate descriptor.
#[derive(Copy, Clone, Debug, PartialEq, Eq, Structural)]
pub struct InterruptGateDescriptor {
    pub lo: u16,
    pub selector: u16,
    pub options: u16,
    pub mid: u16,
    pub hi: u32,
    pub rev: u32,
}

/// The options word of a present gate of type `ty` with privilege `dpl`.
pub open spec fn gate_options(dpl: u16, ty: ExceptionType) -> u16 {
    (0x8000u16 | (dpl << 13u16) | (if ty == ExceptionType::Trap {
        0xf00u16
    } else {
        0xe00u16
    })) as u16
}

/// The descriptor for the entry point at address `handler`.
pub open spec fn gate(
    ss: SegmentSelector,
    ty: ExceptionType,
    handler: u64,
) -> InterruptGateDescriptor {
    InterruptGateDescriptor {
        lo: handler as u16,
        selector: ((ss.0 >> 3u16) << 3u16) as u16,
        options: gate_options(ss.0 & 3, ty),
        mid: (handler >> 16u64) as u16,
        hi: (handler >> 32u64) as u32,
        rev: 0,
    }
}

impl InterruptGateDescriptor {
    /// An empty gate entry.
    pub fn empty() -> (r: InterruptGateDescriptor)
        ensures
            r == (InterruptGateDescriptor { lo: 0, selector: 0, options: 0, mid: 0, hi: 0, rev: 0 }),
    {
        InterruptGateDescriptor { lo: 0, selector: 0, options: 0, mid: 0, hi: 0, rev: 0 }
    }

    /// Make this entry a gate of type `ty` into the handler at address
    /// `handler`, through selector `ss`.
    pub fn set(&mut self, ss: SegmentSelector, ty: ExceptionType, handler: u64)
        ensures
            *final(self) == gate(ss, ty, handler),
    {
        let dpl = ss.dpl().as_u16();
        let kind: u16 = match ty {
            ExceptionType::Trap => 0xf00,
            ExceptionType::Interrupt => 0xe00,
        };
        *self = InterruptGateDescriptor {
            lo: handler as u16,
            selector: ss.index() << 3u16,
            options: 0x8000u16 | (dpl << 13u16) | kind,
            mid: (handler >> 16u64) as u16,
            hi: (handler >> 32u64) as u32,
            rev: 0,
        };
    }

    /// The handler address that this gate enters.
    pub open spec fn handler(self) -> u64 {
        (self.lo as u64) | ((self.mid as u64) << 16u64) | ((self.hi as u64) << 32u64)
    }
}

/// A gate gives back the handler address it was made with.
pub proof fn lemma_gate_handler(ss: SegmentSelector, ty: ExceptionType, handler: u64)
    ensures
        gate(ss, ty, handler).handler() == handler,
{
    assert(((handler as u16) as u64) | (((handler >> 16u64) as u16 as u64) << 16u64) | (((handler
        >> 32u64) as u32 as u64) << 32u64) == handler) by (bit_vector);
}

} // verus!
