//! The closed tag table of component kinds: 248 named variants in tag
//! order, and the lookup from a raw tag value to its kind.

use vstd::prelude::*;

verus! {

/// Every component kind the format knows, in tag order (tags 0 through 247).
/// The `Deleted*` kinds are reserved placeholders: valid tags with no further
/// semantics, kept so that files mentioning them still decode.
#[derive(Debug, Clone, Copy, PartialEq, Eq, Structural)]
pub enum ComponentKind {
    Error,
    Off,
    On,
    Buffer1,
    Not,
    And,
    And3,
    Nand,
    Or,
    Or3,
    Nor,
    Xor,
    Xnor,
    Counter8,
    VirtualCounter8,
    Counter64,
    VirtualCounter64,
    Ram8,
    VirtualRam8,
    Deleted0,
    Deleted1,
    Stack,
    VirtualStack,
    Register8,
    VirtualRegister8,
    Register8Red,
    VirtualRegister8Red,
    Register8RedPlus,
    VirtualRegister8RedPlus,
    Register64,
    VirtualRegister64,
    Switch8,
    Mux8,
    Decoder1,
    Decoder3,
    Constant8,
    Not8,
    Or8,
    And8,
    Xor8,
    Equal8,
    Deleted2,
    Deleted3,
    Neg8,
    Add8,
    Mul8,
    Splitter8,
    Maker8,
    Splitter64,
    Maker64,
    FullAdder,
    BitMemory,
    VirtualBitMemory,
    Deleted10,
    Decoder2,
    Timing,
    NoteSound,
    Deleted4,
    Deleted5,
    Keyboard,
    FileLoader,
    Halt,
    WireCluster,
    LevelScreen,
    Program8_1,
    Program8_1Red,
    Deleted6,
    Deleted7,
    Program8_4,
    LevelGate,
    Input1,
    LevelInput2Pin,
    LevelInput3Pin,
    LevelInput4Pin,
    LevelInputConditions,
    Input8,
    Input64,
    LevelInputCode,
    LevelInputArch,
    Output1,
    LevelOutput1Sum,
    LevelOutput1Car,
    Deleted8,
    Deleted9,
    LevelOutput2Pin,
    LevelOutput3Pin,
    LevelOutput4Pin,
    Output8,
    Output64,
    LevelOutputArch,
    LevelOutputCounter,
    Deleted11,
    Custom,
    VirtualCustom,
    Program,
    DelayLine1,
    VirtualDelayLine1,
    Console,
    Shl8,
    Shr8,
    Constant64,
    Not64,
    Or64,
    And64,
    Xor64,
    Neg64,
    Add64,
    Mul64,
    Equal64,
    LessU64,
    LessI64,
    Shl64,
    Shr64,
    Mux64,
    Switch64,
    ProbeMemoryBit,
    ProbeMemoryWord,
    AndOrLatch,
    NandNandLatch,
    NorNorLatch,
    LessU8,
    LessI8,
    DotMatrixDisplay,
    SegmentDisplay,
    Input16,
    Input32,
    Output16,
    Output32,
    Bidirectional1,
    Bidirectional8,
    Bidirectional16,
    Bidirectional32,
    Bidirectional64,
    Buffer8,
    Buffer16,
    Buffer32,
    Buffer64,
    ProbeWireBit,
    ProbeWireWord,
    Switch1,
    Output1z,
    Output8z,
    Output16z,
    Output32z,
    Output64z,
    Constant16,
    Not16,
    Or16,
    And16,
    Xor16,
    Neg16,
    Add16,
    Mul16,
    Equal16,
    LessU16,
    LessI16,
    Shl16,
    Shr16,
    Mux16,
    Switch16,
    Splitter16,
    Maker16,
    Register16,
    VirtualRegister16,
    Counter16,
    VirtualCounter16,
    Constant32,
    Not32,
    Or32,
    And32,
    Xor32,
    Neg32,
    Add32,
    Mul32,
    Equal32,
    LessU32,
    LessI32,
    Shl32,
    Shr32,
    Mux32,
    Switch32,
    Splitter32,
    Maker32,
    Register32,
    VirtualRegister32,
    Counter32,
    VirtualCounter32,
    LevelOutput8z,
    Nand8,
    Nor8,
    Xnor8,
    Nand16,
    Nor16,
    Xnor16,
    Nand32,
    Nor32,
    Xnor32,
    Nand64,
    Nor64,
    Xnor64,
    Ram,
    VirtualRam,
    RamLatency,
    VirtualRamLatency,
    RamFast,
    VirtualRamFast,
    Rom,
    VirtualRom,
    SolutionRom,
    VirtualSolutionRom,
    DelayLine8,
    VirtualDelayLine8,
    DelayLine16,
    VirtualDelayLine16,
    DelayLine32,
    VirtualDelayLine32,
    DelayLine64,
    VirtualDelayLine64,
    RamDualLoad,
    VirtualRamDualLoad,
    Hdd,
    VirtualHdd,
    Network,
    Rol8,
    Rol16,
    Rol32,
    Rol64,
    Ror8,
    Ror16,
    Ror32,
    Ror64,
    IndexerBit,
    IndexerByte,
    DivMod8,
    DivMod16,
    DivMod32,
    DivMod64,
    SpriteDisplay,
    ConfigDelay,
    Clock,
    LevelInput1,
    LevelInput8,
    LevelOutput1,
    LevelOutput8,
    Ashr8,
    Ashr16,
    Ashr32,
    Ashr64,
}

/// How many tag values the component-kind table holds; tags at or above this
/// value are rejected as unknown.
pub const COMPONENT_KIND_COUNT: u16 = 248;

/// The closed tag table: which kind each raw tag value below
/// `COMPONENT_KIND_COUNT` names.
pub open spec fn kind_of_tag(v: u16) -> ComponentKind
    recommends
        v < COMPONENT_KIND_COUNT,
{
    if v == 0 {
        ComponentKind::Error
    } else if v == 1 {
        ComponentKind::Off
    } else if v == 2 {
        ComponentKind::On
    } else if v == 3 {
        ComponentKind::Buffer1
    } else if v == 4 {
        ComponentKind::Not
    } else if v == 5 {
        ComponentKind::And
    } else if v == 6 {
        ComponentKind::And3
    } else if v == 7 {
        ComponentKind::Nand
    } else if v == 8 {
        ComponentKind::Or
    } else if v == 9 {
        ComponentKind::Or3
    } else if v == 10 {
        ComponentKind::Nor
    } else if v == 11 {
        ComponentKind::Xor
    } else if v == 12 {
        ComponentKind::Xnor
    } else if v == 13 {
        ComponentKind::Counter8
    } else if v == 14 {
        ComponentKind::VirtualCounter8
    } else if v == 15 {
        ComponentKind::Counter64
    } else if v == 16 {
        ComponentKind::VirtualCounter64
    } else if v == 17 {
        ComponentKind::Ram8
    } else if v == 18 {
        ComponentKind::VirtualRam8
    } else if v == 19 {
        ComponentKind::Deleted0
    } else if v == 20 {
        ComponentKind::Deleted1
    } else if v == 21 {
        ComponentKind::Stack
    } else if v == 22 {
        ComponentKind::VirtualStack
    } else if v == 23 {
        ComponentKind::Register8
    } else if v == 24 {
        ComponentKind::VirtualRegister8
    } else if v == 25 {
        ComponentKind::Register8Red
    } else if v == 26 {
        ComponentKind::VirtualRegister8Red
    } else if v == 27 {
        ComponentKind::Register8RedPlus
    } else if v == 28 {
        ComponentKind::VirtualRegister8RedPlus
    } else if v == 29 {
        ComponentKind::Register64
    } else if v == 30 {
        ComponentKind::VirtualRegister64
    } else if v == 31 {
        ComponentKind::Switch8
    } else if v == 32 {
        ComponentKind::Mux8
    } else if v == 33 {
        ComponentKind::Decoder1
    } else if v == 34 {
        ComponentKind::Decoder3
    } else if v == 35 {
        ComponentKind::Constant8
    } else if v == 36 {
        ComponentKind::Not8
    } else if v == 37 {
        ComponentKind::Or8
    } else if v == 38 {
        ComponentKind::And8
    } else if v == 39 {
        ComponentKind::Xor8
    } else if v == 40 {
        ComponentKind::Equal8
    } else if v == 41 {
        ComponentKind::Deleted2
    } else if v == 42 {
        ComponentKind::Deleted3
    } else if v == 43 {
        ComponentKind::Neg8
    } else if v == 44 {
        ComponentKind::Add8
    } else if v == 45 {
        ComponentKind::Mul8
    } else if v == 46 {
        ComponentKind::Splitter8
    } else if v == 47 {
        ComponentKind::Maker8
    } else if v == 48 {
        ComponentKind::Splitter64
    } else if v == 49 {
        ComponentKind::Maker64
    } else if v == 50 {
        ComponentKind::FullAdder
    } else if v == 51 {
        ComponentKind::BitMemory
    } else if v == 52 {
        ComponentKind::VirtualBitMemory
    } else if v == 53 {
        ComponentKind::Deleted10
    } else if v == 54 {
        ComponentKind::Decoder2
    } else if v == 55 {
        ComponentKind::Timing
    } else if v == 56 {
        ComponentKind::NoteSound
    } else if v == 57 {
        ComponentKind::Deleted4
    } else if v == 58 {
        ComponentKind::Deleted5
    } else if v == 59 {
        ComponentKind::Keyboard
    } else if v == 60 {
        ComponentKind::FileLoader
    } else if v == 61 {
        ComponentKind::Halt
    } else if v == 62 {
        ComponentKind::WireCluster
    } else if v == 63 {
        ComponentKind::LevelScreen
    } else if v == 64 {
        ComponentKind::Program8_1
    } else if v == 65 {
        ComponentKind::Program8_1Red
    } else if v == 66 {
        ComponentKind::Deleted6
    } else if v == 67 {
        ComponentKind::Deleted7
    } else if v == 68 {
        ComponentKind::Program8_4
    } else if v == 69 {
        ComponentKind::LevelGate
    } else if v == 70 {
        ComponentKind::Input1
    } else if v == 71 {
        ComponentKind::LevelInput2Pin
    } else if v == 72 {
        ComponentKind::LevelInput3Pin
    } else if v == 73 {
        ComponentKind::LevelInput4Pin
    } else if v == 74 {
        ComponentKind::LevelInputConditions
    } else if v == 75 {
        ComponentKind::Input8
    } else if v == 76 {
        ComponentKind::Input64
    } else if v == 77 {
        ComponentKind::LevelInputCode
    } else if v == 78 {
        ComponentKind::LevelInputArch
    } else if v == 79 {
        ComponentKind::Output1
    } else if v == 80 {
        ComponentKind::LevelOutput1Sum
    } else if v == 81 {
        ComponentKind::LevelOutput1Car
    } else if v == 82 {
        ComponentKind::Deleted8
    } else if v == 83 {
        ComponentKind::Deleted9
    } else if v == 84 {
        ComponentKind::LevelOutput2Pin
    } else if v == 85 {
        ComponentKind::LevelOutput3Pin
    } else if v == 86 {
        ComponentKind::LevelOutput4Pin
    } else if v == 87 {
        ComponentKind::Output8
    } else if v == 88 {
        ComponentKind::Output64
    } else if v == 89 {
        ComponentKind::LevelOutputArch
    } else if v == 90 {
        ComponentKind::LevelOutputCounter
    } else if v == 91 {
        ComponentKind::Deleted11
    } else if v == 92 {
        ComponentKind::Custom
    } else if v == 93 {
        ComponentKind::VirtualCustom
    } else if v == 94 {
        ComponentKind::Program
    } else if v == 95 {
        ComponentKind::DelayLine1
    } else if v == 96 {
        ComponentKind::VirtualDelayLine1
    } else if v == 97 {
        ComponentKind::Console
    } else if v == 98 {
        ComponentKind::Shl8
    } else if v == 99 {
        ComponentKind::Shr8
    } else if v == 100 {
        ComponentKind::Constant64
    } else if v == 101 {
        ComponentKind::Not64
    } else if v == 102 {
        ComponentKind::Or64
    } else if v == 103 {
        ComponentKind::And64
    } else if v == 104 {
        ComponentKind::Xor64
    } else if v == 105 {
        ComponentKind::Neg64
    } else if v == 106 {
        ComponentKind::Add64
    } else if v == 107 {
        ComponentKind::Mul64
    } else if v == 108 {
        ComponentKind::Equal64
    } else if v == 109 {
        ComponentKind::LessU64
    } else if v == 110 {
        ComponentKind::LessI64
    } else if v == 111 {
        ComponentKind::Shl64
    } else if v == 112 {
        ComponentKind::Shr64
    } else if v == 113 {
        ComponentKind::Mux64
    } else if v == 114 {
        ComponentKind::Switch64
    } else if v == 115 {
        ComponentKind::ProbeMemoryBit
    } else if v == 116 {
        ComponentKind::ProbeMemoryWord
    } else if v == 117 {
        ComponentKind::AndOrLatch
    } else if v == 118 {
        ComponentKind::NandNandLatch
    } else if v == 119 {
        ComponentKind::NorNorLatch
    } else if v == 120 {
        ComponentKind::LessU8
    } else if v == 121 {
        ComponentKind::LessI8
    } else if v == 122 {
        ComponentKind::DotMatrixDisplay
    } else if v == 123 {
        ComponentKind::SegmentDisplay
    } else if v == 124 {
        ComponentKind::Input16
    } else if v == 125 {
        ComponentKind::Input32
    } else if v == 126 {
        ComponentKind::Output16
    } else if v == 127 {
        ComponentKind::Output32
    } else if v == 128 {
        ComponentKind::Bidirectional1
    } else if v == 129 {
        ComponentKind::Bidirectional8
    } else if v == 130 {
        ComponentKind::Bidirectional16
    } else if v == 131 {
        ComponentKind::Bidirectional32
    } else if v == 132 {
        ComponentKind::Bidirectional64
    } else if v == 133 {
        ComponentKind::Buffer8
    } else if v == 134 {
        ComponentKind::Buffer16
    } else if v == 135 {
        ComponentKind::Buffer32
    } else if v == 136 {
        ComponentKind::Buffer64
    } else if v == 137 {
        ComponentKind::ProbeWireBit
    } else if v == 138 {
        ComponentKind::ProbeWireWord
    } else if v == 139 {
        ComponentKind::Switch1
    } else if v == 140 {
        ComponentKind::Output1z
    } else if v == 141 {
        ComponentKind::Output8z
    } else if v == 142 {
        ComponentKind::Output16z
    } else if v == 143 {
        ComponentKind::Output32z
    } else if v == 144 {
        ComponentKind::Output64z
    } else if v == 145 {
        ComponentKind::Constant16
    } else if v == 146 {
        ComponentKind::Not16
    } else if v == 147 {
        ComponentKind::Or16
    } else if v == 148 {
        ComponentKind::And16
    } else if v == 149 {
        ComponentKind::Xor16
    } else if v == 150 {
        ComponentKind::Neg16
    } else if v == 151 {
        ComponentKind::Add16
    } else if v == 152 {
        ComponentKind::Mul16
    } else if v == 153 {
        ComponentKind::Equal16
    } else if v == 154 {
        ComponentKind::LessU16
    } else if v == 155 {
        ComponentKind::LessI16
    } else if v == 156 {
        ComponentKind::Shl16
    } else if v == 157 {
        ComponentKind::Shr16
    } else if v == 158 {
        ComponentKind::Mux16
    } else if v == 159 {
        ComponentKind::Switch16
    } else if v == 160 {
        ComponentKind::Splitter16
    } else if v == 161 {
        ComponentKind::Maker16
    } else if v == 162 {
        ComponentKind::Register16
    } else if v == 163 {
        ComponentKind::VirtualRegister16
    } else if v == 164 {
        ComponentKind::Counter16
    } else if v == 165 {
        ComponentKind::VirtualCounter16
    } else if v == 166 {
        ComponentKind::Constant32
    } else if v == 167 {
        ComponentKind::Not32
    } else if v == 168 {
        ComponentKind::Or32
    } else if v == 169 {
        ComponentKind::And32
    } else if v == 170 {
        ComponentKind::Xor32
    } else if v == 171 {
        ComponentKind::Neg32
    } else if v == 172 {
        ComponentKind::Add32
    } else if v == 173 {
        ComponentKind::Mul32
    } else if v == 174 {
        ComponentKind::Equal32
    } else if v == 175 {
        ComponentKind::LessU32
    } else if v == 176 {
        ComponentKind::LessI32
    } else if v == 177 {
        ComponentKind::Shl32
    } else if v == 178 {
        ComponentKind::Shr32
    } else if v == 179 {
        ComponentKind::Mux32
    } else if v == 180 {
        ComponentKind::Switch32
    } else if v == 181 {
        ComponentKind::Splitter32
    } else if v == 182 {
        ComponentKind::Maker32
    } else if v == 183 {
        ComponentKind::Register32
    } else if v == 184 {
        ComponentKind::VirtualRegister32
    } else if v == 185 {
        ComponentKind::Counter32
    } else if v == 186 {
        ComponentKind::VirtualCounter32
    } else if v == 187 {
        ComponentKind::LevelOutput8z
    } else if v == 188 {
        ComponentKind::Nand8
    } else if v == 189 {
        ComponentKind::Nor8
    } else if v == 190 {
        ComponentKind::Xnor8
    } else if v == 191 {
        ComponentKind::Nand16
    } else if v == 192 {
        ComponentKind::Nor16
    } else if v == 193 {
        ComponentKind::Xnor16
    } else if v == 194 {
        ComponentKind::Nand32
    } else if v == 195 {
        ComponentKind::Nor32
    } else if v == 196 {
        ComponentKind::Xnor32
    } else if v == 197 {
        ComponentKind::Nand64
    } else if v == 198 {
        ComponentKind::Nor64
    } else if v == 199 {
        ComponentKind::Xnor64
    } else if v == 200 {
        ComponentKind::Ram
    } else if v == 201 {
        ComponentKind::VirtualRam
    } else if v == 202 {
        ComponentKind::RamLatency
    } else if v == 203 {
        ComponentKind::VirtualRamLatency
    } else if v == 204 {
        ComponentKind::RamFast
    } else if v == 205 {
        ComponentKind::VirtualRamFast
    } else if v == 206 {
        ComponentKind::Rom
    } else if v == 207 {
        ComponentKind::VirtualRom
    } else if v == 208 {
        ComponentKind::SolutionRom
    } else if v == 209 {
        ComponentKind::VirtualSolutionRom
    } else if v == 210 {
        ComponentKind::DelayLine8
    } else if v == 211 {
        ComponentKind::VirtualDelayLine8
    } else if v == 212 {
        ComponentKind::DelayLine16
    } else if v == 213 {
        ComponentKind::VirtualDelayLine16
    } else if v == 214 {
        ComponentKind::DelayLine32
    } else if v == 215 {
        ComponentKind::VirtualDelayLine32
    } else if v == 216 {
        ComponentKind::DelayLine64
    } else if v == 217 {
        ComponentKind::VirtualDelayLine64
    } else if v == 218 {
        ComponentKind::RamDualLoad
    } else if v == 219 {
        ComponentKind::VirtualRamDualLoad
    } else if v == 220 {
        ComponentKind::Hdd
    } else if v == 221 {
        ComponentKind::VirtualHdd
    } else if v == 222 {
        ComponentKind::Network
    } else if v == 223 {
        ComponentKind::Rol8
    } else if v == 224 {
        ComponentKind::Rol16
    } else if v == 225 {
        ComponentKind::Rol32
    } else if v == 226 {
        ComponentKind::Rol64
    } else if v == 227 {
        ComponentKind::Ror8
    } else if v == 228 {
        ComponentKind::Ror16
    } else if v == 229 {
        ComponentKind::Ror32
    } else if v == 230 {
        ComponentKind::Ror64
    } else if v == 231 {
        ComponentKind::IndexerBit
    } else if v == 232 {
        ComponentKind::IndexerByte
    } else if v == 233 {
        ComponentKind::DivMod8
    } else if v == 234 {
        ComponentKind::DivMod16
    } else if v == 235 {
        ComponentKind::DivMod32
    } else if v == 236 {
        ComponentKind::DivMod64
    } else if v == 237 {
        ComponentKind::SpriteDisplay
    } else if v == 238 {
        ComponentKind::ConfigDelay
    } else if v == 239 {
        ComponentKind::Clock
    } else if v == 240 {
        ComponentKind::LevelInput1
    } else if v == 241 {
        ComponentKind::LevelInput8
    } else if v == 242 {
        ComponentKind::LevelOutput1
    } else if v == 243 {
        ComponentKind::LevelOutput8
    } else if v == 244 {
        ComponentKind::Ashr8
    } else if v == 245 {
        ComponentKind::Ashr16
    } else if v == 246 {
        ComponentKind::Ashr32
    } else {
        ComponentKind::Ashr64
    }
}

/// Looks a raw component tag up in the closed table.
#[verifier::rlimit(60)]
pub fn component_kind_from_tag(v: u16) -> (k: ComponentKind)
    requires
        v < COMPONENT_KIND_COUNT,
    ensures
        k == kind_of_tag(v),
{
    match v {
        0 => ComponentKind::Error,
        1 => ComponentKind::Off,
        2 => ComponentKind::On,
        3 => ComponentKind::Buffer1,
        4 => ComponentKind::Not,
        5 => ComponentKind::And,
        6 => ComponentKind::And3,
        7 => ComponentKind::Nand,
        8 => ComponentKind::Or,
        9 => ComponentKind::Or3,
        10 => ComponentKind::Nor,
        11 => ComponentKind::Xor,
        12 => ComponentKind::Xnor,
        13 => ComponentKind::Counter8,
        14 => ComponentKind::VirtualCounter8,
        15 => ComponentKind::Counter64,
        16 => ComponentKind::VirtualCounter64,
        17 => ComponentKind::Ram8,
        18 => ComponentKind::VirtualRam8,
        19 => ComponentKind::Deleted0,
        20 => ComponentKind::Deleted1,
        21 => ComponentKind::Stack,
        22 => ComponentKind::VirtualStack,
        23 => ComponentKind::Register8,
        24 => ComponentKind::VirtualRegister8,
        25 => ComponentKind::Register8Red,
        26 => ComponentKind::VirtualRegister8Red,
        27 => ComponentKind::Register8RedPlus,
        28 => ComponentKind::VirtualRegister8RedPlus,
        29 => ComponentKind::Register64,
        30 => ComponentKind::VirtualRegister64,
        31 => ComponentKind::Switch8,
        32 => ComponentKind::Mux8,
        33 => ComponentKind::Decoder1,
        34 => ComponentKind::Decoder3,
        35 => ComponentKind::Constant8,
        36 => ComponentKind::Not8,
        37 => ComponentKind::Or8,
        38 => ComponentKind::And8,
        39 => ComponentKind::Xor8,
        40 => ComponentKind::Equal8,
        41 => ComponentKind::Deleted2,
        42 => ComponentKind::Deleted3,
        43 => ComponentKind::Neg8,
        44 => ComponentKind::Add8,
        45 => ComponentKind::Mul8,
        46 => ComponentKind::Splitter8,
        47 => ComponentKind::Maker8,
        48 => ComponentKind::Splitter64,
        49 => ComponentKind::Maker64,
        50 => ComponentKind::FullAdder,
        51 => ComponentKind::BitMemory,
        52 => ComponentKind::VirtualBitMemory,
        53 => ComponentKind::Deleted10,
        54 => ComponentKind::Decoder2,
        55 => ComponentKind::Timing,
        56 => ComponentKind::NoteSound,
        57 => ComponentKind::Deleted4,
        58 => ComponentKind::Deleted5,
        59 => ComponentKind::Keyboard,
        60 => ComponentKind::FileLoader,
        61 => ComponentKind::Halt,
        62 => ComponentKind::WireCluster,
        63 => ComponentKind::LevelScreen,
        64 => ComponentKind::Program8_1,
        65 => ComponentKind::Program8_1Red,
        66 => ComponentKind::Deleted6,
        67 => ComponentKind::Deleted7,
        68 => ComponentKind::Program8_4,
        69 => ComponentKind::LevelGate,
        70 => ComponentKind::Input1,
        71 => ComponentKind::LevelInput2Pin,
        72 => ComponentKind::LevelInput3Pin,
        73 => ComponentKind::LevelInput4Pin,
        74 => ComponentKind::LevelInputConditions,
        75 => ComponentKind::Input8,
        76 => ComponentKind::Input64,
        77 => ComponentKind::LevelInputCode,
        78 => ComponentKind::LevelInputArch,
        79 => ComponentKind::Output1,
        80 => ComponentKind::LevelOutput1Sum,
        81 => ComponentKind::LevelOutput1Car,
        82 => ComponentKind::Deleted8,
        83 => ComponentKind::Deleted9,
        84 => ComponentKind::LevelOutput2Pin,
        85 => ComponentKind::LevelOutput3Pin,
        86 => ComponentKind::LevelOutput4Pin,
        87 => ComponentKind::Output8,
        88 => ComponentKind::Output64,
        89 => ComponentKind::LevelOutputArch,
        90 => ComponentKind::LevelOutputCounter,
        91 => ComponentKind::Deleted11,
        92 => ComponentKind::Custom,
        93 => ComponentKind::VirtualCustom,
        94 => ComponentKind::Program,
        95 => ComponentKind::DelayLine1,
        96 => ComponentKind::VirtualDelayLine1,
        97 => ComponentKind::Console,
        98 => ComponentKind::Shl8,
        99 => ComponentKind::Shr8,
        100 => ComponentKind::Constant64,
        101 => ComponentKind::Not64,
        102 => ComponentKind::Or64,
        103 => ComponentKind::And64,
        104 => ComponentKind::Xor64,
        105 => ComponentKind::Neg64,
        106 => ComponentKind::Add64,
        107 => ComponentKind::Mul64,
        108 => ComponentKind::Equal64,
        109 => ComponentKind::LessU64,
        110 => ComponentKind::LessI64,
        111 => ComponentKind::Shl64,
        112 => ComponentKind::Shr64,
        113 => ComponentKind::Mux64,
        114 => ComponentKind::Switch64,
        115 => ComponentKind::ProbeMemoryBit,
        116 => ComponentKind::ProbeMemoryWord,
        117 => ComponentKind::AndOrLatch,
        118 => ComponentKind::NandNandLatch,
        119 => ComponentKind::NorNorLatch,
        120 => ComponentKind::LessU8,
        121 => ComponentKind::LessI8,
        122 => ComponentKind::DotMatrixDisplay,
        123 => ComponentKind::SegmentDisplay,
        124 => ComponentKind::Input16,
        125 => ComponentKind::Input32,
        126 => ComponentKind::Output16,
        127 => ComponentKind::Output32,
        128 => ComponentKind::Bidirectional1,
        129 => ComponentKind::Bidirectional8,
        130 => ComponentKind::Bidirectional16,
        131 => ComponentKind::Bidirectional32,
        132 => ComponentKind::Bidirectional64,
        133 => ComponentKind::Buffer8,
        134 => ComponentKind::Buffer16,
        135 => ComponentKind::Buffer32,
        136 => ComponentKind::Buffer64,
        137 => ComponentKind::ProbeWireBit,
        138 => ComponentKind::ProbeWireWord,
        139 => ComponentKind::Switch1,
        140 => ComponentKind::Output1z,
        141 => ComponentKind::Output8z,
        142 => ComponentKind::Output16z,
        143 => ComponentKind::Output32z,
        144 => ComponentKind::Output64z,
        145 => ComponentKind::Constant16,
        146 => ComponentKind::Not16,
        147 => ComponentKind::Or16,
        148 => ComponentKind::And16,
        149 => ComponentKind::Xor16,
        150 => ComponentKind::Neg16,
        151 => ComponentKind::Add16,
        152 => ComponentKind::Mul16,
        153 => ComponentKind::Equal16,
        154 => ComponentKind::LessU16,
        155 => ComponentKind::LessI16,
        156 => ComponentKind::Shl16,
        157 => ComponentKind::Shr16,
        158 => ComponentKind::Mux16,
        159 => ComponentKind::Switch16,
        160 => ComponentKind::Splitter16,
        161 => ComponentKind::Maker16,
        162 => ComponentKind::Register16,
        163 => ComponentKind::VirtualRegister16,
        164 => ComponentKind::Counter16,
        165 => ComponentKind::VirtualCounter16,
        166 => ComponentKind::Constant32,
        167 => ComponentKind::Not32,
        168 => ComponentKind::Or32,
        169 => ComponentKind::And32,
        170 => ComponentKind::Xor32,
        171 => ComponentKind::Neg32,
        172 => ComponentKind::Add32,
        173 => ComponentKind::Mul32,
        174 => ComponentKind::Equal32,
        175 => ComponentKind::LessU32,
        176 => ComponentKind::LessI32,
        177 => ComponentKind::Shl32,
        178 => ComponentKind::Shr32,
        179 => ComponentKind::Mux32,
        180 => ComponentKind::Switch32,
        181 => ComponentKind::Splitter32,
        182 => ComponentKind::Maker32,
        183 => ComponentKind::Register32,
        184 => ComponentKind::VirtualRegister32,
        185 => ComponentKind::Counter32,
        186 => ComponentKind::VirtualCounter32,
        187 => ComponentKind::LevelOutput8z,
        188 => ComponentKind::Nand8,
        189 => ComponentKind::Nor8,
        190 => ComponentKind::Xnor8,
        191 => ComponentKind::Nand16,
        192 => ComponentKind::Nor16,
        193 => ComponentKind::Xnor16,
        194 => ComponentKind::Nand32,
        195 => ComponentKind::Nor32,
        196 => ComponentKind::Xnor32,
        197 => ComponentKind::Nand64,
        198 => ComponentKind::Nor64,
        199 => ComponentKind::Xnor64,
        200 => ComponentKind::Ram,
        201 => ComponentKind::VirtualRam,
        202 => ComponentKind::RamLatency,
        203 => ComponentKind::VirtualRamLatency,
        204 => ComponentKind::RamFast,
        205 => ComponentKind::VirtualRamFast,
        206 => ComponentKind::Rom,
        207 => ComponentKind::VirtualRom,
        208 => ComponentKind::SolutionRom,
        209 => ComponentKind::VirtualSolutionRom,
        210 => ComponentKind::DelayLine8,
        211 => ComponentKind::VirtualDelayLine8,
        212 => ComponentKind::DelayLine16,
        213 => ComponentKind::VirtualDelayLine16,
        214 => ComponentKind::DelayLine32,
        215 => ComponentKind::VirtualDelayLine32,
        216 => ComponentKind::DelayLine64,
        217 => ComponentKind::VirtualDelayLine64,
        218 => ComponentKind::RamDualLoad,
        219 => ComponentKind::VirtualRamDualLoad,
        220 => ComponentKind::Hdd,
        221 => ComponentKind::VirtualHdd,
        222 => ComponentKind::Network,
        223 => ComponentKind::Rol8,
        224 => ComponentKind::Rol16,
        225 => ComponentKind::Rol32,
        226 => ComponentKind::Rol64,
        227 => ComponentKind::Ror8,
        228 => ComponentKind::Ror16,
        229 => ComponentKind::Ror32,
        230 => ComponentKind::Ror64,
        231 => ComponentKind::IndexerBit,
        232 => ComponentKind::IndexerByte,
        233 => ComponentKind::DivMod8,
        234 => ComponentKind::DivMod16,
        235 => ComponentKind::DivMod32,
        236 => ComponentKind::DivMod64,
        237 => ComponentKind::SpriteDisplay,
        238 => ComponentKind::ConfigDelay,
        239 => ComponentKind::Clock,
        240 => ComponentKind::LevelInput1,
        241 => ComponentKind::LevelInput8,
        242 => ComponentKind::LevelOutput1,
        243 => ComponentKind::LevelOutput8,
        244 => ComponentKind::Ashr8,
        245 => ComponentKind::Ashr16,
        246 => ComponentKind::Ashr32,
        247 => ComponentKind::Ashr64,
        _ => ComponentKind::Error,
    }
}

} // verus!
