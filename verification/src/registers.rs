//! The inverter's Modbus holding registers: which blocks are read, how their
//! words decode into readings, and when readings are plausible.
use vstd::prelude::*;

verus! {

/// The Modbus unit identifier that the inverter answers to.
pub const INVERTER_UNIT_ID: u8 = 255;

/// A 16-bit register word read as a two's-complement signed value.
pub open spec fn spec_u16_to_i16(v: u16) -> int {
    if v < 0x8000 { v as int } else { v as int - 0x1_0000 }
}

/// Two register words, high word first, read as one two's-complement
/// signed 32-bit value.
pub open spec fn spec_regs_to_i32_be(high: u16, low: u16) -> int {
    let u = high as int * 0x1_0000 + low as int;
    if high < 0x8000 { u } else { u - 0x1_0000_0000 }
}

/// Reinterprets a register word as a signed value.
pub fn u16_to_i16(v: u16) -> (r: i16)
    ensures
        r == spec_u16_to_i16(v),
{
    if v < 0x8000 {
        assert(v as i16 == v) by (bit_vector)
            requires
                v < 0x8000,
        ;
    } else {
        assert(v as i16 == v - 0x1_0000) by (bit_vector)
            requires
                v >= 0x8000,
        ;
    }
    v as i16
}

/// Combines two register words, high word first, into a signed 32-bit value.
pub fn regs_to_i32_be(high: u16, low: u16) -> (r: i32)
    ensures
        r == spec_regs_to_i32_be(high, low),
{
    let w: u32 = (high as u32) << 16 | (low as u32);
    assert(w == high as u32 * 0x1_0000 + low as u32) by (bit_vector)
        requires
            w == (high as u32) << 16 | (low as u32),
    ;
    if high < 0x8000 {
        assert(w < 0x8000_0000) by (bit_vector)
            requires
                w == high as u32 * 0x1_0000 + low as u32,
                high < 0x8000,
        ;
        assert(w as i32 == w) by (bit_vector)
            requires
                w < 0x8000_0000,
        ;
    } else {
        assert(w >= 0x8000_0000) by (bit_vector)
            requires
                w == high as u32 * 0x1_0000 + low as u32,
                high >= 0x8000,
        ;
        assert(w as i32 == w - 0x1_0000_0000) by (bit_vector)
            requires
                w >= 0x8000_0000,
        ;
    }
    w as i32
}

/// The high register word of a signed 32-bit value.
pub open spec fn high_word(x: i32) -> u16 {
    ((x as u32) >> 16u32) as u16
}

/// The low register word of a signed 32-bit value.
pub open spec fn low_word(x: i32) -> u16 {
    ((x as u32) & 0xffffu32) as u16
}

/// Law: every signed 32-bit value is held by exactly one pair of register
/// words, high word first, and combining that pair gives the value back.
pub proof fn lemma_regs_to_i32_be_roundtrip(x: i32)
    ensures
        spec_regs_to_i32_be(high_word(x), low_word(x)) == x,
{
    let h = high_word(x);
    let l = low_word(x);
    assert(h as u32 * 0x1_0000 + l as u32 == x as u32) by (bit_vector)
        requires
            h == ((x as u32) >> 16u32) as u16,
            l == ((x as u32) & 0xffffu32) as u16,
    ;
    assert((h < 0x8000) == (x >= 0)) by (bit_vector)
        requires
            h == ((x as u32) >> 16u32) as u16,
    ;
    assert(x >= 0 ==> x as u32 == x) by (bit_vector);
    assert(x < 0 ==> x as u32 == x + 0x1_0000_0000) by (bit_vector);
}

/// Law: a register word read as signed keeps its 16 bits: the value lies
/// in the signed 16-bit range and agrees with the word modulo 2^16; words
/// below 0x8000 keep their value.
pub proof fn lemma_u16_to_i16_bits(v: u16)
    ensures
        -32768 <= spec_u16_to_i16(v) <= 32767,
        (spec_u16_to_i16(v) - v) % 65536 == 0,
        v < 0x8000 ==> spec_u16_to_i16(v) == v,
{
}

/// Law: two words read high word first keep their 32 bits: the value lies
/// in the signed 32-bit range and agrees with `high * 2^16 + low` modulo
/// 2^32.
pub proof fn lemma_regs_to_i32_be_bits(high: u16, low: u16)
    ensures
        -0x8000_0000 <= spec_regs_to_i32_be(high, low) <= 0x7fff_ffff,
        (spec_regs_to_i32_be(high, low) - (high * 0x1_0000 + low)) % 0x1_0000_0000 == 0,
        spec_regs_to_i32_be(0, low) == low,
{
}

/// Law: decoding two register words is injective: different word pairs
/// never decode to the same value.
pub proof fn lemma_regs_to_i32_be_injective(h1: u16, l1: u16, h2: u16, l2: u16)
    requires
        spec_regs_to_i32_be(h1, l1) == spec_regs_to_i32_be(h2, l2),
    ensures
        h1 == h2,
        l1 == l2,
{
}

/// A block of holding registers that one reading comes from.
#[derive(Debug, Clone, Copy, PartialEq, Eq, Structural)]
pub enum RegisterBlock {
    PvPower,
    GridLoad,
    HomeLoad,
    InverterTemp,
    StateOfCharge,
    BatteryCurrent,
    BatteryPower,
}

pub open spec fn spec_block_address(b: RegisterBlock) -> u16 {
    match b {
        RegisterBlock::PvPower => 11028,
        RegisterBlock::GridLoad => 11058,
        RegisterBlock::HomeLoad => 11016,
        RegisterBlock::InverterTemp => 11032,
        RegisterBlock::StateOfCharge => 11056,
        RegisterBlock::BatteryCurrent => 30254,
        RegisterBlock::BatteryPower => 30258,
    }
}

pub open spec fn spec_block_count(b: RegisterBlock) -> u16 {
    match b {
        RegisterBlock::PvPower => 2,
        RegisterBlock::GridLoad => 2,
        RegisterBlock::HomeLoad => 2,
        RegisterBlock::InverterTemp => 1,
        RegisterBlock::StateOfCharge => 1,
        RegisterBlock::BatteryCurrent => 4,
        RegisterBlock::BatteryPower => 2,
    }
}

impl RegisterBlock {
    /// The first register of the block.
    pub fn address(&self) -> (a: u16)
        ensures
            a == spec_block_address(*self),
    {
        match self {
            RegisterBlock::PvPower => 11028,
            RegisterBlock::GridLoad => 11058,
            RegisterBlock::HomeLoad => 11016,
            RegisterBlock::InverterTemp => 11032,
            RegisterBlock::StateOfCharge => 11056,
            RegisterBlock::BatteryCurrent => 30254,
            RegisterBlock::BatteryPower => 30258,
        }
    }

    /// How many registers the block spans.
    pub fn count(&self) -> (c: u16)
        ensures
            c == spec_block_count(*self),
    {
        match self {
            RegisterBlock::PvPower => 2,
            RegisterBlock::GridLoad => 2,
            RegisterBlock::HomeLoad => 2,
            RegisterBlock::InverterTemp => 1,
            RegisterBlock::StateOfCharge => 1,
            RegisterBlock::BatteryCurrent => 4,
            RegisterBlock::BatteryPower => 2,
        }
    }

    /// What a failed read of the block is reported as.
    pub fn failure_context(&self) -> (s: &'static str)
        ensures
            *self == RegisterBlock::PvPower ==> s@ == "failed to read PV power registers"@,
            *self == RegisterBlock::GridLoad ==> s@ == "failed to read grid load registers"@,
            *self == RegisterBlock::HomeLoad ==> s@ == "failed to read home load registers"@,
            *self == RegisterBlock::InverterTemp ==> s@
                == "failed to read inverter temperature register"@,
            *self == RegisterBlock::StateOfCharge ==> s@ == "failed to read SOC register"@,
            *self == RegisterBlock::BatteryCurrent ==> s@
                == "failed to read battery current registers"@,
            *self == RegisterBlock::BatteryPower ==> s@
                == "failed to read battery power registers"@,
    {
        match self {
            RegisterBlock::PvPower => "failed to read PV power registers",
            RegisterBlock::GridLoad => "failed to read grid load registers",
            RegisterBlock::HomeLoad => "failed to read home load registers",
            RegisterBlock::InverterTemp => "failed to read inverter temperature register",
            RegisterBlock::StateOfCharge => "failed to read SOC register",
            RegisterBlock::BatteryCurrent => "failed to read battery current registers",
            RegisterBlock::BatteryPower => "failed to read battery power registers",
        }
    }
}

/// The blocks in the order in which they are read.
pub open spec fn spec_read_plan() -> Seq<RegisterBlock> {
    seq![
        RegisterBlock::PvPower,
        RegisterBlock::GridLoad,
        RegisterBlock::HomeLoad,
        RegisterBlock::InverterTemp,
        RegisterBlock::StateOfCharge,
        RegisterBlock::BatteryCurrent,
        RegisterBlock::BatteryPower,
    ]
}

/// The register blocks that one reading of the inverter reads, in order.
pub fn read_plan() -> (plan: Vec<RegisterBlock>)
    ensures
        plan@ == spec_read_plan(),
{
    let plan = vec![
        RegisterBlock::PvPower,
        RegisterBlock::GridLoad,
        RegisterBlock::HomeLoad,
        RegisterBlock::InverterTemp,
        RegisterBlock::StateOfCharge,
        RegisterBlock::BatteryCurrent,
        RegisterBlock::BatteryPower,
    ];
    assert(plan@ =~= spec_read_plan());
    plan
}

/// One set of readings, each in the unit its registers count in.
///
/// The quantities shown to users are these values divided by a power of
/// ten: kilowatts are watts / 1000, degrees are tenths / 10, percent is
/// hundredths / 100 and amperes are tenths / 10.
#[derive(Debug, Clone, Copy, PartialEq, Eq, Structural)]
pub struct Readings {
    /// Photovoltaic power, in watts.
    pub pv_power_w: u16,
    /// Grid power, in watts.
    pub grid_power_w: u16,
    /// Home load, in watts.
    pub home_load_w: u16,
    /// Inverter temperature, in tenths of a degree Celsius.
    pub inverter_temp_dc: u16,
    /// Battery state of charge, in hundredths of a percent.
    pub soc_centi_percent: u16,
    /// Battery current, in tenths of an ampere (negative when discharging).
    pub battery_current_da: i16,
    /// Battery power, in watts (negative when discharging).
    pub battery_power_w: i32,
}

/// Whether the register blocks, read in the order of the plan, hold every
/// word that decoding looks at.
pub open spec fn spec_blocks_decodable(blocks: Seq<Seq<u16>>) -> bool {
    &&& blocks.len() == 7
    &&& blocks[0].len() >= 2
    &&& blocks[1].len() >= 2
    &&& blocks[2].len() >= 2
    &&& blocks[3].len() >= 1
    &&& blocks[4].len() >= 1
    &&& blocks[5].len() >= 2
    &&& blocks[6].len() >= 2
}

/// The readings that the register blocks hold.
pub open spec fn spec_decode_readings(blocks: Seq<Seq<u16>>) -> Readings {
    Readings {
        pv_power_w: blocks[0][1],
        grid_power_w: blocks[1][1],
        home_load_w: blocks[2][1],
        inverter_temp_dc: blocks[3][0],
        soc_centi_percent: blocks[4][0],
        battery_current_da: spec_u16_to_i16(blocks[5][1]) as i16,
        battery_power_w: spec_regs_to_i32_be(blocks[6][0], blocks[6][1]) as i32,
    }
}

/// Whether the blocks can be decoded.
pub fn blocks_decodable(blocks: &Vec<Vec<u16>>) -> (r: bool)
    ensures
        r == spec_blocks_decodable(blocks.deep_view()),
{
    blocks.len() == 7 && blocks[0].len() >= 2 && blocks[1].len() >= 2 && blocks[2].len() >= 2
        && blocks[3].len() >= 1 && blocks[4].len() >= 1 && blocks[5].len() >= 2
        && blocks[6].len() >= 2
}

/// Decodes the register blocks, read in the order of `read_plan`, into readings.
pub fn decode_readings(blocks: &Vec<Vec<u16>>) -> (r: Readings)
    requires
        spec_blocks_decodable(blocks.deep_view()),
    ensures
        r == spec_decode_readings(blocks.deep_view()),
{
    let ghost b = blocks.deep_view();
    assert(blocks[6]@ == b[6]);
    assert(blocks[5]@ == b[5]);
    Readings {
        pv_power_w: blocks[0][1],
        grid_power_w: blocks[1][1],
        home_load_w: blocks[2][1],
        inverter_temp_dc: blocks[3][0],
        soc_centi_percent: blocks[4][0],
        battery_current_da: u16_to_i16(blocks[5][1]),
        battery_power_w: regs_to_i32_be(blocks[6][0], blocks[6][1]),
    }
}

/// Register blocks as the inverter holds the readings, in the order of
/// the plan: each reading in the word of its block that decoding reads,
/// other words zero.
pub open spec fn blocks_holding(r: Readings) -> Seq<Seq<u16>> {
    let current = r.battery_current_da as int;
    let power = r.battery_power_w as int;
    let cw: u16 = (if current < 0 { current + 0x1_0000 } else { current }) as u16;
    let pw: int = if power < 0 { power + 0x1_0000_0000 } else { power };
    seq![
        seq![0u16, r.pv_power_w],
        seq![0u16, r.grid_power_w],
        seq![0u16, r.home_load_w],
        seq![r.inverter_temp_dc],
        seq![r.soc_centi_percent],
        seq![0u16, cw, 0u16, 0u16],
        seq![(pw / 0x1_0000) as u16, (pw % 0x1_0000) as u16],
    ]
}

/// Law: decoding gives back every reading that the registers hold, each
/// from the word of its own block that the inverter keeps it in (the
/// second word of the power blocks and of the battery current block, the
/// only word of the temperature and charge blocks, and both words of the
/// battery power block, high word first).
pub proof fn lemma_decode_readings_roundtrip(r: Readings)
    ensures
        spec_blocks_decodable(blocks_holding(r)),
        spec_decode_readings(blocks_holding(r)) == r,
{
    let b = blocks_holding(r);
    let current = r.battery_current_da as int;
    let power = r.battery_power_w as int;
    let pw: int = if power < 0 { power + 0x1_0000_0000 } else { power };
    assert(b[5][1] as int == if current < 0 { current + 0x1_0000 } else { current });
    assert(0 <= pw < 0x1_0000_0000);
    assert(b[6][0] as int == pw / 0x1_0000);
    assert(b[6][1] as int == pw % 0x1_0000);
    assert(pw == (pw / 0x1_0000) * 0x1_0000 + pw % 0x1_0000);
    assert((b[6][0] < 0x8000) == (power >= 0));
}

/// Law: each reading depends on its own block only.
pub proof fn lemma_decode_readings_local(blocks: Seq<Seq<u16>>, i: int, words: Seq<u16>)
    requires
        spec_blocks_decodable(blocks),
        0 <= i < 7,
        spec_blocks_decodable(blocks.update(i, words)),
    ensures
        i != 0 ==> spec_decode_readings(blocks.update(i, words)).pv_power_w
            == spec_decode_readings(blocks).pv_power_w,
        i != 1 ==> spec_decode_readings(blocks.update(i, words)).grid_power_w
            == spec_decode_readings(blocks).grid_power_w,
        i != 2 ==> spec_decode_readings(blocks.update(i, words)).home_load_w
            == spec_decode_readings(blocks).home_load_w,
        i != 3 ==> spec_decode_readings(blocks.update(i, words)).inverter_temp_dc
            == spec_decode_readings(blocks).inverter_temp_dc,
        i != 4 ==> spec_decode_readings(blocks.update(i, words)).soc_centi_percent
            == spec_decode_readings(blocks).soc_centi_percent,
        i != 5 ==> spec_decode_readings(blocks.update(i, words)).battery_current_da
            == spec_decode_readings(blocks).battery_current_da,
        i != 6 ==> spec_decode_readings(blocks.update(i, words)).battery_power_w
            == spec_decode_readings(blocks).battery_power_w,
{
}

/// The highest power, in watts, that a plausible reading shows.
pub const MAX_PLAUSIBLE_POWER_W: u16 = 60000;

/// The highest state of charge, in hundredths of a percent.
pub const MAX_SOC_CENTI_PERCENT: u16 = 10000;

/// Whether readings are plausible: no power above 60 kW and a state of
/// charge between 0 and 100 %.
pub open spec fn spec_readings_consistent(r: Readings) -> bool {
    &&& r.pv_power_w <= MAX_PLAUSIBLE_POWER_W
    &&& r.grid_power_w <= MAX_PLAUSIBLE_POWER_W
    &&& r.home_load_w <= MAX_PLAUSIBLE_POWER_W
    &&& r.soc_centi_percent <= MAX_SOC_CENTI_PERCENT
}

/// Law: plausibility is decided by four bounds and nothing else: readings
/// are plausible exactly when PV power, grid power and home load are each at
/// most 60 kW (60000 W) and the state of charge is at most 100 % (10000
/// hundredths); temperature, battery current and battery power never
/// matter, and zero power (as at night) is plausible.
pub proof fn lemma_plausibility_bounds(r: Readings)
    ensures
        spec_readings_consistent(r) <==> (r.pv_power_w <= 60000 && r.grid_power_w <= 60000
            && r.home_load_w <= 60000 && r.soc_centi_percent <= 10000),
{
}

/// Law: lowering any power or the state of charge keeps plausible readings
/// plausible, and the other readings can change freely.
pub proof fn lemma_plausibility_monotone(r: Readings, s: Readings)
    requires
        spec_readings_consistent(r),
        s.pv_power_w <= r.pv_power_w,
        s.grid_power_w <= r.grid_power_w,
        s.home_load_w <= r.home_load_w,
        s.soc_centi_percent <= r.soc_centi_percent,
    ensures
        spec_readings_consistent(s),
{
}

/// Checks that readings are plausible.
pub fn check_readings_consistency(readings: &Readings) -> (ok: bool)
    ensures
        ok == spec_readings_consistent(*readings),
{
    if readings.pv_power_w > MAX_PLAUSIBLE_POWER_W || readings.grid_power_w > MAX_PLAUSIBLE_POWER_W
        || readings.home_load_w > MAX_PLAUSIBLE_POWER_W || readings.soc_centi_percent
        > MAX_SOC_CENTI_PERCENT {
        return false;
    }
    true
}

} // verus!
