use solinteg_read::registers::{
    blocks_decodable, check_readings_consistency, decode_readings, read_plan, regs_to_i32_be,
    u16_to_i16, Readings, RegisterBlock, INVERTER_UNIT_ID,
};

fn sample() -> Readings {
    Readings {
        pv_power_w: 1234,
        grid_power_w: 3456,
        home_load_w: 2345,
        inverter_temp_dc: 305,
        soc_centi_percent: 8800,
        battery_current_da: -42,
        battery_power_w: -1111,
    }
}

#[test]
fn u16_words_read_as_twos_complement() {
    assert_eq!(u16_to_i16(0), 0);
    assert_eq!(u16_to_i16(0x7fff), 32767);
    assert_eq!(u16_to_i16(0x8000), -32768);
    assert_eq!(u16_to_i16(0xffd6), -42);
}

#[test]
fn register_pairs_read_high_word_first() {
    assert_eq!(regs_to_i32_be(0, 1850), 1850);
    assert_eq!(regs_to_i32_be(1, 0), 65536);
    assert_eq!(regs_to_i32_be(0xffff, 0xfba9), -1111);
    assert_eq!(regs_to_i32_be(0x8000, 0), i32::MIN);
    assert_eq!(regs_to_i32_be(0x7fff, 0xffff), i32::MAX);
}

#[test]
fn register_pair_roundtrip() {
    for x in [0i32, 1, -1, 1850, -1111, i32::MIN, i32::MAX, 123_456_789] {
        let bits = x as u32;
        assert_eq!(regs_to_i32_be((bits >> 16) as u16, (bits & 0xffff) as u16), x);
    }
}

#[test]
fn read_plan_lists_blocks_in_order() {
    let plan = read_plan();
    let expected = [
        (11028, 2, "failed to read PV power registers"),
        (11058, 2, "failed to read grid load registers"),
        (11016, 2, "failed to read home load registers"),
        (11032, 1, "failed to read inverter temperature register"),
        (11056, 1, "failed to read SOC register"),
        (30254, 4, "failed to read battery current registers"),
        (30258, 2, "failed to read battery power registers"),
    ];
    assert_eq!(plan.len(), expected.len());
    for (block, (address, count, context)) in plan.iter().zip(expected.iter()) {
        assert_eq!(block.address(), *address);
        assert_eq!(block.count(), *count);
        assert_eq!(block.failure_context(), *context);
    }
    assert_eq!(plan[0], RegisterBlock::PvPower);
    assert_eq!(INVERTER_UNIT_ID, 255);
}

#[test]
fn decode_readings_takes_the_documented_words() {
    let blocks = vec![
        vec![0, 1850],
        vec![7, 1000],
        vec![9, 569],
        vec![305],
        vec![9900],
        vec![0, 0xffd6, 1, 2],
        vec![0xffff, 0xfba9],
    ];
    assert!(blocks_decodable(&blocks));
    let r = decode_readings(&blocks);
    assert_eq!(
        r,
        Readings {
            pv_power_w: 1850,
            grid_power_w: 1000,
            home_load_w: 569,
            inverter_temp_dc: 305,
            soc_centi_percent: 9900,
            battery_current_da: -42,
            battery_power_w: -1111,
        }
    );
}

#[test]
fn short_blocks_are_not_decodable() {
    let blocks = vec![
        vec![0, 1850],
        vec![7, 1000],
        vec![9, 569],
        vec![305],
        vec![9900],
        vec![0],
        vec![0xffff, 0xfba9],
    ];
    assert!(!blocks_decodable(&blocks));
    assert!(!blocks_decodable(&Vec::new()));
}

#[test]
fn consistency_bounds_are_inclusive() {
    assert!(check_readings_consistency(&sample()));
    let mut r = sample();
    r.pv_power_w = 60000;
    r.grid_power_w = 60000;
    r.home_load_w = 60000;
    r.soc_centi_percent = 10000;
    assert!(check_readings_consistency(&r));
    let mut r = sample();
    r.pv_power_w = 60001;
    assert!(!check_readings_consistency(&r));
    let mut r = sample();
    r.grid_power_w = 60001;
    assert!(!check_readings_consistency(&r));
    let mut r = sample();
    r.home_load_w = 65535;
    assert!(!check_readings_consistency(&r));
    let mut r = sample();
    r.soc_centi_percent = 10001;
    assert!(!check_readings_consistency(&r));
}
