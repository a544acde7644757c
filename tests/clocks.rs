use air001_hal::prescaler::{hpre_bits, hpre_divisor, ppre_bits, ppre_divisor};
use air001_hal::rcc::{flash_latency, get_freq, RegOp, SystClkSource, CFGR, HSI};

#[derive(Debug, PartialEq)]
struct Regs(u32);

#[test]
fn source_table_gives_hsi_frequency() {
    assert_eq!(get_freq(&SystClkSource::HSI), 8_000_000);
    assert_eq!(HSI, 8_000_000);
}

#[test]
fn defaults_keep_oscillator_undivided() {
    let (rcc, ops) = CFGR::new(Regs(1)).freeze();
    assert_eq!(rcc.clocks.sysclk(), 8_000_000);
    assert_eq!(rcc.clocks.hclk(), 8_000_000);
    assert_eq!(rcc.clocks.pclk(), 8_000_000);
    assert_eq!(
        ops,
        vec![
            RegOp::FlashLatency(false),
            RegOp::SourceOn(SystClkSource::HSI),
            RegOp::WaitSourceReady(SystClkSource::HSI),
            RegOp::Switch { ppre_bits: 0b011, hpre_bits: 0b0111, sw_bits: 0b000 },
        ]
    );
}

#[test]
fn hclk_equal_to_oscillator_is_undivided() {
    let (rcc, ops) = CFGR::new(Regs(1)).hclk(8_000_000).freeze();
    assert_eq!(rcc.clocks.hclk(), 8_000_000);
    assert_eq!(ops[3], RegOp::Switch { ppre_bits: 0b011, hpre_bits: 0b0111, sw_bits: 0b000 });
}

#[test]
fn sysclk_equal_to_oscillator_leaves_pll_off() {
    let (rcc, ops) = CFGR::new(Regs(1)).sysclk(8_000_000).freeze();
    assert_eq!(rcc.clocks.sysclk(), 8_000_000);
    assert!(!ops.contains(&RegOp::PllOn));
    assert_eq!(ops.len(), 4);
}

#[test]
fn other_sysclk_doubles_oscillator() {
    let (rcc, ops) = CFGR::new(Regs(1)).sysclk(48_000_000).freeze();
    assert_eq!(rcc.clocks.sysclk(), 16_000_000);
    assert_eq!(rcc.clocks.hclk(), 16_000_000);
    assert_eq!(rcc.clocks.pclk(), 16_000_000);
    assert_eq!(
        ops,
        vec![
            RegOp::FlashLatency(false),
            RegOp::SourceOn(SystClkSource::HSI),
            RegOp::WaitSourceReady(SystClkSource::HSI),
            RegOp::PllSource(SystClkSource::HSI),
            RegOp::PllOn,
            RegOp::WaitPllReady,
            RegOp::Switch { ppre_bits: 0b011, hpre_bits: 0b0111, sw_bits: 0b010 },
        ]
    );
}

#[test]
fn hclk_at_oscillator_with_pll_is_halved() {
    let (rcc, ops) = CFGR::new(Regs(1)).sysclk(16_000_000).hclk(8_000_000).freeze();
    assert_eq!(rcc.clocks.sysclk(), 16_000_000);
    assert_eq!(rcc.clocks.hclk(), 8_000_000);
    assert_eq!(ops[6], RegOp::Switch { ppre_bits: 0b011, hpre_bits: 0b1000, sw_bits: 0b010 });
}

#[test]
fn bus_clocks_never_exceed_their_source() {
    let cases: [(Option<u32>, Option<u32>, Option<u32>); 6] = [
        (None, None, None),
        (Some(48_000_000), Some(3_000_000), Some(1_000_000)),
        (Some(8_000_000), Some(1_000), Some(10)),
        (Some(24_000_000), Some(16_000_000), Some(16_000_000)),
        (None, Some(100_000), None),
        (None, None, Some(2_000_000)),
    ];
    for (sys, h, p) in cases {
        let mut cfgr = CFGR::new(Regs(0));
        if let Some(f) = sys {
            cfgr = cfgr.sysclk(f);
        }
        if let Some(f) = h {
            cfgr = cfgr.hclk(f);
        }
        if let Some(f) = p {
            cfgr = cfgr.pclk(f);
        }
        assert!(cfgr.is_valid());
        let (rcc, _) = cfgr.freeze();
        assert!(rcc.clocks.pclk() <= rcc.clocks.hclk());
        assert!(rcc.clocks.hclk() <= rcc.clocks.sysclk());
    }
}

#[test]
fn realized_clocks_follow_bucket_divisors() {
    // 16 MHz / 3 MHz = 5 -> /4 -> 4 MHz; 4 MHz / 1 MHz = 4 -> /4 -> 1 MHz
    let (rcc, ops) = CFGR::new(Regs(0))
        .sysclk(48_000_000)
        .hclk(3_000_000)
        .pclk(1_000_000)
        .freeze();
    assert_eq!(rcc.clocks.hclk(), 4_000_000);
    assert_eq!(rcc.clocks.pclk(), 1_000_000);
    assert_eq!(ops[6], RegOp::Switch { ppre_bits: 0b101, hpre_bits: 0b1001, sw_bits: 0b010 });
}

#[test]
fn largest_ahb_divisor() {
    // 8 MHz / 1 kHz = 8000 -> /512 -> 15625 Hz; 15625 / 10 = 1562 -> /16
    let (rcc, _) = CFGR::new(Regs(0)).hclk(1_000).pclk(10).freeze();
    assert_eq!(rcc.clocks.hclk(), 15_625);
    assert_eq!(rcc.clocks.pclk(), 976);
}

#[test]
fn later_request_overwrites_earlier() {
    let (rcc, _) = CFGR::new(Regs(0)).hclk(1_000_000).hclk(8_000_000).freeze();
    assert_eq!(rcc.clocks.hclk(), 8_000_000);
}

#[test]
fn flash_latency_threshold() {
    assert!(!flash_latency(24_000_000));
    assert!(flash_latency(24_000_001));
    assert!(flash_latency(48_000_000));
    assert!(!flash_latency(16_000_000));
    let (_, ops) = CFGR::new(Regs(0)).sysclk(48_000_000).freeze();
    assert_eq!(ops[0], RegOp::FlashLatency(false));
}

#[test]
fn ahb_bucket_edges() {
    assert_eq!(hpre_divisor(hpre_bits(1)), 1);
    assert_eq!(hpre_divisor(hpre_bits(2)), 2);
    assert_eq!(hpre_divisor(hpre_bits(3)), 4);
    assert_eq!(hpre_divisor(hpre_bits(5)), 4);
    assert_eq!(hpre_divisor(hpre_bits(6)), 8);
    assert_eq!(hpre_divisor(hpre_bits(11)), 8);
    assert_eq!(hpre_divisor(hpre_bits(12)), 16);
    assert_eq!(hpre_divisor(hpre_bits(39)), 16);
    assert_eq!(hpre_divisor(hpre_bits(40)), 64);
    assert_eq!(hpre_divisor(hpre_bits(95)), 64);
    assert_eq!(hpre_divisor(hpre_bits(96)), 128);
    assert_eq!(hpre_divisor(hpre_bits(191)), 128);
    assert_eq!(hpre_divisor(hpre_bits(192)), 256);
    assert_eq!(hpre_divisor(hpre_bits(383)), 256);
    assert_eq!(hpre_divisor(hpre_bits(384)), 512);
    assert_eq!(hpre_bits(5), 0b1001);
    assert_eq!(hpre_bits(6), 0b1010);
}

#[test]
fn apb_bucket_edges() {
    assert_eq!(ppre_divisor(ppre_bits(1)), 1);
    assert_eq!(ppre_divisor(ppre_bits(2)), 2);
    assert_eq!(ppre_divisor(ppre_bits(5)), 4);
    assert_eq!(ppre_divisor(ppre_bits(6)), 8);
    assert_eq!(ppre_divisor(ppre_bits(11)), 8);
    assert_eq!(ppre_divisor(ppre_bits(12)), 16);
    assert_eq!(ppre_divisor(ppre_bits(1000)), 16);
    assert_eq!(ppre_bits(11), 0b110);
    assert_eq!(ppre_bits(12), 0b111);
}

#[test]
fn bucket_edges_through_freeze() {
    // 8 MHz / 1.6 MHz = 5 -> /4; 8 MHz / 1_333_333 Hz = 6 -> /8
    let (rcc, _) = CFGR::new(Regs(0)).hclk(1_600_000).freeze();
    assert_eq!(rcc.clocks.hclk(), 2_000_000);
    let (rcc, _) = CFGR::new(Regs(0)).hclk(1_333_333).freeze();
    assert_eq!(rcc.clocks.hclk(), 1_000_000);
    // 8 MHz / 700_000 Hz = 11 (rounded down) -> /8; 8 MHz / 666_666 Hz = 12 -> /16
    let (rcc, _) = CFGR::new(Regs(0)).pclk(700_000).freeze();
    assert_eq!(rcc.clocks.pclk(), 1_000_000);
    let (rcc, _) = CFGR::new(Regs(0)).pclk(666_666).freeze();
    assert_eq!(rcc.clocks.pclk(), 500_000);
}

#[test]
fn invalid_requests_are_reported() {
    assert!(!CFGR::new(Regs(0)).hclk(0).is_valid());
    assert!(!CFGR::new(Regs(0)).hclk(9_000_000).is_valid());
    assert!(CFGR::new(Regs(0)).sysclk(48_000_000).hclk(9_000_000).is_valid());
    assert!(!CFGR::new(Regs(0)).hclk(2_000_000).pclk(3_000_000).is_valid());
    assert!(!CFGR::new(Regs(0)).pclk(0).is_valid());
    assert!(CFGR::new(Regs(0)).hclk(2_000_000).pclk(2_000_000).is_valid());
}

#[test]
fn register_block_moves_into_result() {
    let cfgr = CFGR::new(Regs(7)).sysclk(16_000_000);
    let (rcc, _) = cfgr.freeze();
    assert_eq!(rcc.regs, Regs(7));
}
