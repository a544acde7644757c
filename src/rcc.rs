//! Reset and clock control: request builder, clock solver and the ordered
//! register program that commits a configuration.
use vstd::prelude::*;

use crate::prescaler::{
    ahb_code, ahb_divisor, apb_code, apb_divisor, hpre_bits, hpre_divisor, ppre_bits,
    ppre_divisor, HPRE_DIV1, PPRE_DIV1,
};

verus! {

/// Clock-control register block of the peripheral access crate, carried
/// through the builder into the frozen result without being looked into.
#[verifier::external_type_specification]
#[verifier::external_body]
pub struct ExRcc(air001_pac::RCC);

/// Nominal frequency of the internal high-speed oscillator, in Hz.
pub const HSI: u32 = 8_000_000;

/// System clock above which the flash needs one wait state, in Hz.
pub const FLASH_LATENCY_THRESHOLD: u32 = 24_000_000;

/// SW field value that selects the PLL output as system clock.
pub const SW_PLL: u8 = 0b010;

/// Oscillators that can drive the clock tree.
#[derive(Debug, Clone, Copy, PartialEq, Eq, Structural)]
pub enum SystClkSource {
    HSI,
}

/// Nominal output frequency of an oscillator, in Hz.
pub open spec fn source_freq(src: SystClkSource) -> int {
    match src {
        SystClkSource::HSI => HSI as int,
    }
}

/// SW field value that selects an oscillator directly as system clock.
pub open spec fn source_sw(src: SystClkSource) -> u8 {
    match src {
        SystClkSource::HSI => 0b000,
    }
}

/// Nominal output frequency of an oscillator, in Hz.
pub fn get_freq(c_src: &SystClkSource) -> (r: u32)
    ensures
        r as int == source_freq(*c_src),
{
    match c_src {
        SystClkSource::HSI => HSI,
    }
}

/// SW field value that selects an oscillator directly as system clock.
pub fn switch_bits(c_src: &SystClkSource) -> (r: u8)
    ensures
        r == source_sw(*c_src),
{
    match c_src {
        SystClkSource::HSI => 0b000,
    }
}

/// One access to the clock-control or flash registers. A `Wait*` operation
/// spins until the named ready flag reads as set.
#[derive(Debug, Clone, Copy, PartialEq, Eq, Structural)]
pub enum RegOp {
    /// Write the flash latency bit.
    FlashLatency(bool),
    /// Set the enable bit of an oscillator.
    SourceOn(SystClkSource),
    /// Wait for the ready flag of an oscillator.
    WaitSourceReady(SystClkSource),
    /// Select the PLL input.
    PllSource(SystClkSource),
    /// Set the PLL enable bit.
    PllOn,
    /// Wait for the PLL ready flag.
    WaitPllReady,
    /// One write of both prescaler codes and the system clock switch.
    Switch { ppre_bits: u8, hpre_bits: u8, sw_bits: u8 },
}

/// The target frequencies (Hz) gathered by a builder, and its oscillator.
#[derive(Debug, Clone, Copy, PartialEq, Eq, Structural)]
pub struct ClockRequest {
    pub sysclk: Option<u32>,
    pub hclk: Option<u32>,
    pub pclk: Option<u32>,
    pub source: SystClkSource,
}

/// A request with no targets, on the internal oscillator.
pub open spec fn default_request() -> ClockRequest {
    ClockRequest { sysclk: None, hclk: None, pclk: None, source: SystClkSource::HSI }
}

/// The PLL is engaged exactly when a system clock other than the
/// oscillator's own frequency is requested.
pub open spec fn pll_needed(req: ClockRequest) -> bool {
    match req.sysclk {
        Some(f) => f as int != source_freq(req.source),
        None => false,
    }
}

/// The system clock that a request results in: the oscillator frequency,
/// or twice it when the PLL is engaged.
pub open spec fn resultant_sysclk(req: ClockRequest) -> int {
    if pll_needed(req) {
        2 * source_freq(req.source)
    } else {
        source_freq(req.source)
    }
}

/// HPRE code chosen for a request.
pub open spec fn hpre_of(req: ClockRequest) -> u8 {
    match req.hclk {
        Some(h) => ahb_code(resultant_sysclk(req) / (h as int)),
        None => HPRE_DIV1,
    }
}

/// High-speed bus clock that a request results in.
pub open spec fn realized_hclk(req: ClockRequest) -> int {
    resultant_sysclk(req) / ahb_divisor(hpre_of(req))
}

/// PPRE code chosen for a request.
pub open spec fn ppre_of(req: ClockRequest) -> u8 {
    match req.pclk {
        Some(p) => apb_code(realized_hclk(req) / (p as int)),
        None => PPRE_DIV1,
    }
}

/// Peripheral bus clock that a request results in.
pub open spec fn realized_pclk(req: ClockRequest) -> int {
    realized_hclk(req) / apb_divisor(ppre_of(req))
}

/// The flash needs a wait state exactly above the threshold.
pub open spec fn latency_needed(sysclk: int) -> bool {
    sysclk > FLASH_LATENCY_THRESHOLD
}

/// A request can be served when each requested bus clock is positive and
/// at most the clock it is divided from.
pub open spec fn request_valid(req: ClockRequest) -> bool {
    &&& (req.hclk matches Some(h) ==> 0 < h && h <= resultant_sysclk(req))
    &&& (req.pclk matches Some(p) ==> 0 < p && p <= realized_hclk(req))
}

/// Switching an oscillator on: enable, then wait until it is ready.
pub open spec fn enable_ops(src: SystClkSource) -> Seq<RegOp> {
    seq![RegOp::SourceOn(src), RegOp::WaitSourceReady(src)]
}

/// Engaging the PLL and switching to it: input, enable, wait until ready,
/// then one write of the prescalers and the switch.
pub open spec fn pll_ops(src: SystClkSource, ppre: u8, hpre: u8) -> Seq<RegOp> {
    seq![
        RegOp::PllSource(src),
        RegOp::PllOn,
        RegOp::WaitPllReady,
        RegOp::Switch { ppre_bits: ppre, hpre_bits: hpre, sw_bits: SW_PLL },
    ]
}

/// The whole register program that commits a request, in order.
pub open spec fn program(req: ClockRequest) -> Seq<RegOp> {
    seq![RegOp::FlashLatency(latency_needed(resultant_sysclk(req)))] + enable_ops(req.source) + (
    if pll_needed(req) {
        pll_ops(req.source, ppre_of(req), hpre_of(req))
    } else {
        seq![
            RegOp::Switch {
                ppre_bits: ppre_of(req),
                hpre_bits: hpre_of(req),
                sw_bits: source_sw(req.source),
            },
        ]
    })
}

/// Whether the flash needs a wait state at a system clock of `sysclk` Hz.
pub fn flash_latency(sysclk: u32) -> (r: bool)
    ensures
        r == latency_needed(sysclk as int),
{
    sysclk > FLASH_LATENCY_THRESHOLD
}

/// Appends the operations that switch an oscillator on and wait for it.
pub fn enable_clock(c_src: &SystClkSource, ops: &mut Vec<RegOp>)
    ensures
        final(ops)@ == old(ops)@ + enable_ops(*c_src),
{
    ops.push(RegOp::SourceOn(*c_src));
    ops.push(RegOp::WaitSourceReady(*c_src));
    assert(ops@ =~= old(ops)@ + enable_ops(*c_src));
}

/// Appends the operations that engage the PLL fed by `c_src` and make it
/// the system clock with the given prescaler codes.
pub fn enable_pll(c_src: &SystClkSource, ppre_bits: u8, hpre_bits: u8, ops: &mut Vec<RegOp>)
    ensures
        final(ops)@ == old(ops)@ + pll_ops(*c_src, ppre_bits, hpre_bits),
{
    ops.push(RegOp::PllSource(*c_src));
    ops.push(RegOp::PllOn);
    ops.push(RegOp::WaitPllReady);
    ops.push(RegOp::Switch { ppre_bits, hpre_bits, sw_bits: SW_PLL });
    assert(ops@ =~= old(ops)@ + pll_ops(*c_src, ppre_bits, hpre_bits));
}

/// Builder that gathers target frequencies (Hz) and owns the clock-control
/// registers until the configuration is frozen.
pub struct CFGR<R> {
    hclk: Option<u32>,
    pclk: Option<u32>,
    sysclk: Option<u32>,
    clock_src: SystClkSource,
    rcc: R,
}

impl<R> View for CFGR<R> {
    type V = ClockRequest;

    closed spec fn view(&self) -> ClockRequest {
        ClockRequest {
            sysclk: self.sysclk,
            hclk: self.hclk,
            pclk: self.pclk,
            source: self.clock_src,
        }
    }
}

/// Frozen clock frequencies, in Hz. A value of this type exists only once
/// the configuration is decided, and it cannot be changed.
pub struct Clocks {
    hclk: u32,
    pclk: u32,
    sysclk: u32,
}

/// The frozen clocks together with the register block they were set up on.
pub struct Rcc<R> {
    pub clocks: Clocks,
    pub regs: R,
}

/// Turns a clock-control register block into a clock builder.
pub trait RccExt: Sized {
    /// A builder with no targets on the default oscillator, owning `self`.
    fn configure(self) -> (r: CFGR<Self>)
        ensures
            r@ == default_request(),
            r.regs() == self,
    ;
}

impl RccExt for air001_pac::RCC {
    fn configure(self) -> (r: CFGR<air001_pac::RCC>) {
        CFGR::new(self)
    }
}

impl<R> CFGR<R> {
    /// The register block the builder owns.
    pub closed spec fn regs(&self) -> R {
        self.rcc
    }

    /// A builder with no targets on the default oscillator, owning `rcc`.
    pub fn new(rcc: R) -> (r: Self)
        ensures
            r@ == default_request(),
            r.regs() == rcc,
    {
        CFGR { hclk: None, pclk: None, sysclk: None, clock_src: SystClkSource::HSI, rcc }
    }

    /// Records the target high-speed bus clock, replacing an earlier one.
    pub fn hclk(self, freq: u32) -> (r: Self)
        ensures
            r@ == (ClockRequest { hclk: Some(freq), ..self@ }),
            r.regs() == self.regs(),
    {
        CFGR { hclk: Some(freq), ..self }
    }

    /// Records the target peripheral bus clock, replacing an earlier one.
    pub fn pclk(self, freq: u32) -> (r: Self)
        ensures
            r@ == (ClockRequest { pclk: Some(freq), ..self@ }),
            r.regs() == self.regs(),
    {
        CFGR { pclk: Some(freq), ..self }
    }

    /// Records the target system clock, replacing an earlier one.
    pub fn sysclk(self, freq: u32) -> (r: Self)
        ensures
            r@ == (ClockRequest { sysclk: Some(freq), ..self@ }),
            r.regs() == self.regs(),
    {
        CFGR { sysclk: Some(freq), ..self }
    }

    /// Whether the gathered targets can be served (see `request_valid`).
    pub fn is_valid(&self) -> (r: bool)
        ensures
            r == request_valid(self@),
    {
        let src_freq = get_freq(&self.clock_src);
        let r_sysclk: u32 = match self.sysclk {
            Some(f) if f != src_freq => src_freq * 2,
            _ => src_freq,
        };
        let hpre: u8 = match self.hclk {
            Some(h) => {
                if h == 0 || h > r_sysclk {
                    return false;
                }
                hpre_bits(r_sysclk / h)
            },
            None => HPRE_DIV1,
        };
        let hclk = r_sysclk / hpre_divisor(hpre);
        match self.pclk {
            Some(p) => 0 < p && p <= hclk,
            None => true,
        }
    }

    /// Decides the configuration and consumes the builder. Returns the
    /// frozen clocks, which take over the register block, and the register
    /// program that must run, in order, before the clocks are relied on.
    pub fn freeze(self) -> (r: (Rcc<R>, Vec<RegOp>))
        requires
            request_valid(self@),
        ensures
            r.0.regs == self.regs(),
            r.0.clocks.spec_sysclk() == resultant_sysclk(self@),
            r.0.clocks.spec_hclk() == realized_hclk(self@),
            r.0.clocks.spec_pclk() == realized_pclk(self@),
            r.0.clocks.spec_pclk() <= r.0.clocks.spec_hclk() <= r.0.clocks.spec_sysclk(),
            r.1@ == program(self@),
    {
        let src_clk_freq = get_freq(&self.clock_src);
        let pll_on: bool = match self.sysclk {
            Some(f) => f != src_clk_freq,
            None => false,
        };
        let r_sysclk: u32 = if pll_on {
            src_clk_freq * 2
        } else {
            src_clk_freq
        };

        let hpre: u8 = match self.hclk {
            Some(h) => hpre_bits(r_sysclk / h),
            None => HPRE_DIV1,
        };
        let hclk = r_sysclk / hpre_divisor(hpre);

        let ppre: u8 = match self.pclk {
            Some(p) => ppre_bits(hclk / p),
            None => PPRE_DIV1,
        };
        let pclk = hclk / ppre_divisor(ppre);

        let mut ops: Vec<RegOp> = Vec::new();
        ops.push(RegOp::FlashLatency(flash_latency(r_sysclk)));
        enable_clock(&self.clock_src, &mut ops);
        if pll_on {
            enable_pll(&self.clock_src, ppre, hpre, &mut ops);
        } else {
            ops.push(
                RegOp::Switch { ppre_bits: ppre, hpre_bits: hpre, sw_bits: switch_bits(&self.clock_src) },
            );
        }
        assert(ops@ =~= program(self@));

        let rcc = Rcc { clocks: Clocks { hclk, pclk, sysclk: r_sysclk }, regs: self.rcc };
        (rcc, ops)
    }
}

impl Clocks {
    pub closed spec fn spec_hclk(&self) -> int {
        self.hclk as int
    }

    pub closed spec fn spec_pclk(&self) -> int {
        self.pclk as int
    }

    pub closed spec fn spec_sysclk(&self) -> int {
        self.sysclk as int
    }

    /// Frequency of the high-speed bus (AHB), in Hz.
    pub fn hclk(&self) -> (r: u32)
        ensures
            r as int == self.spec_hclk(),
    {
        self.hclk
    }

    /// Frequency of the peripheral bus (APB), in Hz.
    pub fn pclk(&self) -> (r: u32)
        ensures
            r as int == self.spec_pclk(),
    {
        self.pclk
    }

    /// Frequency of the system (core) clock, in Hz.
    pub fn sysclk(&self) -> (r: u32)
        ensures
            r as int == self.spec_sysclk(),
    {
        self.sysclk
    }
}

/// A high-speed bus request equal to the oscillator frequency is met
/// exactly; without the PLL it is met by the undivided clock.
pub proof fn lemma_hclk_at_source_freq(req: ClockRequest)
    requires
        req.hclk == Some(source_freq(req.source) as u32),
    ensures
        realized_hclk(req) == source_freq(req.source),
        !pll_needed(req) ==> hpre_of(req) == HPRE_DIV1 && ahb_divisor(hpre_of(req)) == 1,
{
    assert(source_freq(req.source) == HSI);
    if pll_needed(req) {
        assert(resultant_sysclk(req) / (HSI as int) == 2);
    } else {
        assert(resultant_sysclk(req) / (HSI as int) == 1);
    }
}

/// A system clock request equal to the oscillator frequency leaves the PLL
/// off and yields the oscillator frequency.
pub proof fn lemma_sysclk_at_source_freq(req: ClockRequest)
    requires
        req.sysclk == Some(source_freq(req.source) as u32),
    ensures
        !pll_needed(req),
        resultant_sysclk(req) == source_freq(req.source),
{
}

/// Any other system clock request engages the PLL and yields exactly twice
/// the oscillator frequency, whatever value was asked for.
pub proof fn lemma_sysclk_other_doubles(req: ClockRequest, f: u32)
    requires
        req.sysclk == Some(f),
        f as int != source_freq(req.source),
    ensures
        pll_needed(req),
        resultant_sysclk(req) == 2 * source_freq(req.source),
{
}

/// For every valid request the peripheral bus runs no faster than the
/// high-speed bus, which runs no faster than the system clock.
pub proof fn lemma_bus_order(req: ClockRequest)
    requires
        request_valid(req),
    ensures
        0 < realized_pclk(req) <= realized_hclk(req) <= resultant_sysclk(req),
{
}

/// The first register access of every commit sets the flash wait state
/// exactly when the resulting system clock is above 24 MHz.
pub proof fn lemma_flash_latency_first(req: ClockRequest)
    ensures
        program(req)[0] == RegOp::FlashLatency(resultant_sysclk(req) > 24_000_000),
{
}

} // verus!
