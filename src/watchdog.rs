//! Independent watchdog: timeout encoding and the register programs that
//! start and feed it.
use vstd::prelude::*;

verus! {

/// Key that reloads the counter.
pub const FEED: u16 = 0xAAAA;

/// Key that starts the watchdog.
pub const START: u16 = 0xCCCC;

/// Key that unlocks the prescaler and reload registers.
pub const ENABLE: u16 = 0x5555;

/// Watchdog counter ticks per second at prescaler code 0 (40 kHz / 4).
pub const TICKS_PER_SECOND: u32 = 10_000;

/// Largest reload value plus one.
pub const RELOAD_LIMIT: u32 = 0x1000;

/// One access to the watchdog registers. A `Wait*` operation spins until
/// the named status flag reads as clear.
#[derive(Debug, Clone, Copy, PartialEq, Eq, Structural)]
pub enum IwdgOp {
    /// Write the key register.
    Key(u16),
    /// Wait until a prescaler update is no longer pending.
    WaitPrescalerUpdate,
    /// Write the prescaler register.
    Prescaler(u8),
    /// Wait until a reload update is no longer pending.
    WaitReloadUpdate,
    /// Write the reload register.
    Reload(u16),
    /// Wait until the whole status register reads zero.
    WaitIdle,
}

/// `t` halved `n` times, rounding down each time.
pub open spec fn halved(t: nat, n: nat) -> nat
    decreases n,
{
    if n == 0 {
        t
    } else {
        halved(t, (n - 1) as nat) / 2
    }
}

/// Timeout configuration: prescaler code and reload value.
#[derive(Debug, Clone, Copy, PartialEq, Eq, PartialOrd)]
pub struct IwdgTimeout {
    psc: u8,
    reload: u16,
}

/// Watchdog that owns its register block.
pub struct Watchdog<I> {
    iwdg: I,
}

impl IwdgTimeout {
    pub closed spec fn spec_psc(&self) -> nat {
        self.psc as nat
    }

    pub closed spec fn spec_reload(&self) -> nat {
        self.reload as nat
    }

    /// The timeout for a feed frequency of `hz`: the smallest prescaler code
    /// under which the tick count of one period fits the reload register.
    /// The period is rounded down, so `hz` is a lower bound on the rate.
    pub fn from_hz(hz: u32) -> (r: Self)
        requires
            hz > 0,
        ensures
            r.spec_psc() <= 7,
            r.spec_reload() == halved((TICKS_PER_SECOND / hz) as nat, r.spec_psc()),
            r.spec_reload() < RELOAD_LIMIT,
            forall|k: nat|
                k < r.spec_psc() ==> #[trigger] halved((TICKS_PER_SECOND / hz) as nat, k) >= RELOAD_LIMIT,
    {
        let t: u32 = TICKS_PER_SECOND / hz;
        let mut time: u32 = t;
        let mut psc: u8 = 0;
        while time >= RELOAD_LIMIT && psc < 7
            invariant
                psc <= 2,
                time as nat == halved(t as nat, psc as nat),
                psc == 0 ==> time <= 10_000,
                psc == 1 ==> time <= 5_000,
                psc == 2 ==> time <= 2_500,
                forall|k: nat| k < psc ==> #[trigger] halved(t as nat, k) >= RELOAD_LIMIT,
            decreases 7 - psc,
        {
            psc = psc + 1;
            time = time / 2;
        }
        IwdgTimeout { psc, reload: time as u16 }
    }

    /// Prescaler code.
    pub fn psc(&self) -> (r: u8)
        ensures
            r as nat == self.spec_psc(),
    {
        self.psc
    }

    /// Reload value.
    pub fn reload(&self) -> (r: u16)
        ensures
            r as nat == self.spec_reload(),
    {
        self.reload
    }
}

/// Starting the watchdog: feed it in case it already runs, start and
/// unlock it, write prescaler and reload once each is free to update, wait
/// until both took effect, and feed it.
pub open spec fn start_ops(psc: u8, reload: u16) -> Seq<IwdgOp> {
    seq![
        IwdgOp::Key(FEED),
        IwdgOp::Key(START),
        IwdgOp::Key(ENABLE),
        IwdgOp::WaitPrescalerUpdate,
        IwdgOp::Prescaler(psc),
        IwdgOp::WaitReloadUpdate,
        IwdgOp::Reload(reload),
        IwdgOp::WaitIdle,
        IwdgOp::Key(FEED),
    ]
}

impl<I> Watchdog<I> {
    pub closed spec fn spec_regs(&self) -> I {
        self.iwdg
    }

    /// A watchdog that owns `iwdg`.
    pub fn new(iwdg: I) -> (r: Self)
        ensures
            r.spec_regs() == iwdg,
    {
        Self { iwdg }
    }

    /// The register block, for running register programs on it.
    pub fn regs(&self) -> (r: &I)
        ensures
            *r == self.spec_regs(),
    {
        &self.iwdg
    }

    /// The access that feeds the watchdog, so that at least one period goes
    /// by before the next reset.
    pub fn feed(&self) -> (r: IwdgOp)
        ensures
            r == IwdgOp::Key(FEED),
    {
        IwdgOp::Key(FEED)
    }

    /// The register program that starts the watchdog with `period`.
    pub fn start(&self, period: IwdgTimeout) -> (r: Vec<IwdgOp>)
        ensures
            r@ == start_ops(period.spec_psc() as u8, period.spec_reload() as u16),
    {
        let time = period;
        let ops: Vec<IwdgOp> = vec![
            IwdgOp::Key(FEED),
            IwdgOp::Key(START),
            IwdgOp::Key(ENABLE),
            IwdgOp::WaitPrescalerUpdate,
            IwdgOp::Prescaler(time.psc),
            IwdgOp::WaitReloadUpdate,
            IwdgOp::Reload(time.reload),
            IwdgOp::WaitIdle,
            IwdgOp::Key(FEED),
        ];
        assert(ops@ =~= start_ops(period.spec_psc() as u8, period.spec_reload() as u16));
        ops
    }
}

} // verus!
