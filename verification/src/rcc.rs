//! Reset and clock control.

use crate::commit::{program_for, Commit, Event, Program, Stage};
use crate::convert::widen;
use crate::field::{bits_of, set_bit, with_bit};
use crate::flash::ACR;
use crate::time::Hertz;
use crate::tree::{
    ahb_prescaler, apb_prescaler, failure, hpre_field, hz, latency, multiplier, ppre_field, tree,
    ConfigError, Domain, Frequencies, Targets, Tree, HCLK_MAX, HSI, PCLK1_MAX, PCLK2_MAX,
    SYSCLK_MAX,
};
use vstd::prelude::*;

verus! {

/// The RCC peripheral: the registers through which the clocks of the
/// peripherals on the three buses are gated and their resets driven, as they
/// were read.
pub struct RCC {
    pub ahbenr: u32,
    pub ahbrstr: u32,
    pub apb1enr: u32,
    pub apb1rstr: u32,
    pub apb2enr: u32,
    pub apb2rstr: u32,
}

/// Extension trait that constrains the `RCC` peripheral.
pub trait RccExt {
    /// Constrains the `RCC` peripheral so that it plays nicely with the other
    /// abstractions.
    fn constraint(self) -> Rcc;
}

impl RccExt for RCC {
    fn constraint(self) -> (rcc: Rcc)
        ensures
            rcc.AHB.gate.enabled() == self.ahbenr,
            rcc.AHB.gate.held() == self.ahbrstr,
            rcc.AHB.gate.pending() == Seq::<GateWrite>::empty(),
            rcc.APB1.gate.enabled() == self.apb1enr,
            rcc.APB1.gate.held() == self.apb1rstr,
            rcc.APB1.gate.pending() == Seq::<GateWrite>::empty(),
            rcc.APB2.gate.enabled() == self.apb2enr,
            rcc.APB2.gate.held() == self.apb2rstr,
            rcc.APB2.gate.pending() == Seq::<GateWrite>::empty(),
            rcc.CFGR@ == no_targets(),
    {
        Rcc {
            AHB: AHB { gate: Gate { enr: self.ahbenr, rstr: self.ahbrstr, writes: Vec::new() } },
            APB1: APB1 {
                gate: Gate { enr: self.apb1enr, rstr: self.apb1rstr, writes: Vec::new() },
            },
            APB2: APB2 {
                gate: Gate { enr: self.apb2enr, rstr: self.apb2rstr, writes: Vec::new() },
            },
            CFGR: CFGR { hclk: None, pclk1: None, pclk2: None, sysclk: None },
        }
    }
}

/// Constrained RCC peripheral.
#[allow(non_snake_case)]
pub struct Rcc {
    /// AMBA High-performance Bus
    pub AHB: AHB,
    /// Advanced Peripheral Bus 1
    pub APB1: APB1,
    /// Advanced Peripheral Bus 2
    pub APB2: APB2,
    /// Clock configuration
    pub CFGR: CFGR,
}

/// One of the two registers of a bus gate.
#[derive(Clone, Copy, Debug, PartialEq, Eq, Structural)]
pub enum GateRegister {
    /// The peripheral clock enable register.
    Enable,
    /// The peripheral reset register.
    Reset,
}

/// A write of a whole register of a bus gate.
#[derive(Clone, Copy, Debug, PartialEq, Eq, Structural)]
pub struct GateWrite {
    pub register: GateRegister,
    pub bits: u32,
}

/// The clock gates and reset lines of the peripherals on one bus.
///
/// A gate holds the images of the bus's enable register and reset register,
/// and the writes that were made to them and not yet taken, oldest first.
/// Peripheral `line` has bit `line` of both registers.
pub struct Gate {
    enr: u32,
    rstr: u32,
    writes: Vec<GateWrite>,
}

impl Gate {
    /// The image of the enable register.
    pub closed spec fn enabled(&self) -> u32 {
        self.enr
    }

    /// The image of the reset register.
    pub closed spec fn held(&self) -> u32 {
        self.rstr
    }

    /// The writes that were not yet taken, oldest first.
    pub closed spec fn pending(&self) -> Seq<GateWrite> {
        self.writes@
    }

    /// The image of the enable register.
    pub fn enr(&self) -> (bits: u32)
        ensures
            bits == self.enabled(),
    {
        self.enr
    }

    /// The image of the reset register.
    pub fn rstr(&self) -> (bits: u32)
        ensures
            bits == self.held(),
    {
        self.rstr
    }

    /// Replaces the two images by what was read from the registers. The
    /// pending writes stay.
    pub fn load(&mut self, enr: u32, rstr: u32)
        ensures
            final(self).enabled() == enr,
            final(self).held() == rstr,
            final(self).pending() == old(self).pending(),
    {
        self.enr = enr;
        self.rstr = rstr;
    }

    /// Enables the clock of a peripheral: sets its bit of the enable register
    /// and keeps the others.
    pub fn enable(&mut self, line: u8)
        requires
            line < 32,
        ensures
            final(self).enabled() == set_bit(old(self).enabled(), line as u32, true),
            bits_of(final(self).enabled()) == bits_of(old(self).enabled()).update(
                line as int,
                true,
            ),
            final(self).held() == old(self).held(),
            final(self).pending() == old(self).pending().push(
                (GateWrite { register: GateRegister::Enable, bits: final(self).enabled() }),
            ),
    {
        self.enr = with_bit(self.enr, line, true);
        self.writes.push(GateWrite { register: GateRegister::Enable, bits: self.enr });
    }

    /// Resets a peripheral: sets its bit of the reset register, then clears
    /// it, in two writes. The other bits are kept.
    pub fn reset(&mut self, line: u8)
        requires
            line < 32,
        ensures
            final(self).held() == set_bit(old(self).held(), line as u32, false),
            bits_of(final(self).held()) == bits_of(old(self).held()).update(line as int, false),
            final(self).enabled() == old(self).enabled(),
            final(self).pending() == old(self).pending().push(
                (GateWrite {
                    register: GateRegister::Reset,
                    bits: set_bit(old(self).held(), line as u32, true),
                }),
            ).push((GateWrite { register: GateRegister::Reset, bits: final(self).held() })),
    {
        let asserted = with_bit(self.rstr, line, true);
        self.writes.push(GateWrite { register: GateRegister::Reset, bits: asserted });
        let released = with_bit(asserted, line, false);
        proof {
            lemma_release_after_assert(self.rstr, line as u32);
        }
        self.rstr = released;
        self.writes.push(GateWrite { register: GateRegister::Reset, bits: released });
    }

    /// Takes the writes that are pending, oldest first.
    pub fn take_writes(&mut self) -> (writes: Vec<GateWrite>)
        ensures
            writes@ == old(self).pending(),
            final(self).pending() == Seq::<GateWrite>::empty(),
            final(self).enabled() == old(self).enabled(),
            final(self).held() == old(self).held(),
    {
        let mut taken: Vec<GateWrite> = Vec::new();
        core::mem::swap(&mut self.writes, &mut taken);
        taken
    }
}

/// Enabling a clock that is enabled changes nothing: the enable register is
/// as after the first time.
pub proof fn lemma_enable_idempotent(bits: u32, line: u32)
    by (bit_vector)
    requires
        line < 32,
    ensures
        set_bit(set_bit(bits, line, true), line, true) == set_bit(bits, line, true),
{
}

/// Setting a bit and then clearing it is clearing it.
proof fn lemma_release_after_assert(bits: u32, line: u32)
    by (bit_vector)
    requires
        line < 32,
    ensures
        set_bit(set_bit(bits, line, true), line, false) == set_bit(bits, line, false),
{
}

/// AMBA High-performance Bus
pub struct AHB {
    /// The clock gates and reset lines of the peripherals on the bus.
    pub gate: Gate,
}

/// Advanced Peripheral Bus 1
pub struct APB1 {
    /// The clock gates and reset lines of the peripherals on the bus.
    pub gate: Gate,
}

/// Advanced Peripheral Bus 2
pub struct APB2 {
    /// The clock gates and reset lines of the peripherals on the bus.
    pub gate: Gate,
}

/// No target at all.
pub open spec fn no_targets() -> Targets {
    Targets { sysclk: None, hclk: None, pclk1: None, pclk2: None }
}

/// One call of a setter of the builder, with the frequency in hertz.
pub enum Setting {
    Sysclk(nat),
    Hclk(nat),
    Pclk1(nat),
    Pclk2(nat),
}

impl Setting {
    /// The clock whose target the call sets.
    pub open spec fn domain(self) -> Domain {
        match self {
            Setting::Sysclk(_) => Domain::Sys,
            Setting::Hclk(_) => Domain::Ahb,
            Setting::Pclk1(_) => Domain::Apb1,
            Setting::Pclk2(_) => Domain::Apb2,
        }
    }

    /// The frequency that the call asks for.
    pub open spec fn value(self) -> nat {
        match self {
            Setting::Sysclk(f) => f,
            Setting::Hclk(f) => f,
            Setting::Pclk1(f) => f,
            Setting::Pclk2(f) => f,
        }
    }
}

/// The targets after one call: the call's target is replaced, the others stay.
pub open spec fn set(t: Targets, call: Setting) -> Targets {
    match call {
        Setting::Sysclk(f) => Targets { sysclk: Some(f), ..t },
        Setting::Hclk(f) => Targets { hclk: Some(f), ..t },
        Setting::Pclk1(f) => Targets { pclk1: Some(f), ..t },
        Setting::Pclk2(f) => Targets { pclk2: Some(f), ..t },
    }
}

/// The targets after a sequence of calls, made first to last.
pub open spec fn set_all(t: Targets, calls: Seq<Setting>) -> Targets
    decreases calls.len(),
{
    if calls.len() == 0 {
        t
    } else {
        set(set_all(t, calls.drop_last()), calls.last())
    }
}

/// The target of one clock after a sequence of calls: what the last call for
/// that clock asked for, or what was there before where no call is for it.
pub open spec fn target_after(before: Option<nat>, calls: Seq<Setting>, d: Domain) -> Option<nat>
    decreases calls.len(),
{
    if calls.len() == 0 {
        before
    } else if calls.last().domain() == d {
        Some(calls.last().value())
    } else {
        target_after(before, calls.drop_last(), d)
    }
}

/// No two calls of the sequence ask for different frequencies of one clock.
pub open spec fn single_valued(calls: Seq<Setting>) -> bool {
    forall|i: int, j: int|
        0 <= i < calls.len() && 0 <= j < calls.len() && calls[i].domain() == calls[j].domain()
            ==> calls[i] == calls[j]
}

/// Each target is decided by the last call for it alone.
pub proof fn lemma_last_call_wins(t: Targets, calls: Seq<Setting>)
    ensures
        set_all(t, calls) == (Targets {
            sysclk: target_after(t.sysclk, calls, Domain::Sys),
            hclk: target_after(t.hclk, calls, Domain::Ahb),
            pclk1: target_after(t.pclk1, calls, Domain::Apb1),
            pclk2: target_after(t.pclk2, calls, Domain::Apb2),
        }),
    decreases calls.len(),
{
    if calls.len() > 0 {
        lemma_last_call_wins(t, calls.drop_last());
    }
}

/// Calls for other clocks leave a target as it was.
proof fn lemma_target_after_absent(before: Option<nat>, calls: Seq<Setting>, d: Domain)
    requires
        forall|i: int| 0 <= i < calls.len() ==> calls[i].domain() != d,
    ensures
        target_after(before, calls, d) == before,
    decreases calls.len(),
{
    if calls.len() > 0 {
        lemma_target_after_absent(before, calls.drop_last(), d);
    }
}

/// Where no clock is asked two different frequencies, any call for a clock
/// tells the target that the clock ends with.
proof fn lemma_target_after_present(before: Option<nat>, calls: Seq<Setting>, d: Domain, i: int)
    requires
        single_valued(calls),
        0 <= i < calls.len(),
        calls[i].domain() == d,
    ensures
        target_after(before, calls, d) == Some(calls[i].value()),
    decreases calls.len(),
{
    if calls.last().domain() == d {
        assert(calls[calls.len() - 1] == calls[i]);
    } else {
        let rest = calls.drop_last();
        assert forall|a: int, b: int|
            0 <= a < rest.len() && 0 <= b < rest.len() && rest[a].domain()
                == rest[b].domain() implies rest[a] == rest[b] by {
            assert(rest[a] == calls[a] && rest[b] == calls[b]);
        }
        lemma_target_after_present(before, rest, d, i);
    }
}

/// The same calls in another order end with the same target for a clock,
/// where no clock is asked two different frequencies.
proof fn lemma_target_after_reordered(
    before: Option<nat>,
    first: Seq<Setting>,
    second: Seq<Setting>,
    d: Domain,
)
    requires
        first.to_multiset() == second.to_multiset(),
        single_valued(first),
    ensures
        single_valued(second),
        target_after(before, first, d) == target_after(before, second, d),
{
    first.to_multiset_ensures();
    second.to_multiset_ensures();
    assert forall|j: int| 0 <= j < second.len() implies first.contains(#[trigger] second[j]) by {
        assert(second.contains(second[j]));
        assert(second.to_multiset().count(second[j]) > 0);
        assert(first.to_multiset().count(second[j]) > 0);
    }
    assert forall|i: int| 0 <= i < first.len() implies second.contains(#[trigger] first[i]) by {
        assert(first.contains(first[i]));
        assert(first.to_multiset().count(first[i]) > 0);
        assert(second.to_multiset().count(first[i]) > 0);
    }
    assert forall|a: int, b: int|
        0 <= a < second.len() && 0 <= b < second.len() && second[a].domain()
            == second[b].domain() implies second[a] == second[b] by {
        assert(first.contains(second[a]));
        assert(first.contains(second[b]));
        let x = choose|x: int| 0 <= x < first.len() && first[x] == second[a];
        let y = choose|y: int| 0 <= y < first.len() && first[y] == second[b];
        assert(first[x] == first[y]);
    }
    if exists|i: int| 0 <= i < first.len() && first[i].domain() == d {
        let i = choose|i: int| 0 <= i < first.len() && first[i].domain() == d;
        assert(second.contains(first[i]));
        let j = choose|j: int| 0 <= j < second.len() && second[j] == first[i];
        lemma_target_after_present(before, first, d, i);
        lemma_target_after_present(before, second, d, j);
    } else {
        assert forall|j: int| 0 <= j < second.len() implies second[j].domain() != d by {
            assert(first.contains(second[j]));
            let x = choose|x: int| 0 <= x < first.len() && first[x] == second[j];
            assert(first[x].domain() != d);
        }
        lemma_target_after_absent(before, first, d);
        lemma_target_after_absent(before, second, d);
    }
}

/// The order of the setter calls does not matter: where no clock is asked two
/// different frequencies, the same calls in any other order leave the same
/// targets, and so the same clock tree or the same failure.
pub proof fn lemma_setters_in_any_order(t: Targets, first: Seq<Setting>, second: Seq<Setting>)
    requires
        first.to_multiset() == second.to_multiset(),
        single_valued(first),
    ensures
        set_all(t, first) == set_all(t, second),
        tree(set_all(t, first)) == tree(set_all(t, second)),
        failure(set_all(t, first)) == failure(set_all(t, second)),
{
    lemma_last_call_wins(t, first);
    lemma_last_call_wins(t, second);
    lemma_target_after_reordered(t.sysclk, first, second, Domain::Sys);
    lemma_target_after_reordered(t.hclk, first, second, Domain::Ahb);
    lemma_target_after_reordered(t.pclk1, first, second, Domain::Apb1);
    lemma_target_after_reordered(t.pclk2, first, second, Domain::Apb2);
}

/// Clock configuration: the frequencies that were asked for.
pub struct CFGR {
    hclk: Option<u32>,
    pclk1: Option<u32>,
    pclk2: Option<u32>,
    sysclk: Option<u32>,
}

impl CFGR {
    /// The targets that were set.
    pub closed spec fn view(&self) -> Targets {
        Targets {
            sysclk: hz(self.sysclk),
            hclk: hz(self.hclk),
            pclk1: hz(self.pclk1),
            pclk2: hz(self.pclk2),
        }
    }

    /// Sets a frequency for the AHB bus
    pub fn hclk(self, freq: Hertz) -> (r: Self)
        ensures
            r@ == set(self@, Setting::Hclk(freq.0 as nat)),
    {
        let mut r = self;
        r.hclk = Some(freq.0);
        r
    }

    /// Sets a frequency for the APB1 bus
    pub fn pclk1(self, freq: Hertz) -> (r: Self)
        ensures
            r@ == set(self@, Setting::Pclk1(freq.0 as nat)),
    {
        let mut r = self;
        r.pclk1 = Some(freq.0);
        r
    }

    /// Sets a frequency for the APB2 bus
    pub fn pclk2(self, freq: Hertz) -> (r: Self)
        ensures
            r@ == set(self@, Setting::Pclk2(freq.0 as nat)),
    {
        let mut r = self;
        r.pclk2 = Some(freq.0);
        r
    }

    /// Sets the system (core) frequency
    pub fn sysclk(self, freq: Hertz) -> (r: Self)
        ensures
            r@ == set(self@, Setting::Sysclk(freq.0 as nat)),
    {
        let mut r = self;
        r.sysclk = Some(freq.0);
        r
    }

    /// Solves the clock tree for the targets that were set.
    ///
    /// The result is the tree, or the first reason why the targets cannot be
    /// made effective.
    pub fn solve(&self) -> (r: Result<Solution, ConfigError>)
        ensures
            match r {
                Ok(s) => failure(self@) is None && s@ == tree(self@),
                Err(e) => failure(self@) == Some(e),
            },
    {
        let pllmul = multiplier(self.sysclk);
        let sysclk: u32 = (pllmul as u32) * HSI / 2;
        if sysclk > SYSCLK_MAX {
            return Err(ConfigError::OverLimit(Domain::Sys));
        }
        if let Some(t) = self.hclk {
            if t > sysclk {
                return Err(ConfigError::AboveParent(Domain::Ahb));
            }
        }
        let hpre = ahb_prescaler(sysclk, self.hclk);
        let hclk: u32 = sysclk / (hpre as u32);
        if hclk > HCLK_MAX {
            return Err(ConfigError::OverLimit(Domain::Ahb));
        }
        if let Some(t) = self.pclk1 {
            if t > hclk {
                return Err(ConfigError::AboveParent(Domain::Apb1));
            }
        }
        let ppre1 = apb_prescaler(hclk, self.pclk1);
        let pclk1: u32 = hclk / widen(ppre1);
        if pclk1 > PCLK1_MAX {
            return Err(ConfigError::OverLimit(Domain::Apb1));
        }
        if let Some(t) = self.pclk2 {
            if t > hclk {
                return Err(ConfigError::AboveParent(Domain::Apb2));
            }
        }
        let ppre2 = apb_prescaler(hclk, self.pclk2);
        let pclk2: u32 = hclk / widen(ppre2);
        if pclk2 > PCLK2_MAX {
            return Err(ConfigError::OverLimit(Domain::Apb2));
        }
        Ok(
            Solution {
                pllmul,
                hpre,
                latency: latency(sysclk),
                clocks: Clocks {
                    hclk: Hertz(hclk),
                    pclk1: Hertz(pclk1),
                    pclk2: Hertz(pclk2),
                    ppre1,
                    ppre2,
                    sysclk: Hertz(sysclk),
                },
            },
        )
    }

    /// Freezes the clock configuration, making it effective.
    ///
    /// The targets must be such that the tree can be solved. What is returned
    /// names, step by step, the writes that make the configuration effective,
    /// and at the end the frequencies that result. The proxy's image of the
    /// flash latency is set for the new system clock at once.
    pub fn freeze(self, acr: &mut ACR) -> (commit: Commit)
        requires
            failure(self@) is None,
        ensures
            commit.stage() == Stage::Latency,
            commit.history() == Seq::<Event>::empty(),
            commit.program() == program_for(tree(self@)),
            commit.clocks()@ == tree(self@).clocks,
            final(acr).wait_states() == tree(self@).latency,
    {
        match self.solve() {
            Ok(s) => {
                acr.set_latency(s.latency);
                let pllmul = if s.pllmul == 2 {
                    None
                } else {
                    Some(s.pllmul - 2)
                };
                Commit::start(
                    Program {
                        latency: s.latency,
                        pllmul,
                        hpre: hpre_field(s.hpre),
                        ppre1: ppre_field(s.clocks.ppre1),
                        ppre2: ppre_field(s.clocks.ppre2),
                    },
                    s.clocks,
                )
            },
            Err(_) => unreached(),
        }
    }
}

/// A solved clock tree.
#[derive(Clone, Copy, Debug, PartialEq, Eq, Structural)]
pub struct Solution {
    /// PLL factor, 2 to 16; 2 means that the PLL is bypassed.
    pub pllmul: u8,
    /// AHB divider.
    pub hpre: u16,
    /// Flash wait states.
    pub latency: u8,
    /// The frequencies that result.
    pub clocks: Clocks,
}

impl Solution {
    /// The tree as numbers.
    pub open spec fn view(&self) -> Tree {
        Tree {
            pllmul: self.pllmul as nat,
            hpre: self.hpre as nat,
            latency: self.latency as nat,
            clocks: self.clocks@,
        }
    }
}

/// Clock frequencies
#[derive(Clone, Copy, Debug, PartialEq, Eq, Structural)]
pub struct Clocks {
    hclk: Hertz,
    pclk1: Hertz,
    pclk2: Hertz,
    ppre1: u8,
    ppre2: u8,
    sysclk: Hertz,
}

impl Clocks {
    /// The frequencies as numbers.
    pub closed spec fn view(&self) -> Frequencies {
        Frequencies {
            sysclk: self.sysclk.0 as nat,
            hclk: self.hclk.0 as nat,
            pclk1: self.pclk1.0 as nat,
            pclk2: self.pclk2.0 as nat,
            ppre1: self.ppre1 as nat,
            ppre2: self.ppre2 as nat,
        }
    }

    /// Returns the AHB frequency
    pub fn hclk(&self) -> (f: Hertz)
        ensures
            f.0 == self@.hclk,
    {
        self.hclk
    }

    /// Returns the APB1 frequency
    pub fn pclk1(&self) -> (f: Hertz)
        ensures
            f.0 == self@.pclk1,
    {
        self.pclk1
    }

    /// Returns the APB2 frequency
    pub fn pclk2(&self) -> (f: Hertz)
        ensures
            f.0 == self@.pclk2,
    {
        self.pclk2
    }

    /// Returns the APB1 divider
    pub fn ppre1(&self) -> (d: u8)
        ensures
            d == self@.ppre1,
    {
        self.ppre1
    }

    /// Returns the APB2 divider
    pub fn ppre2(&self) -> (d: u8)
        ensures
            d == self@.ppre2,
    {
        self.ppre2
    }

    /// Returns the system (core) frequency
    pub fn sysclk(&self) -> (f: Hertz)
        ensures
            f.0 == self@.sysclk,
    {
        self.sysclk
    }
}

} // verus!
