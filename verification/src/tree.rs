//! The clock tree: what the frequencies of the system clock and of the three
//! buses are for given targets.
//!
//! The internal oscillator runs at 8 MHz. The PLL multiplies half of it by a
//! whole factor from 2 to 16; factor 2 gives the oscillator's own frequency
//! and stands for "PLL bypassed". The AHB clock is the system clock divided
//! by one of 1, 2, 4, 8, 16, 64, 128, 256, 512; each APB clock is the AHB
//! clock divided by one of 1, 2, 4, 8, 16.

use vstd::prelude::*;

verus! {

/// Frequency of the internal high-speed oscillator, in hertz.
pub const HSI: u32 = 8_000_000;

/// Highest system clock that the part supports, in hertz.
pub const SYSCLK_MAX: u32 = 72_000_000;

/// Highest AHB clock, in hertz.
pub const HCLK_MAX: u32 = 72_000_000;

/// Highest APB1 clock, in hertz.
pub const PCLK1_MAX: u32 = 36_000_000;

/// Highest APB2 clock, in hertz.
pub const PCLK2_MAX: u32 = 72_000_000;

/// One of the four clocks of the tree.
#[derive(Clone, Copy, Debug, PartialEq, Eq, Structural)]
pub enum Domain {
    /// The system (core) clock.
    Sys,
    /// The AHB clock, derived from the system clock.
    Ahb,
    /// The APB1 clock, derived from the AHB clock.
    Apb1,
    /// The APB2 clock, derived from the AHB clock.
    Apb2,
}

/// Why a set of targets cannot be made effective.
#[derive(Clone, Copy, Debug, PartialEq, Eq, Structural)]
pub enum ConfigError {
    /// The target of this bus is higher than the clock the bus is derived from.
    AboveParent(Domain),
    /// The clock that results for this domain is above its ceiling.
    OverLimit(Domain),
}

/// The requested frequencies, in hertz. `None`: nothing was requested.
pub struct Targets {
    pub sysclk: Option<nat>,
    pub hclk: Option<nat>,
    pub pclk1: Option<nat>,
    pub pclk2: Option<nat>,
}

/// The frequencies that result, in hertz, and the two APB dividers.
pub struct Frequencies {
    pub sysclk: nat,
    pub hclk: nat,
    pub pclk1: nat,
    pub pclk2: nat,
    pub ppre1: nat,
    pub ppre2: nat,
}

/// A solved clock tree.
pub struct Tree {
    /// PLL factor, 2 to 16; 2 means that the PLL is bypassed.
    pub pllmul: nat,
    /// AHB divider.
    pub hpre: nat,
    /// Flash wait states.
    pub latency: nat,
    pub clocks: Frequencies,
}

/// A requested frequency as a natural number.
pub open spec fn hz(target: Option<u32>) -> Option<nat> {
    match target {
        Some(t) => Some(t as nat),
        None => None,
    }
}

/// The dividers that the AHB prescaler offers.
pub open spec fn ahb_ladder() -> Set<nat> {
    set![1, 2, 4, 8, 16, 64, 128, 256, 512]
}

/// The dividers that an APB prescaler offers.
pub open spec fn apb_ladder() -> Set<nat> {
    set![1, 2, 4, 8, 16]
}

/// `2 * target / HSI`, rounded up.
pub open spec fn raw_multiplier(target: nat) -> nat {
    (2 * target + HSI - 1) as nat / (HSI as nat)
}

/// The PLL factor for a system clock target: `2 * target / HSI` rounded up,
/// then brought into 2..=16. Without a target the PLL is bypassed.
pub open spec fn pll_multiplier(target: Option<nat>) -> nat {
    match target {
        None => 2,
        Some(t) => {
            let raw = raw_multiplier(t);
            if raw < 2 {
                2
            } else if raw > 16 {
                16
            } else {
                raw
            }
        },
    }
}

/// The system clock that a PLL factor gives.
pub open spec fn system_clock(pllmul: nat) -> nat {
    pllmul * (HSI as nat) / 2
}

/// `target` rounded up to a multiple of `HSI / 2`, the step in which the PLL
/// produces frequencies.
pub open spec fn rounding_ceiling(target: nat) -> nat {
    raw_multiplier(target) * (HSI as nat) / 2
}

/// The AHB divider: the smallest of the ladder that brings `sysclk` down to
/// the target or below; 512 where none does; 1 without a target.
pub open spec fn ahb_divider(sysclk: nat, target: Option<nat>) -> nat {
    match target {
        None => 1,
        Some(t) => {
            if sysclk / 1 <= t {
                1
            } else if sysclk / 2 <= t {
                2
            } else if sysclk / 4 <= t {
                4
            } else if sysclk / 8 <= t {
                8
            } else if sysclk / 16 <= t {
                16
            } else if sysclk / 64 <= t {
                64
            } else if sysclk / 128 <= t {
                128
            } else if sysclk / 256 <= t {
                256
            } else {
                512
            }
        },
    }
}

/// An APB divider: the smallest of the ladder that brings `hclk` down to the
/// target or below; 16 where none does; 1 without a target.
pub open spec fn apb_divider(hclk: nat, target: Option<nat>) -> nat {
    match target {
        None => 1,
        Some(t) => {
            if hclk / 1 <= t {
                1
            } else if hclk / 2 <= t {
                2
            } else if hclk / 4 <= t {
                4
            } else if hclk / 8 <= t {
                8
            } else {
                16
            }
        },
    }
}

/// Flash wait states for a system clock.
pub open spec fn wait_states(sysclk: nat) -> nat {
    if sysclk <= 24_000_000 {
        0
    } else if sysclk <= 48_000_000 {
        1
    } else {
        2
    }
}

/// The clock tree for the given targets.
pub open spec fn tree(t: Targets) -> Tree {
    let pllmul = pll_multiplier(t.sysclk);
    let sysclk = system_clock(pllmul);
    let hpre = ahb_divider(sysclk, t.hclk);
    let hclk = sysclk / hpre;
    let ppre1 = apb_divider(hclk, t.pclk1);
    let ppre2 = apb_divider(hclk, t.pclk2);
    Tree {
        pllmul,
        hpre,
        latency: wait_states(sysclk),
        clocks: Frequencies {
            sysclk,
            hclk,
            pclk1: hclk / ppre1,
            pclk2: hclk / ppre2,
            ppre1,
            ppre2,
        },
    }
}

/// Whether a bus target is above the clock that the bus is derived from.
pub open spec fn above(target: Option<nat>, parent: nat) -> bool {
    target matches Some(t) && t > parent
}

/// The first reason, in the order in which the tree is solved, why the targets
/// cannot be made effective; `None` where they can.
pub open spec fn failure(t: Targets) -> Option<ConfigError> {
    let c = tree(t).clocks;
    if c.sysclk > SYSCLK_MAX {
        Some(ConfigError::OverLimit(Domain::Sys))
    } else if above(t.hclk, c.sysclk) {
        Some(ConfigError::AboveParent(Domain::Ahb))
    } else if c.hclk > HCLK_MAX {
        Some(ConfigError::OverLimit(Domain::Ahb))
    } else if above(t.pclk1, c.hclk) {
        Some(ConfigError::AboveParent(Domain::Apb1))
    } else if c.pclk1 > PCLK1_MAX {
        Some(ConfigError::OverLimit(Domain::Apb1))
    } else if above(t.pclk2, c.hclk) {
        Some(ConfigError::AboveParent(Domain::Apb2))
    } else if c.pclk2 > PCLK2_MAX {
        Some(ConfigError::OverLimit(Domain::Apb2))
    } else {
        None
    }
}

/// The value of the AHB prescaler field for a divider of the ladder.
pub open spec fn hpre_bits(divider: nat) -> nat {
    if divider == 1 {
        0b0111
    } else if divider == 2 {
        0b1000
    } else if divider == 4 {
        0b1001
    } else if divider == 8 {
        0b1010
    } else if divider == 16 {
        0b1011
    } else if divider == 64 {
        0b1100
    } else if divider == 128 {
        0b1101
    } else if divider == 256 {
        0b1110
    } else {
        0b1111
    }
}

/// The value of an APB prescaler field for a divider of the ladder.
pub open spec fn ppre_bits(divider: nat) -> nat {
    if divider == 1 {
        0b011
    } else if divider == 2 {
        0b100
    } else if divider == 4 {
        0b101
    } else if divider == 8 {
        0b110
    } else {
        0b111
    }
}

/// The divider that the AHB prescaler applies for a value of its field:
/// values below `0b1000` do not divide.
pub open spec fn ahb_division(field: nat) -> nat {
    if field < 0b1000 {
        1
    } else if field == 0b1000 {
        2
    } else if field == 0b1001 {
        4
    } else if field == 0b1010 {
        8
    } else if field == 0b1011 {
        16
    } else if field == 0b1100 {
        64
    } else if field == 0b1101 {
        128
    } else if field == 0b1110 {
        256
    } else {
        512
    }
}

/// The divider that an APB prescaler applies for a value of its field:
/// values below `0b100` do not divide.
pub open spec fn apb_division(field: nat) -> nat {
    if field < 0b100 {
        1
    } else if field == 0b100 {
        2
    } else if field == 0b101 {
        4
    } else if field == 0b110 {
        8
    } else {
        16
    }
}

/// The field value for a divider of the ladder makes the prescaler divide by
/// that divider, and fits the field: four bits for the AHB prescaler, three
/// for an APB prescaler.
pub proof fn lemma_field_divides(divider: nat)
    ensures
        ahb_ladder().contains(divider) ==> ahb_division(hpre_bits(divider)) == divider,
        apb_ladder().contains(divider) ==> apb_division(ppre_bits(divider)) == divider,
        hpre_bits(divider) < 16,
        ppre_bits(divider) < 8,
{
}

/// The PLL is bypassed exactly where the system clock is the oscillator's
/// own frequency.
pub proof fn lemma_bypass(target: Option<nat>)
    ensures
        pll_multiplier(target) == 2 <==> system_clock(pll_multiplier(target)) == HSI,
        target is None ==> pll_multiplier(target) == 2,
        target matches Some(t) ==> (pll_multiplier(target) == 2 <==> t <= HSI),
{
}

/// For a positive divisor, a quotient is below `k` exactly when the dividend
/// is below `k` times the divisor.
proof fn lemma_quotient_below(s: int, d: int, k: int)
    by (nonlinear_arith)
    requires
        0 <= s,
        0 < d,
    ensures
        (s / d < k) <==> (s < k * d),
{
}

/// `s / d` is at most `t` exactly when `s / (t + 1)` is below `d`.
proof fn lemma_ratio(s: nat, t: nat, d: nat)
    requires
        0 < d,
    ensures
        (s / d <= t) <==> (s / (t + 1) < d),
{
    lemma_quotient_below(s as int, d as int, (t + 1) as int);
    lemma_quotient_below(s as int, (t + 1) as int, d as int);
    assert((t + 1) * d == d * (t + 1)) by (nonlinear_arith);
}

/// Whatever the target, the PLL factor lies in 2..=16 and the system clock is
/// a multiple of 4 MHz from 8 MHz to 64 MHz.
pub proof fn lemma_system_clock_range(target: Option<nat>)
    ensures
        2 <= pll_multiplier(target) <= 16,
        system_clock(pll_multiplier(target)) == pll_multiplier(target) * 4_000_000,
        8_000_000 <= system_clock(pll_multiplier(target)) <= 64_000_000,
{
}

/// For a target from 8 MHz to 72 MHz, the system clock is the PLL factor times
/// half the oscillator frequency, with a factor in 2..=16. It is at most the
/// target rounded up to a multiple of 4 MHz, and at most 72 MHz. Up to 64 MHz
/// it is not below the target either, and it is the target itself where the
/// target is a multiple of 4 MHz.
pub proof fn lemma_system_clock_for_target(target: nat)
    requires
        8_000_000 <= target <= 72_000_000,
    ensures
        2 <= pll_multiplier(Some(target)) <= 16,
        system_clock(pll_multiplier(Some(target))) == pll_multiplier(Some(target)) * 8_000_000 / 2,
        system_clock(pll_multiplier(Some(target))) <= rounding_ceiling(target),
        system_clock(pll_multiplier(Some(target))) <= SYSCLK_MAX,
        system_clock(pll_multiplier(Some(target))) < target + 4_000_000,
        target <= 64_000_000 ==> target <= system_clock(pll_multiplier(Some(target))),
        target <= 64_000_000 && target % 4_000_000 == 0 ==> system_clock(
            pll_multiplier(Some(target)),
        ) == target,
{
}

/// The AHB divider is one of the ladder. Without a target it is 1. With a
/// target that some divider of the ladder reaches, it is the smallest of the
/// ladder that brings the system clock down to the target or below.
pub proof fn lemma_ahb_divider_smallest(sysclk: nat, target: Option<nat>)
    requires
        target matches Some(t) ==> sysclk / 512 <= t,
    ensures
        ahb_ladder().contains(ahb_divider(sysclk, target)),
        target is None ==> ahb_divider(sysclk, target) == 1,
        target matches Some(t) ==> sysclk / ahb_divider(sysclk, target) <= t,
        target matches Some(t) ==> forall|d: nat|
            ahb_ladder().contains(d) && sysclk / d <= t ==> ahb_divider(sysclk, target) <= d,
{
}

/// Where no divider of the ladder brings the system clock down to the target,
/// the AHB divider is the largest of the ladder.
pub proof fn lemma_ahb_divider_unreached(sysclk: nat, target: nat)
    requires
        sysclk / 512 > target,
    ensures
        ahb_divider(sysclk, Some(target)) == 512,
{
}

/// An APB divider is one of the ladder. Without a target it is 1. With a
/// target that some divider of the ladder reaches, it is the smallest of the
/// ladder that brings the AHB clock down to the target or below.
pub proof fn lemma_apb_divider_smallest(hclk: nat, target: Option<nat>)
    requires
        target matches Some(t) ==> hclk / 16 <= t,
    ensures
        apb_ladder().contains(apb_divider(hclk, target)),
        target is None ==> apb_divider(hclk, target) == 1,
        target matches Some(t) ==> hclk / apb_divider(hclk, target) <= t,
        target matches Some(t) ==> forall|d: nat|
            apb_ladder().contains(d) && hclk / d <= t ==> apb_divider(hclk, target) <= d,
{
}

/// Of the four ceilings only that of APB1 can be exceeded: the system clock
/// never passes 64 MHz, and no bus is faster than the clock it derives from.
pub proof fn lemma_only_apb1_over_limit(t: Targets)
    ensures
        tree(t).clocks.hclk <= tree(t).clocks.sysclk <= 64_000_000,
        tree(t).clocks.pclk1 <= tree(t).clocks.hclk,
        tree(t).clocks.pclk2 <= tree(t).clocks.hclk,
        forall|d: Domain| failure(t) == Some(ConfigError::OverLimit(d)) ==> d == Domain::Apb1,
{
    lemma_system_clock_range(t.sysclk);
}

/// The PLL factor for a system clock target.
pub fn multiplier(target: Option<u32>) -> (pllmul: u8)
    ensures
        2 <= pllmul <= 16,
        pllmul == pll_multiplier(hz(target)),
        system_clock(pllmul as nat) <= SYSCLK_MAX,
        target matches Some(t) ==> (8_000_000 <= t <= 72_000_000 ==> system_clock(pllmul as nat)
            <= rounding_ceiling(t as nat)),
{
    match target {
        None => 2,
        Some(t) => {
            let raw: u64 = (2 * (t as u64) + (HSI as u64 - 1)) / (HSI as u64);
            if raw < 2 {
                2
            } else if raw > 16 {
                16
            } else {
                raw as u8
            }
        },
    }
}

/// The AHB divider for a system clock and a target.
///
/// It is found from the ratio `sysclk / (target + 1)`: the divider is the
/// first of the ladder above that ratio.
pub fn ahb_prescaler(sysclk: u32, target: Option<u32>) -> (divider: u16)
    ensures
        divider == ahb_divider(sysclk as nat, hz(target)),
        ahb_ladder().contains(divider as nat),
        target is None ==> divider == 1,
        target matches Some(t) ==> (sysclk / 512 <= t ==> sysclk / (divider as u32) <= t),
        target matches Some(t) ==> forall|d: nat|
            ahb_ladder().contains(d) && sysclk as nat / d <= t ==> divider <= d,
{
    match target {
        None => 1,
        Some(t) => {
            let ratio: u64 = (sysclk as u64) / (t as u64 + 1);
            proof {
                lemma_ratio(sysclk as nat, t as nat, 1);
                lemma_ratio(sysclk as nat, t as nat, 2);
                lemma_ratio(sysclk as nat, t as nat, 4);
                lemma_ratio(sysclk as nat, t as nat, 8);
                lemma_ratio(sysclk as nat, t as nat, 16);
                lemma_ratio(sysclk as nat, t as nat, 64);
                lemma_ratio(sysclk as nat, t as nat, 128);
                lemma_ratio(sysclk as nat, t as nat, 256);
            }
            if ratio < 1 {
                1
            } else if ratio < 2 {
                2
            } else if ratio < 4 {
                4
            } else if ratio < 8 {
                8
            } else if ratio < 16 {
                16
            } else if ratio < 64 {
                64
            } else if ratio < 128 {
                128
            } else if ratio < 256 {
                256
            } else {
                512
            }
        },
    }
}

/// An APB divider for an AHB clock and a target, found as the AHB divider is.
pub fn apb_prescaler(hclk: u32, target: Option<u32>) -> (divider: u8)
    ensures
        divider == apb_divider(hclk as nat, hz(target)),
        apb_ladder().contains(divider as nat),
        target is None ==> divider == 1,
        target matches Some(t) ==> (hclk / 16 <= t ==> hclk / (divider as u32) <= t),
        target matches Some(t) ==> forall|d: nat|
            apb_ladder().contains(d) && hclk as nat / d <= t ==> divider <= d,
{
    match target {
        None => 1,
        Some(t) => {
            let ratio: u64 = (hclk as u64) / (t as u64 + 1);
            proof {
                lemma_ratio(hclk as nat, t as nat, 1);
                lemma_ratio(hclk as nat, t as nat, 2);
                lemma_ratio(hclk as nat, t as nat, 4);
                lemma_ratio(hclk as nat, t as nat, 8);
            }
            if ratio < 1 {
                1
            } else if ratio < 2 {
                2
            } else if ratio < 4 {
                4
            } else if ratio < 8 {
                8
            } else {
                16
            }
        },
    }
}

/// Flash wait states for a system clock.
pub fn latency(sysclk: u32) -> (n: u8)
    ensures
        n == wait_states(sysclk as nat),
{
    if sysclk <= 24_000_000 {
        0
    } else if sysclk <= 48_000_000 {
        1
    } else {
        2
    }
}

/// The value of the AHB prescaler field for a divider.
pub fn hpre_field(divider: u16) -> (bits: u8)
    ensures
        bits == hpre_bits(divider as nat),
        0b0111 <= bits <= 0b1111,
{
    if divider == 1 {
        0b0111
    } else if divider == 2 {
        0b1000
    } else if divider == 4 {
        0b1001
    } else if divider == 8 {
        0b1010
    } else if divider == 16 {
        0b1011
    } else if divider == 64 {
        0b1100
    } else if divider == 128 {
        0b1101
    } else if divider == 256 {
        0b1110
    } else {
        0b1111
    }
}

/// The value of an APB prescaler field for a divider.
pub fn ppre_field(divider: u8) -> (bits: u8)
    ensures
        bits == ppre_bits(divider as nat),
        0b011 <= bits <= 0b111,
{
    if divider == 1 {
        0b011
    } else if divider == 2 {
        0b100
    } else if divider == 4 {
        0b101
    } else if divider == 8 {
        0b110
    } else {
        0b111
    }
}

} // verus!
