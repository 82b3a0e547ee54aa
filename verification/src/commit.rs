//! The order in which a solved clock tree is written to the hardware.
//!
//! The hardware is not reached from here. A [`Commit`] names one step at a
//! time; the caller carries the step out and reports back, and for the step
//! that reads the PLL's ready flag it reports what it read. The flash wait
//! states are always the first step. With the PLL in use, the clock source is
//! switched only in answer to a ready flag that was read as set. The last
//! step hands out the frequencies that are then in effect.

use crate::rcc::Clocks;
use crate::tree::{
    ahb_division, apb_division, hpre_bits, lemma_field_divides, lemma_system_clock_range,
    ppre_bits, tree, Targets, Tree,
};
use vstd::prelude::*;

verus! {

/// Clock source selector: the internal oscillator.
pub const SW_HSI: u8 = 0b00;

/// Clock source selector: the PLL.
pub const SW_PLL: u8 = 0b10;

/// The values of the register fields for a solved clock tree.
#[derive(Clone, Copy, Debug, PartialEq, Eq, Structural)]
pub struct Program {
    /// Flash latency field: the wait states.
    pub latency: u8,
    /// PLL multiplier field, the factor less 2; `None` where the PLL is bypassed.
    pub pllmul: Option<u8>,
    /// AHB prescaler field.
    pub hpre: u8,
    /// APB1 prescaler field.
    pub ppre1: u8,
    /// APB2 prescaler field.
    pub ppre2: u8,
}

/// The field values for a tree.
pub open spec fn program_for(tree: Tree) -> Program {
    Program {
        latency: tree.latency as u8,
        pllmul: if tree.pllmul == 2 {
            None
        } else {
            Some((tree.pllmul - 2) as u8)
        },
        hpre: hpre_bits(tree.hpre) as u8,
        ppre1: ppre_bits(tree.clocks.ppre1) as u8,
        ppre2: ppre_bits(tree.clocks.ppre2) as u8,
    }
}

/// The field values for the tree of any targets fit their fields, and they
/// are what makes the hardware run the tree: a PLL factor of the field plus
/// 2, and prescalers that divide by the dividers of the tree.
pub proof fn lemma_program_fits(t: Targets)
    ensures
        program_for(tree(t)).latency == tree(t).latency <= 2,
        program_for(tree(t)).pllmul matches Some(field) ==> 1 <= field <= 14 && field + 2 == tree(
            t,
        ).pllmul,
        program_for(tree(t)).pllmul is None <==> tree(t).pllmul == 2,
        program_for(tree(t)).hpre < 16,
        program_for(tree(t)).ppre1 < 8,
        program_for(tree(t)).ppre2 < 8,
        ahb_division(program_for(tree(t)).hpre as nat) == tree(t).hpre,
        apb_division(program_for(tree(t)).ppre1 as nat) == tree(t).clocks.ppre1,
        apb_division(program_for(tree(t)).ppre2 as nat) == tree(t).clocks.ppre2,
{
    lemma_system_clock_range(t.sysclk);
    lemma_field_divides(tree(t).hpre);
    lemma_field_divides(tree(t).clocks.ppre1);
    lemma_field_divides(tree(t).clocks.ppre2);
}

/// One access to the hardware.
#[derive(Clone, Copy, Debug, PartialEq, Eq, Structural)]
pub enum Step {
    /// Write the flash latency field.
    SetLatency(u8),
    /// Write the clock configuration register anew, with the PLL multiplier
    /// field as given.
    SetPllMultiplier(u8),
    /// Write the clock control register anew, with the PLL enabled.
    EnablePll,
    /// Read the PLL's ready flag and report it.
    ReadPllReady,
    /// Set the three prescaler fields and the clock source selector in the
    /// clock configuration register, and keep its other fields.
    SelectPll { hpre: u8, ppre1: u8, ppre2: u8, sw: u8 },
    /// Write the clock configuration register anew, with the three prescaler
    /// fields and the clock source selector as given.
    SelectHsi { hpre: u8, ppre1: u8, ppre2: u8, sw: u8 },
    /// Nothing is left to do: the clocks run at these frequencies.
    Done(Clocks),
}

/// What the caller reports after a step.
#[derive(Clone, Copy, Debug, PartialEq, Eq, Structural)]
pub enum Event {
    /// The step before, if there was one, was carried out.
    Ready,
    /// The PLL's ready flag, as read for [`Step::ReadPllReady`].
    PllReady(bool),
}

/// How far a commit has come: the step that is due.
#[derive(Clone, Copy, Debug, PartialEq, Eq, Structural)]
pub enum Stage {
    /// The flash latency is due.
    Latency,
    /// The PLL multiplier is due.
    Multiplier,
    /// Enabling the PLL is due.
    Enable,
    /// The first read of the ready flag is due.
    Poll,
    /// The ready flag was read; the switch to the PLL is due once it was set.
    Lock,
    /// The switch to the internal oscillator is due.
    Switch,
    /// All is written.
    Finished,
}

/// The stage that follows and the step to carry out, for a stage and what the
/// caller reported.
pub open spec fn advance(p: Program, clocks: Clocks, stage: Stage, event: Event) -> (
    Stage,
    Step,
) {
    match stage {
        Stage::Latency => (
            if p.pllmul is Some {
                Stage::Multiplier
            } else {
                Stage::Switch
            },
            Step::SetLatency(p.latency),
        ),
        Stage::Multiplier => (
            Stage::Enable,
            Step::SetPllMultiplier(
                match p.pllmul {
                    Some(bits) => bits,
                    None => 0,
                },
            ),
        ),
        Stage::Enable => (Stage::Poll, Step::EnablePll),
        Stage::Poll => (Stage::Lock, Step::ReadPllReady),
        Stage::Lock => if event == Event::PllReady(true) {
            (
                Stage::Finished,
                Step::SelectPll { hpre: p.hpre, ppre1: p.ppre1, ppre2: p.ppre2, sw: SW_PLL },
            )
        } else {
            (Stage::Lock, Step::ReadPllReady)
        },
        Stage::Switch => (
            Stage::Finished,
            Step::SelectHsi { hpre: p.hpre, ppre1: p.ppre1, ppre2: p.ppre2, sw: SW_HSI },
        ),
        Stage::Finished => (Stage::Finished, Step::Done(clocks)),
    }
}

/// The stage reached from the start after the given reports.
pub open spec fn stage_after(p: Program, clocks: Clocks, events: Seq<Event>) -> Stage
    decreases events.len(),
{
    if events.len() == 0 {
        Stage::Latency
    } else {
        advance(p, clocks, stage_after(p, clocks, events.drop_last()), events.last()).0
    }
}

/// The step named in answer to report `i`, from the start.
pub open spec fn step_at(p: Program, clocks: Clocks, events: Seq<Event>, i: int) -> Step {
    advance(p, clocks, stage_after(p, clocks, events.take(i)), events[i]).1
}

/// Whether one of the reports 4 to `i - 1` was a ready flag that was set.
/// Report 4 is the first that can answer a read of the flag.
pub open spec fn locked_before(events: Seq<Event>, i: int) -> bool {
    exists|j: int| 4 <= j < i && events[j] == Event::PllReady(true)
}

/// The stage reached from the start after `i` reports, told from the reports.
pub open spec fn stage_reached(p: Program, events: Seq<Event>, i: int) -> Stage {
    if i == 0 {
        Stage::Latency
    } else if p.pllmul is None {
        if i == 1 {
            Stage::Switch
        } else {
            Stage::Finished
        }
    } else if i == 1 {
        Stage::Multiplier
    } else if i == 2 {
        Stage::Enable
    } else if i == 3 {
        Stage::Poll
    } else if locked_before(events, i) {
        Stage::Finished
    } else {
        Stage::Lock
    }
}

/// From the start a commit goes through its stages in one order: the latency;
/// then, with the PLL bypassed, the switch to the oscillator; with the PLL in
/// use, the multiplier, the enabling, reads of the ready flag until one is
/// reported as set, and only then the switch.
pub proof fn lemma_stage_reached(p: Program, clocks: Clocks, events: Seq<Event>, i: int)
    requires
        0 <= i <= events.len(),
    ensures
        stage_after(p, clocks, events.take(i)) == stage_reached(p, events, i),
    decreases i,
{
    if i > 0 {
        let before = events.take(i - 1);
        assert(events.take(i).drop_last() =~= before);
        assert(events.take(i).last() == events[i - 1]);
        lemma_stage_reached(p, clocks, events, i - 1);
        if p.pllmul is Some && i >= 5 {
            if locked_before(events, i - 1) {
                let j = choose|j: int| 4 <= j < i - 1 && events[j] == Event::PllReady(true);
                assert(4 <= j < i && events[j] == Event::PllReady(true));
            } else if events[i - 1] == Event::PllReady(true) {
                assert(4 <= i - 1 < i && events[i - 1] == Event::PllReady(true));
            } else {
                assert forall|j: int| 4 <= j < i implies events[j] != Event::PllReady(true) by {
                    if j < i - 1 {
                        assert(!(4 <= j < i - 1 && events[j] == Event::PllReady(true)));
                    }
                }
            }
        }
    }
}

/// The flash latency is the first step, whatever follows.
pub proof fn lemma_latency_first(p: Program, clocks: Clocks, events: Seq<Event>)
    requires
        events.len() > 0,
    ensures
        step_at(p, clocks, events, 0) == Step::SetLatency(p.latency),
{
    lemma_stage_reached(p, clocks, events, 0);
}

/// With the PLL bypassed the steps are the latency and the switch to the
/// oscillator, and nothing else: the PLL is never written or enabled. After
/// the switch the frequencies are handed out.
pub proof fn lemma_steps_bypassed(p: Program, clocks: Clocks, events: Seq<Event>, i: int)
    requires
        p.pllmul is None,
        0 <= i < events.len(),
    ensures
        step_at(p, clocks, events, i) == (if i == 0 {
            Step::SetLatency(p.latency)
        } else if i == 1 {
            Step::SelectHsi { hpre: p.hpre, ppre1: p.ppre1, ppre2: p.ppre2, sw: SW_HSI }
        } else {
            Step::Done(clocks)
        }),
{
    lemma_stage_reached(p, clocks, events, i);
}

/// With the PLL in use the steps are the latency, the multiplier, the
/// enabling and a read of the ready flag; then a further read for each report
/// that is not a set flag, the switch to the PLL in answer to the first report
/// of a set flag, and after it the frequencies.
pub proof fn lemma_steps_with_pll(p: Program, clocks: Clocks, events: Seq<Event>, i: int)
    requires
        p.pllmul is Some,
        0 <= i < events.len(),
    ensures
        step_at(p, clocks, events, i) == (if i == 0 {
            Step::SetLatency(p.latency)
        } else if i == 1 {
            Step::SetPllMultiplier(p.pllmul.unwrap())
        } else if i == 2 {
            Step::EnablePll
        } else if i == 3 {
            Step::ReadPllReady
        } else if locked_before(events, i) {
            Step::Done(clocks)
        } else if events[i] == Event::PllReady(true) {
            Step::SelectPll { hpre: p.hpre, ppre1: p.ppre1, ppre2: p.ppre2, sw: SW_PLL }
        } else {
            Step::ReadPllReady
        }),
{
    lemma_stage_reached(p, clocks, events, i);
}

/// The clock source is switched to the PLL only in answer to a ready flag
/// that was read as set, after the latency was written, the multiplier set
/// and the PLL enabled, and with nothing but reads of the flag in between.
pub proof fn lemma_switch_follows_lock(p: Program, clocks: Clocks, events: Seq<Event>, i: int)
    requires
        0 <= i < events.len(),
        step_at(p, clocks, events, i) is SelectPll,
    ensures
        p.pllmul is Some,
        i >= 4,
        events[i] == Event::PllReady(true),
        step_at(p, clocks, events, 0) == Step::SetLatency(p.latency),
        step_at(p, clocks, events, 1) == Step::SetPllMultiplier(p.pllmul.unwrap()),
        step_at(p, clocks, events, 2) == Step::EnablePll,
        forall|j: int| 3 <= j < i ==> step_at(p, clocks, events, j) == Step::ReadPllReady,
{
    lemma_stage_reached(p, clocks, events, i);
    if p.pllmul is None {
        lemma_steps_bypassed(p, clocks, events, i);
    }
    lemma_steps_with_pll(p, clocks, events, i);
    lemma_steps_with_pll(p, clocks, events, 0);
    lemma_steps_with_pll(p, clocks, events, 1);
    lemma_steps_with_pll(p, clocks, events, 2);
    assert forall|j: int| 3 <= j < i implies step_at(p, clocks, events, j) == Step::ReadPllReady by {
        lemma_steps_with_pll(p, clocks, events, j);
        if j >= 4 {
            if locked_before(events, j) {
                let k = choose|k: int| 4 <= k < j && events[k] == Event::PllReady(true);
                assert(4 <= k < i && events[k] == Event::PllReady(true));
            }
            if events[j] == Event::PllReady(true) {
                assert(4 <= j < i && events[j] == Event::PllReady(true));
            }
        }
    }
}

/// The clock source is switched once at most: after the switch nothing is
/// written any more.
pub proof fn lemma_one_switch(p: Program, clocks: Clocks, events: Seq<Event>, i: int, j: int)
    requires
        0 <= i < j < events.len(),
        step_at(p, clocks, events, i) is SelectPll || step_at(p, clocks, events, i) is SelectHsi,
    ensures
        step_at(p, clocks, events, j) == Step::Done(clocks),
{
    if p.pllmul is None {
        lemma_steps_bypassed(p, clocks, events, i);
        lemma_steps_bypassed(p, clocks, events, j);
    } else {
        lemma_steps_with_pll(p, clocks, events, i);
        lemma_steps_with_pll(p, clocks, events, j);
        assert(4 <= i < j && events[i] == Event::PllReady(true));
    }
}

/// The sequencing of one clock configuration.
pub struct Commit {
    program: Program,
    clocks: Clocks,
    stage: Stage,
    history: Ghost<Seq<Event>>,
}

impl Commit {
    /// The stage is the one that the reports so far lead to.
    #[verifier::type_invariant]
    spec fn consistent(self) -> bool {
        self.stage == stage_after(self.program, self.clocks, self.history@)
    }

    /// The field values that are being written.
    pub closed spec fn program(&self) -> Program {
        self.program
    }

    /// The frequencies that are in effect once all is written.
    pub closed spec fn clocks(&self) -> Clocks {
        self.clocks
    }

    /// The stage that the commit is at.
    pub closed spec fn stage(&self) -> Stage {
        self.stage
    }

    /// The reports that the commit was given, oldest first.
    pub closed spec fn history(&self) -> Seq<Event> {
        self.history@
    }

    /// A commit of the given field values, at its start.
    pub(crate) fn start(program: Program, clocks: Clocks) -> (c: Commit)
        ensures
            c.program() == program,
            c.clocks() == clocks,
            c.stage() == Stage::Latency,
            c.history() == Seq::<Event>::empty(),
    {
        Commit { program, clocks, stage: Stage::Latency, history: Ghost(Seq::empty()) }
    }

    /// Whether all is written.
    pub fn is_finished(&self) -> (b: bool)
        ensures
            b == (self.stage() == Stage::Finished),
    {
        match self.stage {
            Stage::Finished => true,
            _ => false,
        }
    }

    /// Takes the caller's report and names the next step.
    pub fn step(&mut self, event: Event) -> (step: Step)
        ensures
            final(self).program() == old(self).program(),
            final(self).clocks() == old(self).clocks(),
            final(self).history() == old(self).history().push(event),
            old(self).stage() == stage_after(
                old(self).program(),
                old(self).clocks(),
                old(self).history(),
            ),
            final(self).stage() == advance(
                old(self).program(),
                old(self).clocks(),
                old(self).stage(),
                event,
            ).0,
            step == advance(old(self).program(), old(self).clocks(), old(self).stage(), event).1,
            step == step_at(
                old(self).program(),
                old(self).clocks(),
                final(self).history(),
                old(self).history().len() as int,
            ),
    {
        proof {
            use_type_invariant(&*self);
        }
        let p = self.program;
        let clocks = self.clocks;
        let ghost history = self.history@.push(event);
        proof {
            assert(history.drop_last() =~= self.history@);
            assert(history.take(self.history@.len() as int) =~= self.history@);
        }
        let (next, step) = match self.stage {
            Stage::Latency => (
                match p.pllmul {
                    Some(_) => Stage::Multiplier,
                    None => Stage::Switch,
                },
                Step::SetLatency(p.latency),
            ),
            Stage::Multiplier => (
                Stage::Enable,
                Step::SetPllMultiplier(
                    match p.pllmul {
                        Some(bits) => bits,
                        None => 0,
                    },
                ),
            ),
            Stage::Enable => (Stage::Poll, Step::EnablePll),
            Stage::Poll => (Stage::Lock, Step::ReadPllReady),
            Stage::Lock => match event {
                Event::PllReady(true) => (
                    Stage::Finished,
                    Step::SelectPll { hpre: p.hpre, ppre1: p.ppre1, ppre2: p.ppre2, sw: SW_PLL },
                ),
                _ => (Stage::Lock, Step::ReadPllReady),
            },
            Stage::Switch => (
                Stage::Finished,
                Step::SelectHsi { hpre: p.hpre, ppre1: p.ppre1, ppre2: p.ppre2, sw: SW_HSI },
            ),
            Stage::Finished => (Stage::Finished, Step::Done(clocks)),
        };
        *self = Commit { program: p, clocks, stage: next, history: Ghost(history) };
        step
    }
}

} // verus!
