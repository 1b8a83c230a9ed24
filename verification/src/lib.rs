//! A CHIP-8 emulator core, verified with Verus.
//!
//! The crate is split into the instruction decoder ([`instructions`]), the
//! peripheral interfaces with their minimal stand-in implementations
//! ([`peripherals`]), and the execution core that fetches, decodes and
//! executes one instruction per step ([`cpu`]).

pub mod cpu;
pub mod framebuffer;
pub mod instructions;
pub mod peripherals;

use vstd::prelude::*;

verus! {

/// A runnable CHIP-8: the execution core together with all of its
/// peripherals and the fixed 60 Hz timer pacing.
///
/// The driver calls [`Chip8::tick`] at the core frequency; every
/// `core_freq / 60` steps both countdown timers are decremented once.
#[derive(Debug)]
pub struct Chip8<K, G, R, TD, TS> {
    core: cpu::Core,
    keypad: K,
    graphics: G,
    random: R,
    timer_delay: TD,
    timer_sound: TS,
    timer_freq_div: u32,
    timer_freq_count: u32,
}

impl<K, G, R, TD, TS> Chip8<K, G, R, TD, TS> where
    K: peripherals::Keypad,
    G: peripherals::Graphics,
    R: peripherals::Random,
    TD: peripherals::Timer,
    TS: peripherals::Timer,
 {
    /// The machine state.
    pub closed spec fn spec_core(&self) -> cpu::CoreView {
        self.core@
    }

    /// The keypad.
    pub closed spec fn spec_keypad(&self) -> K {
        self.keypad
    }

    /// The graphics sink.
    pub closed spec fn spec_graphics(&self) -> G {
        self.graphics
    }

    /// The randomness source.
    pub closed spec fn spec_random(&self) -> R {
        self.random
    }

    /// The delay timer.
    pub closed spec fn spec_delay(&self) -> TD {
        self.timer_delay
    }

    /// The sound timer.
    pub closed spec fn spec_sound(&self) -> TS {
        self.timer_sound
    }

    /// How many steps lie between two timer decrements.
    pub closed spec fn spec_freq_div(&self) -> u32 {
        self.timer_freq_div
    }

    /// How many steps have passed since the last timer decrement.
    pub closed spec fn spec_freq_count(&self) -> u32 {
        self.timer_freq_count
    }

    /// The machine's structural invariant.
    pub open spec fn wf(&self) -> bool {
        &&& self.spec_core().mem.len() >= 4096
        &&& self.spec_core().reg.len() >= 16
        &&& self.spec_core().stack.len() >= 16
        &&& self.spec_core().sp <= self.spec_core().stack.len()
        &&& self.spec_freq_count() <= self.spec_freq_div()
        &&& self.spec_freq_div() <= 0xFFFF_FFFFu32 / 60
    }

    /// Assemble a machine from a core and its peripherals, stepped at
    /// `core_freq` Hz; the timers run at 60 Hz.
    pub fn new(
        core: cpu::Core,
        core_freq: u32,
        keypad: K,
        graphics: G,
        random: R,
        timer_delay: TD,
        timer_sound: TS,
    ) -> (r: Self)
        requires
            core.wf(),
        ensures
            r.wf(),
            r.spec_core() == core@,
            r.spec_keypad() == keypad,
            r.spec_graphics() == graphics,
            r.spec_random() == random,
            r.spec_delay() == timer_delay,
            r.spec_sound() == timer_sound,
            r.spec_freq_div() == core_freq / 60,
            r.spec_freq_count() == 0,
    {
        Self {
            core,
            keypad,
            graphics,
            random,
            timer_delay,
            timer_sound,
            timer_freq_div: core_freq / 60,
            timer_freq_count: 0,
        }
    }

    /// The execution core, for inspection.
    pub fn cpu(&self) -> (r: &cpu::Core)
        ensures
            r@ == self.spec_core(),
    {
        &self.core
    }

    /// The graphics sink, for inspection or rendering.
    pub fn graphics(&self) -> (r: &G)
        ensures
            *r == self.spec_graphics(),
    {
        &self.graphics
    }

    /// Execute a single step: one instruction against the sampled keypad,
    /// then the 60 Hz timer pacing.
    ///
    /// The keypad is sampled once; one instruction runs against that
    /// snapshot; every `core_freq / 60` successful steps both timers are
    /// decremented once. An error from the core aborts the step before
    /// the pacing counter moves.
    pub fn tick(&mut self) -> (result: Result<(), Error>)
        requires
            old(self).wf(),
        ensures
            final(self).wf(),
            final(self).spec_freq_div() == old(self).spec_freq_div(),
            ({
                let keys = old(self).spec_keypad().spec_pressed_keys();
                let (edges, kp1) = old(self).spec_keypad().spec_released();
                &&& final(self).spec_keypad() == kp1
                &&& (exists|td1: TD, ts1: TS|
                    {
                        &&& #[trigger] cpu::step_rel(
                            old(self).spec_core(),
                            final(self).spec_core(),
                            keys,
                            edges,
                            old(self).spec_graphics(),
                            final(self).spec_graphics(),
                            old(self).spec_random(),
                            final(self).spec_random(),
                            old(self).spec_delay(),
                            td1,
                            old(self).spec_sound(),
                            ts1,
                            result,
                        )
                        &&& if result matches Ok(_) {
                            if old(self).spec_freq_count() + 1 >= old(self).spec_freq_div() {
                                &&& final(self).spec_freq_count() == 0
                                &&& final(self).spec_delay().value() == (if td1.value() == 0 {
                                    255u8
                                } else {
                                    (td1.value() - 1) as u8
                                })
                                &&& final(self).spec_sound().value() == (if ts1.value() == 0 {
                                    255u8
                                } else {
                                    (ts1.value() - 1) as u8
                                })
                            } else {
                                &&& final(self).spec_freq_count() == old(self).spec_freq_count()
                                    + 1
                                &&& final(self).spec_delay() == td1
                                &&& final(self).spec_sound() == ts1
                            }
                        } else {
                            &&& final(self).spec_freq_count() == old(self).spec_freq_count()
                            &&& final(self).spec_delay() == td1
                            &&& final(self).spec_sound() == ts1
                        }
                    })
            }),
    {
        match self.tick_core() {
            Ok(()) => {},
            Err(e) => {
                return Err(e);
            },
        }
        let ghost td_mid = self.spec_delay();
        let ghost ts_mid = self.spec_sound();

        self.timer_freq_count = self.timer_freq_count + 1;
        if self.timer_freq_count >= self.timer_freq_div {
            self.timer_freq_count = 0;
            self.tick_timers();
        }

        proof {
            let keys = old(self).spec_keypad().spec_pressed_keys();
            let (edges, kp1) = old(self).spec_keypad().spec_released();
            assert(cpu::step_rel(
                old(self).spec_core(),
                self.spec_core(),
                keys,
                edges,
                old(self).spec_graphics(),
                self.spec_graphics(),
                old(self).spec_random(),
                self.spec_random(),
                old(self).spec_delay(),
                td_mid,
                old(self).spec_sound(),
                ts_mid,
                Ok::<(), Error>(()),
            ));
        }

        Ok(())
    }

    /// Sample the keypad and run one instruction against it.
    fn tick_core(&mut self) -> (result: Result<(), Error>)
        requires
            old(self).wf(),
        ensures
            final(self).wf(),
            final(self).spec_freq_div() == old(self).spec_freq_div(),
            final(self).spec_freq_count() == old(self).spec_freq_count(),
            ({
                let keys = old(self).spec_keypad().spec_pressed_keys();
                let (edges, kp1) = old(self).spec_keypad().spec_released();
                &&& final(self).spec_keypad() == kp1
                &&& cpu::step_rel(
                    old(self).spec_core(),
                    final(self).spec_core(),
                    keys,
                    edges,
                    old(self).spec_graphics(),
                    final(self).spec_graphics(),
                    old(self).spec_random(),
                    final(self).spec_random(),
                    old(self).spec_delay(),
                    final(self).spec_delay(),
                    old(self).spec_sound(),
                    final(self).spec_sound(),
                    result,
                )
            }),
    {
        let keys = self.keypad.pressed_keys();
        let edges = self.keypad.last_released_key();

        self.core.tick(
            keys,
            edges,
            &mut self.graphics,
            &mut self.random,
            &mut self.timer_delay,
            &mut self.timer_sound,
        )
    }

    /// Decrement both countdown timers once.
    fn tick_timers(&mut self)
        ensures
            final(self).spec_delay().value() == (if old(self).spec_delay().value() == 0 {
                255u8
            } else {
                (old(self).spec_delay().value() - 1) as u8
            }),
            final(self).spec_sound().value() == (if old(self).spec_sound().value() == 0 {
                255u8
            } else {
                (old(self).spec_sound().value() - 1) as u8
            }),
            final(self).spec_core() == old(self).spec_core(),
            final(self).spec_keypad() == old(self).spec_keypad(),
            final(self).spec_graphics() == old(self).spec_graphics(),
            final(self).spec_random() == old(self).spec_random(),
            final(self).spec_freq_div() == old(self).spec_freq_div(),
            final(self).spec_freq_count() == old(self).spec_freq_count(),
    {
        self.timer_delay.tick();
        self.timer_sound.tick();
    }
}

impl<G, R, TD, TS> Chip8<peripherals::CurrentKeys, G, R, TD, TS> where
    G: peripherals::Graphics,
    R: peripherals::Random,
    TD: peripherals::Timer,
    TS: peripherals::Timer,
 {
    /// Record a fresh keypad sample for the following steps; the previous
    /// sample is kept so releases can be detected between the two.
    pub fn sample_keys(&mut self, keys: peripherals::Keys)
        ensures
            final(self).spec_keypad().spec_prev() == old(self).spec_keypad().spec_current(),
            final(self).spec_keypad().spec_current() == keys,
            final(self).spec_core() == old(self).spec_core(),
            final(self).spec_graphics() == old(self).spec_graphics(),
            final(self).spec_random() == old(self).spec_random(),
            final(self).spec_delay() == old(self).spec_delay(),
            final(self).spec_sound() == old(self).spec_sound(),
            final(self).spec_freq_div() == old(self).spec_freq_div(),
            final(self).spec_freq_count() == old(self).spec_freq_count(),
            old(self).wf() ==> final(self).wf(),
    {
        self.keypad.sample(keys);
    }
}

/// Errors surfaced by the execution core to its driver.
///
/// Every error aborts the current step before any state is mutated for the
/// failing instruction and is propagated to the caller, which decides
/// whether to halt.
#[derive(Clone, Debug, PartialEq, Eq, Structural)]
pub enum Error {
    /// An invalid instruction word was encountered while decoding.
    InvalidInstruction(u16),
    /// A fetched or addressed region does not lie within memory.
    InvalidAlignment,
    /// The call stack was exhausted on push or empty on pop.
    StackOverflow,
}

} // verus!
