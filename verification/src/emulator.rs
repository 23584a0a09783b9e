use crate::bus::{Bus, BusView};
use crate::cpu::CPU;
use crate::ppu::{PPUModes, PpuView, PPU};
use crate::register::Registers;
use crate::timer_reg::{timer_tick, TimerReg};
use vstd::prelude::*;

verus! {

/// Whether the machine runs.
#[derive(Debug, Clone, Copy, PartialEq, Eq, Structural)]
pub enum EmulatorState {
    Running,
    Paused,
    Stopped,
}

/// The state after the pause key: a running machine pauses, a paused one
/// runs, a stopped one stays stopped.
pub open spec fn toggled(state: EmulatorState) -> EmulatorState {
    match state {
        EmulatorState::Running => EmulatorState::Paused,
        EmulatorState::Paused => EmulatorState::Running,
        EmulatorState::Stopped => EmulatorState::Stopped,
    }
}

/// The processor, the pixel unit and the bus after `n` clock cycles: in
/// each the timer, the pixel unit and the processor have their cycle in
/// this order, each on the bus as the one before left it.
pub open spec fn machine_after(cpu: CPU, ppu: PpuView, bus: BusView, n: nat) -> (
    CPU,
    PpuView,
    BusView,
)
    decreases n,
{
    if n == 0 {
        (cpu, ppu, bus)
    } else {
        let before = machine_after(cpu, ppu, bus, (n - 1) as nat);
        let timed = timer_tick(before.2);
        let ran = before.0.next_tick_spec(before.1.tick_bus(timed));
        (ran.0, before.1.tick(timed), ran.1)
    }
}

/// The machine: the one owner of the bus, which it lends to the timer, the
/// pixel unit and the processor in turn on every clock cycle.
pub struct Emulator {
    pub cpu: CPU,
    pub ppu: PPU,
    pub bus: Bus,
    pub timer: TimerReg,
    pub state: EmulatorState,
    pub cycles: u64,
}

impl Emulator {
    /// The bus after the timer and the pixel unit have had their clock
    /// cycle and before the processor has its own.
    pub open spec fn bus_before_cpu(self) -> BusView {
        self.ppu@.tick_bus(timer_tick(self.bus@))
    }

    /// A machine at rest: processor and pixel unit as they are made, the
    /// memory empty, no clock cycle counted, paused.
    pub fn new() -> (emulator: Emulator)
        ensures
            emulator.state == EmulatorState::Paused,
            emulator.cycles == 0,
            emulator.ppu@ == PpuView::initial(),
            emulator.bus@ == BusView::empty(),
            emulator.cpu.at_reset(Registers { af: 0, bc: 0, de: 0, hl: 0, sp: 0, pc: 0 }),
            emulator.cpu.has_default_tables(),
            emulator.ppu@.wf(),
            emulator.bus@.wf(),
            emulator.cpu.reg.wf(),
    {
        Emulator {
            cpu: CPU::new(),
            ppu: PPU::new(),
            bus: Bus::new(),
            timer: TimerReg::new(),
            state: EmulatorState::Paused,
            cycles: 0,
        }
    }

    pub fn start(&mut self)
        ensures
            *final(self) == (Emulator { state: EmulatorState::Running, ..*old(self) }),
    {
        self.state = EmulatorState::Running;
    }

    pub fn stop(&mut self)
        ensures
            *final(self) == (Emulator { state: EmulatorState::Stopped, ..*old(self) }),
    {
        self.state = EmulatorState::Stopped;
    }

    pub fn pause_resume(&mut self)
        ensures
            *final(self) == (Emulator { state: toggled(old(self).state), ..*old(self) }),
    {
        let state = &self.state;
        self.state = match state {
            EmulatorState::Running => EmulatorState::Paused,
            EmulatorState::Paused => EmulatorState::Running,
            EmulatorState::Stopped => EmulatorState::Stopped,
        }
    }

    /// One clock cycle if the pixel unit is well-formed; else nothing
    /// happens. Says whether the cycle was run.
    pub fn try_update(&mut self) -> (ran: bool)
        ensures
            ran == old(self).ppu@.wf(),
            !ran ==> *final(self) == *old(self),
            ran ==> final(self).ppu@ == old(self).ppu@.tick(timer_tick(old(self).bus@)) && (
                final(self).cpu,
                final(self).bus@,
            ) == old(self).cpu.next_tick_spec(old(self).bus_before_cpu()) && final(self).ppu@.wf(),
    {
        if self.ppu.is_well_formed() {
            self.update_emulator_state();
            true
        } else {
            false
        }
    }

    /// Whether the last clock cycle finished a picture: the pixel unit has
    /// just begun the vertical blank.
    pub fn frame_ready(&self) -> (ready: bool)
        ensures
            ready == (self.ppu@.lcd_on && self.ppu@.mode == PPUModes::Mode1 && self.ppu@.mode_dot
                == 0),
    {
        self.ppu.frame_ready()
    }

    /// One clock cycle: first the timer, then the pixel unit, then the
    /// processor, each on the bus as the one before left it.
    pub fn update_emulator_state(&mut self)
        requires
            old(self).ppu@.wf(),
        ensures
            final(self).ppu@ == old(self).ppu@.tick(timer_tick(old(self).bus@)),
            (final(self).cpu, final(self).bus@) == old(self).cpu.next_tick_spec(
                old(self).bus_before_cpu(),
            ),
            final(self).ppu@.wf(),
            old(self).cpu.reg.wf() ==> final(self).cpu.reg.wf(),
            final(self).cycles == if old(self).cycles == u64::MAX {
                0
            } else {
                (old(self).cycles + 1) as u64
            },
            final(self).state == old(self).state,
    {
        self.cycles = self.cycles.wrapping_add(1);
        self.timer.next_tick(&mut self.bus);
        self.ppu.next_tick(&mut self.bus);
        self.cpu.next_tick(&mut self.bus);
    }

    /// Runs the machine freely for up to `n` clock cycles; it stops early
    /// when it is no longer running. Returns the cycles that were run.
    pub fn run_cycles(&mut self, n: u64) -> (done: u64)
        requires
            old(self).ppu@.wf(),
        ensures
            done <= n,
            final(self).ppu@.wf(),
            old(self).cpu.reg.wf() ==> final(self).cpu.reg.wf(),
            final(self).state == old(self).state,
            done == if old(self).state == EmulatorState::Running {
                n
            } else {
                0
            },
            (final(self).cpu, final(self).ppu@, final(self).bus@) == machine_after(
                old(self).cpu,
                old(self).ppu@,
                old(self).bus@,
                done as nat,
            ),
            final(self).cycles == (old(self).cycles + done) % 0x1_0000_0000_0000_0000,
    {
        let mut done: u64 = 0;
        while done < n && matches!(self.state, EmulatorState::Running)
            invariant
                done <= n,
                self.ppu@.wf(),
                old(self).cpu.reg.wf() ==> self.cpu.reg.wf(),
                self.state == old(self).state,
                old(self).state != EmulatorState::Running ==> done == 0,
                (self.cpu, self.ppu@, self.bus@) == machine_after(
                    old(self).cpu,
                    old(self).ppu@,
                    old(self).bus@,
                    done as nat,
                ),
                self.cycles == (old(self).cycles + done) % 0x1_0000_0000_0000_0000,
            decreases n - done,
        {
            self.update_emulator_state();
            done += 1;
        }
        done
    }
}

} // verus!
