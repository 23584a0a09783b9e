use crate::bus::{Bus, BusView, DIV, IF, TAC, TIMA, TMA};
use crate::util::u8_traits::{byte_bit, Bit, NibblesU16};
use vstd::prelude::*;

verus! {

/// Clock cycles between two increments of the timer counter, as the two
/// low bits of the control register select them. The counter follows bit
/// 9, 3, 5 or 7 of the divider, which falls once in so many cycles.
pub open spec fn timer_period(tac: u8) -> int {
    if byte_bit(tac, 1) {
        if byte_bit(tac, 0) {
            256
        } else {
            64
        }
    } else {
        if byte_bit(tac, 0) {
            16
        } else {
            1024
        }
    }
}

/// Whether the counter is switched on.
pub open spec fn timer_enabled(tac: u8) -> bool {
    byte_bit(tac, 2)
}

/// Whether the selected bit of the divider falls when the divider goes
/// from `div` to the next value, with the counter switched on.
pub open spec fn timer_edge(div: u16, tac: u8) -> bool {
    timer_enabled(tac) && (div + 1) % timer_period(tac) == 0
}

/// The bus after the divider has advanced by one cycle.
pub open spec fn div_tick_spec(bus: BusView) -> BusView {
    let div = ((bus.div + 1) % 0x1_0000) as u16;
    BusView { div, ..bus.write(DIV, (div / 256) as u8) }
}

/// The bus after the counter has seen one cycle in which the divider left
/// `old_div`: a reload that is due happens and asks for the timer
/// interrupt, and the counter steps if the selected bit fell.
pub open spec fn tima_tick_spec(bus: BusView, old_div: u16) -> BusView {
    let reloaded = if bus.reload_delay == 0 {
        bus
    } else if bus.reload_delay == 1 {
        BusView { reload_delay: 0, ..bus.write(TIMA, bus.read(TMA)).write_bit(IF, 2, true) }
    } else {
        BusView { reload_delay: (bus.reload_delay - 1) as u8, ..bus }
    };
    if timer_edge(old_div, reloaded.read(TAC)) {
        if reloaded.read(TIMA) == 0xFF {
            BusView { reload_delay: 4, ..reloaded.write(TIMA, 0) }
        } else {
            reloaded.write(TIMA, (reloaded.read(TIMA) + 1) as u8)
        }
    } else {
        reloaded
    }
}

/// The bus after one clock cycle of the timer.
#[verifier::opaque]
pub open spec fn timer_tick(bus: BusView) -> BusView {
    tima_tick_spec(div_tick_spec(bus), bus.div)
}

/// The bus after `n` clock cycles of the timer.
pub open spec fn timer_run(bus: BusView, n: nat) -> BusView
    decreases n,
{
    if n == 0 {
        bus
    } else {
        timer_tick(timer_run(bus, (n - 1) as nat))
    }
}

/// How often the counter steps in `n` cycles that start with the divider
/// at `div`.
pub open spec fn timer_steps(div: int, tac: u8, n: nat) -> nat
    decreases n,
{
    if n == 0 {
        0
    } else {
        timer_steps(div, tac, (n - 1) as nat) + if timer_edge(
            ((div + n - 1) % 0x1_0000) as u16,
            tac,
        ) {
            1nat
        } else {
            0nat
        }
    }
}

/// How often the timer asks for its interrupt in `n` cycles from `bus`.
pub open spec fn timer_requests(bus: BusView, n: nat) -> nat
    decreases n,
{
    if n == 0 {
        0
    } else {
        timer_requests(bus, (n - 1) as nat) + if timer_run(bus, (n - 1) as nat).reload_delay == 1 {
            1nat
        } else {
            0nat
        }
    }
}

/// The timer: the divider and the counter that follows one of its bits.
pub struct TimerReg {}

impl TimerReg {
    pub fn new() -> TimerReg {
        TimerReg {  }
    }

    pub fn next_tick(&mut self, bus: &mut Bus)
        ensures
            final(bus)@ == timer_tick(old(bus)@),
    {
        proof {
            reveal(timer_tick);
        }
        let old_div = bus.timer_div_intern;
        bus.timer_div_intern = bus.timer_div_intern.wrapping_add(1);
        self.div_tick(bus);
        self.tima_tick(bus, old_div);
    }

    fn tima_tick(&mut self, bus: &mut Bus, old_div: u16)
        ensures
            final(bus)@ == tima_tick_spec(old(bus)@, old_div),
    {
        if bus.timer_reload_delay == 1 {
            let modulo = self.get_tma_ff06(bus);
            bus.write_byte(0xff05, modulo);
            bus.write_bit(0xff0f, 2, true);
            bus.timer_reload_delay = 0;
        } else if bus.timer_reload_delay > 1 {
            bus.timer_reload_delay -= 1;
        }
        if self.get_tac_ff07(bus).get_bit(2) {
            let tima_rate = self.get_tima_rate(bus);
            if (old_div as u32 + 1) % (tima_rate as u32) == 0 {
                let tima = bus.read_byte(0xFF05);
                if tima == 255 {
                    // the counter reads zero until the modulo is loaded
                    bus.write_byte(0xff05, 0);
                    bus.timer_reload_delay = 4;
                } else {
                    bus.write_byte(0xff05, tima + 1);
                }
            }
        }
    }

    fn div_tick(&mut self, bus: &mut Bus)
        ensures
            final(bus)@ == old(bus)@.write(DIV, (old(bus)@.div / 256) as u8),
    {
        let timer_inter = bus.timer_div_intern;
        bus.write_byte(0xff04, timer_inter.high_8nibble());
    }

    fn get_tima_rate(&self, bus: &Bus) -> (rate: u16)
        ensures
            rate == timer_period(bus@.read(TAC)),
    {
        let byte = self.get_tac_ff07(bus);
        let bits = (byte.get_bit(1), byte.get_bit(0));
        match bits {
            (true, true) => 256,
            (true, false) => 64,
            (false, true) => 16,
            (false, false) => 1024,
        }
    }

    /// The divider register.
    pub fn get_div_ff04(&self, bus: &Bus) -> (value: u8)
        ensures
            value == bus@.read(DIV),
    {
        bus.read_byte(0xFF04)
    }

    /// The timer counter.
    pub fn get_tima_ff05(&self, bus: &Bus) -> (value: u8)
        ensures
            value == bus@.read(TIMA),
    {
        bus.read_byte(0xFF05)
    }

    /// The timer modulo.
    pub fn get_tma_ff06(&self, bus: &Bus) -> (value: u8)
        ensures
            value == bus@.read(TMA),
    {
        bus.read_byte(0xFF06)
    }

    /// The timer control register.
    pub fn get_tac_ff07(&self, bus: &Bus) -> (value: u8)
        ensures
            value == bus@.read(TAC),
    {
        bus.read_byte(0xFF07)
    }
}

/// A cycle of the timer advances the divider by one, leaves the control
/// and modulo registers alone, steps the counter exactly when the selected
/// bit of the divider falls, and asks for the timer interrupt exactly when
/// a reload becomes due.
pub proof fn lemma_timer_tick(bus: BusView)
    requires
        bus.wf(),
    ensures
        timer_tick(bus).wf(),
        timer_tick(bus).div == ((bus.div + 1) % 0x1_0000) as u16,
        timer_tick(bus).read_cpu(DIV) == timer_tick(bus).div / 256,
        timer_tick(bus).read(TAC) == bus.read(TAC),
        timer_tick(bus).read(TMA) == bus.read(TMA),
        bus.reload_delay != 1 ==> timer_tick(bus).read(IF) == bus.read(IF),
        bus.reload_delay == 1 ==> timer_tick(bus).read(IF) == crate::util::u8_traits::byte_with_bit(
            bus.read(IF),
            2,
            true,
        ),
        bus.reload_delay == 0 && !timer_edge(bus.div, bus.read(TAC)) ==> timer_tick(bus).read(TIMA)
            == bus.read(TIMA) && timer_tick(bus).reload_delay == 0,
        bus.reload_delay == 0 && timer_edge(bus.div, bus.read(TAC)) && bus.read(TIMA) < 0xFF
            ==> timer_tick(bus).read(TIMA) == bus.read(TIMA) + 1 && timer_tick(bus).reload_delay
            == 0,
        bus.reload_delay == 0 && timer_edge(bus.div, bus.read(TAC)) && bus.read(TIMA) == 0xFF
            ==> timer_tick(bus).read(TIMA) == 0 && timer_tick(bus).reload_delay == 4,
        bus.reload_delay > 1 && !timer_edge(bus.div, bus.read(TAC)) ==> timer_tick(bus).read(TIMA)
            == bus.read(TIMA) && timer_tick(bus).reload_delay == bus.reload_delay - 1,
        bus.reload_delay == 1 && !timer_edge(bus.div, bus.read(TAC)) ==> timer_tick(bus).read(TIMA)
            == bus.read(TMA) && timer_tick(bus).reload_delay == 0,
{
    reveal(timer_tick);
}

proof fn lemma_period_arith(x: int, period: int)
    requires
        0 <= x,
        period == 16 || period == 64 || period == 256 || period == 1024,
    ensures
        ((x % 0x1_0000) + 1) % period == (x + 1) % period,
        ((x + 1) % period == 0) <==> ((x + 1) / period == x / period + 1),
        ((x + 1) % period != 0) <==> ((x + 1) / period == x / period),
        (x + period) / period == x / period + 1,
        (period - 1) / period == 0,
        0int / period == 0,
        period / period == 1,
{
    if period == 16 {
        assert(((x % 0x1_0000) + 1) % 16 == (x + 1) % 16);
        assert(((x + 1) % 16 == 0) <==> ((x + 1) / 16 == x / 16 + 1));
        assert(((x + 1) % 16 != 0) <==> ((x + 1) / 16 == x / 16));
        assert((x + 16) / 16 == x / 16 + 1);
        assert((16 - 1) / 16 == 0);
    } else if period == 64 {
        assert(((x % 0x1_0000) + 1) % 64 == (x + 1) % 64);
        assert(((x + 1) % 64 == 0) <==> ((x + 1) / 64 == x / 64 + 1));
        assert(((x + 1) % 64 != 0) <==> ((x + 1) / 64 == x / 64));
        assert((x + 64) / 64 == x / 64 + 1);
        assert((64 - 1) / 64 == 0);
    } else if period == 256 {
        assert(((x % 0x1_0000) + 1) % 256 == (x + 1) % 256);
        assert(((x + 1) % 256 == 0) <==> ((x + 1) / 256 == x / 256 + 1));
        assert(((x + 1) % 256 != 0) <==> ((x + 1) / 256 == x / 256));
        assert((x + 256) / 256 == x / 256 + 1);
        assert((256 - 1) / 256 == 0);
    } else {
        assert(((x % 0x1_0000) + 1) % 1024 == (x + 1) % 1024);
        assert(((x + 1) % 1024 == 0) <==> ((x + 1) / 1024 == x / 1024 + 1));
        assert(((x + 1) % 1024 != 0) <==> ((x + 1) / 1024 == x / 1024));
        assert((x + 1024) / 1024 == x / 1024 + 1);
        assert((1024 - 1) / 1024 == 0);
    }
}

/// In cycles that start with the divider at `div`, the counter steps once
/// for every multiple of the period that the divider reaches.
pub proof fn lemma_timer_steps(div: int, tac: u8, n: nat)
    requires
        0 <= div,
        timer_enabled(tac),
    ensures
        timer_steps(div, tac, n) == (div + n) / timer_period(tac) - div / timer_period(tac),
    decreases n,
{
    if n > 0 {
        lemma_timer_steps(div, tac, (n - 1) as nat);
        let period = timer_period(tac);
        let at = div + n - 1;
        lemma_period_arith(at, period);
    }
}

/// With the counter switched on, it steps exactly once in every stretch of
/// as many cycles as the selected period: with the control register at
/// 0b100, once every 1024 cycles.
pub proof fn lemma_timer_steps_once_per_period(div: u16, tac: u8)
    requires
        timer_enabled(tac),
    ensures
        timer_steps(div as int, tac, timer_period(tac) as nat) == 1,
        tac == 0b100 ==> timer_period(tac) == 1024,
{
    lemma_timer_steps(div as int, tac, timer_period(tac) as nat);
    let period = timer_period(tac);
    lemma_period_arith(div as int, period);
    if tac == 0b100 {
        assert(!byte_bit(4u8, 0) && !byte_bit(4u8, 1));
    }
}

/// The timer run for `n` cycles has advanced the divider by `n` and kept
/// the control register.
pub proof fn lemma_timer_run(bus: BusView, n: nat)
    requires
        bus.wf(),
    ensures
        timer_run(bus, n).wf(),
        timer_run(bus, n).div == ((bus.div + n) % 0x1_0000) as u16,
        timer_run(bus, n).read(TAC) == bus.read(TAC),
    decreases n,
{
    if n > 0 {
        lemma_timer_run(bus, (n - 1) as nat);
        lemma_timer_tick(timer_run(bus, (n - 1) as nat));
    }
}

/// A write of any value to the divider register sets the divider and what
/// the register shows to zero, so that the counter next steps a whole period
/// after the write.
pub proof fn lemma_div_write_resets(bus: BusView, value: u8, tac: u8)
    requires
        bus.wf(),
        timer_enabled(tac),
    ensures
        bus.write_cpu(DIV, value).div == 0,
        bus.write_cpu(DIV, value).read_cpu(DIV) == 0,
        bus.write_cpu(DIV, value).read(DIV) == 0,
        timer_steps(0, tac, (timer_period(tac) - 1) as nat) == 0,
        timer_steps(0, tac, timer_period(tac) as nat) == 1,
{
    lemma_timer_steps(0, tac, (timer_period(tac) - 1) as nat);
    lemma_timer_steps(0, tac, timer_period(tac) as nat);
    lemma_period_arith(0, timer_period(tac));
}

/// An overflow of the counter is followed by exactly one request of the
/// timer interrupt: none in the three cycles after it, one in the fourth,
/// at which the counter takes the value of the modulo register.
pub proof fn lemma_overflow_requests_once(bus: BusView)
    requires
        bus.wf(),
        bus.reload_delay == 0,
        timer_edge(bus.div, bus.read(TAC)),
        bus.read(TIMA) == 0xFF,
    ensures
        timer_tick(bus).reload_delay == 4,
        timer_tick(bus).read(TIMA) == 0,
        timer_tick(bus).read(IF) == bus.read(IF),
        timer_requests(timer_tick(bus), 3) == 0,
        timer_requests(timer_tick(bus), 4) == 1,
        timer_run(timer_tick(bus), 4).reload_delay == 0,
        timer_run(timer_tick(bus), 4).read(TIMA) == bus.read(TMA),
        byte_bit(timer_run(timer_tick(bus), 4).read(IF), 2),
{
    let b0 = timer_tick(bus);
    lemma_timer_tick(bus);
    let b1 = timer_tick(b0);
    let b2 = timer_tick(b1);
    let b3 = timer_tick(b2);
    let b4 = timer_tick(b3);
    lemma_reload_countdown(b0, bus.div, 1);
    lemma_reload_countdown(b1, bus.div, 2);
    lemma_reload_countdown(b2, bus.div, 3);
    lemma_reload_countdown(b3, bus.div, 4);
    assert(timer_run(b0, 0) == b0);
    assert(timer_run(b0, 1) == b1);
    assert(timer_run(b0, 2) == b2);
    assert(timer_run(b0, 3) == b3);
    assert(timer_run(b0, 4) == b4);
    assert(timer_requests(b0, 0) == 0);
    assert(timer_requests(b0, 1) == 0);
    assert(timer_requests(b0, 2) == 0);
    assert(timer_requests(b0, 3) == 0);
    assert(timer_requests(b0, 4) == 1);
}

/// One cycle of the wait between an overflow of the counter and its reload.
proof fn lemma_reload_countdown(bus: BusView, origin: u16, k: int)
    requires
        bus.wf(),
        1 <= k <= 4,
        bus.div == (origin + k) % 0x1_0000,
        timer_edge(origin, bus.read(TAC)),
        bus.reload_delay == 5 - k,
    ensures
        timer_tick(bus).wf(),
        timer_tick(bus).div == (origin + k + 1) % 0x1_0000,
        timer_tick(bus).read(TAC) == bus.read(TAC),
        timer_tick(bus).read(TMA) == bus.read(TMA),
        timer_tick(bus).reload_delay == 4 - k,
        k < 4 ==> timer_tick(bus).read(TIMA) == bus.read(TIMA) && timer_tick(bus).read(IF)
            == bus.read(IF),
        k == 4 ==> timer_tick(bus).read(TIMA) == bus.read(TMA) && byte_bit(
            timer_tick(bus).read(IF),
            2,
        ),
{
    lemma_timer_tick(bus);
    lemma_no_edge_after(origin, bus.read(TAC), k);
    crate::util::u8_traits::lemma_bit_after_set(bus.read(IF), 2);
}

/// After a cycle in which the selected bit of the divider fell, it does not
/// fall again in the next four cycles.
proof fn lemma_no_edge_after(div: u16, tac: u8, k: int)
    requires
        timer_edge(div, tac),
        1 <= k <= 4,
    ensures
        !timer_edge(((div + k) % 0x1_0000) as u16, tac),
{
    let period = timer_period(tac);
    if period == 16 {
        assert((((div + k) % 0x1_0000) + 1) % 16 == (div + 1 + k) % 16);
    } else if period == 64 {
        assert((((div + k) % 0x1_0000) + 1) % 64 == (div + 1 + k) % 64);
    } else if period == 256 {
        assert((((div + k) % 0x1_0000) + 1) % 256 == (div + 1 + k) % 256);
    } else {
        assert((((div + k) % 0x1_0000) + 1) % 1024 == (div + 1 + k) % 1024);
    }
}

} // verus!
