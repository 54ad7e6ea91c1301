use crate::bits::wrap8;
use vstd::prelude::*;

verus! {

/// The address of DIV, the upper byte of the divider.
pub const DIV: u16 = 0xFF04;

/// The address of TIMA, the timer counter.
pub const TIMA: u16 = 0xFF05;

/// The address of TMA, the value that TIMA restarts from.
pub const TMA: u16 = 0xFF06;

/// The address of TAC, the timer control register.
pub const TAC: u16 = 0xFF07;

/// The divider and the programmable timer.
#[derive(Clone, Copy, Debug, PartialEq, Eq, Structural)]
pub struct Timer {
    /// The timer interrupt latch.
    pub timer_irq: bool,
    /// The upper byte of the divider, which counts once in 256 clock ticks.
    pub div: u8,
    /// The lower byte of the divider: the clock ticks since DIV last counted.
    pub cycles_since_div: u8,
    /// The clock ticks that TIMA has not counted yet.
    pub cycles_since_tima: u32,
    pub tima: u8,
    pub tma: u8,
    /// The three bits of TAC: bit 2 enables TIMA, bits 1 and 0 select its
    /// rate.
    pub tac: u8,
}

/// The clock ticks between two counts of TIMA for a rate selector: 1024, 16,
/// 64 and 256 ticks, which is 4096, 262144, 65536 and 16384 counts a second.
pub open spec fn period_of(tac: u8) -> int {
    let rate = tac % 4;
    if rate == 0 {
        1024
    } else if rate == 1 {
        16
    } else if rate == 2 {
        64
    } else {
        256
    }
}

/// TIMA and the interrupt latch after TIMA has counted `count` times. A count
/// from 255 restarts TIMA from TMA and sets the latch.
pub open spec fn tima_after(tima: u8, tma: u8, irq: bool, count: nat) -> (u8, bool)
    decreases count,
{
    if count == 0 {
        (tima, irq)
    } else {
        let (before, latched) = tima_after(tima, tma, irq, (count - 1) as nat);
        if before == 255 {
            (tma, true)
        } else {
            ((before + 1) as u8, latched)
        }
    }
}

impl Timer {
    /// Whether TIMA counts.
    pub open spec fn enabled(self) -> bool {
        self.tac % 8 >= 4
    }

    /// The timer at power-on.
    pub open spec fn power_on() -> Timer {
        Timer {
            timer_irq: false,
            div: 0,
            cycles_since_div: 0,
            cycles_since_tima: 0,
            tima: 0,
            tma: 0,
            tac: 3,
        }
    }

    /// The timer after `n` clock ticks. The divider counts on; TIMA, when
    /// enabled, counts once for each whole period that has gone by.
    pub open spec fn advance_model(self, n: u8) -> Timer {
        let divider = self.cycles_since_div + n;
        let ahead = Timer {
            div: wrap8(self.div as int, divider / 256),
            cycles_since_div: (divider % 256) as u8,
            ..self
        };
        if self.enabled() {
            let waiting = self.cycles_since_tima + n;
            let period = period_of(self.tac);
            let (tima, irq) = tima_after(
                self.tima,
                self.tma,
                self.timer_irq,
                (waiting / period) as nat,
            );
            Timer { cycles_since_tima: (waiting % period) as u32, tima, timer_irq: irq, ..ahead }
        } else {
            ahead
        }
    }

    /// The byte that a read of a timer register returns. TAC reads with its
    /// unused bits set.
    pub open spec fn read_model(self, addr: u16) -> u8 {
        if addr == DIV {
            self.div
        } else if addr == TIMA {
            self.tima
        } else if addr == TMA {
            self.tma
        } else {
            (0xF8 + self.tac % 8) as u8
        }
    }

    /// The timer after a write to one of its registers. A write to DIV
    /// clears the whole divider, whatever is written.
    pub open spec fn write_model(self, addr: u16, value: u8) -> Timer {
        if addr == DIV {
            Timer { div: 0, cycles_since_div: 0, ..self }
        } else if addr == TIMA {
            Timer { tima: value, ..self }
        } else if addr == TMA {
            Timer { tma: value, ..self }
        } else {
            Timer { tac: value % 8, ..self }
        }
    }

    pub fn new() -> (timer: Timer)
        ensures
            timer == Timer::power_on(),
    {
        Timer {
            timer_irq: false,
            div: 0,
            cycles_since_div: 0,
            cycles_since_tima: 0,
            tima: 0,
            tma: 0,
            tac: 3,
        }
    }

    /// The clock ticks between two counts of TIMA.
    pub fn period(&self) -> (ticks: u32)
        ensures
            ticks == period_of(self.tac),
    {
        match self.tac % 4 {
            0 => 1024,
            1 => 16,
            2 => 64,
            _ => 256,
        }
    }

    /// Lets `n` clock ticks pass.
    pub fn do_cycles(&mut self, n: u8)
        ensures
            *final(self) == old(self).advance_model(n),
    {
        let divider: u16 = self.cycles_since_div as u16 + n as u16;
        if divider >= 256 {
            self.div = if self.div == 255 { 0 } else { self.div + 1 };
        }
        self.cycles_since_div = (divider % 256) as u8;
        if self.tac % 8 >= 4 {
            let period: u64 = self.period() as u64;
            let total: u64 = self.cycles_since_tima as u64 + n as u64;
            let mut waiting: u64 = total;
            let ghost mut counted: nat = 0;
            while waiting >= period
                invariant
                    period == period_of(self.tac),
                    waiting + counted * period == total,
                    (self.tima, self.timer_irq) == tima_after(
                        old(self).tima,
                        old(self).tma,
                        old(self).timer_irq,
                        counted,
                    ),
                    self.tma == old(self).tma,
                    self.tac == old(self).tac,
                    self.div == final_div(*old(self), n),
                    self.cycles_since_div == (old(self).cycles_since_div + n) % 256,
                decreases waiting,
            {
                if self.tima == 255 {
                    self.tima = self.tma;
                    self.timer_irq = true;
                } else {
                    self.tima = self.tima + 1;
                }
                waiting = waiting - period;
                proof {
                    counted = counted + 1;
                    assert(waiting + counted * period == total) by (nonlinear_arith)
                        requires
                            waiting + period + (counted - 1) * period == total,
                    ;
                }
            }
            proof {
                lemma_quotient(total as int, period as int, counted as int, waiting as int);
            }
            self.cycles_since_tima = waiting as u32;
        }
    }

    pub fn read_byte(&self, addr: u16) -> (value: u8)
        requires
            DIV <= addr <= TAC,
        ensures
            value == self.read_model(addr),
    {
        match addr {
            0xFF04 => self.div,
            0xFF05 => self.tima,
            0xFF06 => self.tma,
            _ => 0xF8 + self.tac % 8,
        }
    }

    pub fn write_byte(&mut self, addr: u16, value: u8)
        requires
            DIV <= addr <= TAC,
        ensures
            *final(self) == old(self).write_model(addr, value),
    {
        match addr {
            0xFF04 => {
                self.div = 0;
                self.cycles_since_div = 0;
            },
            0xFF05 => self.tima = value,
            0xFF06 => self.tma = value,
            _ => self.tac = value % 8,
        }
    }
}

/// DIV after `n` clock ticks.
pub open spec fn final_div(timer: Timer, n: u8) -> u8 {
    wrap8(timer.div as int, (timer.cycles_since_div + n) / 256)
}

/// A number that is `count` whole periods and a rest below one period has
/// `count` as its quotient and the rest as its remainder.
pub proof fn lemma_quotient(total: int, period: int, count: int, rest: int)
    requires
        period > 0,
        0 <= rest < period,
        rest + count * period == total,
    ensures
        total / period == count,
        total % period == rest,
{
    vstd::arithmetic::div_mod::lemma_fundamental_div_mod_converse(total, period, count, rest);
}

} // verus!
