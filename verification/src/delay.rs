//! The delay provider: cycle-counter sampling, wraparound-safe elapsed-time
//! computation, and the busy-wait loop.

use vstd::prelude::*;
use crate::convert::clamp_duration;
use crate::convert::lemma_u32_product_fits;
use crate::convert::ms_to_cycles;
use crate::convert::us_to_cycles;

verus! {

/// Uses the machine-mode cycle counter (`mcycle`) of the current hart as a
/// delay provider.
///
/// This can be used for high resolution delays for device initialization,
/// bit-banging protocols, etc. A provider is a pure function of the core
/// clock frequency it was built with: it holds no other state.
#[derive(Copy, Clone, Debug, PartialEq, Eq, Structural)]
pub struct McycleDelay {
    core_frequency: u32,
}

impl McycleDelay {
    /// The core clock frequency this provider was constructed with, in Hz.
    pub closed spec fn frequency(&self) -> u32 {
        self.core_frequency
    }

    /// Constructs the delay provider based on core clock frequency `freq`,
    /// in Hz. A zero frequency is not rejected: it makes every conversion
    /// yield zero cycles, so every delay returns almost immediately.
    pub fn new(freq: u32) -> (r: Self)
        ensures
            r.frequency() == freq,
    {
        Self { core_frequency: freq }
    }

    /// Elapsed cycles between the samples `previous` and `now`, computed with
    /// wraparound (modulo 2^64) subtraction: the count is correct even when
    /// the counter rolled over between the two samples, as long as fewer than
    /// 2^64 cycles actually passed.
    pub fn elapsed_cycles(now: u64, previous: u64) -> (r: u64)
        ensures
            previous <= now ==> r == now - previous,
            now < previous ==> r == now + 0x1_0000_0000_0000_0000 - previous,
    {
        now.wrapping_sub(previous)
    }

    /// Retrieves the cycle count for the current hart.
    ///
    /// Relies on `riscv::register::mcycle::read64`: a read of the machine
    /// cycle counter. The value depends on the moment of the read, so
    /// nothing is promised of it.
    #[verifier::external_body]
    pub fn get_cycle_count() -> u64 {
        riscv::register::mcycle::read64()
    }

    /// Returns the number of cycles elapsed since `previous_cycle_count`,
    /// sampling the counter once and subtracting with wraparound. The result
    /// depends on the moment of the read, so nothing is promised of it.
    pub fn cycles_since(previous_cycle_count: u64) -> u64 {
        Self::elapsed_cycles(Self::get_cycle_count(), previous_cycle_count)
    }

    /// The exit test of the busy-wait loop: the wait goes on exactly while
    /// the elapsed cycle count has not yet exceeded the target.
    pub fn still_waiting(elapsed: u64, target: u64) -> (r: bool)
        ensures
            r == (elapsed <= target),
    {
        elapsed <= target
    }

    /// Performs a busy-wait loop until more than `cycle_count` cycles have
    /// elapsed on the current hart's cycle counter.
    ///
    /// Relies on `riscv::register::mcycle::read64`, reached through
    /// [`Self::cycles_since`]: the loop spins without yielding and returns
    /// only once [`Self::still_waiting`] reports the target exceeded. The
    /// loop itself must be taken on trust, since its termination rests
    /// solely on the hardware counter advancing: if the counter is frozen
    /// the loop never returns, by design and without a timeout. The exit
    /// test and the wraparound subtraction it spins on are the verified
    /// functions beside it.
    #[verifier::external_body]
    pub fn delay_cycles(cycle_count: u64) {
        let start_cycle_count = Self::get_cycle_count();
        while Self::still_waiting(Self::cycles_since(start_cycle_count), cycle_count) {
        }
    }

    /// Busy-waits until `us` microseconds have elapsed: the duration becomes
    /// `us_cycles(frequency, us)` whole cycles, which are then spun down.
    /// The provider itself is left unchanged.
    pub fn delay_us(&mut self, us: u64)
        requires
            us * old(self).frequency() <= u64::MAX,
        ensures
            *final(self) == *old(self),
    {
        let cycles: u64 = us_to_cycles(self.core_frequency, us);
        Self::delay_cycles(cycles);
    }

    /// Busy-waits until `ms` milliseconds have elapsed: the duration becomes
    /// `ms_cycles(frequency, ms)` whole cycles, which are then spun down.
    /// The provider itself is left unchanged.
    pub fn delay_ms(&mut self, ms: u64)
        requires
            ms * old(self).frequency() <= u64::MAX,
        ensures
            *final(self) == *old(self),
    {
        let cycles: u64 = ms_to_cycles(self.core_frequency, ms);
        Self::delay_cycles(cycles);
    }

    /// Busy-waits for `us` microseconds, given as an unsigned 8-bit value.
    pub fn delay_us_u8(&mut self, us: u8)
        ensures
            *final(self) == *old(self),
    {
        proof {
            lemma_u32_product_fits(us as int, self.frequency() as int);
        }
        self.delay_us(us as u64);
    }

    /// Busy-waits for `us` microseconds, given as an unsigned 16-bit value.
    pub fn delay_us_u16(&mut self, us: u16)
        ensures
            *final(self) == *old(self),
    {
        proof {
            lemma_u32_product_fits(us as int, self.frequency() as int);
        }
        self.delay_us(us as u64);
    }

    /// Busy-waits for `us` microseconds, given as an unsigned 32-bit value.
    pub fn delay_us_u32(&mut self, us: u32)
        ensures
            *final(self) == *old(self),
    {
        proof {
            lemma_u32_product_fits(us as int, self.frequency() as int);
        }
        self.delay_us(us as u64);
    }

    /// Busy-waits for `us` microseconds, given as a signed 8-bit value; a
    /// negative duration means no delay.
    pub fn delay_us_i8(&mut self, us: i8)
        ensures
            *final(self) == *old(self),
    {
        let d: u64 = clamp_duration(us as i64);
        proof {
            lemma_u32_product_fits(d as int, self.frequency() as int);
        }
        self.delay_us(d);
    }

    /// Busy-waits for `us` microseconds, given as a signed 16-bit value; a
    /// negative duration means no delay.
    pub fn delay_us_i16(&mut self, us: i16)
        ensures
            *final(self) == *old(self),
    {
        let d: u64 = clamp_duration(us as i64);
        proof {
            lemma_u32_product_fits(d as int, self.frequency() as int);
        }
        self.delay_us(d);
    }

    /// Busy-waits for `us` microseconds, given as a signed 32-bit value; a
    /// negative duration means no delay.
    pub fn delay_us_i32(&mut self, us: i32)
        ensures
            *final(self) == *old(self),
    {
        let d: u64 = clamp_duration(us as i64);
        proof {
            lemma_u32_product_fits(d as int, self.frequency() as int);
        }
        self.delay_us(d);
    }

    /// Busy-waits for `us` microseconds, given as a signed 64-bit value; a
    /// negative duration means no delay, and a non-negative one must fit the
    /// 64-bit conversion arithmetic.
    pub fn delay_us_i64(&mut self, us: i64)
        requires
            0 <= us ==> us * old(self).frequency() <= u64::MAX,
        ensures
            *final(self) == *old(self),
    {
        let d: u64 = clamp_duration(us);
        self.delay_us(d);
    }

    /// Busy-waits for `ms` milliseconds, given as an unsigned 8-bit value.
    pub fn delay_ms_u8(&mut self, ms: u8)
        ensures
            *final(self) == *old(self),
    {
        proof {
            lemma_u32_product_fits(ms as int, self.frequency() as int);
        }
        self.delay_ms(ms as u64);
    }

    /// Busy-waits for `ms` milliseconds, given as an unsigned 16-bit value.
    pub fn delay_ms_u16(&mut self, ms: u16)
        ensures
            *final(self) == *old(self),
    {
        proof {
            lemma_u32_product_fits(ms as int, self.frequency() as int);
        }
        self.delay_ms(ms as u64);
    }

    /// Busy-waits for `ms` milliseconds, given as an unsigned 32-bit value.
    pub fn delay_ms_u32(&mut self, ms: u32)
        ensures
            *final(self) == *old(self),
    {
        proof {
            lemma_u32_product_fits(ms as int, self.frequency() as int);
        }
        self.delay_ms(ms as u64);
    }

    /// Busy-waits for `ms` milliseconds, given as a signed 8-bit value; a
    /// negative duration means no delay.
    pub fn delay_ms_i8(&mut self, ms: i8)
        ensures
            *final(self) == *old(self),
    {
        let d: u64 = clamp_duration(ms as i64);
        proof {
            lemma_u32_product_fits(d as int, self.frequency() as int);
        }
        self.delay_ms(d);
    }

    /// Busy-waits for `ms` milliseconds, given as a signed 16-bit value; a
    /// negative duration means no delay.
    pub fn delay_ms_i16(&mut self, ms: i16)
        ensures
            *final(self) == *old(self),
    {
        let d: u64 = clamp_duration(ms as i64);
        proof {
            lemma_u32_product_fits(d as int, self.frequency() as int);
        }
        self.delay_ms(d);
    }

    /// Busy-waits for `ms` milliseconds, given as a signed 32-bit value; a
    /// negative duration means no delay.
    pub fn delay_ms_i32(&mut self, ms: i32)
        ensures
            *final(self) == *old(self),
    {
        let d: u64 = clamp_duration(ms as i64);
        proof {
            lemma_u32_product_fits(d as int, self.frequency() as int);
        }
        self.delay_ms(d);
    }

    /// Busy-waits for `ms` milliseconds, given as a signed 64-bit value; a
    /// negative duration means no delay, and a non-negative one must fit the
    /// 64-bit conversion arithmetic.
    pub fn delay_ms_i64(&mut self, ms: i64)
        requires
            0 <= ms ==> ms * old(self).frequency() <= u64::MAX,
        ensures
            *final(self) == *old(self),
    {
        let d: u64 = clamp_duration(ms);
        self.delay_ms(d);
    }

    /// Two providers constructed with the same frequency are the same value,
    /// so they behave identically on identical inputs: a provider has no
    /// state beyond its frequency.
    pub proof fn lemma_same_frequency_same_provider(a: McycleDelay, b: McycleDelay)
        requires
            a.frequency() == b.frequency(),
        ensures
            a == b,
    {
    }
}

} // verus!
