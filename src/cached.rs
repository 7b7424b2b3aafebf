//! The cached driver: a mirror of every register, refreshed from the device
//! only when the interrupt line says that the inputs changed.
use vstd::prelude::*;

use crate::bus::{BusDevice, I2cBus, InterruptLine, Transaction};
use crate::cache::{halfword, high_byte, join_halfword, low_byte, split_halfword, RegisterCache};
use crate::error::ExpanderError;
use crate::expander::{read_result, Expander};
use crate::register::Register;
use crate::standard::StandardExpanderInterface;

verus! {

/// The first register of the pair that the `i`-th seeding read fills.
pub open spec fn seeding_register(i: int) -> Register {
    if i == 0 {
        Register::ConfigurationPort0
    } else if i == 1 {
        Register::InputPort0
    } else if i == 2 {
        Register::OutputPort0
    } else {
        Register::PolarityInversionPort0
    }
}

/// `reads` are seeding reads of the device at `address`, in order: one read
/// of two bytes per register pair, configuration, input, output, then
/// polarity inversion.
pub open spec fn are_seeding_reads(reads: Seq<Transaction>, address: u8) -> bool {
    &&& reads.len() <= 4
    &&& forall|i: int|
        0 <= i < reads.len() ==> #[trigger] reads[i].is_read_of(
            address,
            seeding_register(i).spec_address(),
            2,
        )
}

/// The mirror `c` after each of the first `n` seeding reads stored the two
/// bytes it read back in its register pair.
pub open spec fn seeded(c: RegisterCache, reads: Seq<Transaction>, n: int) -> RegisterCache {
    let c1 = if n >= 1 {
        c.with_pair(seeding_register(0), reads[0].reply()[0], reads[0].reply()[1])
    } else {
        c
    };
    let c2 = if n >= 2 {
        c1.with_pair(seeding_register(1), reads[1].reply()[0], reads[1].reply()[1])
    } else {
        c1
    };
    let c3 = if n >= 3 {
        c2.with_pair(seeding_register(2), reads[2].reply()[0], reads[2].reply()[1])
    } else {
        c2
    };
    if n >= 4 {
        c3.with_pair(seeding_register(3), reads[3].reply()[0], reads[3].reply()[1])
    } else {
        c3
    }
}

/// A driver that mirrors the device's registers to spare bus traffic.
///
/// Reads are answered from the mirror, except reads of an input register
/// while the interrupt line is asserted, which go to the device. Every
/// successful write updates the mirror, including the effect that a change of
/// polarity inversion has on the input registers.
pub struct Pca9535Cached<B, IP> {
    device: BusDevice<B>,
    interrupt_pin: IP,
    cache: RegisterCache,
}

impl<B: I2cBus, IP: InterruptLine> Pca9535Cached<B, IP> {
    /// The device's bus address.
    pub closed spec fn address(&self) -> u8 {
        self.device.address()
    }

    /// Every bus transaction this driver issued, oldest first.
    pub closed spec fn transactions(&self) -> Seq<Transaction> {
        self.device.transactions()
    }

    /// The values the driver believes the device's registers hold.
    pub closed spec fn registers(&self) -> RegisterCache {
        self.cache
    }

    /// Holds when `read_byte_with_interrupt(register, asserted)` may take
    /// `pre` to `post` and return `r`.
    pub open spec fn read_byte_outcome(
        pre: Self,
        post: Self,
        register: Register,
        asserted: bool,
        r: Result<u8, ExpanderError<B::Error>>,
    ) -> bool {
        &&& post.address() == pre.address()
        &&& if asserted && register.spec_is_input() {
            let read = post.transactions().last();
            &&& post.transactions().len() == pre.transactions().len() + 1
            &&& post.transactions().drop_last() == pre.transactions()
            &&& read.is_read_of(pre.address(), register.spec_address(), 1)
            &&& read.succeeded() == r is Ok
            &&& r is Ok ==> r->Ok_0 == read.reply()[0] && post.registers()
                == pre.registers().with_value(register, read.reply()[0])
            &&& r is Err ==> post.registers() == pre.registers() && r->Err_0 is WriteReadError
        } else {
            &&& r is Ok
            &&& r->Ok_0 == pre.registers().value(register)
            &&& post.transactions() == pre.transactions()
            &&& post.registers() == pre.registers()
        }
    }

    /// Holds when `read_halfword_with_interrupt(register, asserted)` may take
    /// `pre` to `post` and return `r`.
    pub open spec fn read_halfword_outcome(
        pre: Self,
        post: Self,
        register: Register,
        asserted: bool,
        r: Result<u16, ExpanderError<B::Error>>,
    ) -> bool {
        &&& post.address() == pre.address()
        &&& if asserted && register.spec_is_input() {
            let read = post.transactions().last();
            &&& post.transactions().len() == pre.transactions().len() + 1
            &&& post.transactions().drop_last() == pre.transactions()
            &&& read.is_read_of(pre.address(), register.spec_address(), 2)
            &&& read.succeeded() == r is Ok
            &&& r is Ok ==> r->Ok_0 == halfword(read.reply()[0], read.reply()[1])
                && post.registers() == pre.registers().with_pair(
                register,
                read.reply()[0],
                read.reply()[1],
            )
            &&& r is Err ==> post.registers() == pre.registers() && r->Err_0 is WriteReadError
        } else {
            &&& r is Ok
            &&& r->Ok_0 == halfword(
                pre.registers().value(register),
                pre.registers().value(register.neighbor()),
            )
            &&& post.transactions() == pre.transactions()
            &&& post.registers() == pre.registers()
        }
    }

    /// Creates a cached driver for the device at `address` (32 to 39).
    ///
    /// With `init_defaults` the mirror takes the device's power-on values and
    /// no transaction is issued; use it only if nothing has written to the
    /// device since it powered on. Otherwise every register pair is read from
    /// the device into the mirror, and the first failed read is returned.
    pub fn new(i2c: B, address: u8, interrupt_pin: IP, init_defaults: bool) -> (r: Result<
        Self,
        ExpanderError<B::Error>,
    >)
        requires
            32 <= address <= 39,
        ensures
            init_defaults ==> r is Ok && r->Ok_0.registers() == RegisterCache::power_on()
                && r->Ok_0.transactions() == Seq::<Transaction>::empty(),
            !init_defaults && r is Ok ==> {
                let reads = r->Ok_0.transactions();
                &&& reads.len() == 4
                &&& are_seeding_reads(reads, address)
                &&& forall|i: int| 0 <= i < 4 ==> #[trigger] reads[i].succeeded()
                &&& r->Ok_0.registers() == seeded(RegisterCache::power_on(), reads, 4)
            },
            r is Ok ==> r->Ok_0.address() == address,
            r is Err ==> !init_defaults && r->Err_0 is WriteReadError,
    {
        let mut expander = Pca9535Cached {
            device: BusDevice::new(i2c, address),
            interrupt_pin,
            cache: RegisterCache::defaults(),
        };
        if !init_defaults {
            match expander.init_cache() {
                Ok(()) => {},
                Err(e) => {
                    return Err(e);
                },
            }
            assert(expander.transactions().skip(0) =~= expander.transactions());
        }
        Ok(expander)
    }

    /// Reads every register pair from the device into the mirror, one read
    /// per pair, stopping at the first read that fails.
    fn init_cache(&mut self) -> (r: Result<(), ExpanderError<B::Error>>)
        ensures
            final(self).address() == old(self).address(),
            final(self).transactions().take(old(self).transactions().len() as int)
                == old(self).transactions(),
            ({
                let reads = final(self).transactions().skip(old(self).transactions().len() as int);
                &&& 1 <= reads.len() <= 4
                &&& are_seeding_reads(reads, old(self).address())
                &&& forall|i: int| 0 <= i < reads.len() - 1 ==> #[trigger] reads[i].succeeded()
                &&& r is Ok ==> reads.len() == 4 && reads[3].succeeded() && final(self).registers()
                    == seeded(old(self).registers(), reads, 4)
                &&& r is Err ==> !reads.last().succeeded() && r->Err_0 is WriteReadError
                    && final(self).registers() == seeded(
                    old(self).registers(),
                    reads,
                    reads.len() - 1,
                )
            }),
    {
        let ghost start = self.transactions();
        let ghost start_cache = self.registers();
        let ghost n = start.len() as int;
        let ghost address = self.address();

        let configuration = self.device.read_two(0x06);
        let ghost log1 = self.transactions();
        assert(log1.skip(n) =~= seq![log1.last()]);
        let (c0, c1) = match configuration {
            Ok(pair) => pair,
            Err(e) => {
                assert(self.transactions().take(n) =~= start);
                return Err(e);
            },
        };
        self.cache.set_pair(Register::ConfigurationPort0, c0, c1);

        let input = self.device.read_two(0x00);
        let ghost log2 = self.transactions();
        assert(log2.skip(n) =~= seq![log1.last(), log2.last()]);
        let (i0, i1) = match input {
            Ok(pair) => pair,
            Err(e) => {
                assert(self.transactions().take(n) =~= start);
                return Err(e);
            },
        };
        self.cache.set_pair(Register::InputPort0, i0, i1);

        let output = self.device.read_two(0x02);
        let ghost log3 = self.transactions();
        assert(log3.skip(n) =~= seq![log1.last(), log2.last(), log3.last()]);
        let (o0, o1) = match output {
            Ok(pair) => pair,
            Err(e) => {
                assert(self.transactions().take(n) =~= start);
                return Err(e);
            },
        };
        self.cache.set_pair(Register::OutputPort0, o0, o1);

        let polarity = self.device.read_two(0x04);
        let ghost log4 = self.transactions();
        assert(log4.skip(n) =~= seq![log1.last(), log2.last(), log3.last(), log4.last()]);
        let (p0, p1) = match polarity {
            Ok(pair) => pair,
            Err(e) => {
                assert(self.transactions().take(n) =~= start);
                return Err(e);
            },
        };
        self.cache.set_pair(Register::PolarityInversionPort0, p0, p1);
        assert(self.transactions().take(n) =~= start);
        Ok(())
    }

    /// Reads one byte of `register`, given what the interrupt line reports.
    ///
    /// Only a read of an input register while the line is asserted goes to
    /// the device; its result then replaces the mirrored value. Every other
    /// read returns the mirror and issues no transaction.
    pub fn read_byte_with_interrupt(
        &mut self,
        register: Register,
        interrupt_asserted: bool,
        buffer: &mut u8,
    ) -> (r: Result<(), ExpanderError<B::Error>>)
        ensures
            Self::read_byte_outcome(
                *old(self),
                *final(self),
                register,
                interrupt_asserted,
                read_result(r, *final(buffer)),
            ),
            r is Err ==> *final(buffer) == *old(buffer),
    {
        if interrupt_asserted && register.is_input() {
            let value = match self.device.read_one(register.address()) {
                Ok(v) => v,
                Err(e) => {
                    return Err(e);
                },
            };
            self.cache.set(register, value);
            *buffer = value;
        } else {
            *buffer = self.cache.get(register);
        }
        Ok(())
    }

    /// Reads a half-word starting at `register`, given what the interrupt
    /// line reports; the same rule as for single bytes decides whether the
    /// device is asked.
    pub fn read_halfword_with_interrupt(
        &mut self,
        register: Register,
        interrupt_asserted: bool,
        buffer: &mut u16,
    ) -> (r: Result<(), ExpanderError<B::Error>>)
        ensures
            Self::read_halfword_outcome(
                *old(self),
                *final(self),
                register,
                interrupt_asserted,
                read_result(r, *final(buffer)),
            ),
            r is Err ==> *final(buffer) == *old(buffer),
    {
        if interrupt_asserted && register.is_input() {
            let (high, low) = match self.device.read_two(register.address()) {
                Ok(pair) => pair,
                Err(e) => {
                    return Err(e);
                },
            };
            self.cache.set_pair(register, high, low);
            *buffer = join_halfword(high, low);
        } else {
            let high = self.cache.get(register);
            let low = self.cache.get(register.get_neighbor());
            *buffer = join_halfword(high, low);
        }
        Ok(())
    }
}

impl<B: I2cBus, IP: InterruptLine> Expander for Pca9535Cached<B, IP> {
    type Error = B::Error;

    open spec fn write_byte_spec(
        pre: Self,
        post: Self,
        register: Register,
        data: u8,
        r: Result<(), ExpanderError<B::Error>>,
    ) -> bool {
        &&& post.address() == pre.address()
        &&& post.transactions() == pre.transactions().push(
            Transaction::Write {
                address: pre.address(),
                bytes: seq![register.spec_address(), data],
                ok: r is Ok,
            },
        )
        &&& r is Ok ==> post.registers() == pre.registers().after_byte_write(register, data)
        &&& r is Err ==> post.registers() == pre.registers() && r->Err_0 is WriteError
    }

    open spec fn read_byte_spec(
        pre: Self,
        post: Self,
        register: Register,
        r: Result<u8, ExpanderError<B::Error>>,
    ) -> bool {
        ||| Self::read_byte_outcome(pre, post, register, true, r)
        ||| Self::read_byte_outcome(pre, post, register, false, r)
    }

    open spec fn write_halfword_spec(
        pre: Self,
        post: Self,
        register: Register,
        data: u16,
        r: Result<(), ExpanderError<B::Error>>,
    ) -> bool {
        &&& post.address() == pre.address()
        &&& post.transactions() == pre.transactions().push(
            Transaction::Write {
                address: pre.address(),
                bytes: seq![register.spec_address(), high_byte(data), low_byte(data)],
                ok: r is Ok,
            },
        )
        &&& r is Ok ==> post.registers() == pre.registers().after_halfword_write(register, data)
        &&& r is Err ==> post.registers() == pre.registers() && r->Err_0 is WriteError
    }

    open spec fn read_halfword_spec(
        pre: Self,
        post: Self,
        register: Register,
        r: Result<u16, ExpanderError<B::Error>>,
    ) -> bool {
        ||| Self::read_halfword_outcome(pre, post, register, true, r)
        ||| Self::read_halfword_outcome(pre, post, register, false, r)
    }

    /// Writes one byte to `register`; on success the mirror follows.
    fn write_byte(&mut self, register: Register, data: u8) -> (r: Result<(), ExpanderError<B::Error>>) {
        let frame: [u8; 2] = [register.address(), data];
        assert(frame@ =~= seq![register.spec_address(), data]);
        match self.device.write(&frame) {
            Ok(()) => {},
            Err(e) => {
                return Err(e);
            },
        }
        // The device raises no interrupt when a polarity-inversion bit flips,
        // yet the input register reports that pin inverted from now on: the
        // mirrored input register is corrected here instead of re-read.
        if register.is_polarity_inversion() {
            let input_mask = self.cache.get(register) ^ data;
            let input = match register {
                Register::PolarityInversionPort0 => Register::InputPort0,
                _ => Register::InputPort1,
            };
            let corrected = self.cache.get(input) ^ input_mask;
            self.cache.set(input, corrected);
        }
        self.cache.set(register, data);
        Ok(())
    }

    /// Reads one byte of `register`, asking the interrupt line whether the
    /// device has to be read.
    fn read_byte(&mut self, register: Register, buffer: &mut u8) -> (r: Result<(), ExpanderError<B::Error>>) {
        let asserted = self.interrupt_pin.is_asserted();
        self.read_byte_with_interrupt(register, asserted, buffer)
    }

    /// Writes a half-word starting at `register`; on success the mirror
    /// follows for both registers of the pair.
    fn write_halfword(&mut self, register: Register, data: u16) -> (r: Result<(), ExpanderError<B::Error>>) {
        let (high, low) = split_halfword(data);
        let frame: [u8; 3] = [register.address(), high, low];
        assert(frame@ =~= seq![register.spec_address(), high_byte(data), low_byte(data)]);
        match self.device.write(&frame) {
            Ok(()) => {},
            Err(e) => {
                return Err(e);
            },
        }
        let neighbor = register.get_neighbor();
        // As for single bytes: each half corrects the input register of its
        // own bank.
        if register.is_polarity_inversion() {
            let input_mask_1 = self.cache.get(register) ^ high;
            let input_mask_2 = self.cache.get(neighbor) ^ low;
            let (input, other_input) = match register {
                Register::PolarityInversionPort0 => (Register::InputPort0, Register::InputPort1),
                _ => (Register::InputPort1, Register::InputPort0),
            };
            let corrected_1 = self.cache.get(input) ^ input_mask_1;
            self.cache.set(input, corrected_1);
            let corrected_2 = self.cache.get(other_input) ^ input_mask_2;
            self.cache.set(other_input, corrected_2);
        }
        self.cache.set(register, high);
        self.cache.set(neighbor, low);
        Ok(())
    }

    /// Reads a half-word starting at `register`, asking the interrupt line
    /// whether the device has to be read.
    fn read_halfword(&mut self, register: Register, buffer: &mut u16) -> (r: Result<(), ExpanderError<B::Error>>) {
        let asserted = self.interrupt_pin.is_asserted();
        self.read_halfword_with_interrupt(register, asserted, buffer)
    }
}

impl<B: I2cBus, IP: InterruptLine> StandardExpanderInterface for Pca9535Cached<B, IP> {

}

} // verus!
