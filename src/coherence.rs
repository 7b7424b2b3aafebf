//! What the cached driver's mirror guarantees across sequences of calls.
use vstd::prelude::*;

use crate::bus::{I2cBus, InterruptLine, Transaction};
use crate::cache::{high_byte, low_byte, RegisterCache};
use crate::cached::Pca9535Cached;
use crate::error::ExpanderError;
use crate::expander::Expander;
use crate::immediate::Pca9535Immediate;
use crate::register::{GPIOBank, Register};
use crate::standard::{bit_is_set, read_bit, read_modify_write, with_bit};

verus! {

/// One polarity call of the pin-level interface: a single pin
/// (`pin_inverse_polarity` / `pin_normal_polarity`) or all sixteen
/// (`inverse_polarity` / `normal_polarity`).
pub enum PolarityChange {
    Pin { bank: GPIOBank, pin: u8, inverse: bool },
    All { inverse: bool },
}

/// The mirror after one successful polarity call.
pub open spec fn after_polarity_change(c: RegisterCache, change: PolarityChange) -> RegisterCache {
    match change {
        PolarityChange::Pin { bank, pin, inverse } => c.after_byte_write(
            bank.polarity_inversion(),
            with_bit(c.value(bank.polarity_inversion()), pin, inverse),
        ),
        PolarityChange::All { inverse } => c.after_halfword_write(
            Register::PolarityInversionPort0,
            if inverse {
                0xFFFFu16
            } else {
                0x0000u16
            },
        ),
    }
}

/// The mirror after a sequence of successful polarity calls, in order.
pub open spec fn after_polarity_changes(c: RegisterCache, changes: Seq<PolarityChange>) -> RegisterCache
    decreases changes.len(),
{
    if changes.len() == 0 {
        c
    } else {
        after_polarity_changes(after_polarity_change(c, changes[0]), changes.drop_first())
    }
}

/// The levels at the pins of `bank`, one bit per pin.
pub open spec fn bank_levels(bank: GPIOBank, levels_0: u8, levels_1: u8) -> u8 {
    match bank {
        GPIOBank::Bank0 => levels_0,
        GPIOBank::Bank1 => levels_1,
    }
}

/// The mirrored input registers report the pin levels `levels_0` and
/// `levels_1`, inverted where the mirrored polarity-inversion bit is set.
pub open spec fn inputs_follow_levels(c: RegisterCache, levels_0: u8, levels_1: u8) -> bool {
    &&& c.input_port_0 == levels_0 ^ c.polarity_inversion_port_0
    &&& c.input_port_1 == levels_1 ^ c.polarity_inversion_port_1
}

proof fn lemma_flip(input: u8, level: u8, old_polarity: u8, new_polarity: u8)
    requires
        input == level ^ old_polarity,
    ensures
        input ^ (old_polarity ^ new_polarity) == level ^ new_polarity,
{
    assert(input ^ (old_polarity ^ new_polarity) == level ^ new_polarity) by (bit_vector)
        requires
            input == level ^ old_polarity,
    ;
}

/// A byte write keeps the mirrored inputs following the pin levels, for any
/// register but the input registers themselves.
pub proof fn lemma_byte_write_keeps_inputs(
    c: RegisterCache,
    levels_0: u8,
    levels_1: u8,
    register: Register,
    v: u8,
)
    requires
        inputs_follow_levels(c, levels_0, levels_1),
        !register.spec_is_input(),
    ensures
        inputs_follow_levels(c.after_byte_write(register, v), levels_0, levels_1),
{
    match register {
        Register::PolarityInversionPort0 => {
            lemma_flip(c.input_port_0, levels_0, c.polarity_inversion_port_0, v);
        },
        Register::PolarityInversionPort1 => {
            lemma_flip(c.input_port_1, levels_1, c.polarity_inversion_port_1, v);
        },
        _ => {},
    }
}

/// Polarity calls, in any number and order, keep every mirrored input bit
/// equal to the level at its pin, inverted exactly where polarity inversion
/// is on; so the cache needs no bus traffic to stay right.
pub proof fn lemma_polarity_changes_keep_inputs(
    c: RegisterCache,
    levels_0: u8,
    levels_1: u8,
    changes: Seq<PolarityChange>,
)
    requires
        inputs_follow_levels(c, levels_0, levels_1),
    ensures
        inputs_follow_levels(after_polarity_changes(c, changes), levels_0, levels_1),
    decreases changes.len(),
{
    if changes.len() > 0 {
        let next = after_polarity_change(c, changes[0]);
        match changes[0] {
            PolarityChange::Pin { bank, pin, inverse } => {
                lemma_byte_write_keeps_inputs(
                    c,
                    levels_0,
                    levels_1,
                    bank.polarity_inversion(),
                    with_bit(c.value(bank.polarity_inversion()), pin, inverse),
                );
            },
            PolarityChange::All { inverse } => {
                let v: u16 = if inverse {
                    0xFFFFu16
                } else {
                    0x0000u16
                };
                let first = c.after_byte_write(Register::PolarityInversionPort0, high_byte(v));
                lemma_byte_write_keeps_inputs(
                    c,
                    levels_0,
                    levels_1,
                    Register::PolarityInversionPort0,
                    high_byte(v),
                );
                lemma_byte_write_keeps_inputs(
                    first,
                    levels_0,
                    levels_1,
                    Register::PolarityInversionPort1,
                    low_byte(v),
                );
            },
        }
        lemma_polarity_changes_keep_inputs(next, levels_0, levels_1, changes.drop_first());
    }
}

/// While the mirrored inputs follow the pin levels, the input bit of a pin is
/// its level, flipped if and only if its polarity is inverted.
pub proof fn lemma_input_bit(c: RegisterCache, levels_0: u8, levels_1: u8, bank: GPIOBank, pin: u8)
    requires
        inputs_follow_levels(c, levels_0, levels_1),
        pin < 8,
    ensures
        bit_is_set(c.value(bank.input()), pin) == (bit_is_set(
            bank_levels(bank, levels_0, levels_1),
            pin,
        ) != bit_is_set(c.value(bank.polarity_inversion()), pin)),
{
    let level = bank_levels(bank, levels_0, levels_1);
    let polarity = c.value(bank.polarity_inversion());
    assert(((level ^ polarity) >> pin) & 1u8 == 1u8 <==> (((level >> pin) & 1u8 == 1u8) != ((
    polarity >> pin) & 1u8 == 1u8))) by (bit_vector)
        requires
            pin < 8,
    ;
}

/// After any sequence of polarity calls, starting from a mirror whose inputs
/// follow the pin levels, the mirrored input bit of every pin is its level,
/// flipped exactly where its polarity ends up inverted.
pub proof fn lemma_pin_reads_after_polarity_changes(
    c: RegisterCache,
    levels_0: u8,
    levels_1: u8,
    changes: Seq<PolarityChange>,
    bank: GPIOBank,
    pin: u8,
)
    requires
        inputs_follow_levels(c, levels_0, levels_1),
        pin < 8,
    ensures
        ({
            let end = after_polarity_changes(c, changes);
            bit_is_set(end.value(bank.input()), pin) == (bit_is_set(
                bank_levels(bank, levels_0, levels_1),
                pin,
            ) != bit_is_set(end.value(bank.polarity_inversion()), pin))
        }),
{
    lemma_polarity_changes_keep_inputs(c, levels_0, levels_1, changes);
    lemma_input_bit(after_polarity_changes(c, changes), levels_0, levels_1, bank, pin);
}

/// A pin-level read-modify-write that succeeds on the cached driver (set
/// high or low, configure as input or output, change one pin's polarity)
/// reads the register from the mirror, issues exactly one write, and leaves
/// the mirror as that one byte write says.
pub proof fn lemma_cached_read_modify_write<B: I2cBus, IP: InterruptLine>(
    pre: Pca9535Cached<B, IP>,
    post: Pca9535Cached<B, IP>,
    register: Register,
    pin: u8,
    set: bool,
    r: Result<(), ExpanderError<B::Error>>,
)
    requires
        read_modify_write(pre, post, register, pin, set, r),
        !register.spec_is_input(),
        r is Ok,
    ensures
        post.registers() == pre.registers().after_byte_write(
            register,
            with_bit(pre.registers().value(register), pin, set),
        ),
        post.transactions() == pre.transactions().push(
            Transaction::Write {
                address: pre.address(),
                bytes: seq![
                    register.spec_address(),
                    with_bit(pre.registers().value(register), pin, set),
                ],
                ok: true,
            },
        ),
{
    let (mid, v) = choose|mid: Pca9535Cached<B, IP>, v: u8|
        #[trigger] <Pca9535Cached<B, IP> as Expander>::read_byte_spec(pre, mid, register, Ok(v))
            && <Pca9535Cached<B, IP> as Expander>::write_byte_spec(
            mid,
            post,
            register,
            with_bit(v, pin, set),
            r,
        );
    assert(v == pre.registers().value(register));
}

/// A single-pin polarity call that succeeds on the cached driver leaves the
/// mirror as [`after_polarity_change`] says.
pub proof fn lemma_cached_pin_polarity<B: I2cBus, IP: InterruptLine>(
    pre: Pca9535Cached<B, IP>,
    post: Pca9535Cached<B, IP>,
    bank: GPIOBank,
    pin: u8,
    inverse: bool,
    r: Result<(), ExpanderError<B::Error>>,
)
    requires
        read_modify_write(pre, post, bank.polarity_inversion(), pin, inverse, r),
        r is Ok,
    ensures
        post.registers() == after_polarity_change(
            pre.registers(),
            PolarityChange::Pin { bank, pin, inverse },
        ),
        post.transactions().len() == pre.transactions().len() + 1,
        post.transactions().last() is Write,
        post.transactions().take(pre.transactions().len() as int) == pre.transactions(),
{
    lemma_cached_read_modify_write(pre, post, bank.polarity_inversion(), pin, inverse, r);
    assert(post.transactions().take(pre.transactions().len() as int) =~= pre.transactions());
}

/// An all-pin polarity call that succeeds on the cached driver leaves the
/// mirror as [`after_polarity_change`] says.
pub proof fn lemma_cached_all_polarity<B: I2cBus, IP: InterruptLine>(
    pre: Pca9535Cached<B, IP>,
    post: Pca9535Cached<B, IP>,
    inverse: bool,
    r: Result<(), ExpanderError<B::Error>>,
)
    requires
        <Pca9535Cached<B, IP> as Expander>::write_halfword_spec(
            pre,
            post,
            Register::PolarityInversionPort0,
            if inverse {
                0xFFFFu16
            } else {
                0x0000u16
            },
            r,
        ),
        r is Ok,
    ensures
        post.registers() == after_polarity_change(pre.registers(), PolarityChange::All { inverse }),
{
}

/// A pin test on the cached driver that issued no transaction answered from
/// the mirror: it returns the mirrored input bit and changes nothing.
pub proof fn lemma_cached_quiet_pin_test<B: I2cBus, IP: InterruptLine>(
    pre: Pca9535Cached<B, IP>,
    post: Pca9535Cached<B, IP>,
    bank: GPIOBank,
    pin: u8,
    r: Result<bool, ExpanderError<B::Error>>,
)
    requires
        read_bit(pre, post, bank.input(), pin, r),
        post.transactions() == pre.transactions(),
    ensures
        r is Ok,
        r->Ok_0 == bit_is_set(pre.registers().value(bank.input()), pin),
        post.registers() == pre.registers(),
{
}

/// A byte written to the cached driver and then read back while the
/// interrupt line is not asserted is the byte written, and the read issues no
/// transaction.
pub proof fn lemma_cached_byte_round_trip<B: I2cBus, IP: InterruptLine>(
    s0: Pca9535Cached<B, IP>,
    s1: Pca9535Cached<B, IP>,
    s2: Pca9535Cached<B, IP>,
    register: Register,
    v: u8,
    w: Result<(), ExpanderError<B::Error>>,
    r: Result<u8, ExpanderError<B::Error>>,
)
    requires
        <Pca9535Cached<B, IP> as Expander>::write_byte_spec(s0, s1, register, v, w),
        w is Ok,
        Pca9535Cached::read_byte_outcome(s1, s2, register, false, r),
    ensures
        r is Ok,
        r->Ok_0 == v,
        s2.transactions() == s1.transactions(),
{
}

/// After a half-word written to the cached driver, byte reads (with the
/// interrupt line not asserted) find the high byte in the named register and
/// the low byte in its neighbor, whichever member of the pair was named.
pub proof fn lemma_cached_halfword_pairing<B: I2cBus, IP: InterruptLine>(
    s0: Pca9535Cached<B, IP>,
    s1: Pca9535Cached<B, IP>,
    s2: Pca9535Cached<B, IP>,
    s3: Pca9535Cached<B, IP>,
    register: Register,
    v: u16,
    w: Result<(), ExpanderError<B::Error>>,
    r_named: Result<u8, ExpanderError<B::Error>>,
    r_neighbor: Result<u8, ExpanderError<B::Error>>,
)
    requires
        <Pca9535Cached<B, IP> as Expander>::write_halfword_spec(s0, s1, register, v, w),
        w is Ok,
        Pca9535Cached::read_byte_outcome(s1, s2, register, false, r_named),
        Pca9535Cached::read_byte_outcome(s2, s3, register.neighbor(), false, r_neighbor),
    ensures
        r_named is Ok,
        r_named->Ok_0 == high_byte(v),
        r_neighbor is Ok,
        r_neighbor->Ok_0 == low_byte(v),
{
}

/// Holds when the polarity call `change` may take the cached driver from
/// `pre` to `post` and return `r`, by the contracts of the pin-level interface.
pub open spec fn polarity_call<B: I2cBus, IP: InterruptLine>(
    pre: Pca9535Cached<B, IP>,
    post: Pca9535Cached<B, IP>,
    change: PolarityChange,
    r: Result<(), ExpanderError<B::Error>>,
) -> bool {
    match change {
        PolarityChange::Pin { bank, pin, inverse } => read_modify_write(
            pre,
            post,
            bank.polarity_inversion(),
            pin,
            inverse,
            r,
        ),
        PolarityChange::All { inverse } => <Pca9535Cached<B, IP> as Expander>::write_halfword_spec(
            pre,
            post,
            Register::PolarityInversionPort0,
            if inverse {
                0xFFFFu16
            } else {
                0x0000u16
            },
            r,
        ),
    }
}

/// A sequence of successful polarity calls on the cached driver leaves its
/// mirror as [`after_polarity_changes`] says, having issued one write per
/// call and no read; so if the mirrored inputs followed the pin levels
/// before, every pin then reads as its level, flipped exactly where its
/// polarity ends up inverted.
pub proof fn lemma_cached_polarity_calls<B: I2cBus, IP: InterruptLine>(
    states: Seq<Pca9535Cached<B, IP>>,
    changes: Seq<PolarityChange>,
    results: Seq<Result<(), ExpanderError<B::Error>>>,
    levels_0: u8,
    levels_1: u8,
)
    requires
        states.len() == changes.len() + 1,
        results.len() == changes.len(),
        forall|i: int|
            0 <= i < changes.len() ==> polarity_call(
                #[trigger] states[i],
                states[i + 1],
                changes[i],
                results[i],
            ) && results[i] is Ok,
    ensures
        states.last().registers() == after_polarity_changes(states[0].registers(), changes),
        states.last().transactions().len() == states[0].transactions().len() + changes.len(),
        states.last().transactions().take(states[0].transactions().len() as int)
            == states[0].transactions(),
        forall|i: int|
            states[0].transactions().len() <= i < states.last().transactions().len()
                ==> #[trigger] states.last().transactions()[i] is Write,
        inputs_follow_levels(states[0].registers(), levels_0, levels_1) ==> inputs_follow_levels(
            states.last().registers(),
            levels_0,
            levels_1,
        ),
    decreases changes.len(),
{
    if changes.len() > 0 {
        let s0 = states[0];
        let s1 = states[1];
        assert(polarity_call(states[0], states[1], changes[0], results[0]) && results[0] is Ok);
        match changes[0] {
            PolarityChange::Pin { bank, pin, inverse } => {
                lemma_cached_pin_polarity(s0, s1, bank, pin, inverse, results[0]);
            },
            PolarityChange::All { inverse } => {
                lemma_cached_all_polarity(s0, s1, inverse, results[0]);
            },
        }
        let rest = states.drop_first();
        assert forall|i: int| 0 <= i < changes.drop_first().len() implies polarity_call(
            #[trigger] rest[i],
            rest[i + 1],
            changes.drop_first()[i],
            results.drop_first()[i],
        ) && results.drop_first()[i] is Ok by {
            assert(polarity_call(states[i + 1], states[i + 2], changes[i + 1], results[i + 1])
                && results[i + 1] is Ok);
        }
        lemma_cached_polarity_calls(
            rest,
            changes.drop_first(),
            results.drop_first(),
            levels_0,
            levels_1,
        );
        assert(rest.last() == states.last());
        assert(s1.transactions().len() == s0.transactions().len() + 1);
        assert(s1.transactions()[s0.transactions().len() as int] is Write);
        assert forall|i: int|
            states[0].transactions().len() <= i < states.last().transactions().len()
                implies #[trigger] states.last().transactions()[i] is Write by {
            if i >= s1.transactions().len() {
                assert(rest.last().transactions()[i] is Write);
            } else {
                assert(rest.last().transactions().take(s1.transactions().len() as int)[i]
                    == s1.transactions()[i]);
            }
        }
        assert(states.last().transactions().take(s0.transactions().len() as int)
            =~= s0.transactions()) by {
            assert forall|i: int| 0 <= i < s0.transactions().len() implies
                states.last().transactions()[i] == s0.transactions()[i] by {
                assert(rest.last().transactions().take(s1.transactions().len() as int)[i]
                    == s1.transactions()[i]);
            }
        }
        if inputs_follow_levels(states[0].registers(), levels_0, levels_1) {
            lemma_polarity_changes_keep_inputs(states[0].registers(), levels_0, levels_1, changes);
        }
    } else {
        assert(states.last().transactions().take(states[0].transactions().len() as int)
            =~= states[0].transactions());
        if inputs_follow_levels(states[0].registers(), levels_0, levels_1) {
            lemma_polarity_changes_keep_inputs(states[0].registers(), levels_0, levels_1, changes);
        }
    }
}

/// After a sequence of successful polarity calls on the cached driver,
/// starting from a mirror whose inputs follow the pin levels, a read of a
/// bank's input register while the interrupt line is not asserted reports
/// each pin as its level, flipped exactly where its polarity is inverted.
pub proof fn lemma_cached_pin_reads_after_polarity_calls<B: I2cBus, IP: InterruptLine>(
    states: Seq<Pca9535Cached<B, IP>>,
    changes: Seq<PolarityChange>,
    results: Seq<Result<(), ExpanderError<B::Error>>>,
    levels_0: u8,
    levels_1: u8,
    bank: GPIOBank,
    pin: u8,
    post: Pca9535Cached<B, IP>,
    r: Result<u8, ExpanderError<B::Error>>,
)
    requires
        states.len() == changes.len() + 1,
        results.len() == changes.len(),
        forall|i: int|
            0 <= i < changes.len() ==> polarity_call(
                #[trigger] states[i],
                states[i + 1],
                changes[i],
                results[i],
            ) && results[i] is Ok,
        inputs_follow_levels(states[0].registers(), levels_0, levels_1),
        Pca9535Cached::read_byte_outcome(states.last(), post, bank.input(), false, r),
        pin < 8,
    ensures
        r is Ok,
        bit_is_set(r->Ok_0, pin) == (bit_is_set(bank_levels(bank, levels_0, levels_1), pin)
            != bit_is_set(states.last().registers().value(bank.polarity_inversion()), pin)),
{
    lemma_cached_polarity_calls(states, changes, results, levels_0, levels_1);
    lemma_input_bit(states.last().registers(), levels_0, levels_1, bank, pin);
}

/// After a sequence of successful polarity calls on the cached driver,
/// starting from a mirror whose inputs follow the pin levels, a
/// `pin_is_high` answered without a transaction (the interrupt line was not
/// asserted) returns the pin's level, flipped exactly where its polarity is
/// inverted.
pub proof fn lemma_cached_pin_is_high_after_polarity_calls<B: I2cBus, IP: InterruptLine>(
    states: Seq<Pca9535Cached<B, IP>>,
    changes: Seq<PolarityChange>,
    results: Seq<Result<(), ExpanderError<B::Error>>>,
    levels_0: u8,
    levels_1: u8,
    bank: GPIOBank,
    pin: u8,
    post: Pca9535Cached<B, IP>,
    r: Result<bool, ExpanderError<B::Error>>,
)
    requires
        states.len() == changes.len() + 1,
        results.len() == changes.len(),
        forall|i: int|
            0 <= i < changes.len() ==> polarity_call(
                #[trigger] states[i],
                states[i + 1],
                changes[i],
                results[i],
            ) && results[i] is Ok,
        inputs_follow_levels(states[0].registers(), levels_0, levels_1),
        read_bit(states.last(), post, bank.input(), pin, r),
        post.transactions() == states.last().transactions(),
        pin < 8,
    ensures
        r is Ok,
        r->Ok_0 == (bit_is_set(bank_levels(bank, levels_0, levels_1), pin) != bit_is_set(
            states.last().registers().value(bank.polarity_inversion()),
            pin,
        )),
{
    lemma_cached_polarity_calls(states, changes, results, levels_0, levels_1);
    lemma_cached_quiet_pin_test(states.last(), post, bank, pin, r);
    lemma_input_bit(states.last().registers(), levels_0, levels_1, bank, pin);
}

/// Any number of byte reads of input registers on the cached driver while
/// the interrupt line is not asserted issue no transaction, change nothing,
/// and each returns the mirrored value.
pub proof fn lemma_cached_quiet_reads<B: I2cBus, IP: InterruptLine>(
    states: Seq<Pca9535Cached<B, IP>>,
    registers: Seq<Register>,
    results: Seq<Result<u8, ExpanderError<B::Error>>>,
)
    requires
        states.len() == registers.len() + 1,
        results.len() == registers.len(),
        forall|i: int|
            0 <= i < registers.len() ==> Pca9535Cached::read_byte_outcome(
                #[trigger] states[i],
                states[i + 1],
                registers[i],
                false,
                results[i],
            ),
    ensures
        states.last().transactions() == states[0].transactions(),
        states.last().registers() == states[0].registers(),
        forall|i: int|
            0 <= i < registers.len() ==> (#[trigger] results[i]) is Ok && results[i]->Ok_0
                == states[0].registers().value(registers[i]),
    decreases registers.len(),
{
    if registers.len() > 0 {
        let n = registers.len() - 1;
        lemma_cached_quiet_reads(states.take(n + 1), registers.take(n), results.take(n));
        assert(states.take(n + 1).last() == states[n]);
        assert forall|i: int| 0 <= i < registers.len() implies (#[trigger] results[i]) is Ok
            && results[i]->Ok_0 == states[0].registers().value(registers[i]) by {
            if i < n {
                assert(results.take(n)[i] == results[i]);
                assert(registers.take(n)[i] == registers[i]);
            }
        }
    }
}

/// The immediate driver keeps no state that could spare a transaction: two
/// byte reads in a row issue two reads of the register, and each returns
/// what its own read brought back.
pub proof fn lemma_immediate_reads_each_hit_bus<B: I2cBus>(
    s0: Pca9535Immediate<B>,
    s1: Pca9535Immediate<B>,
    s2: Pca9535Immediate<B>,
    register: Register,
    r1: Result<u8, ExpanderError<B::Error>>,
    r2: Result<u8, ExpanderError<B::Error>>,
)
    requires
        <Pca9535Immediate<B> as Expander>::read_byte_spec(s0, s1, register, r1),
        <Pca9535Immediate<B> as Expander>::read_byte_spec(s1, s2, register, r2),
    ensures
        s2.transactions().len() == s0.transactions().len() + 2,
        s2.transactions().take(s0.transactions().len() as int) == s0.transactions(),
        s2.transactions()[s0.transactions().len() as int].is_read_of(
            s0.address(),
            register.spec_address(),
            1,
        ),
        s2.transactions().last().is_read_of(s0.address(), register.spec_address(), 1),
        r1 is Ok ==> r1->Ok_0 == s2.transactions()[s0.transactions().len() as int].reply()[0],
        r2 is Ok ==> r2->Ok_0 == s2.transactions().last().reply()[0],
{
    let n = s0.transactions().len() as int;
    assert(s1.transactions() =~= s2.transactions().drop_last());
    assert(s2.transactions()[n] == s1.transactions().last());
    assert(s2.transactions().take(n) =~= s0.transactions()) by {
        assert(s0.transactions() =~= s1.transactions().drop_last());
    }
}

} // verus!
