use std::cell::RefCell;
use std::rc::Rc;
use std::sync::Mutex;

use pca9535::{
    Expander, ExpanderError, ExpanderInputPin, ExpanderMutex, ExpanderOutputPin, GPIOBank,
    I2cBus, InterruptLine, IoExpander, Pca9535Cached, Pca9535Immediate, PinState, Polarity,
    Register, StandardExpanderInterface, SyncExpander,
};

const ADDR: u8 = 33;

/// A transaction as the simulated device saw it.
#[derive(Debug, Clone, PartialEq)]
enum Tx {
    Write(u8, Vec<u8>),
    WriteRead(u8, Vec<u8>, usize),
}

#[derive(Debug, Clone, Copy, PartialEq)]
struct BusFault;

/// A PCA9535 on a bus, with the levels that the outside world applies to its
/// pins.
struct Chip {
    address: u8,
    output: [u8; 2],
    polarity: [u8; 2],
    configuration: [u8; 2],
    levels: [u8; 2],
    seen: [u8; 2],
    log: Vec<Tx>,
    fail_next: bool,
    fail_at: Option<usize>,
}

impl Chip {
    fn new(address: u8) -> Self {
        Chip {
            address,
            output: [0xFF; 2],
            polarity: [0x00; 2],
            configuration: [0xFF; 2],
            levels: [0x00; 2],
            seen: [0x00; 2],
            log: Vec::new(),
            fail_next: false,
            fail_at: None,
        }
    }

    /// The level at each pin: applied from outside on inputs, driven on outputs.
    fn pin_levels(&self, bank: usize) -> u8 {
        let cfg = self.configuration[bank];
        (self.levels[bank] & cfg) | (self.output[bank] & !cfg)
    }

    fn read_register(&mut self, index: u8) -> u8 {
        let bank = (index & 1) as usize;
        match index >> 1 {
            0 => {
                self.seen[bank] = self.levels[bank] & self.configuration[bank];
                self.pin_levels(bank) ^ self.polarity[bank]
            }
            1 => self.output[bank],
            2 => self.polarity[bank],
            _ => self.configuration[bank],
        }
    }

    fn write_register(&mut self, index: u8, v: u8) {
        let bank = (index & 1) as usize;
        match index >> 1 {
            0 => {}
            1 => self.output[bank] = v,
            2 => self.polarity[bank] = v,
            _ => self.configuration[bank] = v,
        }
    }

    fn interrupt(&self) -> bool {
        (0..2).any(|b| self.levels[b] & self.configuration[b] != self.seen[b])
    }
}

#[derive(Clone)]
struct Sim(Rc<RefCell<Chip>>);

impl Sim {
    fn new() -> Self {
        Sim(Rc::new(RefCell::new(Chip::new(ADDR))))
    }

    fn set_level(&self, bank: usize, pin: u8, high: bool) {
        let mut chip = self.0.borrow_mut();
        if high {
            chip.levels[bank] |= 1 << pin;
        } else {
            chip.levels[bank] &= !(1 << pin);
        }
    }

    fn is_high(&self, bank: usize, pin: u8) -> bool {
        (self.0.borrow().pin_levels(bank) >> pin) & 1 == 1
    }

    fn log(&self) -> Vec<Tx> {
        self.0.borrow().log.clone()
    }

    fn count(&self) -> usize {
        self.0.borrow().log.len()
    }

    fn fail_next(&self) {
        self.0.borrow_mut().fail_next = true;
    }
}

impl I2cBus for Sim {
    type Error = BusFault;

    fn write(&mut self, address: u8, bytes: &[u8]) -> Result<(), BusFault> {
        let mut chip = self.0.borrow_mut();
        chip.log.push(Tx::Write(address, bytes.to_vec()));
        if chip.fail_next || chip.fail_at == Some(chip.log.len()) || address != chip.address {
            chip.fail_next = false;
            return Err(BusFault);
        }
        let command = bytes[0];
        for (k, b) in bytes[1..].iter().enumerate() {
            chip.write_register(command ^ (k as u8 & 1), *b);
        }
        Ok(())
    }

    fn write_read(&mut self, address: u8, bytes: &[u8], buffer: &mut [u8]) -> Result<(), BusFault> {
        let mut chip = self.0.borrow_mut();
        chip.log.push(Tx::WriteRead(address, bytes.to_vec(), buffer.len()));
        if chip.fail_next || chip.fail_at == Some(chip.log.len()) || address != chip.address {
            chip.fail_next = false;
            return Err(BusFault);
        }
        let command = bytes[0];
        for (k, slot) in buffer.iter_mut().enumerate() {
            *slot = chip.read_register(command ^ (k as u8 & 1));
        }
        Ok(())
    }
}

impl InterruptLine for Sim {
    fn is_asserted(&mut self) -> bool {
        self.0.borrow().interrupt()
    }
}

struct TestMutex<Ex>(Mutex<Ex>);

impl<Ex> ExpanderMutex<Ex> for TestMutex<Ex> {
    fn lock<R, C: FnOnce(&mut Ex) -> R>(&self, c: C) -> R {
        let mut guard = self.0.lock().unwrap();
        c(&mut guard)
    }

    fn new(ex: Ex) -> Self {
        TestMutex(Mutex::new(ex))
    }
}

type Cached = Pca9535Cached<Sim, Sim>;
type Immediate = Pca9535Immediate<Sim>;

fn cached(sim: &Sim) -> Cached {
    Pca9535Cached::new(sim.clone(), ADDR, sim.clone(), false).unwrap()
}

fn immediate(sim: &Sim) -> Immediate {
    Pca9535Immediate::new(sim.clone(), ADDR)
}

// Register-level round trips.

fn read_write_byte_on<E: Expander<Error = BusFault>>(expander: &mut E) {
    expander.write_byte(Register::PolarityInversionPort0, 0xCD).unwrap();

    let mut buffer: u8 = 0;

    expander.read_byte(Register::PolarityInversionPort0, &mut buffer).unwrap();

    assert_eq!(buffer, 0xCD);

    expander.write_byte(Register::PolarityInversionPort0, 0x00).unwrap();
}

fn read_write_halfword_on<E: Expander<Error = BusFault>>(expander: &mut E) {
    expander.write_halfword(Register::PolarityInversionPort0, 0xABCD).unwrap();

    let mut buffer: u16 = 0;

    expander.read_halfword(Register::PolarityInversionPort0, &mut buffer).unwrap();

    assert_eq!(0xABCD, buffer);

    expander.write_halfword(Register::PolarityInversionPort0, 0x0000).unwrap();
}

#[test]
fn cached_read_write_byte() {
    let sim = Sim::new();
    read_write_byte_on(&mut cached(&sim));
}

#[test]
fn cached_read_write_halfword() {
    let sim = Sim::new();
    read_write_halfword_on(&mut cached(&sim));
}

#[test]
fn immediate_read_write_byte() {
    let sim = Sim::new();
    read_write_byte_on(&mut immediate(&sim));
}

#[test]
fn immediate_read_write_halfword() {
    let sim = Sim::new();
    read_write_halfword_on(&mut immediate(&sim));
}

#[test]
fn hil_tests_read_write_byte() {
    let sim = Sim::new();
    read_write_byte_on(&mut immediate(&sim));
    let sim = Sim::new();
    read_write_byte_on(&mut cached(&sim));
}

#[test]
fn hil_tests_read_write_halfword() {
    let sim = Sim::new();
    read_write_halfword_on(&mut immediate(&sim));
    let sim = Sim::new();
    read_write_halfword_on(&mut cached(&sim));
}

// Pin-level interface.

fn input_pin_is_high_on<E: StandardExpanderInterface<Error = BusFault>>(expander: &mut E, sim: &Sim) {
    expander.pin_into_input(GPIOBank::Bank1, 0).unwrap();

    sim.set_level(1, 0, true);

    assert!(expander.pin_is_high(GPIOBank::Bank1, 0).unwrap());
    assert!(!expander.pin_is_low(GPIOBank::Bank1, 0).unwrap());
}

fn output_high_on<E: StandardExpanderInterface<Error = BusFault>>(expander: &mut E, sim: &Sim) {
    expander.pin_into_output(GPIOBank::Bank1, 6).unwrap();
    expander.pin_set_low(GPIOBank::Bank1, 6).unwrap();

    expander.pin_set_high(GPIOBank::Bank1, 6).unwrap();

    assert!(sim.is_high(1, 6));
}

fn output_low_on<E: StandardExpanderInterface<Error = BusFault>>(expander: &mut E, sim: &Sim) {
    expander.pin_into_output(GPIOBank::Bank1, 6).unwrap();
    expander.pin_set_high(GPIOBank::Bank1, 6).unwrap();

    expander.pin_set_low(GPIOBank::Bank1, 6).unwrap();

    assert!(!sim.is_high(1, 6));
}

fn input_polarity_single_toggled_on<E: StandardExpanderInterface<Error = BusFault>>(expander: &mut E, sim: &Sim) {
    expander.pin_into_input(GPIOBank::Bank1, 0).unwrap();
    sim.set_level(1, 0, true);

    expander.pin_inverse_polarity(GPIOBank::Bank1, 0).unwrap();
    expander.pin_normal_polarity(GPIOBank::Bank1, 0).unwrap();
    expander.pin_inverse_polarity(GPIOBank::Bank1, 0).unwrap();

    assert!(!expander.pin_is_high(GPIOBank::Bank1, 0).unwrap());

    expander.pin_normal_polarity(GPIOBank::Bank1, 0).unwrap();

    assert!(expander.pin_is_high(GPIOBank::Bank1, 0).unwrap());

    sim.set_level(1, 0, false);

    expander.pin_inverse_polarity(GPIOBank::Bank1, 0).unwrap();

    assert!(expander.pin_is_high(GPIOBank::Bank1, 0).unwrap());

    expander.pin_normal_polarity(GPIOBank::Bank1, 0).unwrap();

    assert!(!expander.pin_is_high(GPIOBank::Bank1, 0).unwrap());
}

fn input_polarity_single_on<E: StandardExpanderInterface<Error = BusFault>>(expander: &mut E, sim: &Sim) {
    expander.pin_into_input(GPIOBank::Bank1, 0).unwrap();
    sim.set_level(1, 0, true);

    expander.pin_inverse_polarity(GPIOBank::Bank1, 0).unwrap();

    assert_eq!(expander.pin_is_high(GPIOBank::Bank1, 0).unwrap(), false);

    expander.pin_normal_polarity(GPIOBank::Bank1, 0).unwrap();

    assert_eq!(expander.pin_is_high(GPIOBank::Bank1, 0).unwrap(), true);

    sim.set_level(1, 0, false);

    expander.pin_inverse_polarity(GPIOBank::Bank1, 0).unwrap();

    assert_eq!(expander.pin_is_high(GPIOBank::Bank1, 0).unwrap(), true);

    expander.pin_normal_polarity(GPIOBank::Bank1, 0).unwrap();

    assert_eq!(expander.pin_is_high(GPIOBank::Bank1, 0).unwrap(), false);
}

fn input_polarity_all_toggled_on<E: StandardExpanderInterface<Error = BusFault>>(expander: &mut E, sim: &Sim) {
    expander.pin_into_input(GPIOBank::Bank1, 0).unwrap();
    expander.pin_into_input(GPIOBank::Bank1, 1).unwrap();
    sim.set_level(1, 0, true);
    sim.set_level(1, 1, true);

    expander.inverse_polarity().unwrap();
    expander.normal_polarity().unwrap();
    expander.inverse_polarity().unwrap();

    assert!(!expander.pin_is_high(GPIOBank::Bank1, 0).unwrap());
    assert!(!expander.pin_is_high(GPIOBank::Bank1, 1).unwrap());

    expander.normal_polarity().unwrap();

    assert!(expander.pin_is_high(GPIOBank::Bank1, 0).unwrap());
    assert!(expander.pin_is_high(GPIOBank::Bank1, 1).unwrap());

    sim.set_level(1, 0, false);

    expander.inverse_polarity().unwrap();

    assert!(expander.pin_is_high(GPIOBank::Bank1, 0).unwrap());
    assert!(!expander.pin_is_high(GPIOBank::Bank1, 1).unwrap());

    expander.normal_polarity().unwrap();

    assert!(!expander.pin_is_high(GPIOBank::Bank1, 0).unwrap());
    assert!(expander.pin_is_high(GPIOBank::Bank1, 1).unwrap());
}

fn input_polarity_all_on<E: StandardExpanderInterface<Error = BusFault>>(expander: &mut E, sim: &Sim) {
    expander.pin_into_input(GPIOBank::Bank1, 0).unwrap();
    expander.pin_into_input(GPIOBank::Bank1, 1).unwrap();
    sim.set_level(1, 0, true);
    sim.set_level(1, 1, true);

    expander.inverse_polarity().unwrap();

    assert_eq!(expander.pin_is_high(GPIOBank::Bank1, 0).unwrap(), false);
    assert_eq!(expander.pin_is_high(GPIOBank::Bank1, 1).unwrap(), false);

    expander.normal_polarity().unwrap();

    assert_eq!(expander.pin_is_high(GPIOBank::Bank1, 0).unwrap(), true);
    assert_eq!(expander.pin_is_high(GPIOBank::Bank1, 1).unwrap(), true);

    sim.set_level(1, 0, false);

    expander.inverse_polarity().unwrap();

    assert_eq!(expander.pin_is_high(GPIOBank::Bank1, 0).unwrap(), true);
    assert_eq!(expander.pin_is_high(GPIOBank::Bank1, 1).unwrap(), false);

    expander.normal_polarity().unwrap();

    assert_eq!(expander.pin_is_high(GPIOBank::Bank1, 0).unwrap(), false);
    assert_eq!(expander.pin_is_high(GPIOBank::Bank1, 1).unwrap(), true);
}

#[test]
fn cached_input_pin_is_high() {
    let sim = Sim::new();
    input_pin_is_high_on(&mut cached(&sim), &sim);
}

#[test]
fn cached_input_pin_is_low() {
    let sim = Sim::new();
    input_pin_is_high_on(&mut cached(&sim), &sim);
}

#[test]
fn cached_output_high() {
    let sim = Sim::new();
    output_high_on(&mut cached(&sim), &sim);
}

#[test]
fn cached_output_low() {
    let sim = Sim::new();
    output_low_on(&mut cached(&sim), &sim);
}

#[test]
fn cached_input_polarity_single() {
    let sim = Sim::new();
    input_polarity_single_toggled_on(&mut cached(&sim), &sim);
}

#[test]
fn cached_input_polarity_all() {
    let sim = Sim::new();
    input_polarity_all_toggled_on(&mut cached(&sim), &sim);
}

#[test]
fn immediate_input_pin_is_high() {
    let sim = Sim::new();
    input_pin_is_high_on(&mut immediate(&sim), &sim);
}

#[test]
fn immediate_input_pin_is_low() {
    let sim = Sim::new();
    input_pin_is_high_on(&mut immediate(&sim), &sim);
}

#[test]
fn immediate_output_high() {
    let sim = Sim::new();
    output_high_on(&mut immediate(&sim), &sim);
}

#[test]
fn immediate_output_low() {
    let sim = Sim::new();
    output_low_on(&mut immediate(&sim), &sim);
}

#[test]
fn immediate_input_polarity_single() {
    let sim = Sim::new();
    input_polarity_single_on(&mut immediate(&sim), &sim);
}

#[test]
fn immediate_input_polarity_all() {
    let sim = Sim::new();
    input_polarity_all_on(&mut immediate(&sim), &sim);
}

#[test]
fn hil_tests_input_pin_is_high() {
    let sim = Sim::new();
    input_pin_is_high_on(&mut immediate(&sim), &sim);
    let sim = Sim::new();
    input_pin_is_high_on(&mut cached(&sim), &sim);
}

#[test]
fn hil_tests_input_pin_is_low() {
    let sim = Sim::new();
    input_pin_is_high_on(&mut immediate(&sim), &sim);
    let sim = Sim::new();
    input_pin_is_high_on(&mut cached(&sim), &sim);
}

#[test]
fn hil_tests_output_high() {
    let sim = Sim::new();
    output_high_on(&mut immediate(&sim), &sim);
    let sim = Sim::new();
    output_high_on(&mut cached(&sim), &sim);
}

#[test]
fn hil_tests_output_low() {
    let sim = Sim::new();
    output_low_on(&mut immediate(&sim), &sim);
    let sim = Sim::new();
    output_low_on(&mut cached(&sim), &sim);
}

#[test]
fn hil_tests_input_polarity_single() {
    let sim = Sim::new();
    input_polarity_single_on(&mut immediate(&sim), &sim);
    let sim = Sim::new();
    input_polarity_single_toggled_on(&mut cached(&sim), &sim);
}

#[test]
fn hil_tests_input_polarity_all() {
    let sim = Sim::new();
    input_polarity_all_on(&mut immediate(&sim), &sim);
    let sim = Sim::new();
    input_polarity_all_toggled_on(&mut cached(&sim), &sim);
}

// Pin handles over a shared expander.

struct Gpio<'a, Io> {
    _in0_3: ExpanderInputPin<'a, Io>,
    in0_4: ExpanderInputPin<'a, Io>,
    _out0_7: ExpanderOutputPin<'a, Io>,
    out1_5: ExpanderOutputPin<'a, Io>,
}

fn gpio<Io: SyncExpander<Error = BusFault>>(io: &Io) -> Gpio<'_, Io>
{
    Gpio {
        _in0_3: ExpanderInputPin::new(io, GPIOBank::Bank0, 3).unwrap(),
        in0_4: ExpanderInputPin::new(io, GPIOBank::Bank0, 4).unwrap(),
        _out0_7: ExpanderOutputPin::new(io, GPIOBank::Bank0, 7, PinState::High).unwrap(),
        out1_5: ExpanderOutputPin::new(io, GPIOBank::Bank1, 5, PinState::Low).unwrap(),
    }
}

fn hal_input_pin_is_high_on<Io: SyncExpander<Error = BusFault>>(io: &Io, sim: &Sim)
{
    let pins = gpio(io);

    sim.set_level(0, 4, true);

    assert!(pins.in0_4.is_high().unwrap());
}

fn hal_input_pin_is_low_on<Io: SyncExpander<Error = BusFault>>(io: &Io, sim: &Sim)
{
    let pins = gpio(io);

    sim.set_level(0, 4, false);

    assert!(pins.in0_4.is_low().unwrap());
}

fn hal_output_low_on<Io: SyncExpander<Error = BusFault>>(io: &Io, sim: &Sim)
{
    let mut pins = gpio(io);

    pins.out1_5.set_low().unwrap();

    assert!(!sim.is_high(1, 5));
}

fn hal_output_high_on<Io: SyncExpander<Error = BusFault>>(io: &Io, sim: &Sim)
{
    let mut pins = gpio(io);

    pins.out1_5.set_high().unwrap();

    assert!(sim.is_high(1, 5));
}

type CachedIo = IoExpander<TestMutex<Cached>, Cached>;
type ImmediateIo = IoExpander<TestMutex<Immediate>, Immediate>;

#[test]
fn cached_hal_input_pin_is_high() {
    let sim = Sim::new();
    let io: CachedIo = IoExpander::new(cached(&sim));
    hal_input_pin_is_high_on(&io, &sim);
}

#[test]
fn cached_hal_input_pin_is_low() {
    let sim = Sim::new();
    let io: CachedIo = IoExpander::new(cached(&sim));
    hal_input_pin_is_low_on(&io, &sim);
}

#[test]
fn cached_hal_output_low() {
    let sim = Sim::new();
    let io: CachedIo = IoExpander::new(cached(&sim));
    hal_output_low_on(&io, &sim);
}

#[test]
fn cached_hal_output_high() {
    let sim = Sim::new();
    let io: CachedIo = IoExpander::new(cached(&sim));
    hal_output_high_on(&io, &sim);
}

#[test]
fn immediate_hal_input_pin_is_high() {
    let sim = Sim::new();
    let io: ImmediateIo = IoExpander::new(immediate(&sim));
    hal_input_pin_is_high_on(&io, &sim);
}

#[test]
fn immediate_hal_input_pin_is_low() {
    let sim = Sim::new();
    let io: ImmediateIo = IoExpander::new(immediate(&sim));
    hal_input_pin_is_low_on(&io, &sim);
}

#[test]
fn immediate_hal_output_low() {
    let sim = Sim::new();
    let io: ImmediateIo = IoExpander::new(immediate(&sim));
    hal_output_low_on(&io, &sim);
}

#[test]
fn immediate_hal_output_high() {
    let sim = Sim::new();
    let io: ImmediateIo = IoExpander::new(immediate(&sim));
    hal_output_high_on(&io, &sim);
}

#[test]
fn hil_tests_hal_pins() {
    let sim = Sim::new();
    let io: ImmediateIo = IoExpander::new(immediate(&sim));
    hal_input_pin_is_high_on(&io, &sim);
    hal_input_pin_is_low_on(&io, &sim);
    hal_output_low_on(&io, &sim);
    hal_output_high_on(&io, &sim);
}

#[test]
fn pin_conversion() {
    let sim = Sim::new();
    let io: CachedIo = IoExpander::new(cached(&sim));
    io.write_halfword(Register::ConfigurationPort0, 0x00).unwrap();

    let input_pin = ExpanderInputPin::new(&io, GPIOBank::Bank0, 3).unwrap();
    let output_pin = ExpanderOutputPin::new(&io, GPIOBank::Bank0, 7, PinState::High).unwrap();

    let mut input_to_output = input_pin.into_output_pin(PinState::Low).unwrap();

    input_to_output.set_high().unwrap();

    assert_eq!(sim.is_high(0, 3), true);

    sim.set_level(0, 7, true);

    let output_to_input = output_pin.into_input_pin().unwrap();

    assert_eq!(output_to_input.is_high().unwrap(), true);

    output_to_input.into_output_pin(PinState::Low).unwrap();
    input_to_output.into_input_pin().unwrap();
}

// Properties of the drivers.

const ALL_REGISTERS: [Register; 8] = [
    Register::InputPort0,
    Register::InputPort1,
    Register::OutputPort0,
    Register::OutputPort1,
    Register::PolarityInversionPort0,
    Register::PolarityInversionPort1,
    Register::ConfigurationPort0,
    Register::ConfigurationPort1,
];

#[test]
fn cached_round_trip_every_register() {
    for register in ALL_REGISTERS {
        for value in [0x00u8, 0x01, 0x5A, 0xA5, 0x80, 0xFF] {
            let sim = Sim::new();
            let mut expander = cached(&sim);
            expander.write_byte(register, value).unwrap();
            let mut buffer: u8 = 0;
            expander.read_byte(register, &mut buffer).unwrap();
            assert_eq!(buffer, value, "{:?}", register);
        }
    }
}

#[test]
fn immediate_round_trip_writable_registers() {
    for register in &ALL_REGISTERS[2..] {
        for value in [0x00u8, 0x01, 0x5A, 0xA5, 0x80, 0xFF] {
            let sim = Sim::new();
            let mut expander = immediate(&sim);
            expander.write_byte(*register, value).unwrap();
            let mut buffer: u8 = 0;
            expander.read_byte(*register, &mut buffer).unwrap();
            assert_eq!(buffer, value, "{:?}", register);
        }
    }
}

fn halfword_pairing_on<E: Expander<Error = BusFault>>(expander: &mut E)
{
    let mut port0: u8 = 0;
    let mut port1: u8 = 0;

    expander.write_halfword(Register::OutputPort0, 0x4A07).unwrap();
    expander.read_byte(Register::OutputPort0, &mut port0).unwrap();
    expander.read_byte(Register::OutputPort1, &mut port1).unwrap();
    assert_eq!(port0, 0x4A);
    assert_eq!(port1, 0x07);

    expander.write_halfword(Register::OutputPort1, 0x4A07).unwrap();
    expander.read_byte(Register::OutputPort0, &mut port0).unwrap();
    expander.read_byte(Register::OutputPort1, &mut port1).unwrap();
    assert_eq!(port0, 0x07);
    assert_eq!(port1, 0x4A);
}

#[test]
fn halfword_pairing_cached() {
    let sim = Sim::new();
    halfword_pairing_on(&mut cached(&sim));
}

#[test]
fn halfword_pairing_immediate() {
    let sim = Sim::new();
    halfword_pairing_on(&mut immediate(&sim));
}

#[test]
fn cached_quiet_reads_issue_no_transactions() {
    let sim = Sim::new();
    let mut expander = cached(&sim);
    let before = sim.count();
    let mut byte: u8 = 0xEE;
    let mut half: u16 = 0xEEEE;
    for _ in 0..5 {
        expander.read_byte(Register::InputPort0, &mut byte).unwrap();
        assert_eq!(byte, 0x00);
        expander.read_byte(Register::InputPort1, &mut byte).unwrap();
        assert_eq!(byte, 0x00);
        expander.read_halfword(Register::InputPort0, &mut half).unwrap();
        assert_eq!(half, 0x0000);
        expander.read_byte(Register::ConfigurationPort1, &mut byte).unwrap();
        assert_eq!(byte, 0xFF);
    }
    assert_eq!(sim.count(), before);
}

#[test]
fn cached_asserted_read_refreshes_input() {
    let sim = Sim::new();
    let mut expander = cached(&sim);
    sim.set_level(0, 2, true);
    let before = sim.count();
    let mut byte: u8 = 0;
    expander.read_byte(Register::InputPort0, &mut byte).unwrap();
    assert_eq!(byte, 0x04);
    assert_eq!(sim.count(), before + 1);
    assert_eq!(sim.log()[before], Tx::WriteRead(ADDR, vec![0x00], 1));

    // The read cleared the interrupt: the mirror now answers.
    expander.read_byte(Register::InputPort0, &mut byte).unwrap();
    assert_eq!(byte, 0x04);
    assert_eq!(sim.count(), before + 1);
}

#[test]
fn cached_asserted_halfword_read_refreshes_both_inputs() {
    let sim = Sim::new();
    let mut expander = cached(&sim);
    sim.set_level(0, 0, true);
    sim.set_level(1, 7, true);
    let before = sim.count();
    let mut half: u16 = 0;
    expander.read_halfword(Register::InputPort1, &mut half).unwrap();
    assert_eq!(half, 0x8001);
    assert_eq!(sim.log()[before..], [Tx::WriteRead(ADDR, vec![0x01], 2)]);
    let mut byte: u8 = 0;
    expander.read_byte(Register::InputPort0, &mut byte).unwrap();
    assert_eq!(byte, 0x01);
    assert_eq!(sim.count(), before + 1);
}

#[test]
fn cached_asserted_read_of_output_uses_mirror() {
    let sim = Sim::new();
    let mut expander = cached(&sim);
    sim.set_level(0, 2, true);
    let before = sim.count();
    let mut byte: u8 = 0;
    expander.read_byte(Register::OutputPort0, &mut byte).unwrap();
    assert_eq!(byte, 0xFF);
    assert_eq!(sim.count(), before);
}

#[test]
fn cached_polarity_coherence_without_bus_reads() {
    let sim = Sim::new();
    let mut expander = cached(&sim);
    expander.pin_into_input(GPIOBank::Bank0, 5).unwrap();
    sim.set_level(0, 5, true);
    assert!(expander.pin_is_high(GPIOBank::Bank0, 5).unwrap());

    let before = sim.count();
    expander.pin_inverse_polarity(GPIOBank::Bank0, 5).unwrap();
    expander.pin_normal_polarity(GPIOBank::Bank0, 5).unwrap();
    expander.pin_inverse_polarity(GPIOBank::Bank0, 5).unwrap();
    assert!(!expander.pin_is_high(GPIOBank::Bank0, 5).unwrap());
    expander.pin_normal_polarity(GPIOBank::Bank0, 5).unwrap();
    assert!(expander.pin_is_high(GPIOBank::Bank0, 5).unwrap());
    expander.inverse_polarity().unwrap();
    assert!(!expander.pin_is_high(GPIOBank::Bank0, 5).unwrap());
    expander.normal_polarity().unwrap();
    assert!(expander.pin_is_high(GPIOBank::Bank0, 5).unwrap());

    // Only the six polarity writes went to the bus.
    let log = sim.log();
    assert_eq!(log.len(), before + 6);
    assert!(log[before..].iter().all(|t| matches!(t, Tx::Write(..))));
}

#[test]
fn construction_accepts_address_range_ends() {
    for address in [32u8, 39] {
        let sim = Sim(Rc::new(RefCell::new(Chip::new(address))));
        let mut expander = Pca9535Cached::new(sim.clone(), address, sim.clone(), false).unwrap();
        let mut byte: u8 = 0;
        expander.read_byte(Register::ConfigurationPort0, &mut byte).unwrap();
        assert_eq!(byte, 0xFF);
        let mut expander = Pca9535Immediate::new(sim.clone(), address);
        expander.write_byte(Register::OutputPort0, 0x12).unwrap();
        assert!(sim.log().iter().all(|t| match t {
            Tx::Write(a, _) | Tx::WriteRead(a, _, _) => *a == address,
        }));
    }
}

#[test]
fn immediate_issues_one_transaction_per_call() {
    let sim = Sim::new();
    let mut expander = immediate(&sim);
    let mut byte: u8 = 0;
    let mut half: u16 = 0;
    expander.read_byte(Register::InputPort0, &mut byte).unwrap();
    expander.read_byte(Register::InputPort0, &mut byte).unwrap();
    assert_eq!(sim.count(), 2);
    expander.write_byte(Register::OutputPort0, 1).unwrap();
    expander.write_halfword(Register::OutputPort0, 1).unwrap();
    expander.read_halfword(Register::OutputPort0, &mut half).unwrap();
    assert_eq!(sim.count(), 5);
}

#[test]
fn wire_format() {
    let sim = Sim::new();
    let mut expander = immediate(&sim);
    let mut byte: u8 = 0;
    let mut half: u16 = 0;
    expander.write_byte(Register::OutputPort1, 0x5A).unwrap();
    expander.write_halfword(Register::PolarityInversionPort1, 0x1234).unwrap();
    expander.read_byte(Register::ConfigurationPort0, &mut byte).unwrap();
    expander.read_halfword(Register::PolarityInversionPort1, &mut half).unwrap();
    assert_eq!(
        sim.log(),
        vec![
            Tx::Write(ADDR, vec![0x03, 0x5A]),
            Tx::Write(ADDR, vec![0x05, 0x12, 0x34]),
            Tx::WriteRead(ADDR, vec![0x06], 1),
            Tx::WriteRead(ADDR, vec![0x05], 2),
        ]
    );
    assert_eq!(byte, 0xFF);
    assert_eq!(half, 0x1234);
}

#[test]
fn cached_seeds_mirror_from_device() {
    let sim = Sim::new();
    {
        let mut chip = sim.0.borrow_mut();
        chip.output = [0x11, 0x22];
        chip.polarity = [0x01, 0x02];
        chip.configuration = [0xF0, 0x0F];
    }
    let mut expander = cached(&sim);
    assert_eq!(
        sim.log(),
        vec![
            Tx::WriteRead(ADDR, vec![0x06], 2),
            Tx::WriteRead(ADDR, vec![0x00], 2),
            Tx::WriteRead(ADDR, vec![0x02], 2),
            Tx::WriteRead(ADDR, vec![0x04], 2),
        ]
    );
    let mut half: u16 = 0;
    expander.read_halfword(Register::OutputPort0, &mut half).unwrap();
    assert_eq!(half, 0x1122);
    expander.read_halfword(Register::ConfigurationPort1, &mut half).unwrap();
    assert_eq!(half, 0x0FF0);
    expander.read_halfword(Register::PolarityInversionPort0, &mut half).unwrap();
    assert_eq!(half, 0x0102);
    assert_eq!(sim.count(), 4);
}

#[test]
fn cached_defaults_issue_no_transactions() {
    let sim = Sim::new();
    let mut expander = Pca9535Cached::new(sim.clone(), ADDR, sim.clone(), true).unwrap();
    let mut half: u16 = 0;
    expander.read_halfword(Register::OutputPort0, &mut half).unwrap();
    assert_eq!(half, 0xFFFF);
    expander.read_halfword(Register::PolarityInversionPort0, &mut half).unwrap();
    assert_eq!(half, 0x0000);
    expander.read_halfword(Register::ConfigurationPort0, &mut half).unwrap();
    assert_eq!(half, 0xFFFF);
    expander.read_halfword(Register::InputPort0, &mut half).unwrap();
    assert_eq!(half, 0x0000);
    assert_eq!(sim.count(), 0);
}

#[test]
fn cached_construction_failure_is_write_read_error() {
    let sim = Sim::new();
    sim.fail_next();
    let r = Pca9535Cached::new(sim.clone(), ADDR, sim.clone(), false);
    assert!(matches!(r, Err(ExpanderError::WriteReadError(BusFault))));
    assert_eq!(sim.count(), 1);
}

#[test]
fn failed_write_keeps_mirror() {
    let sim = Sim::new();
    let mut expander = cached(&sim);
    expander.write_byte(Register::OutputPort0, 0x33).unwrap();
    sim.fail_next();
    let r = expander.write_byte(Register::OutputPort0, 0x44);
    assert!(matches!(r, Err(ExpanderError::WriteError(BusFault))));
    sim.fail_next();
    let r = expander.write_halfword(Register::OutputPort0, 0x4455);
    assert!(matches!(r, Err(ExpanderError::WriteError(BusFault))));
    let mut byte: u8 = 0;
    expander.read_byte(Register::OutputPort0, &mut byte).unwrap();
    assert_eq!(byte, 0x33);
    expander.read_byte(Register::OutputPort1, &mut byte).unwrap();
    assert_eq!(byte, 0xFF);
}

#[test]
fn failed_polarity_write_keeps_input_mirror() {
    let sim = Sim::new();
    let mut expander = cached(&sim);
    sim.fail_next();
    assert!(expander.pin_inverse_polarity(GPIOBank::Bank1, 3).is_err());
    assert!(!expander.pin_is_high(GPIOBank::Bank1, 3).unwrap());
    expander.pin_inverse_polarity(GPIOBank::Bank1, 3).unwrap();
    assert!(expander.pin_is_high(GPIOBank::Bank1, 3).unwrap());
}

#[test]
fn failed_reads_are_write_read_errors() {
    let sim = Sim::new();
    let mut expander = immediate(&sim);
    let mut byte: u8 = 0x77;
    let mut half: u16 = 0x7777;
    sim.fail_next();
    let r = expander.read_byte(Register::OutputPort0, &mut byte);
    assert!(matches!(r, Err(ExpanderError::WriteReadError(BusFault))));
    assert_eq!(byte, 0x77);
    sim.fail_next();
    let r = expander.read_halfword(Register::OutputPort0, &mut half);
    assert!(matches!(r, Err(ExpanderError::WriteReadError(BusFault))));
    assert_eq!(half, 0x7777);

    let sim = Sim::new();
    let mut expander = cached(&sim);
    sim.set_level(1, 1, true);
    sim.fail_next();
    let r = expander.read_byte(Register::InputPort1, &mut byte);
    assert!(matches!(r, Err(ExpanderError::WriteReadError(BusFault))));
    assert_eq!(byte, 0x77);
    expander.read_byte(Register::InputPort1, &mut byte).unwrap();
    assert_eq!(byte, 0x02);
}

#[test]
fn immediate_write_error() {
    let sim = Sim::new();
    let mut expander = immediate(&sim);
    sim.fail_next();
    let r = expander.write_halfword(Register::ConfigurationPort1, 0);
    assert!(matches!(r, Err(ExpanderError::WriteError(BusFault))));
    assert_eq!(sim.0.borrow().configuration, [0xFF, 0xFF]);
}

#[test]
fn destroy_returns_transport() {
    let sim = Sim::new();
    let mut expander = immediate(&sim);
    expander.write_byte(Register::OutputPort0, 0).unwrap();
    let mut bus = expander.destroy();
    bus.write(ADDR, &[0x02, 0x99]).unwrap();
    assert_eq!(sim.0.borrow().output[0], 0x99);
}

#[test]
fn input_pin_polarity() {
    let sim = Sim::new();
    let io: CachedIo = IoExpander::new(cached(&sim));
    let mut pin = ExpanderInputPin::new(&io, GPIOBank::Bank1, 2).unwrap();
    sim.set_level(1, 2, true);
    assert!(pin.is_high().unwrap());
    pin.set_polarity(Polarity::Inverse).unwrap();
    assert!(pin.is_low().unwrap());
    assert_eq!(sim.0.borrow().polarity[1], 0x04);
    pin.set_polarity(Polarity::Normal).unwrap();
    assert!(pin.is_high().unwrap());
    assert_eq!(sim.0.borrow().polarity[1], 0x00);
}

#[test]
fn output_pin_sets_level_before_direction() {
    let sim = Sim::new();
    let io: ImmediateIo = IoExpander::new(immediate(&sim));
    let _pin = ExpanderOutputPin::new(&io, GPIOBank::Bank0, 1, PinState::Low).unwrap();
    let log = sim.log();
    assert_eq!(
        log,
        vec![
            Tx::WriteRead(ADDR, vec![0x02], 1),
            Tx::Write(ADDR, vec![0x02, 0xFD]),
            Tx::WriteRead(ADDR, vec![0x06], 1),
            Tx::Write(ADDR, vec![0x06, 0xFD]),
        ]
    );
    assert!(!sim.is_high(0, 1));
}

#[test]
fn register_model() {
    for register in ALL_REGISTERS {
        let neighbor = register.get_neighbor();
        assert_eq!(neighbor.get_neighbor(), register);
        assert_ne!(neighbor, register);
        assert_eq!(neighbor.address() ^ 1, register.address());
        assert_eq!(neighbor.is_input(), register.is_input());
    }
    let addresses: Vec<u8> = ALL_REGISTERS.iter().map(|r| r.address()).collect();
    assert_eq!(addresses, vec![0, 1, 2, 3, 4, 5, 6, 7]);
    assert!(Register::InputPort1.is_input());
    assert!(!Register::OutputPort0.is_input());
    assert!(Register::PolarityInversionPort0.is_polarity_inversion());
    assert!(!Register::ConfigurationPort1.is_polarity_inversion());
}

#[test]
fn cached_construction_stops_at_failed_seeding_read() {
    let sim = Sim::new();
    sim.0.borrow_mut().fail_at = Some(3);
    let r = Pca9535Cached::new(sim.clone(), ADDR, sim.clone(), false);
    assert!(matches!(r, Err(ExpanderError::WriteReadError(BusFault))));
    assert_eq!(
        sim.log(),
        vec![
            Tx::WriteRead(ADDR, vec![0x06], 2),
            Tx::WriteRead(ADDR, vec![0x00], 2),
            Tx::WriteRead(ADDR, vec![0x02], 2),
        ]
    );
}

#[test]
fn shared_read_returns_driver_result() {
    let sim = Sim::new();
    let io: ImmediateIo = IoExpander::new(immediate(&sim));
    io.write_byte(Register::OutputPort1, 0x3C).unwrap();
    let mut byte: u8 = 0;
    io.read_byte(Register::OutputPort1, &mut byte).unwrap();
    assert_eq!(byte, 0x3C);
    let mut half: u16 = 0;
    io.write_halfword(Register::ConfigurationPort1, 0x1234).unwrap();
    io.read_halfword(Register::ConfigurationPort1, &mut half).unwrap();
    assert_eq!(half, 0x1234);
    sim.fail_next();
    let r = io.read_byte(Register::OutputPort1, &mut byte);
    assert!(matches!(r, Err(ExpanderError::WriteReadError(BusFault))));
    assert_eq!(byte, 0x3C);
}
