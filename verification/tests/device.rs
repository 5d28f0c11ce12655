//! Tests of the device lifecycle: initialization protocol, update
//! operations, error taxonomy and wire traffic.

use std::cell::RefCell;
use std::rc::Rc;

use bmp180::{Address, BMP180Error, Bus, Calibration, Delay, Mode, UninitBMP180};

const DATASHEET_BLOCK: [u8; 22] = [
    0x01, 0x98, 0xFF, 0xB8, 0xC7, 0xD1, 0x7F, 0xE5, 0x7F, 0xF5, 0x5A, 0x71, 0x18, 0x2E, 0x00,
    0x04, 0x80, 0x00, 0xDD, 0xF9, 0x0B, 0x34,
];

/// What a scripted bus saw and will answer.
#[derive(Default)]
struct BusState {
    id_byte: u8,
    calibration: [u8; 22],
    temperature_bytes: [u8; 2],
    pressure_bytes: [u8; 3],
    /// Every `write` transaction: (address, register, value).
    writes: Vec<(u8, u8, u8)>,
    /// Every `write_read` transaction: (address, register, length).
    reads: Vec<(u8, u8, usize)>,
    /// Fail the nth transaction (counting both kinds from 0) with this code.
    fail_at: Option<(usize, u8)>,
    transactions: usize,
}

/// A scripted bus; the test keeps a handle on the shared state.
#[derive(Clone)]
struct ScriptBus {
    state: Rc<RefCell<BusState>>,
}

impl ScriptBus {
    fn new(state: BusState) -> (Self, Rc<RefCell<BusState>>) {
        let shared = Rc::new(RefCell::new(state));
        (ScriptBus { state: shared.clone() }, shared)
    }
}

impl Bus for ScriptBus {
    type BusError = u8;

    fn write(&mut self, addr: u8, reg: u8, value: u8) -> Result<(), u8> {
        let mut s = self.state.borrow_mut();
        let n = s.transactions;
        s.transactions += 1;
        if let Some((at, code)) = s.fail_at {
            if at == n {
                return Err(code);
            }
        }
        s.writes.push((addr, reg, value));
        Ok(())
    }

    fn write_read(&mut self, addr: u8, reg: u8, len: usize) -> Result<Vec<u8>, u8> {
        let mut s = self.state.borrow_mut();
        let n = s.transactions;
        s.transactions += 1;
        if let Some((at, code)) = s.fail_at {
            if at == n {
                return Err(code);
            }
        }
        s.reads.push((addr, reg, len));
        match reg {
            0xD0 => Ok(vec![s.id_byte, 0]),
            0xAA => Ok(s.calibration.to_vec()),
            0xF6 => {
                if len == 2 {
                    Ok(s.temperature_bytes.to_vec())
                } else {
                    Ok(s.pressure_bytes.to_vec())
                }
            }
            _ => Err(0xEE),
        }
    }
}

/// A delay that records every sleep.
struct LogDelay {
    slept_ms: Rc<RefCell<Vec<u32>>>,
}

impl LogDelay {
    fn new() -> (Self, Rc<RefCell<Vec<u32>>>) {
        let log = Rc::new(RefCell::new(Vec::new()));
        (LogDelay { slept_ms: log.clone() }, log)
    }
}

impl Delay for LogDelay {
    fn delay_ms(&mut self, ms: u32) {
        self.slept_ms.borrow_mut().push(ms);
    }
}

fn happy_state() -> BusState {
    BusState {
        id_byte: 0x55,
        calibration: DATASHEET_BLOCK,
        temperature_bytes: [0x6C, 0xFA], // UT = 27898
        pressure_bytes: [0x5D, 0x23, 0x00], // UP = 23843 at oversampling 0
        ..Default::default()
    }
}

#[test]
fn initialize_reads_id_then_calibration() {
    let (bus, state) = ScriptBus::new(happy_state());
    let (delay, _) = LogDelay::new();
    let dev = UninitBMP180::new(Address::Default, Mode::UltraLowPower, bus, delay)
        .initialize()
        .unwrap();
    assert_eq!(dev.addr(), Address::Default);
    assert_eq!(dev.addr_u8(), 0x77);
    assert_eq!(dev.mode(), Mode::UltraLowPower);
    assert_eq!(dev.temperature(), 0);
    assert_eq!(dev.pressure(), 0);
    let c = dev.calibration();
    assert_eq!(c.ac1, 408);
    assert_eq!(c.ac4, 32741);
    assert_eq!(c.md, 2868);
    let s = state.borrow();
    assert_eq!(s.reads, vec![(0x77, 0xD0, 2), (0x77, 0xAA, 22)]);
    assert_eq!(s.writes, vec![]);
}

#[test]
fn invalid_id_stops_before_calibration_read() {
    let mut st = happy_state();
    st.id_byte = 0x00;
    let (bus, state) = ScriptBus::new(st);
    let (delay, _) = LogDelay::new();
    let r = UninitBMP180::new(Address::Default, Mode::Standard, bus, delay).initialize();
    assert_eq!(r.err().unwrap(), BMP180Error::InvalidId(0x00));
    let s = state.borrow();
    // Only the identity read was issued; the calibration-read transaction
    // never was.
    assert_eq!(s.reads, vec![(0x77, 0xD0, 2)]);
}

#[test]
fn invalid_id_reports_observed_byte() {
    for byte in [0x00u8, 0x54, 0x56, 0xFF] {
        let mut st = happy_state();
        st.id_byte = byte;
        let (bus, _) = ScriptBus::new(st);
        let (delay, _) = LogDelay::new();
        let r = UninitBMP180::new(Address::Default, Mode::Standard, bus, delay).initialize();
        assert_eq!(r.err().unwrap(), BMP180Error::InvalidId(byte));
    }
}

#[test]
fn initialize_forwards_transport_error() {
    let mut st = happy_state();
    st.fail_at = Some((1, 0x2A)); // the calibration read
    let (bus, _) = ScriptBus::new(st);
    let (delay, _) = LogDelay::new();
    let r = UninitBMP180::new(Address::Default, Mode::Standard, bus, delay).initialize();
    assert_eq!(r.err().unwrap(), BMP180Error::I2C(0x2A));
}

#[test]
fn update_computes_datasheet_reading() {
    let (bus, state) = ScriptBus::new(happy_state());
    let (delay, slept) = LogDelay::new();
    let mut dev = UninitBMP180::new(Address::Default, Mode::UltraLowPower, bus, delay)
        .initialize()
        .unwrap();
    dev.update().unwrap();
    assert_eq!(dev.temperature(), 150);
    assert_eq!(dev.pressure(), 69964);
    let s = state.borrow();
    // One temperature conversion command, then one pressure conversion
    // command with oversampling 0 encoded in its upper bits.
    assert_eq!(s.writes, vec![(0x77, 0xF4, 0x2E), (0x77, 0xF4, 0x34)]);
    assert_eq!(
        s.reads,
        vec![
            (0x77, 0xD0, 2),
            (0x77, 0xAA, 22),
            (0x77, 0xF6, 2),
            (0x77, 0xF6, 3)
        ]
    );
    // The fixed 5 ms temperature wait, then the mode's pressure wait.
    assert_eq!(*slept.borrow(), vec![5, 5]);
}

#[test]
fn update_temperature_alone() {
    let (bus, _) = ScriptBus::new(happy_state());
    let (delay, _) = LogDelay::new();
    let mut dev = UninitBMP180::new(Address::Default, Mode::UltraLowPower, bus, delay)
        .initialize()
        .unwrap();
    dev.update_temperature().unwrap();
    assert_eq!(dev.temperature(), 150);
    assert_eq!(dev.pressure(), 0);
}

#[test]
fn update_pressure_leaves_temperature() {
    let (bus, _) = ScriptBus::new(happy_state());
    let (delay, _) = LogDelay::new();
    let mut dev = UninitBMP180::new(Address::Default, Mode::UltraLowPower, bus, delay)
        .initialize()
        .unwrap();
    dev.update_pressure().unwrap();
    assert_eq!(dev.pressure(), 69964);
    assert_eq!(dev.temperature(), 0);
}

#[test]
fn pressure_command_encodes_oversampling() {
    let (bus, state) = ScriptBus::new(happy_state());
    let (delay, slept) = LogDelay::new();
    let mut dev = UninitBMP180::new(Address::Default, Mode::UltraHighResolution, bus, delay)
        .initialize()
        .unwrap();
    dev.update_pressure().unwrap();
    let s = state.borrow();
    assert_eq!(s.writes, vec![(0x77, 0xF4, 0x2E), (0x77, 0xF4, 0x34 + (3 << 6))]);
    assert_eq!(*slept.borrow(), vec![5, 26]);
}

#[test]
fn zero_divisor_calibration_gives_arithmetic_error() {
    let mut st = happy_state();
    st.calibration = [0u8; 22]; // AC5 = AC6 = MD = 0: X1 + MD == 0
    let (bus, _) = ScriptBus::new(st);
    let (delay, _) = LogDelay::new();
    let mut dev = UninitBMP180::new(Address::Default, Mode::Standard, bus, delay)
        .initialize()
        .unwrap();
    let r = dev.update_temperature();
    assert_eq!(r.err().unwrap(), BMP180Error::Arithmetic);
    // No partial state mutation on failure.
    assert_eq!(dev.temperature(), 0);
    assert_eq!(dev.pressure(), 0);
    let r = dev.update().err().unwrap();
    assert_eq!(r, BMP180Error::Arithmetic);
    assert_eq!(dev.temperature(), 0);
    assert_eq!(dev.pressure(), 0);
}

#[test]
fn transport_error_leaves_state_unchanged() {
    let (bus, state) = ScriptBus::new(happy_state());
    let (delay, _) = LogDelay::new();
    let mut dev = UninitBMP180::new(Address::Default, Mode::UltraLowPower, bus, delay)
        .initialize()
        .unwrap();
    dev.update().unwrap();
    assert_eq!(dev.temperature(), 150);
    // Fail the next conversion command.
    let n = state.borrow().transactions;
    state.borrow_mut().fail_at = Some((n, 0x11));
    let r = dev.update();
    assert_eq!(r.err().unwrap(), BMP180Error::I2C(0x11));
    assert_eq!(dev.temperature(), 150);
    assert_eq!(dev.pressure(), 69964);
}

#[test]
fn builder_sets_address_and_mode() {
    let (bus, _) = ScriptBus::new(happy_state());
    let (delay, _) = LogDelay::new();
    let dev = UninitBMP180::builder(bus, delay)
        .addr(Address::Other(0x76))
        .mode(Mode::HighResolution)
        .build();
    assert_eq!(dev.addr, Address::Other(0x76));
    assert_eq!(dev.addr_u8(), 0x76);
    assert_eq!(dev.mode, Mode::HighResolution);
}

#[test]
fn builder_defaults() {
    let (bus, _) = ScriptBus::new(happy_state());
    let (delay, _) = LogDelay::new();
    let dev = UninitBMP180::builder(bus, delay).build();
    assert_eq!(dev.addr, Address::Default);
    assert_eq!(dev.mode, Mode::Standard);
    assert_eq!(Address::default(), Address::Default);
    assert_eq!(Mode::default(), Mode::Standard);
}

#[test]
fn builder_address_reaches_the_wire() {
    let mut st = happy_state();
    st.fail_at = None;
    let (bus, state) = ScriptBus::new(st);
    let (delay, _) = LogDelay::new();
    let r = UninitBMP180::builder(bus, delay)
        .addr(Address::Other(0x3C))
        .build()
        .initialize();
    assert!(r.is_ok());
    assert_eq!(state.borrow().reads[0], (0x3C, 0xD0, 2));
}

#[test]
fn parts_round_trip() {
    let (bus, _) = ScriptBus::new(happy_state());
    let (delay, _) = LogDelay::new();
    let mut dev = UninitBMP180::new(Address::Default, Mode::Standard, bus, delay)
        .initialize()
        .unwrap();
    dev.update_temperature().unwrap();
    let (addr, mode, calibration, temperature, pressure, i2c, delay) = dev.into_parts();
    assert_eq!(temperature, 150);
    assert_eq!(pressure, 0);
    let dev = bmp180::BMP180::from_parts(addr, mode, calibration, temperature, pressure, i2c, delay);
    assert_eq!(dev.temperature(), 150);
    assert_eq!(dev.mode(), Mode::Standard);
    assert_eq!(dev.calibration().ac1, 408);
}

#[test]
fn uninit_parts() {
    let (bus, _) = ScriptBus::new(happy_state());
    let (delay, _) = LogDelay::new();
    let dev = UninitBMP180::new(Address::Other(0x11), Mode::HighResolution, bus, delay);
    let (addr, mode, _i2c, _delay) = dev.into_parts();
    assert_eq!(addr, Address::Other(0x11));
    assert_eq!(mode, Mode::HighResolution);
}

#[test]
fn compute_b5_on_device() {
    let (bus, _) = ScriptBus::new(happy_state());
    let (delay, _) = LogDelay::new();
    let dev = UninitBMP180::new(Address::Default, Mode::Standard, bus, delay)
        .initialize()
        .unwrap();
    assert_eq!(dev.compute_b5(27898), Some(2400));
}

#[test]
fn validate_id_accepts_only_the_constant() {
    type U = UninitBMP180<ScriptBus, LogDelay>;
    assert!(U::validate_id(0x55));
    for byte in [0x00u8, 0x54, 0x56, 0xAA, 0xFF] {
        assert!(!U::validate_id(byte));
    }
}
