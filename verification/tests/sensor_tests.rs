use scd30pi::codec::calculate_crc8;
use scd30pi::error::{Error, TransportError};
use scd30pi::sensor::SCD30;
use scd30pi::transport::Transport;
use std::cell::RefCell;
use std::rc::Rc;

/// Shared stub state, kept outside the session so the test can advance the
/// clock and count bus transactions while the session owns the transport.
struct StubState {
    reads: Vec<Vec<u8>>,
    next_read: usize,
    reads_done: usize,
    writes: Vec<Vec<u8>>,
    now: u64,
    fail_writes: bool,
}

struct StubTransport {
    state: Rc<RefCell<StubState>>,
}

impl Transport for StubTransport {
    fn set_slave_address(&mut self, _address: u16) -> Result<(), TransportError> {
        Ok(())
    }

    fn write(&mut self, data: &[u8]) -> Result<(), TransportError> {
        let mut st = self.state.borrow_mut();
        if st.fail_writes {
            return Err(TransportError);
        }
        st.writes.push(data.to_vec());
        Ok(())
    }

    fn read(&mut self, _count: usize) -> Result<Vec<u8>, TransportError> {
        let mut st = self.state.borrow_mut();
        st.reads_done += 1;
        if st.next_read < st.reads.len() {
            let buf = st.reads[st.next_read].clone();
            st.next_read += 1;
            Ok(buf)
        } else {
            Err(TransportError)
        }
    }

    fn bus_speed(&mut self) -> Result<u32, TransportError> {
        Ok(100_000)
    }

    fn sleep_ms(&mut self, _ms: u64) {}

    fn now_secs(&mut self) -> u64 {
        self.state.borrow().now
    }
}

fn new_state() -> Rc<RefCell<StubState>> {
    Rc::new(RefCell::new(StubState {
        reads: Vec::new(),
        next_read: 0,
        reads_done: 0,
        writes: Vec::new(),
        now: 1000,
        fail_writes: false,
    }))
}

fn stub(state: &Rc<RefCell<StubState>>) -> StubTransport {
    StubTransport { state: Rc::clone(state) }
}

/// A CRC-protected word response: two big-endian data bytes plus their
/// checksum.
fn word_response(word: u16) -> Vec<u8> {
    let hi = (word >> 8) as u8;
    let lo = (word & 0xff) as u8;
    vec![hi, lo, calculate_crc8(&[hi, lo])]
}

/// A 6-byte measurement group for one float value: two CRC-checked halves.
fn encode_group(value: f32) -> Vec<u8> {
    let b = value.to_bits().to_be_bytes();
    vec![
        b[0],
        b[1],
        calculate_crc8(&[b[0], b[1]]),
        b[2],
        b[3],
        calculate_crc8(&[b[2], b[3]]),
    ]
}

/// The 18-byte measurement block: CO2, temperature, humidity in order.
fn encode_block(co2: f32, temperature: f32, humidity: f32) -> Vec<u8> {
    let mut block = encode_group(co2);
    block.extend_from_slice(&encode_group(temperature));
    block.extend_from_slice(&encode_group(humidity));
    block
}

#[test]
fn construction_seeds_interval_from_device() {
    let state = new_state();
    state.borrow_mut().reads.push(word_response(7));
    let sensor = SCD30::new(stub(&state)).unwrap();
    drop(sensor);
    // One transaction: the seed read of the interval register.
    assert_eq!(state.borrow().reads_done, 1);
    // The seed read addressed the measurement-interval register 0x4600.
    assert_eq!(state.borrow().writes[0], vec![0x46, 0x00]);
}

#[test]
fn construction_fails_when_seed_read_fails() {
    let state = new_state();
    // No scripted reads: the bus read itself fails, a transport failure.
    let result = SCD30::new(stub(&state));
    assert!(matches!(result, Err(Error::Transport(_))));
}

#[test]
fn failed_bus_read_surfaces_as_transport_error() {
    let state = new_state();
    state.borrow_mut().reads.push(word_response(2));
    let mut sensor = SCD30::new(stub(&state)).unwrap();
    // No scripted read left: the read call fails on the bus, which is
    // distinct from a wrong byte count or a checksum failure.
    let result = sensor.read_measure_interval();
    assert!(matches!(result, Err(Error::Transport(_))));
}

#[test]
fn transport_write_failure_surfaces_as_transport_error() {
    let state = new_state();
    state.borrow_mut().reads.push(word_response(2));
    let mut sensor = SCD30::new(stub(&state)).unwrap();
    state.borrow_mut().fail_writes = true;
    let result = sensor.start();
    assert!(matches!(result, Err(Error::Transport(_))));
}

#[test]
fn short_word_read_is_no_data() {
    let state = new_state();
    state.borrow_mut().reads.push(word_response(2));
    let mut sensor = SCD30::new(stub(&state)).unwrap();
    state.borrow_mut().reads.push(vec![0x00, 0x02]);
    let result = sensor.read_measure_interval();
    assert!(matches!(result, Err(Error::NoData(_))));
}

#[test]
fn corrupted_word_read_is_crc_error() {
    let state = new_state();
    state.borrow_mut().reads.push(word_response(2));
    let mut sensor = SCD30::new(stub(&state)).unwrap();
    let mut bad = word_response(2);
    bad[2] ^= 0x01;
    state.borrow_mut().reads.push(bad);
    let result = sensor.read_measure_interval();
    assert!(matches!(result, Err(Error::CrcError(_))));
}

#[test]
fn start_writes_expected_frame() {
    let state = new_state();
    state.borrow_mut().reads.push(word_response(2));
    let mut sensor = SCD30::new(stub(&state)).unwrap();
    sensor.start().unwrap();
    let crc = calculate_crc8(&[0x00, 0x00]);
    let last = state.borrow().writes.last().unwrap().clone();
    assert_eq!(last, vec![0x00, 0x10, 0x00, 0x00, crc]);
}

#[test]
fn set_measure_interval_writes_known_frame() {
    let state = new_state();
    state.borrow_mut().reads.push(word_response(2));
    let mut sensor = SCD30::new(stub(&state)).unwrap();
    sensor.set_measure_interval(2).unwrap();
    let last = state.borrow().writes.last().unwrap().clone();
    assert_eq!(last, vec![0x46, 0x00, 0x00, 0x02, 0xE3]);
}

#[test]
fn data_available_true_only_for_word_one() {
    let state = new_state();
    state.borrow_mut().reads.push(word_response(2));
    let mut sensor = SCD30::new(stub(&state)).unwrap();
    state.borrow_mut().reads.push(word_response(1));
    assert_eq!(sensor.data_available().unwrap(), true);
    state.borrow_mut().reads.push(word_response(0));
    assert_eq!(sensor.data_available().unwrap(), false);
    // An unexpected but CRC-valid word reads as "not ready", not an error.
    state.borrow_mut().reads.push(word_response(2));
    assert_eq!(sensor.data_available().unwrap(), false);
}

#[test]
fn read_firmware_version_formats_major_minor() {
    let state = new_state();
    state.borrow_mut().reads.push(word_response(2));
    let mut sensor = SCD30::new(stub(&state)).unwrap();
    state.borrow_mut().reads.push(word_response(0x0342));
    assert_eq!(sensor.read_firmware_version().unwrap(), "3.66");
}

#[test]
fn get_bus_speed_passes_through() {
    let state = new_state();
    state.borrow_mut().reads.push(word_response(2));
    let mut sensor = SCD30::new(stub(&state)).unwrap();
    assert_eq!(sensor.get_bus_speed().unwrap(), 100_000);
}

#[test]
fn read_measure_wrong_block_length_is_no_data() {
    let state = new_state();
    state.borrow_mut().reads.push(word_response(2));
    let mut sensor = SCD30::new(stub(&state)).unwrap();
    state.borrow_mut().reads.push(word_response(1));
    let mut short_block = encode_block(412.5, 23.7, 41.0);
    short_block.pop();
    state.borrow_mut().reads.push(short_block);
    let result = sensor.read_measure();
    assert!(matches!(result, Err(Error::NoData(_))));
}

#[test]
fn read_measure_corrupted_block_is_crc_error_and_keeps_cache() {
    let state = new_state();
    state.borrow_mut().reads.push(word_response(2));
    let mut sensor = SCD30::new(stub(&state)).unwrap();
    state.borrow_mut().reads.push(word_response(1));
    let mut block = encode_block(412.5, 23.7, 41.0);
    block[7] ^= 0xff;
    state.borrow_mut().reads.push(block);
    let result = sensor.read_measure();
    assert!(matches!(result, Err(Error::CrcError(_))));
    // The cache still holds the not-a-number sentinel: no partial update.
    state.borrow_mut().reads.push(word_response(0));
    let co2 = sensor.co2().unwrap();
    assert!(f32::from_bits(co2).is_nan());
}

#[test]
fn read_measure_not_ready_is_noop() {
    let state = new_state();
    state.borrow_mut().reads.push(word_response(2));
    let mut sensor = SCD30::new(stub(&state)).unwrap();
    state.borrow_mut().reads.push(word_response(0));
    assert_eq!(sensor.read_measure().unwrap(), 0);
}

#[test]
fn staleness_policy_gates_bus_transactions() {
    let state = new_state();
    state.borrow_mut().reads.push(word_response(2));
    let mut sensor = SCD30::new(stub(&state)).unwrap();

    state.borrow_mut().reads.push(word_response(1));
    state.borrow_mut().reads.push(encode_block(412.5, 23.7, 41.0));
    assert_eq!(sensor.read_measure().unwrap(), 18);
    let after_first = state.borrow().reads_done;

    // Within the 2 s interval: the accessor must not touch the bus.
    state.borrow_mut().now = 1002;
    let _ = sensor.temperature().unwrap();
    assert_eq!(state.borrow().reads_done, after_first);

    // Strictly more than the interval elapsed: a new transaction starts.
    state.borrow_mut().now = 1003;
    state.borrow_mut().reads.push(word_response(0));
    let _ = sensor.temperature().unwrap();
    assert_eq!(state.borrow().reads_done, after_first + 1);
}

#[test]
fn end_to_end_measurement_scenario() {
    let state = new_state();
    state.borrow_mut().reads.push(word_response(2));
    let mut sensor = SCD30::new(stub(&state)).unwrap();

    state.borrow_mut().reads.push(word_response(1));
    state.borrow_mut().reads.push(encode_block(412.5, 23.7, 41.0));
    assert_eq!(sensor.read_measure().unwrap(), 18);
    let after_read = state.borrow().reads_done;

    let co2 = f32::from_bits(sensor.co2().unwrap());
    let temperature = f32::from_bits(sensor.temperature().unwrap());
    let humidity = f32::from_bits(sensor.humidity().unwrap());
    assert_eq!(co2, 412.5);
    assert_eq!(temperature, 23.7);
    assert_eq!(humidity, 41.0);

    // All three accessors were served from the cache: no second read.
    assert_eq!(state.borrow().reads_done, after_read);
}
