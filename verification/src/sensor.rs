//! The stateful sensor session: device configuration, the cached last
//! reading with its staleness policy, and the send → settle → receive →
//! decode orchestration over an injected bus transport.

use vstd::prelude::*;
use vstd::string::StringExecFns;
use crate::codec;
use crate::error::Error;
use crate::transport::Transport;

verus! {

/// Command code: start continuous measurement, optionally with a pressure
/// compensation argument.
const CMD_START_CONTINUOUS_MEASUREMENT: u16 = 0x0010;

/// Command code: stop continuous measurement.
const CMD_STOP_CONTINUOUS_MEASUREMENT: u16 = 0x0104;

/// Command code: the measurement-interval register, used both to set and
/// to read the interval.
const CMD_SET_MEASUREMENT_INTERVAL: u16 = 0x4600;

/// Command code: query whether a new measurement is ready to read.
const CMD_GET_DATA_READY: u16 = 0x0202;

/// Command code: read the 18-byte measurement block.
const CMD_GET_MEASUREMENT: u16 = 0x0300;

/// Command code: enable or disable automatic self-calibration.
const CMD_AUTOMATIC_SELF_CALIBRATION: u16 = 0x5306;

/// Command code: set the forced recalibration factor.
const CMD_SET_FORCED_RECALIBRATION_FACTOR: u16 = 0x5204;

/// Command code: set the temperature offset.
const CMD_SET_TEMPERATURE_OFFSET: u16 = 0x5403;

/// Command code: set the altitude compensation.
const CMD_SET_ALTITUDE_COMPENSATION: u16 = 0x5102;

/// Command code: soft reset.
const CMD_RESET: u16 = 0xD304;

/// Command code: read the firmware version word.
const CMD_GET_FIRMWARE_VERSION: u16 = 0xD100;

/// The device's default bus address.
pub const DEFAULT_SLAVE_ADDRESS: u16 = 0x61;

/// Fixed wait between issuing a command and reading its response,
/// accounting for the device's internal turnaround time.
pub const SETTLE_DELAY_MS: u64 = 5;

/// IEEE-754 single-precision quiet-NaN bit pattern: the sentinel a cached
/// reading holds until the first successful measurement read.
pub const NAN_BITS: u32 = 0x7FC0_0000;

/// Session over one exclusively owned bus transport.  Holds the configured
/// measurement interval and the last successfully decoded readings as
/// IEEE-754 single-precision bit patterns.
pub struct SCD30<T: Transport> {
    /// Configured measurement interval in seconds.
    interval_in_s: u16,
    /// The bus the session drives.
    bus: T,
    /// Last read temperature, as IEEE-754 bits of a value in degrees
    /// Celsius; `NAN_BITS` until the first successful read.
    temperature: u32,
    /// Last read relative humidity, as IEEE-754 bits of a value in
    /// percent; `NAN_BITS` until the first successful read.
    humidity: u32,
    /// Last read CO2 concentration, as IEEE-754 bits of a value in ppm;
    /// `NAN_BITS` until the first successful read.
    co2: u32,
    /// Monotonic timestamp (seconds) of the last successful measurement
    /// read; `None` until the first success.
    last_read_time: Option<u64>,
}

/// Seconds elapsed from `last` to `now` on the monotonic clock; zero if
/// the clock reads earlier than the recorded timestamp.
pub open spec fn spec_elapsed(last: u64, now: u64) -> u64 {
    if now >= last {
        (now - last) as u64
    } else {
        0
    }
}

/// The staleness policy: a refresh is due exactly when no successful read
/// has ever happened, or strictly more seconds than the configured
/// interval have elapsed since the last one.
pub open spec fn spec_refresh_due(last_read_time: Option<u64>, now: u64, interval_in_s: u16) -> bool {
    match last_read_time {
        None => true,
        Some(last) => spec_elapsed(last, now) > interval_in_s,
    }
}

/// Decides whether the cached reading is stale and a new bus transaction
/// is warranted.
pub fn refresh_due(last_read_time: Option<u64>, now: u64, interval_in_s: u16) -> (due: bool)
    ensures
        due == spec_refresh_due(last_read_time, now, interval_in_s),
{
    match last_read_time {
        None => true,
        Some(last) => {
            let elapsed: u64 = if now >= last {
                now - last
            } else {
                0
            };
            elapsed > interval_in_s as u64
        },
    }
}

impl<T: Transport> SCD30<T> {
    /// The configured measurement interval in seconds.
    pub closed spec fn spec_interval(self) -> u16 {
        self.interval_in_s
    }

    /// The cached temperature reading's bit pattern.
    pub closed spec fn spec_temperature_bits(self) -> u32 {
        self.temperature
    }

    /// The cached humidity reading's bit pattern.
    pub closed spec fn spec_humidity_bits(self) -> u32 {
        self.humidity
    }

    /// The cached CO2 reading's bit pattern.
    pub closed spec fn spec_co2_bits(self) -> u32 {
        self.co2
    }

    /// The timestamp of the last successful measurement read.
    pub closed spec fn spec_last_read_time(self) -> Option<u64> {
        self.last_read_time
    }

    /// The cached readings and their timestamp agree between two session
    /// states: no measurement was gained or lost.
    pub open spec fn same_readings(self, other: Self) -> bool {
        &&& other.spec_temperature_bits() == self.spec_temperature_bits()
        &&& other.spec_humidity_bits() == self.spec_humidity_bits()
        &&& other.spec_co2_bits() == self.spec_co2_bits()
        &&& other.spec_last_read_time() == self.spec_last_read_time()
    }

    /// The cached readings are exactly the three decoded float groups of
    /// the 18-byte measurement block `block`, each of whose CRC-checked
    /// halves passed verification: CO2, temperature, humidity in order.
    pub open spec fn cache_from_valid_block(self, block: Seq<u8>) -> bool {
        &&& block.len() == 18
        &&& codec::measure_group_valid(block.subrange(0, 6))
        &&& codec::measure_group_valid(block.subrange(6, 12))
        &&& codec::measure_group_valid(block.subrange(12, 18))
        &&& self.spec_co2_bits() == codec::measure_group_bits(block.subrange(0, 6))
        &&& self.spec_temperature_bits() == codec::measure_group_bits(block.subrange(6, 12))
        &&& self.spec_humidity_bits() == codec::measure_group_bits(block.subrange(12, 18))
    }

    /// Creates a session on the device's default bus address.
    pub fn new(bus: T) -> (result: Result<SCD30<T>, Error>)
        ensures
            result matches Ok(sensor) ==> {
                &&& sensor.spec_temperature_bits() == NAN_BITS
                &&& sensor.spec_humidity_bits() == NAN_BITS
                &&& sensor.spec_co2_bits() == NAN_BITS
                &&& sensor.spec_last_read_time() is None
            },
            result matches Err(e) ==> (e is Transport || e is NoData || e is CrcError),
    {
        SCD30::from_slave_address(bus, DEFAULT_SLAVE_ADDRESS)
    }

    /// Creates a session on an arbitrary bus address: scopes the transport
    /// to that device, seeds the cached interval by reading the device's
    /// measurement-interval register, and starts with no cached reading.
    /// Fails if the address cannot be set or the seed read fails.
    pub fn from_slave_address(bus: T, slave_address: u16) -> (result: Result<SCD30<T>, Error>)
        ensures
            result matches Ok(sensor) ==> {
                &&& sensor.spec_temperature_bits() == NAN_BITS
                &&& sensor.spec_humidity_bits() == NAN_BITS
                &&& sensor.spec_co2_bits() == NAN_BITS
                &&& sensor.spec_last_read_time() is None
            },
            result matches Err(e) ==> (e is Transport || e is NoData || e is CrcError),
    {
        let mut an_i2c = bus;
        match an_i2c.set_slave_address(slave_address) {
            Err(e) => Err(Error::Transport(e)),
            Ok(_) => {
                let mut sensor = SCD30 {
                    bus: an_i2c,
                    interval_in_s: 2,
                    temperature: NAN_BITS,
                    humidity: NAN_BITS,
                    co2: NAN_BITS,
                    last_read_time: None,
                };
                match sensor.read_measure_interval() {
                    Err(e) => Err(e),
                    Ok(_) => Ok(sensor),
                }
            },
        }
    }

    /// The bus clock speed in hertz, passed through from the transport.
    pub fn get_bus_speed(&mut self) -> (result: Result<u32, Error>)
        ensures
            old(self).same_readings(*final(self)),
            final(self).spec_interval() == old(self).spec_interval(),
            result matches Err(e) ==> e is Transport,
    {
        match self.bus.bus_speed() {
            Ok(s) => Ok(s),
            Err(e) => Err(Error::Transport(e)),
        }
    }

    /// Sets the measurement interval in seconds; the cached interval is
    /// updated on success.  The device default is 2 s.
    pub fn set_measure_interval(&mut self, interval_seconds: u16) -> (result: Result<(), Error>)
        ensures
            old(self).same_readings(*final(self)),
            result matches Ok(_) ==> final(self).spec_interval() == interval_seconds,
            result matches Err(e) ==> e is Transport && final(self).spec_interval() == old(self).spec_interval(),
    {
        match self.send_cmd_with_args(CMD_SET_MEASUREMENT_INTERVAL, interval_seconds) {
            Err(e) => Err(e),
            Ok(_) => {
                self.interval_in_s = interval_seconds;
                Ok(())
            },
        }
    }

    /// Reads the firmware version word and formats it as
    /// `"{major}.{minor}"` from its high and low bytes.
    pub fn read_firmware_version(&mut self) -> (result: Result<String, Error>)
        ensures
            old(self).same_readings(*final(self)),
            final(self).spec_interval() == old(self).spec_interval(),
            result matches Ok(version) ==> exists|word: u16|
                version@ == #[trigger] version_chars(word),
            result matches Err(e) ==> (e is Transport || e is NoData || e is CrcError),
    {
        let res = match self.read_u16_with_crc(CMD_GET_FIRMWARE_VERSION) {
            Err(e) => return Err(e),
            Ok(word) => word,
        };
        let version = format_firmware_version(res);
        Ok(version)
    }

    /// Reads the currently configured measurement interval in seconds from
    /// the device and updates the cached interval with it.
    pub fn read_measure_interval(&mut self) -> (result: Result<u16, Error>)
        ensures
            old(self).same_readings(*final(self)),
            result matches Ok(interval) ==> final(self).spec_interval() == interval,
            result matches Err(e) ==> (e is Transport || e is NoData || e is CrcError)
                && final(self).spec_interval() == old(self).spec_interval(),
    {
        let res = match self.read_u16_with_crc(CMD_SET_MEASUREMENT_INTERVAL) {
            Err(e) => return Err(e),
            Ok(word) => word,
        };
        self.interval_in_s = res;
        Ok(res)
    }

    /// The staleness-gated refresh.  When no successful read exists, or
    /// strictly more seconds than the configured interval have elapsed
    /// since the last one, and the device reports data ready, the 18-byte
    /// measurement block is read, its three float groups are CRC-checked
    /// and decoded in the order CO2, temperature, humidity, and the cache
    /// is updated with a fresh timestamp — 18 is returned.  When the
    /// refresh is not due, or due but the device is not ready, the call is
    /// a no-op returning 0; the two cases are indistinguishable here by
    /// design.  The cache is updated only when all three groups decode.
    pub fn read_measure(&mut self) -> (result: Result<u16, Error>)
        ensures
            final(self).spec_interval() == old(self).spec_interval(),
            result matches Ok(count) ==> ((count == 0 || count == 18)
                && (count == 0 ==> old(self).same_readings(*final(self)))
                && (count == 18 ==> final(self).spec_last_read_time() is Some
                    && exists|block: Seq<u8>| final(self).cache_from_valid_block(block))),
            result matches Err(e) ==> (e is Transport || e is NoData || e is CrcError)
                && old(self).same_readings(*final(self)),
    {
        let now = self.bus.now_secs();
        if refresh_due(self.last_read_time, now, self.interval_in_s) {
            let ready = match self.data_available() {
                Err(e) => return Err(e),
                Ok(b) => b,
            };
            if ready {
                let buf = match self.read_data(CMD_GET_MEASUREMENT, 18) {
                    Err(e) => return Err(e),
                    Ok(b) => b,
                };
                let (co2, temperature, humidity) = match codec::decode_measure_block(
                    buf.as_slice(),
                ) {
                    Err(e) => return Err(e),
                    Ok(values) => values,
                };
                self.co2 = co2;
                self.temperature = temperature;
                self.humidity = humidity;
                self.last_read_time = Some(self.bus.now_secs());
                proof {
                    assert(self.cache_from_valid_block(buf@));
                }
                return Ok(18);
            }
        }
        Ok(0)
    }

    /// The temperature in degrees Celsius as IEEE-754 single-precision
    /// bits, refreshed first under the staleness policy.  `NAN_BITS` if no
    /// read has ever succeeded and none was due.
    pub fn temperature(&mut self) -> (result: Result<u32, Error>)
        ensures
            final(self).spec_interval() == old(self).spec_interval(),
            result matches Ok(bits) ==> bits == final(self).spec_temperature_bits(),
            result matches Err(e) ==> (e is Transport || e is NoData || e is CrcError)
                && old(self).same_readings(*final(self)),
    {
        match self.read_measure() {
            Err(e) => return Err(e),
            Ok(_) => {},
        }
        Ok(self.temperature)
    }

    /// The relative humidity in percent as IEEE-754 single-precision bits,
    /// refreshed first under the staleness policy.  `NAN_BITS` if no read
    /// has ever succeeded and none was due.
    pub fn humidity(&mut self) -> (result: Result<u32, Error>)
        ensures
            final(self).spec_interval() == old(self).spec_interval(),
            result matches Ok(bits) ==> bits == final(self).spec_humidity_bits(),
            result matches Err(e) ==> (e is Transport || e is NoData || e is CrcError)
                && old(self).same_readings(*final(self)),
    {
        match self.read_measure() {
            Err(e) => return Err(e),
            Ok(_) => {},
        }
        Ok(self.humidity)
    }

    /// The CO2 concentration in ppm as IEEE-754 single-precision bits,
    /// refreshed first under the staleness policy.  `NAN_BITS` if no read
    /// has ever succeeded and none was due.
    pub fn co2(&mut self) -> (result: Result<u32, Error>)
        ensures
            final(self).spec_interval() == old(self).spec_interval(),
            result matches Ok(bits) ==> bits == final(self).spec_co2_bits(),
            result matches Err(e) ==> (e is Transport || e is NoData || e is CrcError)
                && old(self).same_readings(*final(self)),
    {
        match self.read_measure() {
            Err(e) => return Err(e),
            Ok(_) => {},
        }
        Ok(self.co2)
    }

    /// Enables the device's automatic self-calibration.
    pub fn enable_self_calibration(&mut self) -> (result: Result<(), Error>)
        ensures
            old(self).same_readings(*final(self)),
            final(self).spec_interval() == old(self).spec_interval(),
            result matches Err(e) ==> e is Transport,
    {
        match self.send_cmd_with_args(CMD_AUTOMATIC_SELF_CALIBRATION, 1) {
            Err(e) => Err(e),
            Ok(_) => Ok(()),
        }
    }

    /// Disables the device's automatic self-calibration.
    pub fn disable_self_calibration(&mut self) -> (result: Result<(), Error>)
        ensures
            old(self).same_readings(*final(self)),
            final(self).spec_interval() == old(self).spec_interval(),
            result matches Err(e) ==> e is Transport,
    {
        match self.send_cmd_with_args(CMD_AUTOMATIC_SELF_CALIBRATION, 0) {
            Err(e) => Err(e),
            Ok(_) => Ok(()),
        }
    }

    /// Sets the altitude compensation in meters above sea level.
    pub fn set_altitude_compensation(&mut self, altitude_mum: u16) -> (result: Result<(), Error>)
        ensures
            old(self).same_readings(*final(self)),
            final(self).spec_interval() == old(self).spec_interval(),
            result matches Err(e) ==> e is Transport,
    {
        match self.send_cmd_with_args(CMD_SET_ALTITUDE_COMPENSATION, altitude_mum) {
            Err(e) => Err(e),
            Ok(_) => Ok(()),
        }
    }

    /// Forces a recalibration against the given reference CO2
    /// concentration in ppm.
    pub fn set_forced_recalibration(&mut self, real_co2_ppm: u16) -> (result: Result<(), Error>)
        ensures
            old(self).same_readings(*final(self)),
            final(self).spec_interval() == old(self).spec_interval(),
            result matches Err(e) ==> e is Transport,
    {
        match self.send_cmd_with_args(CMD_SET_FORCED_RECALIBRATION_FACTOR, real_co2_ppm) {
            Err(e) => Err(e),
            Ok(_) => Ok(()),
        }
    }

    /// Sets a temperature offset compensating heat from a nearby device,
    /// given in integer hundredths of a degree Celsius (2.5 °C → 250).
    pub fn set_temperature_offset(&mut self, ticks: u16) -> (result: Result<(), Error>)
        ensures
            old(self).same_readings(*final(self)),
            final(self).spec_interval() == old(self).spec_interval(),
            result matches Err(e) ==> e is Transport,
    {
        match self.send_cmd_with_args(CMD_SET_TEMPERATURE_OFFSET, ticks) {
            Err(e) => Err(e),
            Ok(_) => Ok(()),
        }
    }

    /// Starts continuous measurement with a pressure compensation argument
    /// in millibar; 0 means no compensation.
    pub fn start_with_alt_comp(&mut self, pressure_mbar: u16) -> (result: Result<(), Error>)
        ensures
            old(self).same_readings(*final(self)),
            final(self).spec_interval() == old(self).spec_interval(),
            result matches Err(e) ==> e is Transport,
    {
        match self.send_cmd_with_args(CMD_START_CONTINUOUS_MEASUREMENT, pressure_mbar) {
            Err(e) => Err(e),
            Ok(_) => Ok(()),
        }
    }

    /// Starts continuous measurement without pressure compensation.
    pub fn start(&mut self) -> (result: Result<(), Error>)
        ensures
            old(self).same_readings(*final(self)),
            final(self).spec_interval() == old(self).spec_interval(),
            result matches Err(e) ==> e is Transport,
    {
        match self.send_cmd_with_args(CMD_START_CONTINUOUS_MEASUREMENT, 0) {
            Err(e) => Err(e),
            Ok(_) => Ok(()),
        }
    }

    /// Stops continuous measurement.
    pub fn stop(&mut self) -> (result: Result<(), Error>)
        ensures
            old(self).same_readings(*final(self)),
            final(self).spec_interval() == old(self).spec_interval(),
            result matches Err(e) ==> e is Transport,
    {
        match self.send_cmd(CMD_STOP_CONTINUOUS_MEASUREMENT) {
            Err(e) => Err(e),
            Ok(_) => Ok(()),
        }
    }

    /// Soft-resets the device.
    pub fn soft_reset(&mut self) -> (result: Result<(), Error>)
        ensures
            old(self).same_readings(*final(self)),
            final(self).spec_interval() == old(self).spec_interval(),
            result matches Err(e) ==> e is Transport,
    {
        match self.send_cmd(CMD_RESET) {
            Err(e) => Err(e),
            Ok(_) => Ok(()),
        }
    }

    /// Whether a new measurement is ready: true exactly when the
    /// CRC-checked data-ready word equals 1, as `ready_of_word`'s
    /// contract fixes.  Any other word value — including unexpected ones
    /// — reads as "not ready" rather than an error; this leniency is
    /// deliberate.
    pub fn data_available(&mut self) -> (result: Result<bool, Error>)
        ensures
            old(self).same_readings(*final(self)),
            final(self).spec_interval() == old(self).spec_interval(),
            result matches Err(e) ==> (e is Transport || e is NoData || e is CrcError),
    {
        let res = match self.read_u16_with_crc(CMD_GET_DATA_READY) {
            Err(e) => return Err(e),
            Ok(word) => word,
        };
        Ok(ready_of_word(res))
    }

    /// Writes a command-only frame to the device.
    fn send_cmd(&mut self, command: u16) -> (result: Result<(), Error>)
        ensures
            old(self).same_readings(*final(self)),
            final(self).spec_interval() == old(self).spec_interval(),
            result matches Err(e) ==> e is Transport,
    {
        let buf = codec::prepare_cmd(command);
        match self.bus.write(buf.as_slice()) {
            Err(e) => Err(Error::Transport(e)),
            Ok(_) => Ok(()),
        }
    }

    /// Writes a command frame carrying a CRC-protected word argument.
    fn send_cmd_with_args(&mut self, command: u16, arguments: u16) -> (result: Result<(), Error>)
        ensures
            old(self).same_readings(*final(self)),
            final(self).spec_interval() == old(self).spec_interval(),
            result matches Err(e) ==> e is Transport,
    {
        let buf = codec::prepare_cmd_with_args(command, arguments);
        match self.bus.write(buf.as_slice()) {
            Err(e) => Err(Error::Transport(e)),
            Ok(_) => Ok(()),
        }
    }

    /// Reads a bare word from the addressed register, without CRC
    /// protection.  A failed bus read surfaces as the transport kind; the
    /// word assembly and the wrong-byte-count case are carried by the
    /// word decoder's contract.
    #[allow(dead_code)]
    fn read_u16(&mut self, command: u16) -> (result: Result<u16, Error>)
        ensures
            old(self).same_readings(*final(self)),
            final(self).spec_interval() == old(self).spec_interval(),
            result matches Err(e) ==> (e is Transport || e is NoData),
    {
        match self.send_cmd(command) {
            Err(e) => return Err(e),
            Ok(_) => {},
        }
        self.bus.sleep_ms(SETTLE_DELAY_MS);
        let rcv_buf = match self.bus.read(2) {
            Err(e) => return Err(Error::Transport(e)),
            Ok(buf) => buf,
        };
        codec::decode_word(rcv_buf.as_slice())
    }

    /// Reads a CRC-protected word from the addressed register: command,
    /// settle delay, 3-byte response, checksum verification.  A failed
    /// bus read surfaces as the transport kind; the wrong-byte-count,
    /// checksum and word-assembly cases are carried by the word decoder's
    /// contract.
    fn read_u16_with_crc(&mut self, command: u16) -> (result: Result<u16, Error>)
        ensures
            old(self).same_readings(*final(self)),
            final(self).spec_interval() == old(self).spec_interval(),
            result matches Err(e) ==> (e is Transport || e is NoData || e is CrcError),
    {
        match self.send_cmd(command) {
            Err(e) => return Err(e),
            Ok(_) => {},
        }
        self.bus.sleep_ms(SETTLE_DELAY_MS);
        let rcv_buf = match self.bus.read(3) {
            Err(e) => return Err(Error::Transport(e)),
            Ok(buf) => buf,
        };
        codec::decode_word_with_crc(rcv_buf.as_slice())
    }

    /// Reads a raw response of up to `count` bytes from the addressed
    /// register: command, settle delay, then the transport's bytes as
    /// received — the caller checks the count.  A failed bus read
    /// surfaces as the transport kind.
    fn read_data(&mut self, command: u16, count: usize) -> (result: Result<Vec<u8>, Error>)
        ensures
            old(self).same_readings(*final(self)),
            final(self).spec_interval() == old(self).spec_interval(),
            result matches Err(e) ==> e is Transport,
    {
        match self.send_cmd(command) {
            Err(e) => return Err(e),
            Ok(_) => {},
        }
        self.bus.sleep_ms(SETTLE_DELAY_MS);
        match self.bus.read(count) {
            Err(e) => Err(Error::Transport(e)),
            Ok(buf) => Ok(buf),
        }
    }
}

/// The data-ready decision on a decoded status word: ready exactly when
/// the word equals 1.  Every other CRC-valid value — 0 as much as a
/// malformed nonzero word — reads as not ready, never as an error.
pub fn ready_of_word(word: u16) -> (ready: bool)
    ensures
        ready == (word == 1),
{
    match word {
        1 => true,
        _ => false,
    }
}

/// The decimal digit character for `d`.
pub open spec fn dec_digit(d: int) -> char {
    if d == 0 {
        '0'
    } else if d == 1 {
        '1'
    } else if d == 2 {
        '2'
    } else if d == 3 {
        '3'
    } else if d == 4 {
        '4'
    } else if d == 5 {
        '5'
    } else if d == 6 {
        '6'
    } else if d == 7 {
        '7'
    } else if d == 8 {
        '8'
    } else {
        '9'
    }
}

/// The decimal rendering of a byte value, without leading zeros.
pub open spec fn dec_chars(v: int) -> Seq<char> {
    if v < 10 {
        seq![dec_digit(v)]
    } else if v < 100 {
        seq![dec_digit(v / 10), dec_digit(v % 10)]
    } else {
        seq![dec_digit(v / 100), dec_digit((v / 10) % 10), dec_digit(v % 10)]
    }
}

/// The `"{major}.{minor}"` rendering of a firmware version word: the high
/// byte is the major component, the low byte the minor.
pub open spec fn version_chars(word: u16) -> Seq<char> {
    dec_chars((word >> 8) as int) + seq!['.'] + dec_chars((word & 0xff) as int)
}

/// One decimal digit as a string slice.
fn digit_str(d: u8) -> (s: &'static str)
    requires
        d < 10,
    ensures
        s@ == seq![dec_digit(d as int)],
{
    proof {
        reveal_strlit("0");
        reveal_strlit("1");
        reveal_strlit("2");
        reveal_strlit("3");
        reveal_strlit("4");
        reveal_strlit("5");
        reveal_strlit("6");
        reveal_strlit("7");
        reveal_strlit("8");
        reveal_strlit("9");
    }
    match d {
        0 => "0",
        1 => "1",
        2 => "2",
        3 => "3",
        4 => "4",
        5 => "5",
        6 => "6",
        7 => "7",
        8 => "8",
        _ => "9",
    }
}

/// Renders a byte value in decimal.
fn decimal_str(v: u8) -> (s: String)
    ensures
        s@ == dec_chars(v as int),
{
    let mut s = String::new();
    if v >= 100 {
        s.append(digit_str(v / 100));
    }
    if v >= 10 {
        s.append(digit_str((v / 10) % 10));
    }
    s.append(digit_str(v % 10));
    proof {
        assert(s@ =~= dec_chars(v as int));
    }
    s
}

/// Formats a firmware version word as `"{major}.{minor}"`.
pub fn format_firmware_version(word: u16) -> (version: String)
    ensures
        version@ == version_chars(word),
{
    proof {
        assert((word >> 8) < 256 && (word & 0xff) < 256) by (bit_vector);
        reveal_strlit(".");
    }
    let major = (word >> 8) as u8;
    let minor = (word & 0xff) as u8;
    let mut s = decimal_str(major);
    s.append(".");
    let minor_str = decimal_str(minor);
    s.append(minor_str.as_str());
    proof {
        assert(s@ =~= version_chars(word));
    }
    s
}

} // verus!
