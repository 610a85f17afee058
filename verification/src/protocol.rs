//! Command frames sent to the meter over the serial line, and the decoding of
//! its replies.
use vstd::prelude::*;

verus! {

/// First byte of a request that writes one EEPROM byte.
pub const CMD_EEPROM_WRITE: u8 = 0x03;

/// First byte of the meter's reply to an EEPROM read or write.
pub const REPLY_EEPROM: u8 = 0x04;

/// First byte of a request that reads one EEPROM byte.
pub const CMD_EEPROM_READ: u8 = 0x05;

/// First byte of a reply that carries one counter measurement.
pub const REPLY_FREQUENCY: u8 = 0x06;

/// First byte of a request for a series of counter measurements.
pub const CMD_FREQUENCY_SERIES: u8 = 0x07;

/// First byte of a request for the temperature.
pub const CMD_TEMPERATURE: u8 = 0x09;

/// First byte of the reply that carries the temperature.
pub const REPLY_TEMPERATURE: u8 = 0x0A;

/// First byte of a request for one counter measurement over a number of gate windows.
pub const CMD_FREQUENCY_COUNT: u8 = 0x0B;

/// Byte that closes every request (sent twice).
pub const FRAME_END: u8 = 0xFF;

/// Length of an EEPROM reply and of a temperature reply.
pub const SHORT_REPLY_LEN: usize = 5;

/// Length of a counter reply.
pub const FREQUENCY_REPLY_LEN: usize = 9;

/// The value that stands for an EEPROM byte whose read got no valid reply.
pub const UNREADABLE_BYTE: u8 = 0xFF;

// ---------------------------------------------------------------------------
// EEPROM byte access
// ---------------------------------------------------------------------------

pub open spec fn eeprom_write_frame(address: u8, data: u8) -> Seq<u8> {
    seq![CMD_EEPROM_WRITE, data, address, FRAME_END, FRAME_END]
}

/// The meter acknowledges a write by echoing the data and the address.
pub open spec fn is_eeprom_write_ack(reply: Seq<u8>, address: u8, data: u8) -> bool {
    &&& reply.len() == SHORT_REPLY_LEN
    &&& reply[0] == REPLY_EEPROM
    &&& reply[1] == data
    &&& reply[2] == address
}

pub open spec fn eeprom_read_frame(address: u8) -> Seq<u8> {
    seq![CMD_EEPROM_READ, address, FRAME_END, FRAME_END]
}

/// A read reply is valid when it has the EEPROM reply tag and names the
/// address that was asked for; the byte read is its second byte.
pub open spec fn eeprom_read_reply_value(reply: Seq<u8>, address: u8) -> Option<u8> {
    if reply.len() == SHORT_REPLY_LEN && reply[0] == REPLY_EEPROM && reply[2] == address {
        Some(reply[1])
    } else {
        None
    }
}

/// The meter answers reads and writes alike: an acknowledgement of writing
/// `data` at `address` is also a valid reply to a read of `address`, and it
/// carries `data`.
pub proof fn lemma_ack_is_read_reply(reply: Seq<u8>, address: u8, data: u8)
    requires
        is_eeprom_write_ack(reply, address, data),
    ensures
        eeprom_read_reply_value(reply, address) == Some(data),
{
}

/// The request that writes `data` at EEPROM `address`.
pub fn eeprom_write_request(address: u8, data: u8) -> (frame: Vec<u8>)
    ensures
        frame@ == eeprom_write_frame(address, data),
{
    let mut frame = Vec::new();
    frame.push(CMD_EEPROM_WRITE);
    frame.push(data);
    frame.push(address);
    frame.push(FRAME_END);
    frame.push(FRAME_END);
    assert(frame@ =~= eeprom_write_frame(address, data));
    frame
}

/// Whether `reply` (the bytes received after a write request) acknowledges
/// the write of `data` at `address`.
pub fn eeprom_write_acknowledged(reply: &[u8], address: u8, data: u8) -> (ok: bool)
    ensures
        ok == is_eeprom_write_ack(reply@, address, data),
{
    reply.len() == SHORT_REPLY_LEN && reply[0] == REPLY_EEPROM && reply[1] == data && reply[2]
        == address
}

/// The request that reads the EEPROM byte at `address`.
pub fn eeprom_read_request(address: u8) -> (frame: Vec<u8>)
    ensures
        frame@ == eeprom_read_frame(address),
{
    let mut frame = Vec::new();
    frame.push(CMD_EEPROM_READ);
    frame.push(address);
    frame.push(FRAME_END);
    frame.push(FRAME_END);
    assert(frame@ =~= eeprom_read_frame(address));
    frame
}

/// The byte carried by the reply to a read of `address`, or `None` when the
/// reply is not a valid answer to that read.
pub fn decode_eeprom_read_reply(reply: &[u8], address: u8) -> (byte: Option<u8>)
    ensures
        byte == eeprom_read_reply_value(reply@, address),
{
    if reply.len() == SHORT_REPLY_LEN && reply[0] == REPLY_EEPROM && reply[2] == address {
        Some(reply[1])
    } else {
        None
    }
}

// ---------------------------------------------------------------------------
// Temperature
// ---------------------------------------------------------------------------

pub open spec fn temperature_frame() -> Seq<u8> {
    seq![CMD_TEMPERATURE, 0x08u8, 0x00u8, FRAME_END, FRAME_END]
}

/// The temperature reply carries a 16-bit reading, high byte first, in
/// sixteenths of a degree Celsius.
pub open spec fn temperature_reply_value(reply: Seq<u8>) -> Option<u16> {
    if reply.len() == SHORT_REPLY_LEN && reply[0] == REPLY_TEMPERATURE {
        Some((256 * reply[1] + reply[2]) as u16)
    } else {
        None
    }
}

/// The request for the current temperature.
pub fn temperature_request() -> (frame: Vec<u8>)
    ensures
        frame@ == temperature_frame(),
{
    let mut frame = Vec::new();
    frame.push(CMD_TEMPERATURE);
    frame.push(0x08u8);
    frame.push(0x00u8);
    frame.push(FRAME_END);
    frame.push(FRAME_END);
    assert(frame@ =~= temperature_frame());
    frame
}

/// The temperature reading, in sixteenths of a degree Celsius, carried by a
/// temperature reply; `None` when `reply` is not one.
pub fn decode_temperature_reply(reply: &[u8]) -> (sixteenths: Option<u16>)
    ensures
        sixteenths == temperature_reply_value(reply@),
        sixteenths matches Some(t) ==> t == 256 * reply@[1] + reply@[2],
{
    if reply.len() == SHORT_REPLY_LEN && reply[0] == REPLY_TEMPERATURE {
        Some((reply[1] as u16) * 256 + (reply[2] as u16))
    } else {
        None
    }
}

// ---------------------------------------------------------------------------
// Counter measurements
// ---------------------------------------------------------------------------

/// A measurement spans between 1 and 254 gate windows.
pub open spec fn valid_window_count(windows: u8) -> bool {
    0 < windows && windows < 255
}

pub open spec fn frequency_count_frame(windows: u8) -> Seq<u8> {
    seq![CMD_FREQUENCY_COUNT, 0x10u8, 0x00u8, windows, FRAME_END, FRAME_END]
}

pub open spec fn frequency_series_frame(measurements: u8) -> Seq<u8> {
    seq![CMD_FREQUENCY_SERIES, 0x10u8, 0x00u8, measurements, FRAME_END, FRAME_END]
}

/// A read reply is accepted exactly when it is five bytes long, has the
/// EEPROM reply tag and names the address read; it then carries its second
/// byte, whatever that byte is (0xFF included). A reply of that shape whose
/// second byte is `data` acknowledges the write of `data`.
pub proof fn lemma_read_reply_carries_byte(reply: Seq<u8>, address: u8, data: u8)
    ensures
        (reply.len() == 5 && reply[0] == 0x04 && reply[2] == address) ==> eeprom_read_reply_value(
            reply,
            address,
        ) == Some(reply[1]),
        !(reply.len() == 5 && reply[0] == 0x04 && reply[2] == address) ==> eeprom_read_reply_value(
            reply,
            address,
        ) is None,
        (reply.len() == 5 && reply[0] == 0x04 && reply[2] == address && reply[1] == data)
            <==> is_eeprom_write_ack(reply, address, data),
{
}

/// A request for one counter measurement names the number of gate windows
/// asked for, unchanged, in its fourth byte; requests for different numbers
/// of windows differ.
pub proof fn lemma_count_request_windows(windows: u8, other: u8)
    ensures
        frequency_count_frame(windows).len() == 6,
        frequency_count_frame(windows)[0] == 0x0B,
        frequency_count_frame(windows)[3] == windows,
        windows != other ==> frequency_count_frame(windows) != frequency_count_frame(other),
{
    if windows != other {
        assert(frequency_count_frame(windows)[3] != frequency_count_frame(other)[3]);
    }
}

/// A series request names the number of measurements asked for, unchanged,
/// in its fourth byte: the number of replies a series of that size awaits.
pub proof fn lemma_series_request_measurements(measurements: u8, other: u8)
    ensures
        frequency_series_frame(measurements).len() == 6,
        frequency_series_frame(measurements)[0] == 0x07,
        frequency_series_frame(measurements)[3] == measurements,
        measurements != other ==> frequency_series_frame(measurements) != frequency_series_frame(
            other,
        ),
{
    if measurements != other {
        assert(frequency_series_frame(measurements)[3] != frequency_series_frame(other)[3]);
    }
}

/// The request for one counter measurement over `windows` gate windows, or
/// `None` when `windows` is out of range (no request is sent then).
pub fn frequency_count_request(windows: u8) -> (frame: Option<Vec<u8>>)
    ensures
        frame is Some <==> valid_window_count(windows),
        frame matches Some(f) ==> f@ == frequency_count_frame(windows),
{
    if 0 < windows && windows < 255 {
        let mut frame = Vec::new();
        frame.push(CMD_FREQUENCY_COUNT);
        frame.push(0x10u8);
        frame.push(0x00u8);
        frame.push(windows);
        frame.push(FRAME_END);
        frame.push(FRAME_END);
        assert(frame@ =~= frequency_count_frame(windows));
        Some(frame)
    } else {
        None
    }
}

/// The request for a series of `measurements` counter measurements, or
/// `None` when `measurements` is out of range (no request is sent then).
pub fn frequency_series_request(measurements: u8) -> (frame: Option<Vec<u8>>)
    ensures
        frame is Some <==> valid_window_count(measurements),
        frame matches Some(f) ==> f@ == frequency_series_frame(measurements),
{
    if 0 < measurements && measurements < 255 {
        let mut frame = Vec::new();
        frame.push(CMD_FREQUENCY_SERIES);
        frame.push(0x10u8);
        frame.push(0x00u8);
        frame.push(measurements);
        frame.push(FRAME_END);
        frame.push(FRAME_END);
        assert(frame@ =~= frequency_series_frame(measurements));
        Some(frame)
    } else {
        None
    }
}

} // verus!
