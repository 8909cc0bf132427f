use vstd::prelude::*;

verus! {

/// Number of bytes in one notification of the monitor.
pub const DATA_SIZE: usize = 5;

/// Voltage, in millivolts, at which the battery counts as empty.
pub const BATTERY_VOLTAGE_ALIGN_MV: u16 = 2100;

/// One measurement as the monitor sends it.
#[derive(Clone, Copy, Debug, PartialEq, Eq, Structural)]
pub struct Data {
    /// Temperature in hundredths of a degree Celsius.
    pub temp_centi_celsius: u16,
    pub humidity_percents: u8,
    /// Battery voltage in millivolts.
    pub voltage_mv: u16,
}

/// Why a notification holds no measurement.
#[derive(Clone, Copy, Debug, PartialEq, Eq, Structural)]
pub enum DataError {
    /// The notification has this many bytes, not five.
    InvalidSize(usize),
    /// The event carries no value.
    NotPresent,
}

/// The number held by two bytes, the low one first.
pub open spec fn le16(low: u8, high: u8) -> int {
    low as int + 256 * high as int
}

fn u16_from_le(low: u8, high: u8) -> (value: u16)
    ensures
        value == le16(low, high),
{
    (low as u16) + 256 * (high as u16)
}

impl Data {
    /// Reads a measurement from the value of a notification, `None` if the
    /// event carried none: two bytes of temperature, one of humidity, two of
    /// voltage, low byte first.
    pub fn try_from(value: Option<&Vec<u8>>) -> (result: Result<Data, DataError>)
        ensures
            result == match value {
                None => Err::<Data, DataError>(DataError::NotPresent),
                Some(bytes) => if bytes.len() != DATA_SIZE {
                    Err::<Data, DataError>(DataError::InvalidSize(bytes.len()))
                } else {
                    Ok::<Data, DataError>(
                        Data {
                            temp_centi_celsius: le16(bytes[0], bytes[1]) as u16,
                            humidity_percents: bytes[2],
                            voltage_mv: le16(bytes[3], bytes[4]) as u16,
                        },
                    )
                },
            },
    {
        match value {
            None => Err(DataError::NotPresent),
            Some(bytes) => {
                if bytes.len() != DATA_SIZE {
                    return Err(DataError::InvalidSize(bytes.len()));
                }
                Ok(
                    Data {
                        temp_centi_celsius: u16_from_le(bytes[0], bytes[1]),
                        humidity_percents: bytes[2],
                        voltage_mv: u16_from_le(bytes[3], bytes[4]),
                    },
                )
            },
        }
    }
}

} // verus!
