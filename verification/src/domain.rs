//! Domain model shared by the daemon and its clients.
use crate::decibel::{EngineDecibels, DEFAULT_LIMITER_32, DEFAULT_MIC_GAIN_32};
use vstd::prelude::*;

verus! {

/// The level of one battery and whether it is charging.
#[derive(Clone, Copy, Debug, PartialEq, Eq, Structural)]
pub struct BatteryLevel {
    /// The percentage, or `None` where the device reports no value.
    pub percent: Option<u8>,
    /// Whether this battery is charging.
    pub charging: bool,
}

impl BatteryLevel {
    /// Whether the percentage, where there is one, is at most one hundred.
    pub open spec fn in_range(self) -> bool {
        self.percent matches Some(percent) ==> percent <= 100
    }
}

impl Default for BatteryLevel {
    /// A battery of which nothing is known.
    fn default() -> (level: BatteryLevel)
        ensures
            level == (BatteryLevel { percent: None, charging: false }),
    {
        BatteryLevel { percent: None, charging: false }
    }
}

/// The battery state read from an AirPods BLE advertisement.
#[derive(Debug, PartialEq, Eq)]
pub struct AirPodsBattery {
    /// The left earbud.
    pub left: BatteryLevel,
    /// The right earbud.
    pub right: BatteryLevel,
    /// The charging case.
    pub case: BatteryLevel,
    /// The model code of the Apple manufacturer data.
    pub model_id: u16,
    /// The BLE address that sent the advertisement.
    pub ble_address: String,
    /// The signal strength of the advertisement.
    pub rssi: i16,
}

impl Clone for AirPodsBattery {
    /// A copy of the battery state.
    fn clone(&self) -> (battery: AirPodsBattery)
        ensures
            battery == *self,
    {
        AirPodsBattery {
            left: self.left,
            right: self.right,
            case: self.case,
            model_id: self.model_id,
            ble_address: self.ble_address.clone(),
            rssi: self.rssi,
        }
    }
}

/// The DSP settings of the virtual microphone.
#[derive(Clone, Copy, Debug)]
pub struct MicSettings {
    /// The gain before the limiter, in dB.
    pub gain_db: EngineDecibels,
    /// The ceiling of the limiter, in dBFS.
    pub limiter_dbfs: EngineDecibels,
}

impl Default for MicSettings {
    /// A gain of 18 dB and a ceiling of -3 dBFS.
    fn default() -> (settings: MicSettings)
        ensures
            settings.gain_db.bits == DEFAULT_MIC_GAIN_32,
            settings.limiter_dbfs.bits == DEFAULT_LIMITER_32,
    {
        MicSettings {
            gain_db: EngineDecibels { bits: DEFAULT_MIC_GAIN_32 },
            limiter_dbfs: EngineDecibels { bits: DEFAULT_LIMITER_32 },
        }
    }
}

} // verus!
