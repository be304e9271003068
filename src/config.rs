use vstd::prelude::*;

verus! {

/// Number of row lines the scanner drives.
pub const ROWS: usize = 4;

/// Number of column lines the scanner samples.
pub const COLS: usize = 6;

/// Debounce window of an ordinary key, in milliseconds.
pub const DEBOUNCE_DELAY_MS: u64 = 50;

/// Debounce window of the layer key, in milliseconds; longer, so that contact
/// bounce cannot toggle the layer twice.
pub const LAYER_DEBOUNCE_DELAY_MS: u64 = 250;

/// Idle time after the last key activity before the scanner sleeps (5 minutes).
pub const SLEEP_DELAY_MS: u64 = 300000;

/// Idle time before the first sleep after start-up or wake (1 minute).
pub const SLEEP_DELAY_INIT_MS: u64 = 60000;

/// Capacity of the store of keys in flight.
pub const PRESSED_KEYS_INDEXMAP_SIZE: usize = 16;

/// Capacity of each layer's keymap.
pub const LAYER_INDEXMAP_SIZE: usize = 32;

/// Which half of the keyboard this firmware runs on.
pub const KEYBOARD_LEFT_SIDE: bool = true;

/// Row and column of the layer key on the left half.
pub const LAYER_KEY_LEFT_ROW: i8 = 3;

pub const LAYER_KEY_LEFT_COL: i8 = 3;

/// Row and column of the layer key on the right half.
pub const LAYER_KEY_RIGHT_ROW: i8 = 3;

pub const LAYER_KEY_RIGHT_COL: i8 = 2;

/// Policy: the layer toggles only while the report holds no key or modifier,
/// so that a layer never flips in the middle of a combination.
pub const GUARDED_LAYER_TOGGLE: bool = true;

/// Policy: waking from light sleep restarts the device (faster reconnection)
/// rather than resuming in place.
pub const RESTART_ON_WAKE: bool = true;

/// Transmit power levels of the radio, from -24 dBm to +21 dBm.
#[derive(Clone, Copy, Debug, PartialEq, Eq, Structural)]
pub enum EspPowerLevel {
    Negative24,
    Negative21,
    Negative18,
    Negative15,
    Negative12,
    Negative9,
    Negative6,
    Negative3,
    Negative0,
    Positive3,
    Positive6,
    Positive9,
    Positive12,
    Positive15,
    Positive18,
    Positive21,
}

/// The transmit power set once per connection to save energy.
pub const ESP_POWER_LEVEL: EspPowerLevel = EspPowerLevel::Negative0;

} // verus!
