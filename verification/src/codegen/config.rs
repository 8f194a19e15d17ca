//! The parts of a resolved keyboard configuration that the plans are made from.
use vstd::prelude::*;

verus! {

/// The family of the microcontroller.
#[derive(Clone, Copy, Debug, PartialEq, Eq, Structural)]
pub enum ChipSeries {
    Stm32,
    Nrf52,
    Rp2040,
    Esp32,
}

/// An I2C bus and its pins.
#[derive(Debug)]
pub struct I2cConfig {
    pub instance: String,
    pub sda: String,
    pub scl: String,
}

/// An IQS5xx trackpad.
#[derive(Debug)]
pub struct Iqs5xxConfig {
    /// May be empty.
    pub name: String,
    pub id: Option<u8>,
    pub i2c: I2cConfig,
    /// The data-ready pin.
    pub rdy: Option<String>,
    pub invert_x: bool,
    pub invert_y: bool,
    pub swap_xy: bool,
    pub physical_mm_x: u16,
    pub physical_mm_y: u16,
    pub logical_max_x: u16,
    pub logical_max_y: u16,
    pub tap_max_dev_mm: u16,
    pub tap_time_ms: u16,
    pub hold_time_ms: u16,
    /// The bit pattern of the single-precision number of mouse units per
    /// millimetre.
    pub sensitivity_bits: u32,
}

/// Where the keymap's mouse buttons go.
#[derive(Debug)]
pub struct MouseButtonRoutingConfig {
    /// The name of a trackpad.
    pub trackpad: Option<String>,
}

/// The input devices of one half. `D` is an entry for a device that the plans
/// pass on as it is.
#[derive(Debug)]
pub struct InputDeviceConfig<D> {
    pub joystick: Option<Vec<D>>,
    pub encoder: Option<Vec<D>>,
    pub pmw3610: Option<Vec<D>>,
    pub pmw33xx: Option<Vec<D>>,
    pub iqs5xx: Option<Vec<Iqs5xxConfig>>,
    pub mouse_button_routing: Option<MouseButtonRoutingConfig>,
}

/// The key matrix of one half.
#[derive(Debug)]
pub struct MatrixConfig {
    pub row_pins: Option<Vec<String>>,
    pub col_pins: Option<Vec<String>>,
    pub row2col: bool,
}

/// A serial port.
#[derive(Debug)]
pub struct SerialConfig {
    pub instance: String,
    pub tx_pin: String,
    pub rx_pin: String,
}

/// How a battery is measured.
#[derive(Debug)]
pub struct BatteryConfig {
    pub battery_adc_pin: Option<String>,
    pub adc_divider_measured: Option<u32>,
    pub adc_divider_total: Option<u32>,
}

/// One half of a split keyboard.
#[derive(Debug)]
pub struct SplitBoardConfig<D> {
    pub rows: usize,
    pub cols: usize,
    pub row_offset: usize,
    pub col_offset: usize,
    pub serial: Option<Vec<SerialConfig>>,
    pub matrix: MatrixConfig,
    pub battery: BatteryConfig,
    pub input_device: Option<InputDeviceConfig<D>>,
    /// The half has a display.
    pub display: bool,
}

/// The halves of a split keyboard and the link between them.
#[derive(Debug)]
pub struct SplitConfig<D> {
    pub connection: String,
    pub central: SplitBoardConfig<D>,
    pub peripheral: Vec<SplitBoardConfig<D>>,
}

/// A keyboard in one piece, or in halves.
#[derive(Debug)]
pub enum BoardConfig<D> {
    UniBody(InputDeviceConfig<D>),
    Split(SplitConfig<D>),
}

/// The section on BLE.
#[derive(Debug)]
pub struct BleConfig {
    pub enabled: bool,
    pub battery: BatteryConfig,
}

/// How the keyboard talks to the host.
#[derive(Debug)]
pub enum CommunicationConfig {
    Usb,
    Ble(BleConfig),
    Both(BleConfig),
    Neither,
}

/// The section on storage.
#[derive(Clone, Copy, Debug, PartialEq, Eq, Structural)]
pub struct StorageConfig {
    pub num_sectors: u8,
    pub start_addr: usize,
    pub clear_storage: bool,
    pub clear_layout: bool,
}

/// The hardware of the keyboard.
#[derive(Debug)]
pub struct Hardware<D> {
    pub chip: ChipSeries,
    pub storage: Option<StorageConfig>,
    pub communication: CommunicationConfig,
    pub board: BoardConfig<D>,
}

/// The shape of the keymap.
#[derive(Debug)]
pub struct Layout {
    pub rows: u8,
    pub cols: u8,
    pub layers: u8,
    /// Encoders on each half.
    pub encoder_counts: Vec<usize>,
}

} // verus!
