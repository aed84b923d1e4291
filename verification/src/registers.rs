//! Register map and configuration tables of the conversion front end: a small
//! closed set of named configuration enums per register, translated to raw
//! 16-bit register words by the tables below, so that no protocol constant
//! appears in control-flow logic.

use vstd::prelude::*;

verus! {

/// The registers of one ADC device that this driver touches.
#[derive(Clone, Copy, Debug, PartialEq, Eq, Structural)]
pub enum AdcReg {
    /// Conversion status, including the data-ready flag.
    Status,
    /// Operating mode: reference, conversion mode, clock source.
    Adcmode,
    /// Interface mode: data-register layout options.
    Ifmode,
    /// Conversion data (read-only).
    Data,
    /// First logical channel configuration.
    Ch0,
    /// Second logical channel configuration.
    Ch1,
    /// Analog front-end setup profile 0.
    Setupcon0,
    /// Digital filter profile 0.
    Filtcon0,
}

impl AdcReg {
    /// The on-wire register address.
    pub open spec fn spec_address(self) -> u8 {
        match self {
            AdcReg::Status => 0x00,
            AdcReg::Adcmode => 0x01,
            AdcReg::Ifmode => 0x02,
            AdcReg::Data => 0x04,
            AdcReg::Ch0 => 0x10,
            AdcReg::Ch1 => 0x11,
            AdcReg::Setupcon0 => 0x20,
            AdcReg::Filtcon0 => 0x28,
        }
    }

    /// The on-wire register address.
    pub fn address(self) -> (a: u8)
        ensures
            a == self.spec_address(),
    {
        match self {
            AdcReg::Status => 0x00,
            AdcReg::Adcmode => 0x01,
            AdcReg::Ifmode => 0x02,
            AdcReg::Data => 0x04,
            AdcReg::Ch0 => 0x10,
            AdcReg::Ch1 => 0x11,
            AdcReg::Setupcon0 => 0x20,
            AdcReg::Filtcon0 => 0x28,
        }
    }

    /// Whether the register is a writable configuration register.
    pub open spec fn is_config(self) -> bool {
        match self {
            AdcReg::Adcmode | AdcReg::Ifmode | AdcReg::Ch0 | AdcReg::Ch1 | AdcReg::Setupcon0
                | AdcReg::Filtcon0 => true,
            AdcReg::Status | AdcReg::Data => false,
        }
    }

    /// The slot of a configuration register in a device's register cache.
    pub open spec fn cache_slot(self) -> int {
        match self {
            AdcReg::Adcmode => 0,
            AdcReg::Ifmode => 1,
            AdcReg::Ch0 => 2,
            AdcReg::Ch1 => 3,
            AdcReg::Setupcon0 => 4,
            AdcReg::Filtcon0 => 5,
            AdcReg::Status | AdcReg::Data => 6,
        }
    }
}

/// Voltage reference switch of the mode register (bit 15).
#[derive(Clone, Copy, Debug, PartialEq, Eq, Structural)]
pub enum RefEnable {
    Disabled,
    Enabled,
}

impl RefEnable {
    /// Contribution to the mode register word.
    pub open spec fn spec_bits(self) -> u16 {
        match self {
            RefEnable::Disabled => 0x0000,
            RefEnable::Enabled => 0x8000,
        }
    }
}

/// Conversion scheduling of the mode register (bits 6..4).
#[derive(Clone, Copy, Debug, PartialEq, Eq, Structural)]
pub enum ConversionMode {
    /// Free-running conversions, round-robining over the enabled channels.
    Continuous,
    /// One conversion, then idle.
    Single,
    /// No conversions.
    Standby,
}

impl ConversionMode {
    /// Contribution to the mode register word.
    pub open spec fn spec_bits(self) -> u16 {
        match self {
            ConversionMode::Continuous => 0x0000,
            ConversionMode::Single => 0x0010,
            ConversionMode::Standby => 0x0020,
        }
    }
}

/// Master clock selection of the mode register (bits 3..2).
#[derive(Clone, Copy, Debug, PartialEq, Eq, Structural)]
pub enum ClockSource {
    Internal,
    InternalOutput,
    ExternalCrystal,
    External,
}

impl ClockSource {
    /// Contribution to the mode register word.
    pub open spec fn spec_bits(self) -> u16 {
        match self {
            ClockSource::Internal => 0x0000,
            ClockSource::InternalOutput => 0x0004,
            ClockSource::ExternalCrystal => 0x0008,
            ClockSource::External => 0x000c,
        }
    }
}

/// Status-append switch of the interface mode register (bit 6): when enabled,
/// every conversion read carries the status byte, and with it the channel tag.
#[derive(Clone, Copy, Debug, PartialEq, Eq, Structural)]
pub enum DataStat {
    Disabled,
    Enabled,
}

impl DataStat {
    /// Contribution to the interface mode register word.
    pub open spec fn spec_bits(self) -> u16 {
        match self {
            DataStat::Disabled => 0x0000,
            DataStat::Enabled => 0x0040,
        }
    }
}

/// Which analog front-end setup profile a channel uses (bits 14..12).
#[derive(Clone, Copy, Debug, PartialEq, Eq, Structural)]
pub enum SetupSel {
    Setup0,
    Setup1,
}

impl SetupSel {
    /// Contribution to a channel register word.
    pub open spec fn spec_bits(self) -> u16 {
        match self {
            SetupSel::Setup0 => 0x0000,
            SetupSel::Setup1 => 0x1000,
        }
    }
}

/// An analog input pin of the device.
#[derive(Clone, Copy, Debug, PartialEq, Eq, Structural)]
pub enum AnalogInput {
    Ain0,
    Ain1,
    Ain2,
    Ain3,
    Ain4,
}

impl AnalogInput {
    /// The pin's selection code.
    pub open spec fn spec_code(self) -> u16 {
        match self {
            AnalogInput::Ain0 => 0,
            AnalogInput::Ain1 => 1,
            AnalogInput::Ain2 => 2,
            AnalogInput::Ain3 => 3,
            AnalogInput::Ain4 => 4,
        }
    }
}

/// Encoding polarity of the analog front end (bit 12).
#[derive(Clone, Copy, Debug, PartialEq, Eq, Structural)]
pub enum Polarity {
    Unipolar,
    Bipolar,
}

impl Polarity {
    /// Contribution to a setup register word.
    pub open spec fn spec_bits(self) -> u16 {
        match self {
            Polarity::Unipolar => 0x0000,
            Polarity::Bipolar => 0x1000,
        }
    }
}

/// The reference buffer pair of the analog front end (bits 11..10).
#[derive(Clone, Copy, Debug, PartialEq, Eq, Structural)]
pub enum RefBuffers {
    Disabled,
    Enabled,
}

impl RefBuffers {
    /// Contribution to a setup register word.
    pub open spec fn spec_bits(self) -> u16 {
        match self {
            RefBuffers::Disabled => 0x0000,
            RefBuffers::Enabled => 0x0c00,
        }
    }
}

/// The input buffer pair of the analog front end (bits 9..8).
#[derive(Clone, Copy, Debug, PartialEq, Eq, Structural)]
pub enum InputBuffers {
    Disabled,
    Enabled,
}

impl InputBuffers {
    /// Contribution to a setup register word.
    pub open spec fn spec_bits(self) -> u16 {
        match self {
            InputBuffers::Disabled => 0x0000,
            InputBuffers::Enabled => 0x0300,
        }
    }
}

/// Reference source of the analog front end (bits 5..4).
#[derive(Clone, Copy, Debug, PartialEq, Eq, Structural)]
pub enum RefSelect {
    External,
    Internal,
}

impl RefSelect {
    /// Contribution to a setup register word.
    pub open spec fn spec_bits(self) -> u16 {
        match self {
            RefSelect::External => 0x0000,
            RefSelect::Internal => 0x0020,
        }
    }
}

/// Decimation filter topology (bits 6..5).
#[derive(Clone, Copy, Debug, PartialEq, Eq, Structural)]
pub enum FilterOrder {
    Sinc5Sinc1,
    Sinc3,
}

impl FilterOrder {
    /// Contribution to a filter register word.
    pub open spec fn spec_bits(self) -> u16 {
        match self {
            FilterOrder::Sinc5Sinc1 => 0x0000,
            FilterOrder::Sinc3 => 0x0060,
        }
    }
}

/// Output data rate selection code (bits 4..0).
#[derive(Clone, Copy, Debug, PartialEq, Eq, Structural)]
pub enum OutputDataRate {
    /// About one thousand samples per second.
    Sps1007,
    /// Ten samples per second.
    Sps10,
}

impl OutputDataRate {
    /// Contribution to a filter register word.
    pub open spec fn spec_bits(self) -> u16 {
        match self {
            OutputDataRate::Sps1007 => 0x000a,
            OutputDataRate::Sps10 => 0x0013,
        }
    }
}

/// Configuration of the mode register.
pub struct AdcmodeConfig {
    pub ref_en: RefEnable,
    pub mode: ConversionMode,
    pub clocksel: ClockSource,
}

impl AdcmodeConfig {
    /// The register word the configuration encodes to.
    pub open spec fn spec_encode(self) -> u16 {
        (self.ref_en.spec_bits() + self.mode.spec_bits() + self.clocksel.spec_bits()) as u16
    }

    /// The register word the configuration encodes to.
    pub fn encode(self) -> (word: u16)
        ensures
            word == self.spec_encode(),
    {
        let ref_bits: u16 = match self.ref_en {
            RefEnable::Disabled => 0x0000,
            RefEnable::Enabled => 0x8000,
        };
        let mode_bits: u16 = match self.mode {
            ConversionMode::Continuous => 0x0000,
            ConversionMode::Single => 0x0010,
            ConversionMode::Standby => 0x0020,
        };
        let clock_bits: u16 = match self.clocksel {
            ClockSource::Internal => 0x0000,
            ClockSource::InternalOutput => 0x0004,
            ClockSource::ExternalCrystal => 0x0008,
            ClockSource::External => 0x000c,
        };
        ref_bits + mode_bits + clock_bits
    }
}

/// Configuration of the interface mode register.
pub struct IfmodeConfig {
    pub data_stat: DataStat,
}

impl IfmodeConfig {
    /// The register word the configuration encodes to.
    pub open spec fn spec_encode(self) -> u16 {
        self.data_stat.spec_bits()
    }

    /// The register word the configuration encodes to.
    pub fn encode(self) -> (word: u16)
        ensures
            word == self.spec_encode(),
    {
        match self.data_stat {
            DataStat::Disabled => 0x0000,
            DataStat::Enabled => 0x0040,
        }
    }
}

/// Configuration of one logical channel: enabled, bound to a setup profile
/// and to a pair of analog input pins.
pub struct ChannelConfig {
    pub setup: SetupSel,
    pub ainpos: AnalogInput,
    pub ainneg: AnalogInput,
}

impl ChannelConfig {
    /// The register word the configuration encodes to: the enable bit, the
    /// setup selection, and the positive pin code in bits 9..5 above the
    /// negative pin code in bits 4..0.
    pub open spec fn spec_encode(self) -> u16 {
        (0x8000 + self.setup.spec_bits() + self.ainpos.spec_code() * 0x20
            + self.ainneg.spec_code()) as u16
    }

    /// The register word the configuration encodes to.
    pub fn encode(self) -> (word: u16)
        ensures
            word == self.spec_encode(),
    {
        let setup_bits: u16 = match self.setup {
            SetupSel::Setup0 => 0x0000,
            SetupSel::Setup1 => 0x1000,
        };
        let pos_code: u16 = match self.ainpos {
            AnalogInput::Ain0 => 0,
            AnalogInput::Ain1 => 1,
            AnalogInput::Ain2 => 2,
            AnalogInput::Ain3 => 3,
            AnalogInput::Ain4 => 4,
        };
        let neg_code: u16 = match self.ainneg {
            AnalogInput::Ain0 => 0,
            AnalogInput::Ain1 => 1,
            AnalogInput::Ain2 => 2,
            AnalogInput::Ain3 => 3,
            AnalogInput::Ain4 => 4,
        };
        0x8000 + setup_bits + pos_code * 0x20 + neg_code
    }
}

/// Configuration of an analog front-end setup profile.
pub struct SetupConfig {
    pub polarity: Polarity,
    pub ref_buffers: RefBuffers,
    pub input_buffers: InputBuffers,
    pub ref_select: RefSelect,
}

impl SetupConfig {
    /// The register word the configuration encodes to.
    pub open spec fn spec_encode(self) -> u16 {
        (self.polarity.spec_bits() + self.ref_buffers.spec_bits() + self.input_buffers.spec_bits()
            + self.ref_select.spec_bits()) as u16
    }

    /// The register word the configuration encodes to.
    pub fn encode(self) -> (word: u16)
        ensures
            word == self.spec_encode(),
    {
        let polarity_bits: u16 = match self.polarity {
            Polarity::Unipolar => 0x0000,
            Polarity::Bipolar => 0x1000,
        };
        let ref_bits: u16 = match self.ref_buffers {
            RefBuffers::Disabled => 0x0000,
            RefBuffers::Enabled => 0x0c00,
        };
        let input_bits: u16 = match self.input_buffers {
            InputBuffers::Disabled => 0x0000,
            InputBuffers::Enabled => 0x0300,
        };
        let refsel_bits: u16 = match self.ref_select {
            RefSelect::External => 0x0000,
            RefSelect::Internal => 0x0020,
        };
        polarity_bits + ref_bits + input_bits + refsel_bits
    }
}

/// Configuration of a digital filter profile.
pub struct FilterConfig {
    pub order: FilterOrder,
    pub odr: OutputDataRate,
}

impl FilterConfig {
    /// The register word the configuration encodes to.
    pub open spec fn spec_encode(self) -> u16 {
        (self.order.spec_bits() + self.odr.spec_bits()) as u16
    }

    /// The register word the configuration encodes to.
    pub fn encode(self) -> (word: u16)
        ensures
            word == self.spec_encode(),
    {
        let order_bits: u16 = match self.order {
            FilterOrder::Sinc5Sinc1 => 0x0000,
            FilterOrder::Sinc3 => 0x0060,
        };
        let odr_bits: u16 = match self.odr {
            OutputDataRate::Sps1007 => 0x000a,
            OutputDataRate::Sps10 => 0x0013,
        };
        order_bits + odr_bits
    }
}

} // verus!
