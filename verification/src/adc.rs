//! Acquisition subsystem: up to four conversion devices share one serial bus,
//! each behind its own chip-select line. Every device is configured once, in a
//! fixed register order, and then free-runs conversions over its two enabled
//! logical channels; each conversion read carries a status tag naming the
//! channel that produced it.

use vstd::prelude::*;

use crate::bus::BusArbiter;
use crate::registers::AdcReg;
use crate::registers::AdcmodeConfig;
use crate::registers::AnalogInput;
use crate::registers::ChannelConfig;
use crate::registers::ClockSource;
use crate::registers::ConversionMode;
use crate::registers::DataStat;
use crate::registers::FilterConfig;
use crate::registers::FilterOrder;
use crate::registers::IfmodeConfig;
use crate::registers::InputBuffers;
use crate::registers::OutputDataRate;
use crate::registers::Polarity;
use crate::registers::RefBuffers;
use crate::registers::RefEnable;
use crate::registers::RefSelect;
use crate::registers::SetupConfig;
use crate::registers::SetupSel;

verus! {

/// One of the eight thermostat input channels: two logical channels on each
/// of the four conversion devices.
#[derive(Clone, Copy, Debug, PartialEq, Eq, Structural)]
pub enum InputChannel {
    Zero,
    One,
    Two,
    Three,
    Four,
    Five,
    Six,
    Seven,
}

impl InputChannel {
    /// The channel's index, 0 through 7.
    pub open spec fn spec_index(self) -> int {
        match self {
            InputChannel::Zero => 0,
            InputChannel::One => 1,
            InputChannel::Two => 2,
            InputChannel::Three => 3,
            InputChannel::Four => 4,
            InputChannel::Five => 5,
            InputChannel::Six => 6,
            InputChannel::Seven => 7,
        }
    }

    /// The channel with the given index; meaningful below 8 only.
    pub open spec fn spec_from(value: int) -> InputChannel {
        if value == 0 {
            InputChannel::Zero
        } else if value == 1 {
            InputChannel::One
        } else if value == 2 {
            InputChannel::Two
        } else if value == 3 {
            InputChannel::Three
        } else if value == 4 {
            InputChannel::Four
        } else if value == 5 {
            InputChannel::Five
        } else if value == 6 {
            InputChannel::Six
        } else {
            InputChannel::Seven
        }
    }

    /// The channel's index, 0 through 7.
    pub fn index(self) -> (i: usize)
        ensures
            i == self.spec_index(),
    {
        match self {
            InputChannel::Zero => 0,
            InputChannel::One => 1,
            InputChannel::Two => 2,
            InputChannel::Three => 3,
            InputChannel::Four => 4,
            InputChannel::Five => 5,
            InputChannel::Six => 6,
            InputChannel::Seven => 7,
        }
    }

    /// The channel with the given index, or nothing for an index past 7.
    pub fn try_from(value: usize) -> (r: Option<InputChannel>)
        ensures
            value < 8 ==> r == Some(InputChannel::spec_from(value as int)),
            value >= 8 ==> r is None,
    {
        if value == 0 {
            Some(InputChannel::Zero)
        } else if value == 1 {
            Some(InputChannel::One)
        } else if value == 2 {
            Some(InputChannel::Two)
        } else if value == 3 {
            Some(InputChannel::Three)
        } else if value == 4 {
            Some(InputChannel::Four)
        } else if value == 5 {
            Some(InputChannel::Five)
        } else if value == 6 {
            Some(InputChannel::Six)
        } else if value == 7 {
            Some(InputChannel::Seven)
        } else {
            None
        }
    }
}

/// A fault of the acquisition subsystem.
#[derive(Clone, Copy, Debug, PartialEq, Eq, Structural)]
pub enum AdcFault {
    /// A configuration register write went unacknowledged: fatal, the device
    /// cannot be trusted for subsequent reads.
    Setup,
    /// A conversion carried a channel tag outside the enabled set: the sample
    /// is dropped, acquisition continues.
    Protocol,
    /// A bus transaction failed and so did its single retry: fatal for the
    /// device.
    Transport,
}

/// One completed conversion: the input channel that produced it and the raw
/// 24-bit code.
#[derive(Clone, Copy, Debug, PartialEq, Eq, Structural)]
pub struct ChannelReading {
    /// The thermostat input channel the conversion belongs to.
    pub channel: InputChannel,
    /// The raw conversion code, below `2^24`.
    pub raw_code: u32,
    /// Whether the device had a fresh conversion when this was read.
    pub data_ready: bool,
}

/// A chip-select line: which line it is, and whether it is currently asserted
/// (granting its device the shared bus).
#[derive(Clone, Copy, Debug, PartialEq, Eq, Structural)]
pub struct ChipSelect {
    /// The output line driving the select.
    pub line: u8,
    /// Whether the line currently grants the bus.
    pub asserted: bool,
}

/// The chip-select lines of the four conversion devices.
pub struct AdcPins {
    /// One select line per device.
    pub cs: (ChipSelect, ChipSelect, ChipSelect, ChipSelect),
}

/// One conversion device: its identity, its chip-select line, the cache of
/// the last value written to each configuration register, the ordered log of
/// all register writes, and whether the device is still trustworthy.
pub struct Ad7172 {
    /// The device's index on the bus, 0 through 3.
    pub device_id: u8,
    /// The device's chip-select line.
    pub cs: ChipSelect,
    /// Last written value of each configuration register, in `cache_slot`
    /// order.
    pub cache: [Option<u16>; 6],
    /// Every register write made to the device, oldest first, as
    /// `(address, value)`.
    pub log: Vec<(u8, u16)>,
    /// False once a setup or transport fault made the device untrustworthy.
    pub usable: bool,
}

impl Ad7172 {
    /// Record one configuration register write: the cache takes the value and
    /// the log grows by one entry.
    pub fn write(&mut self, reg: AdcReg, value: u16)
        requires
            reg.is_config(),
        ensures
            final(self).device_id == old(self).device_id,
            final(self).cs == old(self).cs,
            final(self).usable == old(self).usable,
            final(self).log@ == old(self).log@.push((reg.spec_address(), value)),
            final(self).cache[reg.cache_slot()] == Some(value),
            forall|i: int|
                0 <= i < 6 && i != reg.cache_slot() ==> final(self).cache[i] == old(self).cache[i],
    {
        self.log.push((reg.address(), value));
        let c = self.cache;
        self.cache = match reg {
            AdcReg::Adcmode => [Some(value), c[1], c[2], c[3], c[4], c[5]],
            AdcReg::Ifmode => [c[0], Some(value), c[2], c[3], c[4], c[5]],
            AdcReg::Ch0 => [c[0], c[1], Some(value), c[3], c[4], c[5]],
            AdcReg::Ch1 => [c[0], c[1], c[2], Some(value), c[4], c[5]],
            AdcReg::Setupcon0 => [c[0], c[1], c[2], c[3], Some(value), c[5]],
            AdcReg::Filtcon0 => [c[0], c[1], c[2], c[3], c[4], Some(value)],
            AdcReg::Status | AdcReg::Data => c,
        };
    }
}

/// The mode register configuration every device gets: internal reference
/// enabled, continuous conversions, external clock.
pub open spec fn adcmode_setup() -> AdcmodeConfig {
    AdcmodeConfig {
        ref_en: RefEnable::Enabled,
        mode: ConversionMode::Continuous,
        clocksel: ClockSource::External,
    }
}

/// The interface mode configuration every device gets: the status byte is
/// appended to each conversion so the producing channel is named.
pub open spec fn ifmode_setup() -> IfmodeConfig {
    IfmodeConfig { data_stat: DataStat::Enabled }
}

/// The first logical channel: setup profile 0 over input pins 0 and 1.
pub open spec fn ch0_setup() -> ChannelConfig {
    ChannelConfig { setup: SetupSel::Setup0, ainpos: AnalogInput::Ain0, ainneg: AnalogInput::Ain1 }
}

/// The second logical channel: setup profile 0 over input pins 2 and 3.
pub open spec fn ch1_setup() -> ChannelConfig {
    ChannelConfig { setup: SetupSel::Setup0, ainpos: AnalogInput::Ain2, ainneg: AnalogInput::Ain3 }
}

/// The front-end profile every device gets: unipolar encoding, reference and
/// input buffers enabled, external reference.
pub open spec fn setupcon_setup() -> SetupConfig {
    SetupConfig {
        polarity: Polarity::Unipolar,
        ref_buffers: RefBuffers::Enabled,
        input_buffers: InputBuffers::Enabled,
        ref_select: RefSelect::External,
    }
}

/// The filter profile every device gets: the sinc5+sinc1 decimation topology
/// at ten samples per second.
pub open spec fn filtcon_setup() -> FilterConfig {
    FilterConfig { order: FilterOrder::Sinc5Sinc1, odr: OutputDataRate::Sps10 }
}

/// The register writes of one device's configuration, in the one order in
/// which they must be performed.
pub open spec fn spec_setup_writes() -> Seq<(u8, u16)> {
    seq![
        (AdcReg::Adcmode.spec_address(), adcmode_setup().spec_encode()),
        (AdcReg::Ifmode.spec_address(), ifmode_setup().spec_encode()),
        (AdcReg::Ch0.spec_address(), ch0_setup().spec_encode()),
        (AdcReg::Ch1.spec_address(), ch1_setup().spec_encode()),
        (AdcReg::Setupcon0.spec_address(), setupcon_setup().spec_encode()),
        (AdcReg::Filtcon0.spec_address(), filtcon_setup().spec_encode()),
    ]
}

/// A freshly configured device: trustworthy, off the bus, and with cache and
/// log holding exactly the fixed configuration sequence.
pub open spec fn spec_configured(dev: Ad7172) -> bool {
    &&& dev.usable
    &&& !dev.cs.asserted
    &&& dev.log@ == spec_setup_writes()
    &&& dev.cache[0] == Some(adcmode_setup().spec_encode())
    &&& dev.cache[1] == Some(ifmode_setup().spec_encode())
    &&& dev.cache[2] == Some(ch0_setup().spec_encode())
    &&& dev.cache[3] == Some(ch1_setup().spec_encode())
    &&& dev.cache[4] == Some(setupcon_setup().spec_encode())
    &&& dev.cache[5] == Some(filtcon_setup().spec_encode())
}

/// Whether a status word says a fresh conversion is waiting (ready flag is
/// active low in bit 7).
pub open spec fn spec_data_ready(status: u8) -> bool {
    status & 0x80 == 0
}

/// Whether a status word says a fresh conversion is waiting.
pub fn data_ready(status: u8) -> (r: bool)
    ensures
        r == spec_data_ready(status),
{
    status & 0x80 == 0
}

/// The raw conversion code of a data-register payload: the first three bytes,
/// most significant first.
pub open spec fn spec_raw_code(bytes: [u8; 4]) -> int {
    bytes[0] * 0x10000 + bytes[1] * 0x100 + bytes[2]
}

/// The channel tag of a data-register payload: the low two bits of the
/// appended status byte.
pub open spec fn spec_channel_tag(bytes: [u8; 4]) -> int {
    (bytes[3] % 4) as int
}

/// What a data-register payload decodes to on the given device: a reading on
/// the tagged channel, or a protocol fault when the tag is outside the two
/// enabled logical channels.
pub open spec fn spec_decode(device_id: u8, bytes: [u8; 4]) -> Result<ChannelReading, AdcFault> {
    if spec_channel_tag(bytes) < 2 {
        Ok(
            ChannelReading {
                channel: InputChannel::spec_from(device_id * 2 + spec_channel_tag(bytes)),
                raw_code: spec_raw_code(bytes) as u32,
                data_ready: true,
            },
        )
    } else {
        Err(AdcFault::Protocol)
    }
}

/// Decode one data-register payload read from the given device.
pub fn decode_sample(device_id: u8, bytes: [u8; 4]) -> (r: Result<ChannelReading, AdcFault>)
    requires
        device_id < 4,
    ensures
        r == spec_decode(device_id, bytes),
        r matches Ok(reading) ==> reading.raw_code < 0x100_0000,
{
    let tag: u8 = bytes[3] % 4;
    if tag >= 2 {
        Err(AdcFault::Protocol)
    } else {
        let raw: u32 = (bytes[0] as u32) * 0x10000 + (bytes[1] as u32) * 0x100 + (bytes[2] as u32);
        let index: usize = (device_id * 2 + tag) as usize;
        match InputChannel::try_from(index) {
            Some(channel) => Ok(ChannelReading { channel, raw_code: raw, data_ready: true }),
            None => Err(AdcFault::Protocol),
        }
    }
}

/// What one poll of a device returns, given the status word and the payloads
/// of the transaction and of its single retry (nothing where the transport
/// failed): no reading when no conversion is ready; otherwise the first
/// payload that arrived decodes, and a transport fault stands only when both
/// attempts failed.
pub open spec fn spec_poll(
    device_id: u8,
    status: u8,
    first: Option<[u8; 4]>,
    second: Option<[u8; 4]>,
) -> Result<Option<ChannelReading>, AdcFault> {
    if !spec_data_ready(status) {
        Ok(None)
    } else {
        let payload = if first is Some {
            first
        } else {
            second
        };
        match payload {
            Some(bytes) => match spec_decode(device_id, bytes) {
                Ok(reading) => Ok(Some(reading)),
                Err(fault) => Err(fault),
            },
            None => Err(AdcFault::Transport),
        }
    }
}

/// One poll of one device while it holds the bus: the transaction outcome is
/// `spec_poll`, and the device is marked untrustworthy exactly on a transport
/// fault.
fn poll_device(
    dev: &mut Ad7172,
    bus: &mut BusArbiter,
    status: u8,
    first: Option<[u8; 4]>,
    second: Option<[u8; 4]>,
) -> (r: Result<Option<ChannelReading>, AdcFault>)
    requires
        old(bus).is_free(),
        old(dev).usable,
        old(dev).device_id < 4,
        !old(dev).cs.asserted,
    ensures
        final(bus).is_free(),
        r == spec_poll(old(dev).device_id, status, first, second),
        final(dev).device_id == old(dev).device_id,
        final(dev).cs == old(dev).cs,
        final(dev).cache == old(dev).cache,
        final(dev).log == old(dev).log,
        r == Err::<Option<ChannelReading>, AdcFault>(AdcFault::Transport) ==> !final(dev).usable,
        r != Err::<Option<ChannelReading>, AdcFault>(AdcFault::Transport) ==> final(dev).usable,
{
    let granted = bus.try_acquire(dev.device_id);
    dev.cs.asserted = true;
    let r: Result<Option<ChannelReading>, AdcFault> = if !data_ready(status) {
        Ok(None)
    } else {
        match first {
            Some(bytes) => match decode_sample(dev.device_id, bytes) {
                Ok(reading) => Ok(Some(reading)),
                Err(fault) => Err(fault),
            },
            None => match second {
                Some(bytes) => match decode_sample(dev.device_id, bytes) {
                    Ok(reading) => Ok(Some(reading)),
                    Err(fault) => Err(fault),
                },
                None => {
                    dev.usable = false;
                    Err(AdcFault::Transport)
                },
            },
        }
    };
    dev.cs.asserted = false;
    bus.release(dev.device_id);
    r
}

/// All six configuration acknowledgements, in write order.
pub open spec fn spec_all_acked(acks: [bool; 6]) -> bool {
    acks[0] && acks[1] && acks[2] && acks[3] && acks[4] && acks[5]
}

/// The four conversion devices of the thermostat and the arbiter of their
/// shared bus.
pub struct Adc {
    /// The devices, in bus order.
    pub adcs: (Ad7172, Ad7172, Ad7172, Ad7172),
    /// The arbiter serializing all transactions on the shared bus.
    pub bus: BusArbiter,
}

impl Adc {
    /// The device with the given index (meaningful below 4 only).
    pub open spec fn device(self, i: int) -> Ad7172 {
        if i == 0 {
            self.adcs.0
        } else if i == 1 {
            self.adcs.1
        } else if i == 2 {
            self.adcs.2
        } else {
            self.adcs.3
        }
    }

    /// The subsystem's invariant: the devices carry their bus indices, and a
    /// chip select is asserted exactly while the arbiter has granted the bus
    /// to that device.
    pub open spec fn wf(self) -> bool {
        &&& self.adcs.0.device_id == 0
        &&& self.adcs.1.device_id == 1
        &&& self.adcs.2.device_id == 2
        &&& self.adcs.3.device_id == 3
        &&& (self.adcs.0.cs.asserted <==> self.bus.holds(0))
        &&& (self.adcs.1.cs.asserted <==> self.bus.holds(1))
        &&& (self.adcs.2.cs.asserted <==> self.bus.holds(2))
        &&& (self.adcs.3.cs.asserted <==> self.bus.holds(3))
    }

    /// Construct the driver for all four devices: every chip select starts
    /// deasserted, the bus starts free, and each device is configured by the
    /// fixed register sequence.
    pub fn new(pins: AdcPins) -> (adc: Adc)
        ensures
            adc.wf(),
            adc.bus.is_free(),
            spec_configured(adc.adcs.0),
            spec_configured(adc.adcs.1),
            spec_configured(adc.adcs.2),
            spec_configured(adc.adcs.3),
            adc.adcs.0.cs.line == pins.cs.0.line,
            adc.adcs.1.cs.line == pins.cs.1.line,
            adc.adcs.2.cs.line == pins.cs.2.line,
            adc.adcs.3.cs.line == pins.cs.3.line,
    {
        let mut d0 = Ad7172 {
            device_id: 0,
            cs: ChipSelect { line: pins.cs.0.line, asserted: false },
            cache: [None, None, None, None, None, None],
            log: Vec::new(),
            usable: true,
        };
        let mut d1 = Ad7172 {
            device_id: 1,
            cs: ChipSelect { line: pins.cs.1.line, asserted: false },
            cache: [None, None, None, None, None, None],
            log: Vec::new(),
            usable: true,
        };
        let mut d2 = Ad7172 {
            device_id: 2,
            cs: ChipSelect { line: pins.cs.2.line, asserted: false },
            cache: [None, None, None, None, None, None],
            log: Vec::new(),
            usable: true,
        };
        let mut d3 = Ad7172 {
            device_id: 3,
            cs: ChipSelect { line: pins.cs.3.line, asserted: false },
            cache: [None, None, None, None, None, None],
            log: Vec::new(),
            usable: true,
        };
        Adc::setup_adc(&mut d0);
        Adc::setup_adc(&mut d1);
        Adc::setup_adc(&mut d2);
        Adc::setup_adc(&mut d3);
        Adc { adcs: (d0, d1, d2, d3), bus: BusArbiter::new() }
    }

    /// Perform one device's configuration sequence: the five register
    /// programming steps (the channel step writes two registers), in the one
    /// acceptable order.
    pub fn setup_adc(adc: &mut Ad7172)
        ensures
            final(adc).device_id == old(adc).device_id,
            final(adc).cs == old(adc).cs,
            final(adc).usable == old(adc).usable,
            final(adc).log@ == old(adc).log@ + spec_setup_writes(),
            final(adc).cache[0] == Some(adcmode_setup().spec_encode()),
            final(adc).cache[1] == Some(ifmode_setup().spec_encode()),
            final(adc).cache[2] == Some(ch0_setup().spec_encode()),
            final(adc).cache[3] == Some(ch1_setup().spec_encode()),
            final(adc).cache[4] == Some(setupcon_setup().spec_encode()),
            final(adc).cache[5] == Some(filtcon_setup().spec_encode()),
    {
        adc.write(
            AdcReg::Adcmode,
            AdcmodeConfig {
                ref_en: RefEnable::Enabled,
                mode: ConversionMode::Continuous,
                clocksel: ClockSource::External,
            }.encode(),
        );
        adc.write(AdcReg::Ifmode, IfmodeConfig { data_stat: DataStat::Enabled }.encode());
        adc.write(
            AdcReg::Ch0,
            ChannelConfig {
                setup: SetupSel::Setup0,
                ainpos: AnalogInput::Ain0,
                ainneg: AnalogInput::Ain1,
            }.encode(),
        );
        adc.write(
            AdcReg::Ch1,
            ChannelConfig {
                setup: SetupSel::Setup0,
                ainpos: AnalogInput::Ain2,
                ainneg: AnalogInput::Ain3,
            }.encode(),
        );
        adc.write(
            AdcReg::Setupcon0,
            SetupConfig {
                polarity: Polarity::Unipolar,
                ref_buffers: RefBuffers::Enabled,
                input_buffers: InputBuffers::Enabled,
                ref_select: RefSelect::External,
            }.encode(),
        );
        adc.write(
            AdcReg::Filtcon0,
            FilterConfig { order: FilterOrder::Sinc5Sinc1, odr: OutputDataRate::Sps10 }.encode(),
        );
        proof {
            assert(adc.log@ =~= old(adc).log@ + spec_setup_writes());
        }
    }

    /// Check the acknowledgements of one device's configuration writes. Any
    /// missing acknowledgement is a setup fault: the device is marked
    /// untrustworthy and must not be polled again.
    pub fn confirm_setup(&mut self, device: usize, acks: &[bool; 6]) -> (r: Result<(), AdcFault>)
        requires
            device < 4,
            old(self).wf(),
        ensures
            final(self).wf(),
            final(self).bus == old(self).bus,
            spec_all_acked(*acks) ==> r == Ok::<(), AdcFault>(()) && *final(self) == *old(self),
            !spec_all_acked(*acks) ==> r == Err::<(), AdcFault>(AdcFault::Setup)
                && !final(self).device(device as int).usable,
            ({
                let d_old = old(self).device(device as int);
                let d_new = final(self).device(device as int);
                d_new.device_id == d_old.device_id && d_new.cs == d_old.cs && d_new.cache
                    == d_old.cache && d_new.log == d_old.log
            }),
            forall|j: int|
                0 <= j < 4 && j != device ==> final(self).device(j) == old(self).device(j),
    {
        if acks[0] && acks[1] && acks[2] && acks[3] && acks[4] && acks[5] {
            Ok(())
        } else {
            match device {
                0 => self.adcs.0.usable = false,
                1 => self.adcs.1.usable = false,
                2 => self.adcs.2.usable = false,
                _ => self.adcs.3.usable = false,
            }
            Err(AdcFault::Setup)
        }
    }

    /// Try to take the shared bus for one device, asserting its chip select.
    /// The grant succeeds exactly when the bus is free; nothing changes on a
    /// busy bus.
    pub fn claim_bus(&mut self, device: usize) -> (granted: bool)
        requires
            device < 4,
            old(self).wf(),
        ensures
            final(self).wf(),
            granted == old(self).bus.is_free(),
            granted ==> final(self).bus.holds(device as u8)
                && final(self).device(device as int).cs.asserted,
            !granted ==> *final(self) == *old(self),
            ({
                let d_old = old(self).device(device as int);
                let d_new = final(self).device(device as int);
                d_new.device_id == d_old.device_id && d_new.cs.line == d_old.cs.line
                    && d_new.cache == d_old.cache && d_new.log == d_old.log && d_new.usable
                    == d_old.usable
            }),
            forall|j: int|
                0 <= j < 4 && j != device ==> final(self).device(j) == old(self).device(j),
    {
        let granted = self.bus.try_acquire(device as u8);
        if granted {
            match device {
                0 => self.adcs.0.cs.asserted = true,
                1 => self.adcs.1.cs.asserted = true,
                2 => self.adcs.2.cs.asserted = true,
                _ => self.adcs.3.cs.asserted = true,
            }
        }
        granted
    }

    /// Give the shared bus back, deasserting the holder's chip select.
    pub fn release_bus(&mut self, device: usize)
        requires
            device < 4,
            old(self).wf(),
            old(self).bus.holds(device as u8),
        ensures
            final(self).wf(),
            final(self).bus.is_free(),
            !final(self).device(device as int).cs.asserted,
            ({
                let d_old = old(self).device(device as int);
                let d_new = final(self).device(device as int);
                d_new.device_id == d_old.device_id && d_new.cs.line == d_old.cs.line
                    && d_new.cache == d_old.cache && d_new.log == d_old.log && d_new.usable
                    == d_old.usable
            }),
            forall|j: int|
                0 <= j < 4 && j != device ==> final(self).device(j) == old(self).device(j),
    {
        match device {
            0 => self.adcs.0.cs.asserted = false,
            1 => self.adcs.1.cs.asserted = false,
            2 => self.adcs.2.cs.asserted = false,
            _ => self.adcs.3.cs.asserted = false,
        }
        self.bus.release(device as u8);
    }

    /// Poll one device for a completed conversion: take the bus, run the
    /// transaction, release the bus. `status` is the device's status word;
    /// `first` and `second` are the payloads the transport returned for the
    /// data read and for its single retry (nothing where it failed). Returns
    /// no reading when no conversion is ready, the decoded reading otherwise,
    /// or the fault that stopped it; only a double transport failure makes
    /// the device untrustworthy.
    pub fn poll(
        &mut self,
        device: usize,
        status: u8,
        first: Option<[u8; 4]>,
        second: Option<[u8; 4]>,
    ) -> (r: Result<Option<ChannelReading>, AdcFault>)
        requires
            device < 4,
            old(self).wf(),
            old(self).bus.is_free(),
            old(self).device(device as int).usable,
        ensures
            final(self).wf(),
            final(self).bus.is_free(),
            r == spec_poll(device as u8, status, first, second),
            final(self).device(device as int).cs == old(self).device(device as int).cs,
            final(self).device(device as int).cache == old(self).device(device as int).cache,
            final(self).device(device as int).log == old(self).device(device as int).log,
            r == Err::<Option<ChannelReading>, AdcFault>(AdcFault::Transport)
                ==> !final(self).device(device as int).usable,
            r != Err::<Option<ChannelReading>, AdcFault>(AdcFault::Transport)
                ==> final(self).device(device as int).usable,
            forall|j: int|
                0 <= j < 4 && j != device ==> final(self).device(j) == old(self).device(j),
    {
        match device {
            0 => poll_device(&mut self.adcs.0, &mut self.bus, status, first, second),
            1 => poll_device(&mut self.adcs.1, &mut self.bus, status, first, second),
            2 => poll_device(&mut self.adcs.2, &mut self.bus, status, first, second),
            _ => poll_device(&mut self.adcs.3, &mut self.bus, status, first, second),
        }
    }
}

/// Chip-select exclusivity: while the invariant holds, no two devices'
/// bus-asserted windows overlap — at any instant at most one chip select is
/// asserted.
pub proof fn lemma_chip_select_exclusive(adc: Adc, i: int, j: int)
    requires
        adc.wf(),
        0 <= i < 4,
        0 <= j < 4,
        adc.device(i).cs.asserted,
        adc.device(j).cs.asserted,
    ensures
        i == j,
{
}

/// Protocol fault isolation: a malformed channel tag makes that sample alone
/// a protocol fault, while any well-formed sample — on the same device or
/// another, in the same tick or a later one — still decodes to a reading on
/// its own channel. Together with `poll` leaving the device trustworthy on a
/// protocol fault, one bad tag never stops the other channels.
pub proof fn lemma_protocol_fault_isolated(
    d_bad: u8,
    bad: [u8; 4],
    d_good: u8,
    good: [u8; 4],
    status: u8,
)
    requires
        spec_data_ready(status),
        spec_channel_tag(bad) >= 2,
        spec_channel_tag(good) < 2,
        d_good < 4,
    ensures
        spec_poll(d_bad, status, Some(bad), None) == Err::<Option<ChannelReading>, AdcFault>(
            AdcFault::Protocol,
        ),
        spec_poll(d_good, status, Some(good), None) matches Ok(Some(reading))
            && reading.channel.spec_index() == d_good * 2 + spec_channel_tag(good),
{
}

/// Last-known-good per-channel inputs of one control tick: every channel
/// holds the most recent temperature recorded for it, and is flagged stale
/// until a fresh reading arrives within the current tick.
pub struct InputBank {
    /// The last temperature recorded per channel, Q16.16.
    pub values: [i32; 8],
    /// Whether each channel is still waiting for a fresh reading this tick.
    pub stale: [bool; 8],
}

impl InputBank {
    /// A bank holding the given fallback temperatures, all stale.
    pub fn new(initial: [i32; 8]) -> (bank: InputBank)
        ensures
            bank.values == initial,
            forall|j: int| 0 <= j < 8 ==> bank.stale[j],
    {
        InputBank { values: initial, stale: [true, true, true, true, true, true, true, true] }
    }

    /// Open a new control tick: every channel keeps its last-known-good value
    /// but is flagged stale until a fresh reading arrives.
    pub fn begin_tick(&mut self)
        ensures
            final(self).values == old(self).values,
            forall|j: int| 0 <= j < 8 ==> final(self).stale[j],
    {
        self.stale = [true, true, true, true, true, true, true, true];
    }

    /// Record a fresh temperature for one channel; every other channel keeps
    /// its value and staleness.
    pub fn record(&mut self, channel: InputChannel, temperature: i32)
        ensures
            final(self).values@ == old(self).values@.update(channel.spec_index(), temperature),
            final(self).stale@ == old(self).stale@.update(channel.spec_index(), false),
    {
        let idx = channel.index();
        let v = self.values;
        let s = self.stale;
        self.values = [
            if idx == 0 { temperature } else { v[0] },
            if idx == 1 { temperature } else { v[1] },
            if idx == 2 { temperature } else { v[2] },
            if idx == 3 { temperature } else { v[3] },
            if idx == 4 { temperature } else { v[4] },
            if idx == 5 { temperature } else { v[5] },
            if idx == 6 { temperature } else { v[6] },
            if idx == 7 { temperature } else { v[7] },
        ];
        self.stale = [
            if idx == 0 { false } else { s[0] },
            if idx == 1 { false } else { s[1] },
            if idx == 2 { false } else { s[2] },
            if idx == 3 { false } else { s[3] },
            if idx == 4 { false } else { s[4] },
            if idx == 5 { false } else { s[5] },
            if idx == 6 { false } else { s[6] },
            if idx == 7 { false } else { s[7] },
        ];
        proof {
            assert(self.values@ =~= old(self).values@.update(channel.spec_index(), temperature));
            assert(self.stale@ =~= old(self).stale@.update(channel.spec_index(), false));
        }
    }

    /// Feed one poll outcome into the bank: a reading records its channel's
    /// temperature; anything else — no fresh conversion, or any fault —
    /// leaves every channel untouched, so one failing sample never disturbs
    /// the others.
    pub fn apply(
        &mut self,
        outcome: &Result<Option<ChannelReading>, AdcFault>,
        temperature: i32,
    )
        ensures
            match *outcome {
                Ok(Some(reading)) => final(self).values@ == old(self).values@.update(
                    reading.channel.spec_index(),
                    temperature,
                ) && final(self).stale@ == old(self).stale@.update(
                    reading.channel.spec_index(),
                    false,
                ),
                _ => *final(self) == *old(self),
            },
    {
        match outcome {
            Ok(Some(reading)) => self.record(reading.channel, temperature),
            _ => (),
        }
    }

    /// The eight channel temperatures to feed the datapath this tick.
    pub fn temperatures(&self) -> (t: [i32; 8])
        ensures
            t == self.values,
    {
        self.values
    }

    /// Whether the channel is still waiting for a fresh reading this tick.
    pub fn is_stale(&self, channel: InputChannel) -> (r: bool)
        ensures
            r == self.stale[channel.spec_index()],
    {
        self.stale[channel.index()]
    }
}

} // verus!
