//! Radio parameters, driver settings and the mapping of driver outcomes.
use vstd::prelude::*;
use crate::rx_buffer::{rx_buffer_bytes, rx_buffer_clear, rx_buffer_extend, rx_buffer_new, rx_contents};

verus! {

/// LoRa channel bandwidth.
#[derive(Clone, Copy, Debug, PartialEq, Eq, Structural)]
pub enum LoRaBandwidth {
    Khz125,
    Khz250,
    Khz500,
    Reserved,
}

/// The bandwidth that a request may ask for: one of the usable LoRa
/// bandwidths, never the reserved code.
#[derive(Clone, Copy, Debug, PartialEq, Eq, Structural)]
pub enum Bandwidth {
    Khz125,
    Khz250,
    Khz500,
}

/// The LoRa bandwidth that a requested bandwidth stands for.
pub open spec fn lora_bandwidth(b: Bandwidth) -> LoRaBandwidth {
    match b {
        Bandwidth::Khz125 => LoRaBandwidth::Khz125,
        Bandwidth::Khz250 => LoRaBandwidth::Khz250,
        Bandwidth::Khz500 => LoRaBandwidth::Khz500,
    }
}

impl Bandwidth {
    pub fn to_lora(self) -> (r: LoRaBandwidth)
        ensures
            r == lora_bandwidth(self),
            !(r is Reserved),
    {
        match self {
            Bandwidth::Khz125 => LoRaBandwidth::Khz125,
            Bandwidth::Khz250 => LoRaBandwidth::Khz250,
            Bandwidth::Khz500 => LoRaBandwidth::Khz500,
        }
    }
}

/// LoRa spreading factor, 7 to 12.
#[derive(Clone, Copy, Debug, PartialEq, Eq, Structural)]
pub enum LoRaSpreadingFactor {
    Sf7,
    Sf8,
    Sf9,
    Sf10,
    Sf11,
    Sf12,
}

/// LoRa coding rate, 4/5 to 4/8.
#[derive(Clone, Copy, Debug, PartialEq, Eq, Structural)]
pub enum LoRaCodingRate {
    Cr45,
    Cr46,
    Cr47,
    Cr48,
}

/// The driver's code for a bandwidth.
pub open spec fn bandwidth_code(b: LoRaBandwidth) -> u32 {
    match b {
        LoRaBandwidth::Khz125 => 0,
        LoRaBandwidth::Khz250 => 1,
        LoRaBandwidth::Khz500 => 2,
        LoRaBandwidth::Reserved => 3,
    }
}

/// The driver's code for a spreading factor: the factor itself.
pub open spec fn spreading_factor_code(s: LoRaSpreadingFactor) -> u32 {
    match s {
        LoRaSpreadingFactor::Sf7 => 7,
        LoRaSpreadingFactor::Sf8 => 8,
        LoRaSpreadingFactor::Sf9 => 9,
        LoRaSpreadingFactor::Sf10 => 10,
        LoRaSpreadingFactor::Sf11 => 11,
        LoRaSpreadingFactor::Sf12 => 12,
    }
}

/// The driver's code for a coding rate 4/(4+n): n.
pub open spec fn coding_rate_code(c: LoRaCodingRate) -> u8 {
    match c {
        LoRaCodingRate::Cr45 => 1,
        LoRaCodingRate::Cr46 => 2,
        LoRaCodingRate::Cr47 => 3,
        LoRaCodingRate::Cr48 => 4,
    }
}

impl LoRaBandwidth {
    pub fn code(self) -> (r: u32)
        ensures
            r == bandwidth_code(self),
    {
        match self {
            LoRaBandwidth::Khz125 => 0,
            LoRaBandwidth::Khz250 => 1,
            LoRaBandwidth::Khz500 => 2,
            LoRaBandwidth::Reserved => 3,
        }
    }
}

impl LoRaSpreadingFactor {
    pub fn code(self) -> (r: u32)
        ensures
            r == spreading_factor_code(self),
    {
        match self {
            LoRaSpreadingFactor::Sf7 => 7,
            LoRaSpreadingFactor::Sf8 => 8,
            LoRaSpreadingFactor::Sf9 => 9,
            LoRaSpreadingFactor::Sf10 => 10,
            LoRaSpreadingFactor::Sf11 => 11,
            LoRaSpreadingFactor::Sf12 => 12,
        }
    }
}

impl LoRaCodingRate {
    pub fn code(self) -> (r: u8)
        ensures
            r == coding_rate_code(self),
    {
        match self {
            LoRaCodingRate::Cr45 => 1,
            LoRaCodingRate::Cr46 => 2,
            LoRaCodingRate::Cr47 => 3,
            LoRaCodingRate::Cr48 => 4,
        }
    }
}


/// Frequency hopping: off, or on with a number of symbols between hops.
#[derive(Clone, Copy, Debug, PartialEq, Eq, Structural)]
pub enum HopPeriod {
    Disabled,
    Enabled(u8),
}

/// Whether the I/Q signals are inverted when receiving and when sending.
#[derive(Clone, Copy, Debug, PartialEq, Eq, Structural)]
pub struct IqInverted {
    pub rx: bool,
    pub tx: bool,
}

/// The settings that the driver applies to every transmission and reception.
#[derive(Clone, Copy, Debug, PartialEq, Eq, Structural)]
pub struct Settings {
    pub iq_inverted: IqInverted,
    pub hop_period: HopPeriod,
    pub crc_on: bool,
    pub fix_len: bool,
    pub preamble_len: u16,
    /// Reception timeout, in FSK bytes or LoRa symbols.
    pub timeout: u16,
    pub continuous_rx: bool,
}

/// The settings of a freshly initialised driver.
pub open spec fn default_settings() -> Settings {
    Settings {
        iq_inverted: IqInverted { tx: false, rx: true },
        hop_period: HopPeriod::Disabled,
        crc_on: true,
        fix_len: false,
        preamble_len: 8,
        timeout: 5,
        continuous_rx: true,
    }
}

/// The frequency-hopping flag and period handed to the driver.
pub open spec fn hop_flags(h: HopPeriod) -> (bool, u8) {
    match h {
        HopPeriod::Enabled(period) => (true, period),
        HopPeriod::Disabled => (false, 0),
    }
}

fn hop_flags_of(h: HopPeriod) -> (r: (bool, u8))
    ensures
        r == hop_flags(h),
{
    match h {
        HopPeriod::Enabled(period) => (true, period),
        HopPeriod::Disabled => (false, 0),
    }
}

/// The modem that a configuration selects.
#[derive(Clone, Copy, Debug, PartialEq, Eq, Structural)]
pub enum Modem {
    Fsk,
    Lora,
}

/// Transmission timeout, in milliseconds, that every LoRa transmission is given.
pub const LORA_TX_TIMEOUT_MS: u32 = 3000;

/// The arguments of the driver's transmit configuration call.
#[derive(Clone, Copy, Debug, PartialEq, Eq, Structural)]
pub struct TxParams {
    pub modem: Modem,
    pub power: i8,
    pub fdev: u32,
    pub bandwidth: u32,
    pub datarate: u32,
    pub coderate: u8,
    pub preamble_len: u16,
    pub fix_len: bool,
    pub crc_on: bool,
    pub freq_hop_on: bool,
    pub hop_period: u8,
    pub iq_inverted: bool,
    pub timeout: u32,
}

/// The arguments of the driver's receive configuration call.
#[derive(Clone, Copy, Debug, PartialEq, Eq, Structural)]
pub struct RxParams {
    pub modem: Modem,
    pub bandwidth: u32,
    pub datarate: u32,
    pub coderate: u8,
    pub bandwidth_afc: u32,
    pub preamble_len: u16,
    pub symb_timeout: u16,
    pub fix_len: bool,
    pub payload_len: u8,
    pub crc_on: bool,
    pub freq_hop_on: bool,
    pub hop_period: u8,
    pub iq_inverted: bool,
    pub rx_continuous: bool,
}

/// FSK transmission: frequency deviation and data rate as given, no hopping,
/// no inversion, no timeout.
pub open spec fn fsk_tx_params(s: Settings, power: i8, fdev: u32, datarate: u32) -> TxParams {
    TxParams {
        modem: Modem::Fsk,
        power,
        fdev,
        bandwidth: 0,
        datarate,
        coderate: 0,
        preamble_len: s.preamble_len,
        fix_len: s.fix_len,
        crc_on: s.crc_on,
        freq_hop_on: false,
        hop_period: 0,
        iq_inverted: false,
        timeout: 0,
    }
}

/// LoRa transmission: the modulation as given, the rest from the settings.
pub open spec fn lora_tx_params(
    s: Settings,
    power: i8,
    bandwidth: LoRaBandwidth,
    datarate: LoRaSpreadingFactor,
    coderate: LoRaCodingRate,
) -> TxParams {
    TxParams {
        modem: Modem::Lora,
        power,
        fdev: 0,
        bandwidth: bandwidth_code(bandwidth),
        datarate: spreading_factor_code(datarate),
        coderate: coding_rate_code(coderate),
        preamble_len: s.preamble_len,
        fix_len: s.fix_len,
        crc_on: s.crc_on,
        freq_hop_on: hop_flags(s.hop_period).0,
        hop_period: hop_flags(s.hop_period).1,
        iq_inverted: s.iq_inverted.tx,
        timeout: LORA_TX_TIMEOUT_MS,
    }
}

/// LoRa reception: the modulation as given, the rest from the settings.
pub open spec fn lora_rx_params(
    s: Settings,
    bandwidth: LoRaBandwidth,
    datarate: LoRaSpreadingFactor,
    coderate: LoRaCodingRate,
) -> RxParams {
    RxParams {
        modem: Modem::Lora,
        bandwidth: bandwidth_code(bandwidth),
        datarate: spreading_factor_code(datarate),
        coderate: coding_rate_code(coderate),
        bandwidth_afc: 0,
        preamble_len: s.preamble_len,
        symb_timeout: s.timeout,
        fix_len: s.fix_len,
        payload_len: 0,
        crc_on: s.crc_on,
        freq_hop_on: hop_flags(s.hop_period).0,
        hop_period: hop_flags(s.hop_period).1,
        iq_inverted: s.iq_inverted.rx,
        rx_continuous: s.continuous_rx,
    }
}


/// An interrupt that the radio hardware raises: one of its DIO lines, with the
/// tick count latched when it fired, or one of its timers.
#[derive(Clone, Copy, Debug, PartialEq, Eq, Structural)]
pub enum Event {
    DIO0(u32),
    DIO1(u32),
    DIO2(u32),
    DIO3(u32),
    DIO4(u32),
    DIO5(u32),
    Timer1,
    Timer2,
    Timer3,
}

/// What the driver reports after it has handled an interrupt.
#[derive(Clone, Copy, Debug, PartialEq, Eq, Structural)]
pub enum DriverState {
    Busy,
    TxDone,
    RxDone,
    TxTimeout,
    RxTimeout,
    RxError,
}

/// What the driver reports of a received packet.
#[derive(Clone, Copy, Debug, PartialEq, Eq, Structural)]
pub struct RxMetadata {
    pub rx_len: u8,
    pub rssi: i16,
    pub snr: i8,
}

/// Signal quality of a received packet.
#[derive(Clone, Copy, Debug, PartialEq, Eq, Structural)]
pub struct RxQuality {
    pub rssi: i16,
    pub snr: i8,
}

impl RxQuality {
    pub fn new(rssi: i16, snr: i8) -> (r: RxQuality)
        ensures
            r == (RxQuality { rssi, snr }),
    {
        RxQuality { rssi, snr }
    }

    pub fn rssi(&self) -> (r: i16)
        ensures
            r == self.rssi,
    {
        self.rssi
    }

    pub fn snr(&self) -> (r: i8)
        ensures
            r == self.snr,
    {
        self.snr
    }
}

/// The outcome of an interrupt, as the driver adapter reports it.
#[derive(Clone, Copy, Debug, PartialEq, Eq, Structural)]
pub enum Response {
    Busy,
    TxDone(u32),
    RxDone(u32, RxQuality),
    TxTimeout,
    RxTimeout,
    RxError,
}

/// A packet is taken in when the driver reports it on DIO0 and holds the
/// bytes that it says it received.
pub open spec fn keeps_packet(
    event: Event,
    state: DriverState,
    metadata: RxMetadata,
    received_len: nat,
) -> bool {
    state is RxDone && event is DIO0 && metadata.rx_len <= received_len
}

/// The response to an interrupt that the driver reported as `state`, with
/// `received_len` bytes in its receive buffer. A completion reported on
/// another line than DIO0 is spurious; a packet longer than what the driver
/// holds is a reception fault.
pub open spec fn outcome_response(
    event: Event,
    state: DriverState,
    metadata: RxMetadata,
    received_len: nat,
) -> Response {
    match state {
        DriverState::Busy => Response::Busy,
        DriverState::TxDone => match event {
            Event::DIO0(t) => Response::TxDone(t),
            _ => Response::Busy,
        },
        DriverState::RxDone => match event {
            Event::DIO0(t) => if metadata.rx_len <= received_len {
                Response::RxDone(t, RxQuality { rssi: metadata.rssi, snr: metadata.snr })
            } else {
                Response::RxError
            },
            _ => Response::Busy,
        },
        DriverState::TxTimeout => Response::TxTimeout,
        DriverState::RxTimeout => Response::RxTimeout,
        DriverState::RxError => Response::RxError,
    }
}

/// The driver adapter: the settings applied to each configuration and the
/// buffer that holds the last received packet.
pub struct Sx12xx {
    settings: Settings,
    rx_buffer: heapless::Vec<u8, 256>,
}

impl Sx12xx {
    /// The settings in force.
    pub closed spec fn settings_spec(&self) -> Settings {
        self.settings
    }

    /// The bytes of the last received packet.
    pub closed spec fn received(&self) -> Seq<u8> {
        rx_contents(self.rx_buffer)
    }

    /// A driver with the default settings and an empty receive buffer.
    pub fn new() -> (r: Sx12xx)
        ensures
            r.settings_spec() == default_settings(),
            r.received() == Seq::<u8>::empty(),
    {
        Sx12xx {
            settings: Settings {
                iq_inverted: IqInverted { tx: false, rx: true },
                hop_period: HopPeriod::Disabled,
                crc_on: true,
                fix_len: false,
                preamble_len: 8,
                timeout: 5,
                continuous_rx: true,
            },
            rx_buffer: rx_buffer_new(),
        }
    }

    /// The settings in force.
    pub fn settings(&self) -> (r: Settings)
        ensures
            r == self.settings_spec(),
    {
        self.settings
    }

    /// Turns the driver's report on an interrupt into a response. On a
    /// received packet the first `metadata.rx_len` bytes of `received` become
    /// the content of the receive buffer.
    pub fn handle_event(
        &mut self,
        event: Event,
        state: DriverState,
        metadata: RxMetadata,
        received: &[u8],
    ) -> (r: Response)
        ensures
            r == outcome_response(event, state, metadata, received@.len()),
            final(self).settings_spec() == old(self).settings_spec(),
            keeps_packet(event, state, metadata, received@.len()) ==> final(self).received()
                == received@.subrange(0, metadata.rx_len as int),
            !keeps_packet(event, state, metadata, received@.len()) ==> final(self).received()
                == old(self).received(),
    {
        match state {
            DriverState::Busy => Response::Busy,
            DriverState::TxDone => {
                match event {
                    Event::DIO0(t) => Response::TxDone(t),
                    _ => Response::Busy,
                }
            },
            DriverState::RxDone => {
                match event {
                    Event::DIO0(t) => {
                        if metadata.rx_len as usize > received.len() {
                            return Response::RxError;
                        }
                        let packet = vstd::slice::slice_subrange(received, 0, metadata.rx_len as usize);
                        rx_buffer_clear(&mut self.rx_buffer);
                        let _ = rx_buffer_extend(&mut self.rx_buffer, packet);
                        Response::RxDone(t, RxQuality::new(metadata.rssi, metadata.snr))
                    },
                    _ => Response::Busy,
                }
            },
            DriverState::TxTimeout => Response::TxTimeout,
            DriverState::RxTimeout => Response::RxTimeout,
            DriverState::RxError => Response::RxError,
        }
    }

    /// The bytes of the last received packet.
    pub fn get_rx(&self) -> (r: &[u8])
        ensures
            r@ == self.received(),
            r@.len() <= 256,
    {
        rx_buffer_bytes(&self.rx_buffer)
    }

    /// Driver arguments for an FSK transmission.
    pub fn configure_fsk_tx(&self, power: i8, fdev: u32, datarate: u32) -> (r: TxParams)
        ensures
            r == fsk_tx_params(self.settings_spec(), power, fdev, datarate),
    {
        TxParams {
            modem: Modem::Fsk,
            power,
            fdev,
            bandwidth: 0,
            datarate,
            coderate: 0,
            preamble_len: self.settings.preamble_len,
            fix_len: self.settings.fix_len,
            crc_on: self.settings.crc_on,
            freq_hop_on: false,
            hop_period: 0,
            iq_inverted: false,
            timeout: 0,
        }
    }

    /// Driver arguments for a LoRa transmission.
    pub fn configure_lora_tx(
        &self,
        power: i8,
        bandwidth: LoRaBandwidth,
        datarate: LoRaSpreadingFactor,
        coderate: LoRaCodingRate,
    ) -> (r: TxParams)
        ensures
            r == lora_tx_params(self.settings_spec(), power, bandwidth, datarate, coderate),
    {
        let (freq_hop_on, hop_period) = hop_flags_of(self.settings.hop_period);
        TxParams {
            modem: Modem::Lora,
            power,
            fdev: 0,
            bandwidth: bandwidth.code(),
            datarate: datarate.code(),
            coderate: coderate.code(),
            preamble_len: self.settings.preamble_len,
            fix_len: self.settings.fix_len,
            crc_on: self.settings.crc_on,
            freq_hop_on,
            hop_period,
            iq_inverted: self.settings.iq_inverted.tx,
            timeout: LORA_TX_TIMEOUT_MS,
        }
    }

    /// Driver arguments for a LoRa reception.
    pub fn configure_lora_rx(
        &self,
        bandwidth: LoRaBandwidth,
        datarate: LoRaSpreadingFactor,
        coderate: LoRaCodingRate,
    ) -> (r: RxParams)
        ensures
            r == lora_rx_params(self.settings_spec(), bandwidth, datarate, coderate),
    {
        let (freq_hop_on, hop_period) = hop_flags_of(self.settings.hop_period);
        RxParams {
            modem: Modem::Lora,
            bandwidth: bandwidth.code(),
            datarate: datarate.code(),
            coderate: coderate.code(),
            bandwidth_afc: 0,
            preamble_len: self.settings.preamble_len,
            symb_timeout: self.settings.timeout,
            fix_len: self.settings.fix_len,
            payload_len: 0,
            crc_on: self.settings.crc_on,
            freq_hop_on,
            hop_period,
            iq_inverted: self.settings.iq_inverted.rx,
            rx_continuous: self.settings.continuous_rx,
        }
    }

    pub fn enable_hop_period(&mut self, period: u8)
        ensures
            final(self).settings_spec() == (Settings {
                hop_period: HopPeriod::Enabled(period),
                ..old(self).settings_spec()
            }),
            final(self).received() == old(self).received(),
    {
        self.settings.hop_period = HopPeriod::Enabled(period);
    }

    pub fn disable_hop_period(&mut self)
        ensures
            final(self).settings_spec() == (Settings {
                hop_period: HopPeriod::Disabled,
                ..old(self).settings_spec()
            }),
            final(self).received() == old(self).received(),
    {
        self.settings.hop_period = HopPeriod::Disabled;
    }

    pub fn set_iq_invert_tx(&mut self, set: bool)
        ensures
            final(self).settings_spec() == (Settings {
                iq_inverted: IqInverted { tx: set, ..old(self).settings_spec().iq_inverted },
                ..old(self).settings_spec()
            }),
            final(self).received() == old(self).received(),
    {
        self.settings.iq_inverted.tx = set;
    }

    pub fn set_iq_invert_rx(&mut self, set: bool)
        ensures
            final(self).settings_spec() == (Settings {
                iq_inverted: IqInverted { rx: set, ..old(self).settings_spec().iq_inverted },
                ..old(self).settings_spec()
            }),
            final(self).received() == old(self).received(),
    {
        self.settings.iq_inverted.rx = set;
    }

    /// Sets the reception timeout, in FSK bytes or LoRa symbols.
    pub fn set_timeout(&mut self, timeout: u16)
        ensures
            final(self).settings_spec() == (Settings { timeout, ..old(self).settings_spec() }),
            final(self).received() == old(self).received(),
    {
        self.settings.timeout = timeout;
    }
}

} // verus!
