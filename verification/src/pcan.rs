//! Session state for a PCAN channel, and the plain data handed to the live
//! transport. Talking to the hardware itself goes through the vendor's C
//! library and stays in the unverified front end; this layer holds the state
//! and the values that the front end's calls are made with.

use vstd::prelude::*;

verus! {

/// Kinds of PCAN message frames.
#[derive(Debug, Clone, Copy, PartialEq, Eq, Structural)]
pub enum TPCANMessageType {
    Standard,
    Rtr,
    Extended,
    Fd,
    Brs,
    Esi,
    Echo,
    ErrFrame,
    Status,
}

impl TPCANMessageType {
    /// The wire code of each frame kind.
    pub fn code(&self) -> (r: u8)
        ensures
            r == spec_message_type_code(*self),
    {
        match self {
            TPCANMessageType::Standard => 0x00,
            TPCANMessageType::Rtr => 0x01,
            TPCANMessageType::Extended => 0x02,
            TPCANMessageType::Fd => 0x04,
            TPCANMessageType::Brs => 0x08,
            TPCANMessageType::Esi => 0x10,
            TPCANMessageType::Echo => 0x20,
            TPCANMessageType::ErrFrame => 0x40,
            TPCANMessageType::Status => 0x80,
        }
    }
}

/// The wire code of each frame kind.
pub open spec fn spec_message_type_code(t: TPCANMessageType) -> u8 {
    match t {
        TPCANMessageType::Standard => 0x00,
        TPCANMessageType::Rtr => 0x01,
        TPCANMessageType::Extended => 0x02,
        TPCANMessageType::Fd => 0x04,
        TPCANMessageType::Brs => 0x08,
        TPCANMessageType::Esi => 0x10,
        TPCANMessageType::Echo => 0x20,
        TPCANMessageType::ErrFrame => 0x40,
        TPCANMessageType::Status => 0x80,
    }
}

/// One CAN message as the vendor library frames it.
#[derive(Debug, Clone, Copy)]
pub struct TPCANMsg {
    pub id: u32,
    pub msgtype: TPCANMessageType,
    pub len: u8,
    pub data: [u8; 8],
}

impl TPCANMsg {
    pub fn new(id: u32, msgtype: TPCANMessageType, len: u8, data: [u8; 8]) -> (r: Self)
        ensures
            r.id == id,
            r.msgtype == msgtype,
            r.len == len,
            r.data == data,
    {
        TPCANMsg { id, msgtype, len, data }
    }
}

/// A hardware timestamp: milliseconds, their roll-arounds, and microseconds.
#[derive(Debug, Clone, Copy)]
pub struct TPCANTimestamp {
    pub millis: u32,
    pub millis_overflow: u16,
    pub micros: u16,
}

impl TPCANTimestamp {
    pub fn new(millis: u32, millis_overflow: u16, micros: u16) -> (r: Self)
        ensures
            r.millis == millis,
            r.millis_overflow == millis_overflow,
            r.micros == micros,
    {
        TPCANTimestamp { millis, millis_overflow, micros }
    }
}

/// One open channel: the vendor handle and the baud-rate code it was opened
/// with.
#[derive(Debug, Clone, Copy)]
pub struct PeakCANSocket {
    pub handle: u16,
    pub baud_rate: u16,
}

impl PeakCANSocket {
    pub fn new(handle: u16, baud_rate: u16) -> (r: Self)
        ensures
            r.handle == handle,
            r.baud_rate == baud_rate,
    {
        PeakCANSocket { handle, baud_rate }
    }
}

/// One classic CAN frame: an identifier, a length code, and eight data
/// bytes with the unused tail zeroed.
#[derive(Debug, Clone, Copy)]
pub struct CanFrame {
    pub id: u32,
    pub dlc: u8,
    pub data: [u8; 8],
}

/// One ISO 15765 (ISO-TP) payload, as the protocol layer hands it around.
#[derive(Debug, Clone)]
pub struct ISO15765Data {
    pub id: u32,
    pub data: Vec<u8>,
    pub pad_frame: bool,
    pub ext_addressing: bool,
}

/// Map an ISO-TP payload onto one CAN frame: up to eight payload bytes are
/// copied, the rest of the frame stays zero, and the length code counts the
/// copied bytes.
pub fn iso15765_to_can_frame(t: &ISO15765Data) -> (r: CanFrame)
    ensures
        r.id == t.id,
        r.dlc == (if t.data@.len() < 8 {
            t.data@.len() as int
        } else {
            8
        }),
        r.data@ == Seq::new(
            8,
            |i: int|
                if i < t.data@.len() {
                    t.data@[i]
                } else {
                    0u8
                },
        ),
{
    let d = &t.data;
    let dlc: u8 = if d.len() < 8 {
        d.len() as u8
    } else {
        8
    };
    let b0 = if d.len() > 0 { d[0] } else { 0 };
    let b1 = if d.len() > 1 { d[1] } else { 0 };
    let b2 = if d.len() > 2 { d[2] } else { 0 };
    let b3 = if d.len() > 3 { d[3] } else { 0 };
    let b4 = if d.len() > 4 { d[4] } else { 0 };
    let b5 = if d.len() > 5 { d[5] } else { 0 };
    let b6 = if d.len() > 6 { d[6] } else { 0 };
    let b7 = if d.len() > 7 { d[7] } else { 0 };
    let data = [b0, b1, b2, b3, b4, b5, b6, b7];
    proof {
        assert(data@ =~= Seq::new(
            8,
            |i: int|
                if i < t.data@.len() {
                    t.data@[i]
                } else {
                    0u8
                },
        ));
    }
    CanFrame { id: t.id, dlc, data }
}

/// Map one received CAN frame back to an ISO-TP payload: all eight data
/// bytes are carried over, with plain addressing and no padding flag.
pub fn can_frame_to_iso15765(f: &CanFrame) -> (r: ISO15765Data)
    ensures
        r.id == f.id,
        r.data@ == f.data@,
        !r.pad_frame,
        !r.ext_addressing,
{
    let mut data: Vec<u8> = Vec::new();
    data.push(f.data[0]);
    data.push(f.data[1]);
    data.push(f.data[2]);
    data.push(f.data[3]);
    data.push(f.data[4]);
    data.push(f.data[5]);
    data.push(f.data[6]);
    data.push(f.data[7]);
    proof {
        assert(data@ =~= f.data@);
    }
    ISO15765Data { id: f.id, data, pad_frame: false, ext_addressing: false }
}

/// An ISO 15765 (ISO-TP) session configuration, as plain values.
#[derive(Debug, Clone, Copy)]
pub struct ISO15765Config {
    pub baud: u32,
    pub send_id: u32,
    pub recv_id: u32,
    pub block_size: u32,
    pub sep_time: u32,
    pub use_ext_isotp: bool,
    pub use_ext_can: bool,
}

/// Addressing for one diagnostic exchange.
#[derive(Debug, Clone, Copy)]
pub struct DiagCfg {
    pub send_id: u32,
    pub recv_id: u32,
    pub global_id: Option<u32>,
}

/// The state of a PCAN adapter as the front end sees it: the interface name
/// and the channel, when one is open. What the state's transitions decide is
/// proved here; the matching vendor calls are the front end's to make.
#[derive(Debug)]
pub struct PeakCanAPI {
    pub iface: String,
    pub peakcan_iface: Option<PeakCANSocket>,
}

impl PeakCanAPI {
    pub fn new(iface: String) -> (r: Self)
        ensures
            r.iface == iface,
            r.peakcan_iface is None,
    {
        PeakCanAPI { iface, peakcan_iface: None }
    }

    /// The device itself needs no opening, only a channel does: opening it
    /// always succeeds and changes nothing.
    pub fn open_device(&mut self) -> (r: Result<(), u32>)
        ensures
            r is Ok,
            *final(self) == *old(self),
    {
        Ok(())
    }

    /// Closing the device succeeds and changes nothing.
    pub fn close_device(&mut self) -> (r: Result<(), u32>)
        ensures
            r is Ok,
            *final(self) == *old(self),
    {
        Ok(())
    }

    /// Decide the channel to open for a bus speed: the fixed USB channel
    /// handle, with the low sixteen bits of the speed as the baud-rate code.
    /// The returned pair is what the vendor's initialisation must be called
    /// with; the state now names the open channel.
    pub fn open_can_interface(&mut self, bus_speed: u32) -> (r: (u16, u16))
        ensures
            r.0 == 0x51,
            r.1 == bus_speed % 0x10000,
            final(self).peakcan_iface == Some(PeakCANSocket { handle: 0x51, baud_rate: r.1 }),
            final(self).iface@ == "Peak-CAN"@,
    {
        let baud: u16 = (bus_speed % 0x10000) as u16;
        let socket = PeakCANSocket::new(0x51, baud);
        self.peakcan_iface = Some(socket);
        self.iface = String::from_str("Peak-CAN");
        (0x51, baud)
    }

    /// Forget the open channel; dropping the handle is what closes it.
    pub fn close_can_interface(&mut self)
        ensures
            final(self).peakcan_iface is None,
            final(self).iface@ == Seq::<char>::empty(),
    {
        self.peakcan_iface = None;
        self.iface = String::new();
    }

    /// Whether a channel is open.
    pub fn is_connected(&self) -> (r: bool)
        ensures
            r == (self.peakcan_iface is Some),
    {
        self.peakcan_iface.is_some()
    }

    /// The name of the transport this state drives.
    pub fn get_api(&self) -> (r: &'static str)
        ensures
            r@ == "Peak CAN"@,
    {
        "Peak CAN"
    }
}

} // verus!
