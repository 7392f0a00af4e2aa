//! SLMP request packets: the request data (head device, device code and
//! word count, then the data to write), the request fields handed to the
//! packet maker, and the trimming of the packet it makes.
use vstd::prelude::*;
use super::c_slmp_const::{frame_type_code, FrameType, ProcessorNumber, SlmpCommand, SlmpSubCommand, TimerValue, slmp_command_code};
use super::device_code::{device_code_byte, DeviceCode};

verus! {

/// The request data of an SLMP read or write: the three low bytes of the
/// head device offset (little endian), the device code, the number of
/// 2-byte words (little endian), then the data to write.
pub open spec fn request_data(code: u8, offset: u32, length: u16, write: Seq<u8>) -> Seq<u8> {
    let words = length / 2;
    seq![
        (offset % 256) as u8,
        ((offset / 256) % 256) as u8,
        ((offset / 65536) % 256) as u8,
        code,
        (words % 256) as u8,
        (words / 256) as u8,
    ] + write
}

/// The bytes counted in the data length beside the request data, by frame type.
pub open spec fn frame_extra(ft: FrameType) -> int {
    match ft {
        FrameType::BinReqSt => 6,
        FrameType::BinResSt => 2,
        FrameType::BinReqMt => 6,
        FrameType::BinResMt => 2,
        FrameType::AsciiReqSt => 12,
        FrameType::AsciiResSt => 4,
        FrameType::AsciiReqMt => 12,
        FrameType::AsciiResMt => 4,
    }
}

/// The frame types of requests; the response types are not requests.
pub open spec fn is_request(ft: FrameType) -> bool {
    ft is BinReqSt || ft is BinReqMt || ft is AsciiReqSt || ft is AsciiReqMt
}

/// The bytes of a request packet ahead of the counted data, by frame type.
pub open spec fn frame_header(ft: FrameType) -> int {
    match ft {
        FrameType::BinReqSt => 9,
        FrameType::BinReqMt => 13,
        FrameType::AsciiReqSt => 18,
        FrameType::AsciiReqMt => 26,
        _ => 0,
    }
}

/// Structure used in the SlmpPacket for preparing the request data.
pub struct SlmpPacketData {
    pub device_code: DeviceCode,
    pub offset: u32,
    pub length: u16,
}

impl SlmpPacketData {
    pub fn new(device_code: DeviceCode, offset: u32, length: u16) -> (res: Self)
        ensures
            res.device_code == device_code,
            res.offset == offset,
            res.length == length,
    {
        Self { device_code, offset, length }
    }

    /// Returns the request data, followed by `write_data` where given.
    pub fn build(&self, write_data: Option<&[u8]>) -> (res: Vec<u8>)
        ensures
            res@ == request_data(device_code_byte(self.device_code), self.offset, self.length,
                match write_data { Some(w) => w@, None => Seq::empty() }),
    {
        let words: u16 = self.length / 2;
        let mut res: Vec<u8> = Vec::new();
        res.push((self.offset % 256) as u8);
        res.push(((self.offset / 256) % 256) as u8);
        res.push(((self.offset / 65536) % 256) as u8);
        res.push(self.device_code.code());
        res.push((words % 256) as u8);
        res.push((words / 256) as u8);
        let ghost head = res@;
        match write_data {
            Some(bytes) => {
                let mut i: usize = 0;
                while i < bytes.len()
                    invariant
                        i <= bytes@.len(),
                        res@ == head + bytes@.subrange(0, i as int),
                    decreases bytes@.len() - i,
                {
                    res.push(bytes[i]);
                    i = i + 1;
                    assert(res@ =~= head + bytes@.subrange(0, i as int));
                }
                assert(bytes@.subrange(0, bytes@.len() as int) =~= bytes@);
            }
            None => {}
        }
        assert(res@ =~= request_data(device_code_byte(self.device_code), self.offset, self.length,
            match write_data { Some(w) => w@, None => Seq::empty() }));
        res
    }
}

/// The fields of an SLMP request, as the packet maker takes them.
pub struct SlmpInfo {
    pub frame_type: u64,
    pub serial_number: u16,
    pub net_number: u16,
    pub node_number: u16,
    pub proc_number: u16,
    pub data_length: u16,
    pub timer: u16,
    pub command: u16,
    pub sub_command: u16,
    pub end_code: u16,
    pub data: Vec<u8>,
}

/// An SLMP read or write request on a range of the device's addresses.
/// - device_code - SLMP Device code (Sm, Sd, X, Y, M, L, F, V, B, D, W)
/// - offset - address offset
/// - length - bytes to be written / requested
pub struct SlmpPacket {
    pub id: String,
    pub device_code: DeviceCode,
    pub offset: u32,
    pub length: u16,
}

impl SlmpPacket {
    /// The request that `build` prepares for `command`.
    pub open spec fn request(&self, ft: FrameType, write: Seq<u8>, command: SlmpCommand, info: SlmpInfo) -> bool {
        &&& info.frame_type == frame_type_code(ft)
        &&& info.serial_number == 0
        &&& info.net_number == 0
        &&& info.node_number == 0xFF
        &&& info.proc_number == 0x03FF
        &&& info.data_length == 6 + write.len() + frame_extra(ft)
        &&& info.timer == 0
        &&& info.command == slmp_command_code(command)
        &&& info.sub_command == 0
        &&& info.end_code == 0
        &&& info.data@ == request_data(device_code_byte(self.device_code), self.offset, self.length, write)
    }

    /// Creates a new SLMP packet.
    pub fn new(parent: &str, device_code: DeviceCode, offset: u32, length: u16) -> (res: Self)
        ensures
            res.id@ == parent@ + "/SlmpPacket"@,
            res.device_code == device_code,
            res.offset == offset,
            res.length == length,
    {
        let mut id = parent.to_owned();
        id.append("/SlmpPacket");
        Self { id, device_code, offset, length }
    }

    /// Returns the data length of a request: the length of the request data
    /// and the frame's counted header bytes.
    pub fn data_length(ul_frame_type: FrameType, puc_data: &[u8]) -> (res: u16)
        requires
            puc_data@.len() + frame_extra(ul_frame_type) <= u16::MAX,
        ensures
            res == puc_data@.len() + frame_extra(ul_frame_type),
    {
        let length = puc_data.len() as u16;
        match ul_frame_type {
            FrameType::BinReqSt => length + 6,
            FrameType::BinResSt => length + 2,
            FrameType::BinReqMt => length + 6,
            FrameType::BinResMt => length + 2,
            FrameType::AsciiReqSt => length + 12,
            FrameType::AsciiResSt => length + 4,
            FrameType::AsciiReqMt => length + 12,
            FrameType::AsciiResMt => length + 4,
        }
    }

    /// Prepares the request for `us_command` with the optional data to write.
    fn build(&self, frame_type: FrameType, write_data: Option<&[u8]>, us_command: SlmpCommand) -> (res: SlmpInfo)
        requires
            6 + (match write_data { Some(w) => w@.len(), None => 0 }) + frame_extra(frame_type) <= u16::MAX,
        ensures
            self.request(frame_type, match write_data { Some(w) => w@, None => Seq::empty() }, us_command, res),
    {
        let slmp_packet = SlmpPacketData::new(self.device_code, self.offset, self.length);
        let puc_data = slmp_packet.build(write_data);
        let us_data_length = Self::data_length(frame_type, puc_data.as_slice());
        SlmpInfo {
            frame_type: frame_type.code(),
            serial_number: 0,
            net_number: 0,
            node_number: 0xFF,
            proc_number: ProcessorNumber::CpuDefault.code(),
            data_length: us_data_length,
            timer: TimerValue::WaitForever.code(),
            command: us_command.code(),
            sub_command: SlmpSubCommand::SubWord0.code(),
            end_code: 0,
            data: puc_data,
        }
    }

    /// Returns the request for reading the range from the device.
    pub fn read_packet(&self, frame_type: FrameType) -> (res: SlmpInfo)
        ensures
            self.request(frame_type, Seq::empty(), SlmpCommand::DeviceRead, res),
    {
        self.build(frame_type, None, SlmpCommand::DeviceRead)
    }

    /// Returns the request for writing `write_data` to the range of the device.
    pub fn write_packet(&self, frame_type: FrameType, write_data: &[u8]) -> (res: SlmpInfo)
        requires
            6 + write_data@.len() + frame_extra(frame_type) <= u16::MAX,
        ensures
            self.request(frame_type, write_data@, SlmpCommand::DeviceWrite, res),
    {
        self.build(frame_type, Some(write_data), SlmpCommand::DeviceWrite)
    }

    /// Returns the leading part of `packet` that a request of the frame type
    /// fills: the frame header and `us_data_length` bytes.
    pub fn trim_packet(&self, ul_frame_type: FrameType, us_data_length: u16, packet: &[u8]) -> (res: Vec<u8>)
        requires
            is_request(ul_frame_type),
            frame_header(ul_frame_type) + us_data_length <= u16::MAX,
            frame_header(ul_frame_type) + us_data_length <= packet@.len(),
        ensures
            res@ == packet@.subrange(0, frame_header(ul_frame_type) + us_data_length),
    {
        let end: u16 = match ul_frame_type {
            FrameType::BinReqSt => 9 + us_data_length,
            FrameType::BinReqMt => 13 + us_data_length,
            FrameType::AsciiReqSt => 18 + us_data_length,
            _ => 26 + us_data_length,
        };
        let end = end as usize;
        let mut res: Vec<u8> = Vec::new();
        let mut i: usize = 0;
        while i < end
            invariant
                end <= packet@.len(),
                end == frame_header(ul_frame_type) + us_data_length,
                i <= end,
                res@ == packet@.subrange(0, i as int),
            decreases end - i,
        {
            res.push(packet[i]);
            i = i + 1;
            assert(res@ =~= packet@.subrange(0, i as int));
        }
        res
    }

    /// Completes a request: with `make_result` 0 (the packet maker
    /// succeeded) returns the trimmed packet; with any other code the error
    /// "{id}.build | SLMP_MakePacketStream returns error code -1".
    pub fn finish(&self, frame_type: FrameType, us_data_length: u16, make_result: i32, packet: &[u8]) -> (res: Result<Vec<u8>, String>)
        requires
            is_request(frame_type),
            frame_header(frame_type) + us_data_length <= u16::MAX,
            frame_header(frame_type) + us_data_length <= packet@.len(),
        ensures
            make_result == 0 ==> res is Ok && res.unwrap()@ == packet@.subrange(0, frame_header(frame_type) + us_data_length),
            make_result != 0 ==> (res matches Err(e) && e@ == self.id@ + ".build | SLMP_MakePacketStream returns error code -1"@),
    {
        if make_result == 0 {
            Ok(self.trim_packet(frame_type, us_data_length, packet))
        } else {
            let mut message = self.id.clone();
            message.append(".build | SLMP_MakePacketStream returns error code -1");
            Err(message)
        }
    }
}

} // verus!
