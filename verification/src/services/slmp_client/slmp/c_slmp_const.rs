use vstd::prelude::*;

verus! {

/// Definition of Frame Type
/// - ST - Single transmission
/// - MT - Multiple transmissions
#[derive(Debug, Clone, Copy, PartialEq, Eq, Structural)]
pub enum FrameType {
    BinReqSt,
    BinResSt,
    BinReqMt,
    BinResMt,
    AsciiReqSt,
    AsciiResSt,
    AsciiReqMt,
    AsciiResMt,
}

/// The protocol code of each FrameType variant.
pub open spec fn frame_type_code(v: FrameType) -> u64 {
    match v {
        FrameType::BinReqSt => 0x5000,
        FrameType::BinResSt => 0xD000,
        FrameType::BinReqMt => 0x5400,
        FrameType::BinResMt => 0xD400,
        FrameType::AsciiReqSt => 0x35303030,
        FrameType::AsciiResSt => 0x44303030,
        FrameType::AsciiReqMt => 0x35343030,
        FrameType::AsciiResMt => 0x44343030,
    }
}

impl FrameType {
    /// Returns the protocol code.
    pub fn code(self) -> (res: u64)
        ensures
            res == frame_type_code(self),
    {
        match self {
            FrameType::BinReqSt => 0x5000,
            FrameType::BinResSt => 0xD000,
            FrameType::BinReqMt => 0x5400,
            FrameType::BinResMt => 0xD400,
            FrameType::AsciiReqSt => 0x35303030,
            FrameType::AsciiResSt => 0x44303030,
            FrameType::AsciiReqMt => 0x35343030,
            FrameType::AsciiResMt => 0x44343030,
        }
    }
}

/// Processor Number, in the documentation Destination unit I/O No.
#[derive(Debug, Clone, Copy, PartialEq, Eq, Structural)]
pub enum ProcessorNumber {
    CpuActive,
    CpuStandby,
    CpuTypeA,
    CpuTypeB,
    Cpu1,
    Cpu2,
    Cpu3,
    Cpu4,
    CpuDefault,
}

/// The protocol code of each ProcessorNumber variant.
pub open spec fn processor_number_code(v: ProcessorNumber) -> u16 {
    match v {
        ProcessorNumber::CpuActive => 0x03D0,
        ProcessorNumber::CpuStandby => 0x03D1,
        ProcessorNumber::CpuTypeA => 0x03D2,
        ProcessorNumber::CpuTypeB => 0x03D3,
        ProcessorNumber::Cpu1 => 0x03E0,
        ProcessorNumber::Cpu2 => 0x03E1,
        ProcessorNumber::Cpu3 => 0x03E2,
        ProcessorNumber::Cpu4 => 0x03E3,
        ProcessorNumber::CpuDefault => 0x03FF,
    }
}

impl ProcessorNumber {
    /// Returns the protocol code.
    pub fn code(self) -> (res: u16)
        ensures
            res == processor_number_code(self),
    {
        match self {
            ProcessorNumber::CpuActive => 0x03D0,
            ProcessorNumber::CpuStandby => 0x03D1,
            ProcessorNumber::CpuTypeA => 0x03D2,
            ProcessorNumber::CpuTypeB => 0x03D3,
            ProcessorNumber::Cpu1 => 0x03E0,
            ProcessorNumber::Cpu2 => 0x03E1,
            ProcessorNumber::Cpu3 => 0x03E2,
            ProcessorNumber::Cpu4 => 0x03E3,
            ProcessorNumber::CpuDefault => 0x03FF,
        }
    }
}

/// Monitoring timer value.
#[derive(Debug, Clone, Copy, PartialEq, Eq, Structural)]
pub enum TimerValue {
    WaitForever,
}

/// The protocol code of each TimerValue variant.
pub open spec fn timer_value_code(v: TimerValue) -> u16 {
    match v {
        TimerValue::WaitForever => 0x0000,
    }
}

impl TimerValue {
    /// Returns the protocol code.
    pub fn code(self) -> (res: u16)
        ensures
            res == timer_value_code(self),
    {
        match self {
            TimerValue::WaitForever => 0x0000,
        }
    }
}

/// SLMP commands.
#[derive(Debug, Clone, Copy, PartialEq, Eq, Structural)]
pub enum SlmpCommand {
    DeviceRead,
    DeviceWrite,
    DeviceReadRandom,
    DeviceWriteRandom,
    DeviceEntryMonitorDevice,
    DeviceExecuteMonitor,
    DeviceReadBlock,
    DeviceWriteBlock,
    MemoryRead,
    MemoryWrite,
    ExtendUnitRead,
    ExtendUnitWrite,
    RemoteRun,
    RemoteStop,
    RemotePause,
    RemoteLatchClear,
    RemoteReset,
    RemoteReadTypeName,
    DriveReadDiskState,
    DriveDefrag,
    FileReadFileInfo,
    FileReadFileInfoDetail,
    FileReadFileInfoFileNumberUsage,
    FileChangeFileInfo,
    FileSearch,
    FileReadAccessTypeA,
    FileWriteAccessTypeA,
    FileLockControl,
    FileCopyAccessTypeA,
    FileCopyAccessTypeB,
    FileDeleteAccessTypeA,
    FileDeleteAccessTypeB,
    FileReadDirectoryFile,
    FileSearchDirectoryFile,
    FileCreateNewFileAccessTypeA,
    FileCreateNewFileAccessTypeB,
    FileChangeFileState,
    FileChangeFileDate,
    FileOpenFile,
    FileReadAccessTypeB,
    FileWriteAccessTypeB,
    FileCloseFile,
    SelfTest,
    ClearErrorCode,
    PasswordLock,
    PasswordUnlock,
    Ondemand,
    NodeSearch,
    IpAddressSet,
    DeviceInfoCompare,
    ParameterGet,
    ParameterSet,
    ParameterSetStart,
    ParameterSetEnd,
    ParameterSetCancel,
    StatusRead,
    CommunicationSettingGet,
    StatusRead2,
}

/// The protocol code of each SlmpCommand variant.
pub open spec fn slmp_command_code(v: SlmpCommand) -> u16 {
    match v {
        SlmpCommand::DeviceRead => 0x0401,
        SlmpCommand::DeviceWrite => 0x1401,
        SlmpCommand::DeviceReadRandom => 0x0403,
        SlmpCommand::DeviceWriteRandom => 0x1402,
        SlmpCommand::DeviceEntryMonitorDevice => 0x0801,
        SlmpCommand::DeviceExecuteMonitor => 0x0802,
        SlmpCommand::DeviceReadBlock => 0x0406,
        SlmpCommand::DeviceWriteBlock => 0x1406,
        SlmpCommand::MemoryRead => 0x0613,
        SlmpCommand::MemoryWrite => 0x1613,
        SlmpCommand::ExtendUnitRead => 0x0601,
        SlmpCommand::ExtendUnitWrite => 0x1601,
        SlmpCommand::RemoteRun => 0x1001,
        SlmpCommand::RemoteStop => 0x1002,
        SlmpCommand::RemotePause => 0x1003,
        SlmpCommand::RemoteLatchClear => 0x1005,
        SlmpCommand::RemoteReset => 0x1006,
        SlmpCommand::RemoteReadTypeName => 0x0101,
        SlmpCommand::DriveReadDiskState => 0x0205,
        SlmpCommand::DriveDefrag => 0x1207,
        SlmpCommand::FileReadFileInfo => 0x0201,
        SlmpCommand::FileReadFileInfoDetail => 0x0202,
        SlmpCommand::FileReadFileInfoFileNumberUsage => 0x0204,
        SlmpCommand::FileChangeFileInfo => 0x1204,
        SlmpCommand::FileSearch => 0x0203,
        SlmpCommand::FileReadAccessTypeA => 0x0206,
        SlmpCommand::FileWriteAccessTypeA => 0x1203,
        SlmpCommand::FileLockControl => 0x0808,
        SlmpCommand::FileCopyAccessTypeA => 0x1206,
        SlmpCommand::FileCopyAccessTypeB => 0x1824,
        SlmpCommand::FileDeleteAccessTypeA => 0x1205,
        SlmpCommand::FileDeleteAccessTypeB => 0x1822,
        SlmpCommand::FileReadDirectoryFile => 0x1810,
        SlmpCommand::FileSearchDirectoryFile => 0x1811,
        SlmpCommand::FileCreateNewFileAccessTypeA => 0x1202,
        SlmpCommand::FileCreateNewFileAccessTypeB => 0x1820,
        SlmpCommand::FileChangeFileState => 0x1825,
        SlmpCommand::FileChangeFileDate => 0x1826,
        SlmpCommand::FileOpenFile => 0x1827,
        SlmpCommand::FileReadAccessTypeB => 0x1828,
        SlmpCommand::FileWriteAccessTypeB => 0x1829,
        SlmpCommand::FileCloseFile => 0x182A,
        SlmpCommand::SelfTest => 0x0619,
        SlmpCommand::ClearErrorCode => 0x1617,
        SlmpCommand::PasswordLock => 0x1630,
        SlmpCommand::PasswordUnlock => 0x1631,
        SlmpCommand::Ondemand => 0x2101,
        SlmpCommand::NodeSearch => 0x0E30,
        SlmpCommand::IpAddressSet => 0x0E31,
        SlmpCommand::DeviceInfoCompare => 0x0E32,
        SlmpCommand::ParameterGet => 0x0E33,
        SlmpCommand::ParameterSet => 0x0E34,
        SlmpCommand::ParameterSetStart => 0x0E35,
        SlmpCommand::ParameterSetEnd => 0x0E36,
        SlmpCommand::ParameterSetCancel => 0x0E3A,
        SlmpCommand::StatusRead => 0x0E44,
        SlmpCommand::CommunicationSettingGet => 0x0E45,
        SlmpCommand::StatusRead2 => 0x0E53,
    }
}

impl SlmpCommand {
    /// Returns the protocol code.
    pub fn code(self) -> (res: u16)
        ensures
            res == slmp_command_code(self),
    {
        match self {
            SlmpCommand::DeviceRead => 0x0401,
            SlmpCommand::DeviceWrite => 0x1401,
            SlmpCommand::DeviceReadRandom => 0x0403,
            SlmpCommand::DeviceWriteRandom => 0x1402,
            SlmpCommand::DeviceEntryMonitorDevice => 0x0801,
            SlmpCommand::DeviceExecuteMonitor => 0x0802,
            SlmpCommand::DeviceReadBlock => 0x0406,
            SlmpCommand::DeviceWriteBlock => 0x1406,
            SlmpCommand::MemoryRead => 0x0613,
            SlmpCommand::MemoryWrite => 0x1613,
            SlmpCommand::ExtendUnitRead => 0x0601,
            SlmpCommand::ExtendUnitWrite => 0x1601,
            SlmpCommand::RemoteRun => 0x1001,
            SlmpCommand::RemoteStop => 0x1002,
            SlmpCommand::RemotePause => 0x1003,
            SlmpCommand::RemoteLatchClear => 0x1005,
            SlmpCommand::RemoteReset => 0x1006,
            SlmpCommand::RemoteReadTypeName => 0x0101,
            SlmpCommand::DriveReadDiskState => 0x0205,
            SlmpCommand::DriveDefrag => 0x1207,
            SlmpCommand::FileReadFileInfo => 0x0201,
            SlmpCommand::FileReadFileInfoDetail => 0x0202,
            SlmpCommand::FileReadFileInfoFileNumberUsage => 0x0204,
            SlmpCommand::FileChangeFileInfo => 0x1204,
            SlmpCommand::FileSearch => 0x0203,
            SlmpCommand::FileReadAccessTypeA => 0x0206,
            SlmpCommand::FileWriteAccessTypeA => 0x1203,
            SlmpCommand::FileLockControl => 0x0808,
            SlmpCommand::FileCopyAccessTypeA => 0x1206,
            SlmpCommand::FileCopyAccessTypeB => 0x1824,
            SlmpCommand::FileDeleteAccessTypeA => 0x1205,
            SlmpCommand::FileDeleteAccessTypeB => 0x1822,
            SlmpCommand::FileReadDirectoryFile => 0x1810,
            SlmpCommand::FileSearchDirectoryFile => 0x1811,
            SlmpCommand::FileCreateNewFileAccessTypeA => 0x1202,
            SlmpCommand::FileCreateNewFileAccessTypeB => 0x1820,
            SlmpCommand::FileChangeFileState => 0x1825,
            SlmpCommand::FileChangeFileDate => 0x1826,
            SlmpCommand::FileOpenFile => 0x1827,
            SlmpCommand::FileReadAccessTypeB => 0x1828,
            SlmpCommand::FileWriteAccessTypeB => 0x1829,
            SlmpCommand::FileCloseFile => 0x182A,
            SlmpCommand::SelfTest => 0x0619,
            SlmpCommand::ClearErrorCode => 0x1617,
            SlmpCommand::PasswordLock => 0x1630,
            SlmpCommand::PasswordUnlock => 0x1631,
            SlmpCommand::Ondemand => 0x2101,
            SlmpCommand::NodeSearch => 0x0E30,
            SlmpCommand::IpAddressSet => 0x0E31,
            SlmpCommand::DeviceInfoCompare => 0x0E32,
            SlmpCommand::ParameterGet => 0x0E33,
            SlmpCommand::ParameterSet => 0x0E34,
            SlmpCommand::ParameterSetStart => 0x0E35,
            SlmpCommand::ParameterSetEnd => 0x0E36,
            SlmpCommand::ParameterSetCancel => 0x0E3A,
            SlmpCommand::StatusRead => 0x0E44,
            SlmpCommand::CommunicationSettingGet => 0x0E45,
            SlmpCommand::StatusRead2 => 0x0E53,
        }
    }
}

/// Subcommand telling whether registers are accessed by bit, word or
/// double word, or the CPU is addressed.
#[derive(Debug, Clone, Copy, PartialEq, Eq, Structural)]
pub enum SlmpSubCommand {
    SubBit1,
    SubBit3,
    SubWord0,
    SubWord2,
    SubCpu0,
    SubCpu2,
}

/// The protocol code of each SlmpSubCommand variant.
pub open spec fn slmp_sub_command_code(v: SlmpSubCommand) -> u16 {
    match v {
        SlmpSubCommand::SubBit1 => 0x0001,
        SlmpSubCommand::SubBit3 => 0x0003,
        SlmpSubCommand::SubWord0 => 0x0000,
        SlmpSubCommand::SubWord2 => 0x0002,
        SlmpSubCommand::SubCpu0 => 0x0080,
        SlmpSubCommand::SubCpu2 => 0x0082,
    }
}

impl SlmpSubCommand {
    /// Returns the protocol code.
    pub fn code(self) -> (res: u16)
        ensures
            res == slmp_sub_command_code(self),
    {
        match self {
            SlmpSubCommand::SubBit1 => 0x0001,
            SlmpSubCommand::SubBit3 => 0x0003,
            SlmpSubCommand::SubWord0 => 0x0000,
            SlmpSubCommand::SubWord2 => 0x0002,
            SlmpSubCommand::SubCpu0 => 0x0080,
            SlmpSubCommand::SubCpu2 => 0x0082,
        }
    }
}

} // verus!
