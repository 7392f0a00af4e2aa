//! SLMP documented CPU module error codes and their explanations
//! (source: design/protocol-slmp/jy997d56001k.pdf).
use vstd::prelude::*;
use crate::text::{decimal, push_int};

verus! {

/// SLMP documented CPU module error codes.
#[derive(Debug)]
pub enum SlmpCpuError {
    DeviceNotFound,
    CommunicationDataCodeSetAscii,
    MaximumNumberOfBitDevicesExceeds,
    MaximumNumberOfWordDevicesExceeds,
    MaximumNumberOfBitRandomDevicesExceeds,
    MaximumNumberOfWordRandomDevicesExceeds,
    MaximumAddressExceeds,
    RequestAsciiToBinaryConversionLengthError,
    CommandError,
    ReadWriteDeviceError,
    WordDeviceRequestContentsError,
    RequestCannotBeExecutedForCpuModule,
    BitDeviceRequestContentsError,
    RequestDataLengthError,
    CommunicationDataCodeSetBinary,
    BlocksNumberExceeds,
    PasswordError,
    PasswordStatusIsLocked,
    UnlockPasswordRequestDifferentDevice,
    PasswordErrorCountIs9OrLess,
    PasswordErrorCountIs10,
    AuthenticationIsLocked,
    Inner(String),
}

/// The documented explanation of a CPU module error code, if documented.
pub open spec fn cpu_error_text(code: i32) -> Option<Seq<char>> {
    if code == 0xC035 { Some("The existence of the external device could not be confirmed within the response monitoring timer value."@) }
    else if code == 0xC050 { Some("When the communication data code is set to 'ASCII', ASCII code data which cannot be converted to binary is received."@) }
    else if code == 0xC051 { Some("Maximum number of bit devices for which data can be read/written all at once is outside the allowable range."@) }
    else if code == 0xC052 { Some("Maximum number of word devices for which data can be read/written all at once is outside the allowable range."@) }
    else if code == 0xC053 { Some("Maximum number of bit devices for which data can be random read/written all at once is outside the allowable range."@) }
    else if code == 0xC054 { Some("Maximum number of word devices for which data can be random read/written all at once is outside the allowable range."@) }
    else if code == 0xC056 { Some("Read or write request exceeds maximum address."@) }
    else if code == 0xC058 { Some("Request data length after ASCII-to-binary conversion does not match the number of data in the character section (part of text)."@) }
    else if code == 0xC059 { Some("- Error in command or subcommand specification.\n- There is a command or subcommand that cannot be used by the CPU module."@) }
    else if code == 0xC05B { Some("CPU module cannot read or write from/to specified device."@) }
    else if code == 0xC05C { Some("Error in request contents. (Reading or writing by bit unit for word device, etc.)"@) }
    else if code == 0xC05F { Some("There is a request that cannot be executed for the target CPU module."@) }
    else if code == 0xC060 { Some("Error in request contents. (Error in specification of data for bit device, etc.)"@) }
    else if code == 0xC061 { Some("Request data length does not match the number of data in the character section (part of text)."@) }
    else if code == 0xC06F { Some("When the communication data code is set to 'Binary', a request message of ASCII is received. (Error history of this error code is registered but no error response is sent.)"@) }
    else if code == 0xC0D8 { Some("The number of specified blocks exceeds the range."@) }
    else if code == 0xC200 { Some("Error in remote password."@) }
    else if code == 0xC201 { Some("Locked status of the remote password of the port which is used for communication."@) }
    else if code == 0xC204 { Some("Different device requested remote password to be unlocked."@) }
    else if code == 0xC810 { Some("Error in remote password. (Authentication failure count is 9 or less.)"@) }
    else if code == 0xC815 { Some("Error in remote password. (Authentication failure count is 10.)"@) }
    else if code == 0xC816 { Some("Remote password authentication is locked out."@) }
    else { None }
}

/// The error that a code stands for, when documented.
pub open spec fn cpu_error_of(code: i32) -> Option<SlmpCpuError> {
    if code == 0xC035 { Some(SlmpCpuError::DeviceNotFound) }
    else if code == 0xC050 { Some(SlmpCpuError::CommunicationDataCodeSetAscii) }
    else if code == 0xC051 { Some(SlmpCpuError::MaximumNumberOfBitDevicesExceeds) }
    else if code == 0xC052 { Some(SlmpCpuError::MaximumNumberOfWordDevicesExceeds) }
    else if code == 0xC053 { Some(SlmpCpuError::MaximumNumberOfBitRandomDevicesExceeds) }
    else if code == 0xC054 { Some(SlmpCpuError::MaximumNumberOfWordRandomDevicesExceeds) }
    else if code == 0xC056 { Some(SlmpCpuError::MaximumAddressExceeds) }
    else if code == 0xC058 { Some(SlmpCpuError::RequestAsciiToBinaryConversionLengthError) }
    else if code == 0xC059 { Some(SlmpCpuError::CommandError) }
    else if code == 0xC05B { Some(SlmpCpuError::ReadWriteDeviceError) }
    else if code == 0xC05C { Some(SlmpCpuError::WordDeviceRequestContentsError) }
    else if code == 0xC05F { Some(SlmpCpuError::RequestCannotBeExecutedForCpuModule) }
    else if code == 0xC060 { Some(SlmpCpuError::BitDeviceRequestContentsError) }
    else if code == 0xC061 { Some(SlmpCpuError::RequestDataLengthError) }
    else if code == 0xC06F { Some(SlmpCpuError::CommunicationDataCodeSetBinary) }
    else if code == 0xC0D8 { Some(SlmpCpuError::BlocksNumberExceeds) }
    else if code == 0xC200 { Some(SlmpCpuError::PasswordError) }
    else if code == 0xC201 { Some(SlmpCpuError::PasswordStatusIsLocked) }
    else if code == 0xC204 { Some(SlmpCpuError::UnlockPasswordRequestDifferentDevice) }
    else if code == 0xC810 { Some(SlmpCpuError::PasswordErrorCountIs9OrLess) }
    else if code == 0xC815 { Some(SlmpCpuError::PasswordErrorCountIs10) }
    else if code == 0xC816 { Some(SlmpCpuError::AuthenticationIsLocked) }
    else { None }
}

/// The explanation of a code: its documented text, or else the code in decimal.
pub open spec fn cpu_error_message(code: i32) -> Seq<char> {
    match cpu_error_text(code) {
        Some(t) => t,
        None => decimal(code as int),
    }
}

impl SlmpCpuError {
    /// Returns the explanation of the error `code`, or the code itself in
    /// decimal for an undocumented code.
    pub fn text(code: i32) -> (res: String)
        ensures
            res@ == cpu_error_message(code),
    {
        let err: &str = match code {
            0xC035 => "The existence of the external device could not be confirmed within the response monitoring timer value.",
            0xC050 => "When the communication data code is set to 'ASCII', ASCII code data which cannot be converted to binary is received.",
            0xC051 => "Maximum number of bit devices for which data can be read/written all at once is outside the allowable range.",
            0xC052 => "Maximum number of word devices for which data can be read/written all at once is outside the allowable range.",
            0xC053 => "Maximum number of bit devices for which data can be random read/written all at once is outside the allowable range.",
            0xC054 => "Maximum number of word devices for which data can be random read/written all at once is outside the allowable range.",
            0xC056 => "Read or write request exceeds maximum address.",
            0xC058 => "Request data length after ASCII-to-binary conversion does not match the number of data in the character section (part of text).",
            0xC059 => "- Error in command or subcommand specification.\n- There is a command or subcommand that cannot be used by the CPU module.",
            0xC05B => "CPU module cannot read or write from/to specified device.",
            0xC05C => "Error in request contents. (Reading or writing by bit unit for word device, etc.)",
            0xC05F => "There is a request that cannot be executed for the target CPU module.",
            0xC060 => "Error in request contents. (Error in specification of data for bit device, etc.)",
            0xC061 => "Request data length does not match the number of data in the character section (part of text).",
            0xC06F => "When the communication data code is set to 'Binary', a request message of ASCII is received. (Error history of this error code is registered but no error response is sent.)",
            0xC0D8 => "The number of specified blocks exceeds the range.",
            0xC200 => "Error in remote password.",
            0xC201 => "Locked status of the remote password of the port which is used for communication.",
            0xC204 => "Different device requested remote password to be unlocked.",
            0xC810 => "Error in remote password. (Authentication failure count is 9 or less.)",
            0xC815 => "Error in remote password. (Authentication failure count is 10.)",
            0xC816 => "Remote password authentication is locked out.",
            _ => {
                let mut s = String::new();
                push_int(&mut s, code as i64);
                assert(s@ =~= decimal(code as int));
                return s;
            }
        };
        err.to_owned()
    }

    /// Returns the error that `value` stands for; an undocumented code gives
    /// `Inner` with the text "{explanation} ({code})".
    pub fn from(value: i32) -> (res: SlmpCpuError)
        ensures
            match cpu_error_of(value) {
                Some(e) => res == e,
                None => res matches SlmpCpuError::Inner(m) && m@ == cpu_error_message(value) + " ("@ + decimal(value as int) + ")"@,
            },
    {
        match value {
            0xC035 => SlmpCpuError::DeviceNotFound,
            0xC050 => SlmpCpuError::CommunicationDataCodeSetAscii,
            0xC051 => SlmpCpuError::MaximumNumberOfBitDevicesExceeds,
            0xC052 => SlmpCpuError::MaximumNumberOfWordDevicesExceeds,
            0xC053 => SlmpCpuError::MaximumNumberOfBitRandomDevicesExceeds,
            0xC054 => SlmpCpuError::MaximumNumberOfWordRandomDevicesExceeds,
            0xC056 => SlmpCpuError::MaximumAddressExceeds,
            0xC058 => SlmpCpuError::RequestAsciiToBinaryConversionLengthError,
            0xC059 => SlmpCpuError::CommandError,
            0xC05B => SlmpCpuError::ReadWriteDeviceError,
            0xC05C => SlmpCpuError::WordDeviceRequestContentsError,
            0xC05F => SlmpCpuError::RequestCannotBeExecutedForCpuModule,
            0xC060 => SlmpCpuError::BitDeviceRequestContentsError,
            0xC061 => SlmpCpuError::RequestDataLengthError,
            0xC06F => SlmpCpuError::CommunicationDataCodeSetBinary,
            0xC0D8 => SlmpCpuError::BlocksNumberExceeds,
            0xC200 => SlmpCpuError::PasswordError,
            0xC201 => SlmpCpuError::PasswordStatusIsLocked,
            0xC204 => SlmpCpuError::UnlockPasswordRequestDifferentDevice,
            0xC810 => SlmpCpuError::PasswordErrorCountIs9OrLess,
            0xC815 => SlmpCpuError::PasswordErrorCountIs10,
            0xC816 => SlmpCpuError::AuthenticationIsLocked,
            _ => {
                let mut m = Self::text(value);
                m.append(" (");
                push_int(&mut m, value as i64);
                m.append(")");
                SlmpCpuError::Inner(m)
            }
        }
    }
}

} // verus!
