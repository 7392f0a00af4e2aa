use vstd::prelude::*;
use crate::text::{lowercase, str_eq, to_lowercase};

verus! {

/// Classifies a Device Code for SLMP.
#[derive(Debug, Clone, Copy, PartialEq, Eq, Structural)]
pub enum DeviceCode {
    /// Special relay (SM)
    Sm,
    /// Special register (SD)
    Sd,
    /// Input (X)
    X,
    /// Output (Y)
    Y,
    /// Internal relay (M)
    M,
    /// Latch relay (L)
    L,
    /// Annunciator (F)
    F,
    /// Edge relay (V)
    V,
    /// Link relay (B)
    B,
    /// Data register (D)
    D,
    /// Link register (W)
    W,
}

/// The SLMP code of each device.
pub open spec fn device_code_byte(d: DeviceCode) -> u8 {
    match d {
        DeviceCode::Sm => 0x91,
        DeviceCode::Sd => 0xA9,
        DeviceCode::X => 0x9C,
        DeviceCode::Y => 0x9D,
        DeviceCode::M => 0x90,
        DeviceCode::L => 0x92,
        DeviceCode::F => 0x93,
        DeviceCode::V => 0x94,
        DeviceCode::B => 0xA0,
        DeviceCode::D => 0xA8,
        DeviceCode::W => 0xB4,
    }
}

/// The device that a lowercase name stands for.
pub open spec fn device_of_name(name: Seq<char>) -> Option<DeviceCode> {
    if name == "sm"@ { Some(DeviceCode::Sm) }
    else if name == "sd"@ { Some(DeviceCode::Sd) }
    else if name == "x"@ { Some(DeviceCode::X) }
    else if name == "y"@ { Some(DeviceCode::Y) }
    else if name == "m"@ { Some(DeviceCode::M) }
    else if name == "l"@ { Some(DeviceCode::L) }
    else if name == "f"@ { Some(DeviceCode::F) }
    else if name == "v"@ { Some(DeviceCode::V) }
    else if name == "b"@ { Some(DeviceCode::B) }
    else if name == "d"@ { Some(DeviceCode::D) }
    else if name == "w"@ { Some(DeviceCode::W) }
    else { None }
}

impl DeviceCode {
    /// Returns the SLMP code of the device.
    pub fn code(self) -> (res: u8)
        ensures
            res == device_code_byte(self),
    {
        match self {
            DeviceCode::Sm => 0x91,
            DeviceCode::Sd => 0xA9,
            DeviceCode::X => 0x9C,
            DeviceCode::Y => 0x9D,
            DeviceCode::M => 0x90,
            DeviceCode::L => 0x92,
            DeviceCode::F => 0x93,
            DeviceCode::V => 0x94,
            DeviceCode::B => 0xA0,
            DeviceCode::D => 0xA8,
            DeviceCode::W => 0xB4,
        }
    }

    /// Returns the device that the lowercase name `name` stands for, if any.
    pub fn from_lowercase(name: &str) -> (res: Option<DeviceCode>)
        ensures
            res == device_of_name(name@),
    {
        proof {
            reveal_strlit("sm"); reveal_strlit("sd"); reveal_strlit("x"); reveal_strlit("y");
            reveal_strlit("m"); reveal_strlit("l"); reveal_strlit("f"); reveal_strlit("v");
            reveal_strlit("b"); reveal_strlit("d"); reveal_strlit("w");
        }
        if str_eq(name, "sm") { Some(DeviceCode::Sm) }
        else if str_eq(name, "sd") { Some(DeviceCode::Sd) }
        else if str_eq(name, "x") { Some(DeviceCode::X) }
        else if str_eq(name, "y") { Some(DeviceCode::Y) }
        else if str_eq(name, "m") { Some(DeviceCode::M) }
        else if str_eq(name, "l") { Some(DeviceCode::L) }
        else if str_eq(name, "f") { Some(DeviceCode::F) }
        else if str_eq(name, "v") { Some(DeviceCode::V) }
        else if str_eq(name, "b") { Some(DeviceCode::B) }
        else if str_eq(name, "d") { Some(DeviceCode::D) }
        else if str_eq(name, "w") { Some(DeviceCode::W) }
        else { None }
    }

    /// Returns the device named by `value` in any letter case, or `None`
    /// for an unknown name.
    pub fn parse(value: &str) -> (res: Option<DeviceCode>)
        ensures
            res == device_of_name(lowercase(value@)),
    {
        let lower = to_lowercase(value);
        match Self::from_lowercase(lower.as_str()) {
            Some(_) => Some(Self::from(value)),
            None => None,
        }
    }

    /// Returns the device named by `value` in any letter case (the name must
    /// be one of sm, sd, x, y, m, l, f, v, b, d, w).
    pub fn from(value: &str) -> (res: DeviceCode)
        requires
            device_of_name(lowercase(value@)) is Some,
        ensures
            res == device_of_name(lowercase(value@)).unwrap(),
    {
        let lower = to_lowercase(value);
        Self::from_lowercase(lower.as_str()).unwrap()
    }
}

/// The SLMP device codes: distinct devices are told apart by distinct
/// codes (so a request never addresses another device than asked), and
/// each device has the code that the SLMP protocol gives it: SM 0x91,
/// SD 0xA9, X 0x9C, Y 0x9D, M 0x90, L 0x92, F 0x93, V 0x94, B 0xA0, D 0xA8,
/// W 0xB4.
pub proof fn law_device_codes(d1: DeviceCode, d2: DeviceCode)
    ensures
        device_code_byte(d1) == device_code_byte(d2) ==> d1 == d2,
        device_code_byte(DeviceCode::Sm) == 0x91u8,
        device_code_byte(DeviceCode::Sd) == 0xA9u8,
        device_code_byte(DeviceCode::X) == 0x9Cu8,
        device_code_byte(DeviceCode::Y) == 0x9Du8,
        device_code_byte(DeviceCode::M) == 0x90u8,
        device_code_byte(DeviceCode::L) == 0x92u8,
        device_code_byte(DeviceCode::F) == 0x93u8,
        device_code_byte(DeviceCode::V) == 0x94u8,
        device_code_byte(DeviceCode::B) == 0xA0u8,
        device_code_byte(DeviceCode::D) == 0xA8u8,
        device_code_byte(DeviceCode::W) == 0xB4u8,
{
}

} // verus!
