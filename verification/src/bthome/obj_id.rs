//! BTHome v2 object IDs

use vstd::prelude::*;

verus! {

pub const PACKET_ID: u8 = 0x00;

pub const BATTERY: u8 = 0x01;

/// sint16, factor 0.01 °C
pub const TEMPERATURE: u8 = 0x02;

/// uint16, factor 0.01 %
pub const HUMIDITY: u8 = 0x03;

pub const GENERIC_BOOLEAN: u8 = 0x0F;

pub const PROBLEM: u8 = 0x26;

/// 0=closed, 1=open
pub const WINDOW: u8 = 0x2D;

/// 0=normal, 1=tampered
pub const TAMPER: u8 = 0x2B;

pub const BUTTON_EVENT: u8 = 0x3A;

} // verus!
