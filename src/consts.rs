//! Transaction codes, frame sizes and the controller's address-space table.
use vstd::prelude::*;

verus! {

/// Transaction codes (`t_code`), carried in the top nibble of header byte 3.
pub const T_CODE_WRITE_QUAD_REQUEST: u8 = 0;

pub const T_CODE_WRITE_BLOCK_REQUEST: u8 = 1;

pub const T_CODE_WRITE_RESPONSE: u8 = 2;

pub const T_CODE_READ_QUAD_REQUEST: u8 = 4;

pub const T_CODE_READ_BLOCK_REQUEST: u8 = 5;

pub const T_CODE_READ_QUAD_RESPONSE: u8 = 6;

pub const T_CODE_READ_BLOCK_RESPONSE: u8 = 7;

/// Frame sizes in bytes (for block frames, the size of the fixed header).
pub const SIZE_WRITE_QUAD_REQUEST: u8 = 16;

pub const SIZE_WRITE_BLOCK_REQUEST: u8 = 16;

pub const SIZE_WRITE_RESPONSE: u8 = 12;

pub const SIZE_READ_QUAD_REQUEST: u8 = 12;

pub const SIZE_READ_BLOCK_REQUEST: u8 = 16;

pub const SIZE_READ_QUAD_RESPONSE: u8 = 16;

pub const SIZE_READ_BLOCK_RESPONSE: u8 = 16;

/// Digital I/O area.
pub const BASE_D_POINT_WRITE: u32 = 0xF022_0000;

pub const BASE_D_POINT_READ: u32 = 0xF01E_0000;

pub const OFFSET_D_POINT_MOD: u32 = 0x0000_1000;

pub const OFFSET_D_POINT: u32 = 0x0000_0040;

/// Analog I/O area.
pub const BASE_A_POINT_WRITE: u32 = 0xF02A_0000;

pub const BASE_A_POINT_READ: u32 = 0xF026_0000;

pub const OFFSET_A_POINT_MOD: u32 = 0x0000_1000;

pub const OFFSET_A_POINT: u32 = 0x0000_0040;

pub const OFFSET_A_POINT_MIN: u32 = 0x0000_0008;

pub const OFFSET_A_POINT_MAX: u32 = 0x0000_000C;

/// System status area.
pub const BASE_IP_ADDRESS_ETH0: u32 = 0xF030_0034;

pub const BASE_MAC_ADDRESS_ETH0: u32 = 0xF030_002E;

pub const BASE_IP_ADDRESS_ETH1: u32 = 0xFFFF_F050;

pub const BASE_MAC_ADDRESS_ETH1: u32 = 0xFFFF_F060;

pub const BASE_FIRMWARE_VERSION: u32 = 0xF030_001C;

pub const BASE_UNIT_DESCRIPTION: u32 = 0xF030_0080;

pub const BASE_LAST_ERROR: u32 = 0xF030_000C;

/// Strides of an I/O point address: one module, one channel.
pub const MODULE_POINT_OFFSET: u32 = 0x0000_1000;

pub const CHANNEL_POINT_OFFSET: u32 = 0x0000_0040;

/// Scratch pad, string bank.
pub const BASE_SCRATCHPAD_STRING: u64 = 0xF0D8_3000;

pub const OFFSET_SCRATCHPAD_STRING: u64 = 0x0000_0082;

pub const MAX_BYTES_STRING: u64 = 0x0000_2080;

/// Scratch pad, float banks (capacities in 4-byte elements).
pub const BASE_SCRATCHPAD_FLOAT: u64 = 0xF0D8_2000;

pub const BASE_SCRATCHPAD_FLOAT_1: u64 = 0xF0D8_2000;

pub const BASE_SCRATCHPAD_FLOAT_2: u64 = 0xF0DC_0000;

pub const BASE_SCRATCHPAD_FLOAT_3: u64 = 0xF0DC_2000;

pub const MAX_ELEMENTS_FLOAT_1: u64 = 0x0000_0400;

pub const MAX_ELEMENTS_FLOAT_2: u64 = 0x0000_0800;

pub const MAX_ELEMENTS_FLOAT_3: u64 = 0x0000_1C00;

pub const MAX_ELEMENTS_FLOAT: u64 = MAX_ELEMENTS_FLOAT_1 + MAX_ELEMENTS_FLOAT_2 + MAX_ELEMENTS_FLOAT_3;

pub const MAX_BYTES_FLOAT: u64 = MAX_ELEMENTS_FLOAT * 4;

/// Scratch pad, integer banks (capacities in 4-byte elements).
pub const BASE_SCRATCHPAD_INTEGER: u64 = 0xF0D8_1000;

pub const BASE_SCRATCHPAD_INTEGER_1: u64 = 0xF0D8_1000;

pub const BASE_SCRATCHPAD_INTEGER_2: u64 = 0xF0DA_0000;

pub const BASE_SCRATCHPAD_INTEGER_3: u64 = 0xF0DA_2000;

pub const MAX_ELEMENTS_INTEGER_1: u64 = 0x0000_0400;

pub const MAX_ELEMENTS_INTEGER_2: u64 = 0x0000_0800;

pub const MAX_ELEMENTS_INTEGER_3: u64 = 0x0000_1C00;

pub const MAX_ELEMENTS_INTEGER: u64 = MAX_ELEMENTS_INTEGER_1 + MAX_ELEMENTS_INTEGER_2 + MAX_ELEMENTS_INTEGER_3;

pub const MAX_BYTES_INTEGER: u64 = MAX_ELEMENTS_INTEGER * 4;

} // verus!
