use vstd::prelude::*;

verus! {

pub const CMD_CONNECT: u16 = 1000;
pub const CMD_EXIT: u16 = 1001;
pub const CMD_GET_FREE_SIZES: u16 = 50;
pub const CMD_USERTEMP_RRQ: u16 = 9;
pub const CMD_ATTLOG_RRQ: u16 = 13;
pub const CMD_FREE_DATA: u16 = 1502;
pub const CMD_PREPARE_BUFFER: u16 = 1503;
pub const CMD_READ_BUFFER: u16 = 1504;

pub const CMD_PREPARE_DATA: u16 = 1500;
pub const CMD_DATA: u16 = 1501;
pub const CMD_ACK_OK: u16 = 2000;
pub const CMD_ACK_ERROR: u16 = 2001;

pub const FCT_USER: u32 = 5;

/// Largest piece of a buffered transfer requested at once.
pub const MAX_CHUNK: usize = 16384;

/// Size of one streamed fragment of a chunk, header included.
pub const FRAGMENT_SIZE: usize = 1032;

/// Size of the frame header that precedes every payload.
pub const HEADER_SIZE: usize = 8;

} // verus!
