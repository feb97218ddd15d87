//! Frames sent with a source id of zero, the form a single-client program
//! uses, and their responses.
use vstd::prelude::*;

use crate::utils::{
    code_of, declared_len, label_of, pack_puc_req, pack_read_quad_req, pack_read_req,
    pack_write_quad_req, pack_write_req, puc_address, read_block_frame, read_quad_frame,
    result_of, unpack_meta_data, unpack_read_quad_res, unpack_write_res, valid_label,
    write_block_frame, write_quad_frame, ReadOneOptions, ReadOptions, WriteOneOptions,
    WriteOptions,
};
use crate::AppError;

verus! {

/// Decoded read-block response; `data` borrows the payload from the packet.
pub struct ReadBlockResponse<'a> {
    pub t_label: u8,
    pub t_code: u8,
    pub r_code: u8,
    pub data: &'a [u8],
}

/// Decoded read-quad response.
pub struct ReadQuadRes {
    pub t_label: u8,
    pub r_code: u8,
    pub t_code: u8,
    pub data: [u8; 4],
}

/// Decoded write response.
pub struct WriteResponse {
    pub t_label: u8,
    pub r_code: u8,
    pub t_code: u8,
}

/// Read-block request for `data_length` bytes at `destination_offset`.
pub fn mk_read_req(t_label: u8, destination_offset: [u8; 6], data_length: u16) -> (r: [u8; 16])
    requires
        valid_label(t_label),
    ensures
        r@ == read_block_frame(0, t_label, destination_offset@, data_length),
{
    pack_read_req(ReadOptions { source_id: 0, t_label, offset: destination_offset, data_length })
}

/// Read-block response: header fields and the declared payload, borrowed
/// from `packet`. `InvalidData` when the packet cannot hold them.
pub fn mk_read_res(packet: &[u8]) -> (r: Result<ReadBlockResponse<'_>, AppError>)
    ensures
        match r {
            Ok(v) => {
                &&& packet@.len() >= 16
                &&& packet@.len() >= 16 + declared_len(packet@)
                &&& v.t_label == label_of(packet@)
                &&& v.t_code == code_of(packet@)
                &&& v.r_code == result_of(packet@)
                &&& v.data@ == packet@.subrange(16, 16 + declared_len(packet@))
            },
            Err(e) => {
                &&& (packet@.len() < 16 || packet@.len() < 16 + declared_len(packet@))
                &&& e is InvalidData
            },
        },
{
    if packet.len() < 16 {
        return Err(AppError::InvalidData);
    }
    let len: usize = packet[12] as usize * 0x100 + packet[13] as usize;
    if packet.len() - 16 < len {
        return Err(AppError::InvalidData);
    }
    let m = unpack_meta_data(packet);
    let data = vstd::slice::slice_subrange(packet, 16, 16 + len);
    Ok(ReadBlockResponse { t_label: m.t_label, t_code: m.t_code, r_code: m.r_code, data })
}

/// Read-quad request for the quad at `address`.
pub fn mk_read_quad_req(t_label: u8, address: [u8; 6]) -> (r: [u8; 12])
    requires
        valid_label(t_label),
    ensures
        r@ == read_quad_frame(0, t_label, address@),
{
    pack_read_quad_req(ReadOneOptions { source_id: 0, t_label, offset: address })
}

/// Read-quad response: header fields and the 4 data bytes.
pub fn mk_read_quad_res(response: &[u8]) -> (r: Result<ReadQuadRes, AppError>)
    ensures
        match r {
            Ok(v) => {
                &&& response@.len() >= 16
                &&& v.t_label == label_of(response@)
                &&& v.t_code == code_of(response@)
                &&& v.r_code == result_of(response@)
                &&& v.data@ == response@.subrange(12, 16)
            },
            Err(e) => response@.len() < 16 && e is InvalidData,
        },
{
    match unpack_read_quad_res(response) {
        Ok(v) => Ok(ReadQuadRes { t_label: v.t_label, r_code: v.r_code, t_code: v.t_code, data: v.data }),
        Err(e) => Err(e),
    }
}

/// Write-block request carrying `data`, whose length is `length`.
pub fn mk_write_req(t_label: u8, address: [u8; 6], length: u16, data: Vec<u8>) -> (r: Vec<u8>)
    requires
        valid_label(t_label),
        data@.len() == length,
    ensures
        r@ == write_block_frame(0, t_label, address@, length, data@),
        r@.len() == 16 + length,
{
    pack_write_req(
        WriteOptions {
            source_id: 0,
            t_label,
            offset: address,
            data_length: length,
            data: data.as_slice(),
        },
    )
}

/// Write-quad request storing `data` at `address`.
pub fn mk_write_quad_req(t_label: u8, address: [u8; 6], data: u32) -> (r: [u8; 16])
    requires
        valid_label(t_label),
    ensures
        r@ == write_quad_frame(0, t_label, address@, data),
{
    pack_write_quad_req(WriteOneOptions { source_id: 0, t_label, address, data })
}

/// Write response: the header fields.
pub fn mk_write_quad_res(response: &[u8]) -> (r: Result<WriteResponse, AppError>)
    ensures
        match r {
            Ok(v) => {
                &&& response@.len() >= 12
                &&& v.t_label == label_of(response@)
                &&& v.t_code == code_of(response@)
                &&& v.r_code == result_of(response@)
            },
            Err(e) => response@.len() < 12 && e is InvalidData,
        },
{
    match unpack_write_res(response) {
        Ok(v) => Ok(WriteResponse { t_label: v.t_label, r_code: v.r_code, t_code: v.t_code }),
        Err(e) => Err(e),
    }
}

/// Power-up-clear request, with label 4.
pub fn build_puc_request() -> (r: [u8; 16])
    ensures
        r@ == write_quad_frame(0, 4, puc_address(), 1),
{
    pack_puc_req(0, 0x4)
}

} // verus!
