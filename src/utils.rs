//! Address conversions and the frame codec.
use vstd::prelude::*;

use crate::consts::{
    CHANNEL_POINT_OFFSET, MODULE_POINT_OFFSET,
    T_CODE_READ_BLOCK_REQUEST, T_CODE_READ_QUAD_REQUEST, T_CODE_WRITE_BLOCK_REQUEST,
    T_CODE_WRITE_QUAD_REQUEST,
};
use crate::AppError;

verus! {

// ---------------------------------------------------------------------------
// Byte-level model of the frames
// ---------------------------------------------------------------------------

/// Big-endian bytes of a 16-bit value.
pub open spec fn be16(v: int) -> Seq<u8> {
    seq![((v / 0x100) % 0x100) as u8, (v % 0x100) as u8]
}

/// Big-endian bytes of a 32-bit value.
pub open spec fn be32(v: int) -> Seq<u8> {
    seq![
        ((v / 0x100_0000) % 0x100) as u8,
        ((v / 0x1_0000) % 0x100) as u8,
        ((v / 0x100) % 0x100) as u8,
        (v % 0x100) as u8,
    ]
}

/// Labels are 6-bit values and codes 4-bit values.
pub open spec fn valid_label(t_label: u8) -> bool {
    t_label < 64
}

pub open spec fn valid_code(t_code: u8) -> bool {
    t_code < 16
}

/// Header byte 2: the label in bits 7..2, bits 1..0 zero.
pub open spec fn label_field(t_label: u8) -> u8 {
    (t_label * 4) as u8
}

/// Header byte 3: the code in the top nibble, the low nibble zero.
pub open spec fn code_field(t_code: u8) -> u8 {
    (t_code * 16) as u8
}

/// The 12-byte header shared by every request: destination id (zero),
/// label, code, source id and the 6-byte address.
pub open spec fn header(t_label: u8, t_code: u8, source_id: u16, address: Seq<u8>) -> Seq<u8> {
    seq![0u8, 0u8, label_field(t_label), code_field(t_code)] + be16(source_id as int) + address
}

pub open spec fn write_quad_frame(source_id: u16, t_label: u8, address: Seq<u8>, data: u32) -> Seq<u8> {
    header(t_label, T_CODE_WRITE_QUAD_REQUEST, source_id, address) + be32(data as int)
}

pub open spec fn read_quad_frame(source_id: u16, t_label: u8, address: Seq<u8>) -> Seq<u8> {
    header(t_label, T_CODE_READ_QUAD_REQUEST, source_id, address)
}

/// The 16-byte read-block request: the header, the requested length and a
/// zero extended code.
pub open spec fn read_block_frame(source_id: u16, t_label: u8, address: Seq<u8>, len: u16) -> Seq<u8> {
    header(t_label, T_CODE_READ_BLOCK_REQUEST, source_id, address) + be16(len as int) + seq![0u8, 0u8]
}

/// The write-block request: a 16-byte header followed by the payload.
pub open spec fn write_block_frame(
    source_id: u16,
    t_label: u8,
    address: Seq<u8>,
    len: u16,
    data: Seq<u8>,
) -> Seq<u8> {
    header(t_label, T_CODE_WRITE_BLOCK_REQUEST, source_id, address) + be16(len as int) + seq![
        0u8,
        0u8,
    ] + data
}

/// Fields read back from a received frame `p`.
pub open spec fn label_of(p: Seq<u8>) -> u8 {
    (p[2] / 4) as u8
}

pub open spec fn code_of(p: Seq<u8>) -> u8 {
    (p[3] / 16) as u8
}

pub open spec fn result_of(p: Seq<u8>) -> u8 {
    (p[6] / 16) as u8
}

pub open spec fn source_of(p: Seq<u8>) -> u16 {
    (p[4] * 0x100 + p[5]) as u16
}

/// The payload length that a block frame declares in bytes 12..13.
pub open spec fn declared_len(p: Seq<u8>) -> int {
    p[12] * 0x100 + p[13]
}

// ---------------------------------------------------------------------------
// Bit-level facts used by the codec
// ---------------------------------------------------------------------------

proof fn lemma_label_shift(x: u8)
    requires
        x < 64,
    ensures
        x << 2 == x * 4,
{
    assert(x < 64 ==> x << 2 == x * 4) by (bit_vector);
}

proof fn lemma_code_shift(x: u8)
    requires
        x < 16,
    ensures
        x << 4 == x * 16,
{
    assert(x < 16 ==> x << 4 == x * 16) by (bit_vector);
}

proof fn lemma_field_shifts(b: u8)
    ensures
        b >> 2 == b / 4,
        b >> 4 == b / 16,
{
    assert(b >> 2 == b / 4) by (bit_vector);
    assert(b >> 4 == b / 16) by (bit_vector);
}

proof fn lemma_u16_bytes(v: u16)
    ensures
        (v >> 8) as u8 == (v / 0x100) % 0x100,
        (v & 0xFF) as u8 == v % 0x100,
{
    assert((v >> 8) == v / 0x100 && v / 0x100 < 0x100) by (bit_vector);
    assert((v & 0xFF) == v % 0x100) by (bit_vector);
}

proof fn lemma_u32_bytes(v: u32)
    ensures
        ((v >> 24) & 0xFF) as u8 == (v / 0x100_0000) % 0x100,
        ((v >> 16) & 0xFF) as u8 == (v / 0x1_0000) % 0x100,
        ((v >> 8) & 0xFF) as u8 == (v / 0x100) % 0x100,
        (v & 0xFF) as u8 == v % 0x100,
{
    assert(((v >> 24) & 0xFF) == (v / 0x100_0000) % 0x100) by (bit_vector);
    assert(((v >> 16) & 0xFF) == (v / 0x1_0000) % 0x100) by (bit_vector);
    assert(((v >> 8) & 0xFF) == (v / 0x100) % 0x100) by (bit_vector);
    assert((v & 0xFF) == v % 0x100) by (bit_vector);
}

/// Extracting a label or a code undoes packing it.
pub proof fn lemma_field_round_trip(t_label: u8, t_code: u8)
    requires
        valid_label(t_label),
        valid_code(t_code),
    ensures
        label_field(t_label) / 4 == t_label,
        code_field(t_code) / 16 == t_code,
{
}

/// Decoding a write-quad request recovers its label and its code through the
/// shifts alone, whatever the source id, address and data; its source id and
/// its data value come back unchanged too.
pub proof fn lemma_write_quad_round_trip(source_id: u16, t_label: u8, address: Seq<u8>, data: u32)
    requires
        valid_label(t_label),
        address.len() == 6,
    ensures
        write_quad_frame(source_id, t_label, address, data).len() == 16,
        label_of(write_quad_frame(source_id, t_label, address, data)) == t_label,
        code_of(write_quad_frame(source_id, t_label, address, data)) == T_CODE_WRITE_QUAD_REQUEST,
        source_of(write_quad_frame(source_id, t_label, address, data)) == source_id,
        write_quad_frame(source_id, t_label, address, data).subrange(12, 16) == be32(data as int),
{
    let p = write_quad_frame(source_id, t_label, address, data);
    lemma_field_round_trip(t_label, T_CODE_WRITE_QUAD_REQUEST);
    assert(p[2] == label_field(t_label));
    assert(p[3] == code_field(T_CODE_WRITE_QUAD_REQUEST));
    assert(p[4] == ((source_id as int / 0x100) % 0x100) as u8);
    assert(p[5] == (source_id as int % 0x100) as u8);
    assert(p.subrange(12, 16) =~= be32(data as int));
}

/// A write-block request declares its payload length in bytes 12..13, and
/// the payload is exactly the bytes that follow the 16-byte header, so a
/// block decoder reading the declared length gets the payload back.
pub proof fn lemma_write_block_round_trip(
    source_id: u16,
    t_label: u8,
    address: Seq<u8>,
    len: u16,
    data: Seq<u8>,
)
    requires
        valid_label(t_label),
        address.len() == 6,
        data.len() == len,
    ensures
        write_block_frame(source_id, t_label, address, len, data).len() == 16 + len,
        declared_len(write_block_frame(source_id, t_label, address, len, data)) == len,
        write_block_frame(source_id, t_label, address, len, data).subrange(16, 16 + len) == data,
        label_of(write_block_frame(source_id, t_label, address, len, data)) == t_label,
        code_of(write_block_frame(source_id, t_label, address, len, data))
            == T_CODE_WRITE_BLOCK_REQUEST,
{
    let p = write_block_frame(source_id, t_label, address, len, data);
    lemma_field_round_trip(t_label, T_CODE_WRITE_BLOCK_REQUEST);
    assert(p[2] == label_field(t_label));
    assert(p[3] == code_field(T_CODE_WRITE_BLOCK_REQUEST));
    assert(p[12] == ((len as int / 0x100) % 0x100) as u8);
    assert(p[13] == (len as int % 0x100) as u8);
    assert(p.subrange(16, 16 + len) =~= data);
}

// ---------------------------------------------------------------------------
// Value objects
// ---------------------------------------------------------------------------

/// Decoded read-block response; `data` holds exactly the declared payload.
#[derive(Debug)]
pub struct GetResponse {
    pub t_label: u8,
    pub t_code: u8,
    pub r_code: u8,
    pub data: Vec<u8>,
}

/// Request metadata that a caller fills in before a transaction.
#[derive(Debug)]
pub struct MetaDataRequest {
    pub source_id: u16,
    pub t_label: u8,
    pub t_code: u8,
}

/// Header fields of a received frame.
#[derive(Debug)]
pub struct MetaDataResponse {
    pub source_id: u16,
    pub t_label: u8,
    pub t_code: u8,
    pub r_code: u8,
}

/// Decoded read-quad response.
#[derive(Debug)]
pub struct ReadOneResponse {
    pub t_label: u8,
    pub r_code: u8,
    pub t_code: u8,
    pub data: [u8; 4],
}

/// Decoded write response.
#[derive(Debug)]
pub struct SetResponse {
    pub t_label: u8,
    pub r_code: u8,
    pub t_code: u8,
}

/// A read-block request: `data_length` bytes from `offset`.
#[derive(Debug)]
pub struct ReadOptions {
    pub source_id: u16,
    pub t_label: u8,
    pub offset: [u8; 6],
    pub data_length: u16,
}

/// A read-quad request.
#[derive(Debug)]
pub struct ReadOneOptions {
    pub source_id: u16,
    pub t_label: u8,
    pub offset: [u8; 6],
}

/// A write-block request; `data` is the payload of `data_length` bytes.
#[derive(Debug)]
pub struct WriteOptions<'a> {
    pub source_id: u16,
    pub t_label: u8,
    pub offset: [u8; 6],
    pub data_length: u16,
    pub data: &'a [u8],
}

/// A write-quad request.
#[derive(Debug)]
pub struct WriteOneOptions {
    pub source_id: u16,
    pub t_label: u8,
    pub address: [u8; 6],
    pub data: u32,
}

// ---------------------------------------------------------------------------
// Encoding
// ---------------------------------------------------------------------------

/// Read-block request (16 bytes).
pub fn pack_read_req(options: ReadOptions) -> (r: [u8; 16])
    requires
        valid_label(options.t_label),
    ensures
        r@ == read_block_frame(
            options.source_id,
            options.t_label,
            options.offset@,
            options.data_length,
        ),
{
    let offset = options.offset;
    let len = options.data_length;
    proof {
        lemma_label_shift(options.t_label);
        lemma_code_shift(T_CODE_READ_BLOCK_REQUEST);
        lemma_u16_bytes(options.source_id);
        lemma_u16_bytes(len);
    }
    let r: [u8; 16] = [
        0x00,
        0x00,
        options.t_label << 2,
        T_CODE_READ_BLOCK_REQUEST << 4,
        (options.source_id >> 8) as u8,
        (options.source_id & 0xFF) as u8,
        offset[0],
        offset[1],
        offset[2],
        offset[3],
        offset[4],
        offset[5],
        (len >> 8) as u8,
        (len & 0xFF) as u8,
        0x00,
        0x00,
    ];
    assert(r@ =~= read_block_frame(options.source_id, options.t_label, offset@, len));
    r
}

/// Read-quad request (12 bytes).
pub fn pack_read_quad_req(options: ReadOneOptions) -> (r: [u8; 12])
    requires
        valid_label(options.t_label),
    ensures
        r@ == read_quad_frame(options.source_id, options.t_label, options.offset@),
{
    let address = options.offset;
    proof {
        lemma_label_shift(options.t_label);
        lemma_code_shift(T_CODE_READ_QUAD_REQUEST);
        lemma_u16_bytes(options.source_id);
    }
    let r: [u8; 12] = [
        0x00,
        0x00,
        options.t_label << 2,
        T_CODE_READ_QUAD_REQUEST << 4,
        (options.source_id >> 8) as u8,
        (options.source_id & 0xFF) as u8,
        address[0],
        address[1],
        address[2],
        address[3],
        address[4],
        address[5],
    ];
    assert(r@ =~= read_quad_frame(options.source_id, options.t_label, address@));
    r
}

/// Write-block request: the 16-byte header followed by the payload, so
/// `16 + data_length` bytes in all.
pub fn pack_write_req(options: WriteOptions) -> (r: Vec<u8>)
    requires
        valid_label(options.t_label),
        options.data@.len() == options.data_length,
    ensures
        r@ == write_block_frame(
            options.source_id,
            options.t_label,
            options.offset@,
            options.data_length,
            options.data@,
        ),
        r@.len() == 16 + options.data_length,
{
    let address = options.offset;
    let len = options.data_length;
    proof {
        lemma_label_shift(options.t_label);
        lemma_code_shift(T_CODE_WRITE_BLOCK_REQUEST);
        lemma_u16_bytes(options.source_id);
        lemma_u16_bytes(len);
    }
    let meta_data: [u8; 16] = [
        0x00,
        0x00,
        options.t_label << 2,
        T_CODE_WRITE_BLOCK_REQUEST << 4,
        (options.source_id >> 8) as u8,
        (options.source_id & 0xFF) as u8,
        address[0],
        address[1],
        address[2],
        address[3],
        address[4],
        address[5],
        (len >> 8) as u8,
        (len & 0xFF) as u8,
        0x00,
        0x00,
    ];
    let mut msg: Vec<u8> = vstd::slice::slice_to_vec(meta_data.as_slice());
    let mut payload: Vec<u8> = vstd::slice::slice_to_vec(options.data);
    msg.append(&mut payload);
    assert(msg@ =~= write_block_frame(
        options.source_id,
        options.t_label,
        address@,
        len,
        options.data@,
    ));
    msg
}

/// Write-quad request (16 bytes): the header and the big-endian data value.
pub fn pack_write_quad_req(options: WriteOneOptions) -> (r: [u8; 16])
    requires
        valid_label(options.t_label),
    ensures
        r@ == write_quad_frame(options.source_id, options.t_label, options.address@, options.data),
{
    let offset = options.address;
    let data = options.data;
    proof {
        lemma_label_shift(options.t_label);
        lemma_code_shift(T_CODE_WRITE_QUAD_REQUEST);
        lemma_u16_bytes(options.source_id);
        lemma_u32_bytes(data);
    }
    let r: [u8; 16] = [
        0x00,
        0x00,
        options.t_label << 2,
        T_CODE_WRITE_QUAD_REQUEST << 4,
        (options.source_id >> 8) as u8,
        (options.source_id & 0xFF) as u8,
        offset[0],
        offset[1],
        offset[2],
        offset[3],
        offset[4],
        offset[5],
        ((data >> 24) & 0xFF) as u8,
        ((data >> 16) & 0xFF) as u8,
        ((data >> 8) & 0xFF) as u8,
        (data & 0xFF) as u8,
    ];
    assert(r@ =~= write_quad_frame(options.source_id, options.t_label, offset@, data));
    r
}

/// Address of the power-up-clear register.
pub open spec fn puc_address() -> Seq<u8> {
    seq![0xFFu8, 0xFFu8, 0xF0u8, 0x38u8, 0x00u8, 0x00u8]
}

/// Power-up-clear request: a write-quad of `1` to the power-up-clear register.
pub fn pack_puc_req(source_id: u16, t_label: u8) -> (r: [u8; 16])
    requires
        valid_label(t_label),
    ensures
        r@ == write_quad_frame(source_id, t_label, puc_address(), 1),
{
    let options = WriteOneOptions {
        source_id,
        t_label,
        address: [0xFF, 0xFF, 0xF0, 0x38, 0x00, 0x00],
        data: 0x0000_0001,
    };
    assert(options.address@ =~= puc_address());
    pack_write_quad_req(options)
}

// ---------------------------------------------------------------------------
// Decoding
// ---------------------------------------------------------------------------

/// Read-block response: the header fields and exactly the payload length
/// that bytes 12..13 declare, taken from byte 16 on; bytes past it are
/// ignored. `InvalidData` when the packet is shorter than the header or
/// than the header and the declared payload.
pub fn unpack_read_res(packet: Vec<u8>) -> (r: Result<GetResponse, AppError>)
    ensures
        match r {
            Ok(v) => {
                &&& packet@.len() >= 16
                &&& packet@.len() >= 16 + declared_len(packet@)
                &&& v.t_label == label_of(packet@)
                &&& v.t_code == code_of(packet@)
                &&& v.r_code == result_of(packet@)
                &&& v.data@ == packet@.subrange(16, 16 + declared_len(packet@))
            },
            Err(e) => {
                &&& (packet@.len() < 16 || packet@.len() < 16 + declared_len(packet@))
                &&& e is InvalidData
            },
        },
{
    match unpack_read_res_exact(packet.as_slice()) {
        Ok((meta_data, data)) => Ok(
            GetResponse {
                t_label: meta_data.t_label,
                t_code: meta_data.t_code,
                r_code: meta_data.r_code,
                data,
            },
        ),
        Err(e) => Err(e),
    }
}

/// Read-block response split into its header fields and its payload of the
/// declared length, which must fit in the packet.
pub fn unpack_read_res_exact(packet: &[u8]) -> (r: Result<(MetaDataResponse, Vec<u8>), AppError>)
    ensures
        match r {
            Ok((m, data)) => {
                &&& packet@.len() >= 16
                &&& packet@.len() >= 16 + declared_len(packet@)
                &&& m.source_id == source_of(packet@)
                &&& m.t_label == label_of(packet@)
                &&& m.t_code == code_of(packet@)
                &&& m.r_code == result_of(packet@)
                &&& data@ == packet@.subrange(16, 16 + declared_len(packet@))
            },
            Err(e) => {
                &&& (packet@.len() < 16 || packet@.len() < 16 + declared_len(packet@))
                &&& e is InvalidData
            },
        },
{
    if packet.len() < 16 {
        return Err(AppError::InvalidData);
    }
    let len: usize = packet[12] as usize * 0x100 + packet[13] as usize;
    if packet.len() - 16 < len {
        return Err(AppError::InvalidData);
    }
    let m = unpack_meta_data(packet);
    let data = vstd::slice::slice_to_vec(&packet[16..16 + len]);
    Ok((m, data))
}

/// Header fields of a received frame of at least 7 bytes.
pub(crate) fn unpack_meta_data(packet: &[u8]) -> (m: MetaDataResponse)
    requires
        packet@.len() >= 7,
    ensures
        m.source_id == source_of(packet@),
        m.t_label == label_of(packet@),
        m.t_code == code_of(packet@),
        m.r_code == result_of(packet@),
{
    proof {
        lemma_field_shifts(packet@[2]);
        lemma_field_shifts(packet@[3]);
        lemma_field_shifts(packet@[6]);
    }
    MetaDataResponse {
        source_id: packet[4] as u16 * 0x100 + packet[5] as u16,
        t_label: packet[2] >> 2,
        t_code: packet[3] >> 4,
        r_code: packet[6] >> 4,
    }
}

/// Read-quad response (16 bytes): header fields and the 4 data bytes 12..15.
pub fn unpack_read_quad_res(response: &[u8]) -> (r: Result<ReadOneResponse, AppError>)
    ensures
        match r {
            Ok(v) => {
                &&& response@.len() >= 16
                &&& v.t_label == label_of(response@)
                &&& v.t_code == code_of(response@)
                &&& v.r_code == result_of(response@)
                &&& v.data@ == response@.subrange(12, 16)
            },
            Err(e) => response@.len() < 16 && e is InvalidData,
        },
{
    if response.len() < 16 {
        return Err(AppError::InvalidData);
    }
    let m = unpack_meta_data(response);
    let data: [u8; 4] = [response[12], response[13], response[14], response[15]];
    assert(data@ =~= response@.subrange(12, 16));
    Ok(ReadOneResponse { t_label: m.t_label, r_code: m.r_code, t_code: m.t_code, data })
}

/// Write response (12 bytes): the header fields.
pub fn unpack_write_res(response: &[u8]) -> (r: Result<SetResponse, AppError>)
    ensures
        match r {
            Ok(v) => {
                &&& response@.len() >= 12
                &&& v.t_label == label_of(response@)
                &&& v.t_code == code_of(response@)
                &&& v.r_code == result_of(response@)
            },
            Err(e) => response@.len() < 12 && e is InvalidData,
        },
{
    if response.len() < 12 {
        return Err(AppError::InvalidData);
    }
    let m = unpack_meta_data(response);
    Ok(SetResponse { t_label: m.t_label, r_code: m.r_code, t_code: m.t_code })
}

// ---------------------------------------------------------------------------
// Addresses
// ---------------------------------------------------------------------------

/// The 6-byte big-endian address field holding the low 48 bits of `n`.
pub open spec fn offset48(n: int) -> Seq<u8> {
    seq![
        ((n / 0x100_0000_0000) % 0x100) as u8,
        ((n / 0x1_0000_0000) % 0x100) as u8,
        ((n / 0x100_0000) % 0x100) as u8,
        ((n / 0x1_0000) % 0x100) as u8,
        ((n / 0x100) % 0x100) as u8,
        (n % 0x100) as u8,
    ]
}

/// The 6-byte address field of a 32-bit offset: two zero bytes, then `n`
/// big-endian.
pub open spec fn offset32(n: u32) -> Seq<u8> {
    seq![0u8, 0u8] + be32(n as int)
}

/// A logical controller offset, before it is laid out as an address field.
pub struct Offset<T>(pub T);

/// A raw byte value.
pub struct Bytes<T>(pub T);

impl From<Offset<u64>> for [u8; 6] {
    /// The low 48 bits of the offset, big-endian.
    fn from(value: Offset<u64>) -> (r: [u8; 6])
        ensures
            r@ == offset48(value.0 as int),
    {
        let n = value.0;
        let r: [u8; 6] = [
            ((n >> 40) & 0xFF) as u8,
            ((n >> 32) & 0xFF) as u8,
            ((n >> 24) & 0xFF) as u8,
            ((n >> 16) & 0xFF) as u8,
            ((n >> 8) & 0xFF) as u8,
            (n & 0xFF) as u8,
        ];
        proof {
            assert(((n >> 40) & 0xFF) == (n / 0x100_0000_0000) % 0x100) by (bit_vector);
            assert(((n >> 32) & 0xFF) == (n / 0x1_0000_0000) % 0x100) by (bit_vector);
            assert(((n >> 24) & 0xFF) == (n / 0x100_0000) % 0x100) by (bit_vector);
            assert(((n >> 16) & 0xFF) == (n / 0x1_0000) % 0x100) by (bit_vector);
            assert(((n >> 8) & 0xFF) == (n / 0x100) % 0x100) by (bit_vector);
            assert((n & 0xFF) == n % 0x100) by (bit_vector);
        }
        assert(r@ =~= offset48(n as int));
        r
    }
}

impl vstd::std_specs::convert::FromSpecImpl<Offset<u64>> for [u8; 6] {
    open spec fn obeys_from_spec() -> bool {
        true
    }

    open spec fn from_spec(v: Offset<u64>) -> [u8; 6] {
        choose|r: [u8; 6]| r@ == offset48(v.0 as int)
    }
}

impl From<Offset<u32>> for [u8; 6] {
    /// Two zero bytes, then the offset big-endian.
    fn from(value: Offset<u32>) -> (r: [u8; 6])
        ensures
            r@ == offset32(value.0),
    {
        let n = value.0;
        proof {
            lemma_u32_bytes(n);
        }
        let r: [u8; 6] = [
            0x00,
            0x00,
            ((n >> 24) & 0xFF) as u8,
            ((n >> 16) & 0xFF) as u8,
            ((n >> 8) & 0xFF) as u8,
            (n & 0xFF) as u8,
        ];
        assert(r@ =~= offset32(n));
        r
    }
}

impl vstd::std_specs::convert::FromSpecImpl<Offset<u32>> for [u8; 6] {
    open spec fn obeys_from_spec() -> bool {
        true
    }

    open spec fn from_spec(v: Offset<u32>) -> [u8; 6] {
        choose|r: [u8; 6]| r@ == offset32(v.0)
    }
}

/// Address field of a 64-bit logical offset: its low 48 bits, big-endian.
/// Higher bits are dropped.
pub fn u64_to_offset(n: u64) -> (r: [u8; 6])
    ensures
        r@ == offset48(n as int),
{
    <[u8; 6]>::from(Offset(n))
}

/// Address field of a 32-bit offset, zero-extended.
pub fn u32_to_offset(n: u32) -> (r: [u8; 6])
    ensures
        r@ == offset32(n),
{
    <[u8; 6]>::from(Offset(n))
}

/// Address of channel `channel` of module `module` in an I/O area starting
/// at `base`, or `None` when it does not fit in 32 bits: an out-of-range
/// point is rejected, never wrapped.
pub fn point_address(base: u32, module: u32, channel: u32) -> (r: Option<u32>)
    ensures
        match r {
            Some(a) => a == base + module * MODULE_POINT_OFFSET + channel * CHANNEL_POINT_OFFSET,
            None => base + module * MODULE_POINT_OFFSET + channel * CHANNEL_POINT_OFFSET
                > u32::MAX,
        },
{
    assert(module * MODULE_POINT_OFFSET <= 0x1_0000_0000 * 0x1000) by (nonlinear_arith)
        requires
            module <= u32::MAX,
            MODULE_POINT_OFFSET == 0x1000,
    ;
    assert(channel * CHANNEL_POINT_OFFSET <= 0x1_0000_0000 * 0x40) by (nonlinear_arith)
        requires
            channel <= u32::MAX,
            CHANNEL_POINT_OFFSET == 0x40,
    ;
    let total: u64 = base as u64 + module as u64 * MODULE_POINT_OFFSET as u64 + channel as u64
        * CHANNEL_POINT_OFFSET as u64;
    if total > u32::MAX as u64 {
        None
    } else {
        Some(total as u32)
    }
}

} // verus!
