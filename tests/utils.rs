use mmp::consts::{
    BASE_D_POINT_READ, MAX_BYTES_FLOAT, MAX_BYTES_INTEGER, MAX_ELEMENTS_FLOAT,
    MAX_ELEMENTS_INTEGER, T_CODE_WRITE_RESPONSE,
};
use mmp::mmp_errors::{NO_ERROR, UNIDENTIFIED_COMMAND};
use mmp::utils::{
    pack_puc_req, pack_read_quad_req, pack_read_req, pack_write_quad_req, pack_write_req,
    point_address, u32_to_offset, u64_to_offset, unpack_read_quad_res, unpack_read_res,
    unpack_read_res_exact, unpack_write_res, ReadOneOptions, ReadOptions, WriteOneOptions,
    WriteOptions,
};
use mmp::AppError;

#[test]
fn u64_6bytes() {
    let value: u64 = 0xFFFF_F0D8_1000;
    let bytes: [u8; 6] = value.to_be_bytes()[2..].try_into().unwrap();
    assert_eq!(bytes, [0xFF, 0xFF, 0xF0, 0xD8, 0x10, 0x00]);
    assert_eq!(u64_to_offset(value), [0xFF, 0xFF, 0xF0, 0xD8, 0x10, 0x00]);
}

#[test]
fn u64_offset_drops_high_bits() {
    assert_eq!(u64_to_offset(0xABCD_0000_F0D8_1000), [0x00, 0x00, 0xF0, 0xD8, 0x10, 0x00]);
    assert_eq!(u64_to_offset(0x0102_0304_0506), [1, 2, 3, 4, 5, 6]);
}

#[test]
fn u32_offset_zero_extends() {
    assert_eq!(u32_to_offset(0x0038_0000), [0x00, 0x00, 0x00, 0x38, 0x00, 0x00]);
    assert_eq!(u32_to_offset(0xF01E_1040), [0x00, 0x00, 0xF0, 0x1E, 0x10, 0x40]);
}

#[test]
fn label_and_code_bits() {
    let msg = pack_write_quad_req(WriteOneOptions {
        source_id: 0,
        t_label: 1,
        address: [0; 6],
        data: 0,
    });
    assert_eq!(msg[2], 0b00000100);
    let decoded = unpack_read_quad_res(&msg).unwrap();
    assert_eq!(decoded.t_label, 1);

    let mut response = [0u8; 12];
    response[3] = T_CODE_WRITE_RESPONSE << 4;
    assert_eq!(response[3], 0b00100000);
    let decoded = unpack_write_res(&response).unwrap();
    assert_eq!(decoded.t_code, 2);
}

#[test]
fn write_quad_round_trip_keeps_label_and_code() {
    for t_label in [0u8, 1, 17, 42, 63] {
        for data in [0u32, 2, 0xFFFF_FFFF] {
            let msg = pack_write_quad_req(WriteOneOptions {
                source_id: 0xBEEF,
                t_label,
                address: u64_to_offset(0xFFFF_F0D8_1000),
                data,
            });
            let decoded = unpack_read_quad_res(&msg).unwrap();
            assert_eq!(decoded.t_label, t_label);
            assert_eq!(decoded.t_code, 0);
            assert_eq!(decoded.data, data.to_be_bytes());
        }
    }
}

#[test]
fn write_quad_carries_source_id() {
    let msg = pack_write_quad_req(WriteOneOptions {
        source_id: 0x1234,
        t_label: 0,
        address: [0; 6],
        data: 2,
    });
    assert_eq!(&msg[4..6], &[0x12, 0x34]);
    assert_eq!(&msg[12..16], &[0, 0, 0, 2]);
}

#[test]
fn write_quad_then_read_quad() {
    let address = u64_to_offset(0xFFFF_F0D8_1000);
    let write = pack_write_quad_req(WriteOneOptions { source_id: 1, t_label: 0, address, data: 2 });
    assert_eq!(write.len(), 16);
    assert_eq!(&write[6..12], &address);
    let write_reply: [u8; 12] = [0, 0, 0, T_CODE_WRITE_RESPONSE << 4, 0, 1, 0, 0, 0, 0, 0, 0];
    let set = unpack_write_res(&write_reply).unwrap();
    assert_eq!(set.r_code, 0);

    let read = pack_read_quad_req(ReadOneOptions { source_id: 1, t_label: 0, offset: address });
    assert_eq!(read.len(), 12);
    assert_eq!(read[3], 0x40);
    assert_eq!(&read[6..12], &address);
    let read_reply: [u8; 16] = [0, 0, 0, 0x60, 0, 1, 0, 0, 0, 0, 0, 0, 0, 0, 0, 2];
    let got = unpack_read_quad_res(&read_reply).unwrap();
    assert_eq!(got.r_code, 0);
    assert_eq!(u32::from_be_bytes(got.data), 2);
}

#[test]
fn short_quad_response_is_invalid() {
    let buffer = [0u8; 15];
    assert!(matches!(unpack_read_quad_res(&buffer), Err(AppError::InvalidData)));
    assert!(matches!(unpack_write_res(&buffer[..11]), Err(AppError::InvalidData)));
}

#[test]
fn block_length_fidelity() {
    let payload = [1u8, 2, 3, 4];
    let msg = pack_write_req(WriteOptions {
        source_id: 0,
        t_label: 0,
        offset: [0, 0, 0xF0, 0xD8, 0x30, 0x82],
        data_length: 4,
        data: &payload,
    });
    assert_eq!(msg.len(), 20);
    assert_eq!(&msg[12..14], &[0x00, 0x04]);
    assert_eq!(&msg[16..20], &payload);

    let mut reply: Vec<u8> = vec![0, 0, 0, 0x70, 0, 0, 0, 0, 0, 0, 0, 0, 0x00, 0x04, 0, 0];
    reply.extend_from_slice(&[10, 20, 30, 40, 99, 99, 99]);
    let got = unpack_read_res(reply).unwrap();
    assert_eq!(got.t_code, 7);
    assert_eq!(got.data, vec![10, 20, 30, 40]);
}

#[test]
fn block_response_too_short_for_declared_length() {
    let reply: Vec<u8> = vec![0, 0, 0, 0x70, 0, 0, 0, 0, 0, 0, 0, 0, 0x00, 0x04, 0, 0, 1, 2, 3];
    assert!(matches!(unpack_read_res(reply), Err(AppError::InvalidData)));
    assert!(matches!(unpack_read_res(vec![0u8; 15]), Err(AppError::InvalidData)));
}

#[test]
fn block_response_meta_data() {
    let reply: [u8; 18] = [0, 0, 0x0C, 0x70, 0xAB, 0xCD, 0x10, 0, 0, 0, 0, 0, 0, 2, 0, 0, 7, 8];
    let (meta, data) = unpack_read_res_exact(&reply).unwrap();
    assert_eq!(meta.source_id, 0xABCD);
    assert_eq!(meta.t_label, 3);
    assert_eq!(meta.t_code, 7);
    assert_eq!(meta.r_code, 1);
    assert_eq!(data, vec![7, 8]);
}

#[test]
fn read_block_request_length_field() {
    let msg = pack_read_req(ReadOptions {
        source_id: 0x0001,
        t_label: 0,
        offset: u64_to_offset(0xFFFF_F0D8_1000),
        data_length: 4,
    });
    assert_eq!(msg, [0, 0, 0, 0x50, 0, 1, 0xFF, 0xFF, 0xF0, 0xD8, 0x10, 0x00, 0, 4, 0, 0]);
}

#[test]
fn puc_request_with_source_and_label() {
    let msg = pack_puc_req(0x0203, 1);
    assert_eq!(msg, [0, 0, 4, 0, 2, 3, 0xFF, 0xFF, 0xF0, 0x38, 0, 0, 0, 0, 0, 1]);
}

#[test]
fn point_addresses() {
    assert_eq!(point_address(BASE_D_POINT_READ, 2, 3), Some(0xF01E_20C0));
    assert_eq!(point_address(0xFFFF_F000, 1, 0), None);
    assert_eq!(point_address(0xFFFF_F000, 0, 0x3F), Some(0xFFFF_FFC0));
}

#[test]
fn scratch_pad_capacities() {
    assert_eq!(MAX_ELEMENTS_FLOAT, 0x2800);
    assert_eq!(MAX_BYTES_FLOAT, 0xA000);
    assert_eq!(MAX_ELEMENTS_INTEGER, 0x2800);
    assert_eq!(MAX_BYTES_INTEGER, 0xA000);
    assert_eq!(NO_ERROR, 0);
    assert_eq!(UNIDENTIFIED_COMMAND, 0xE001);
}

#[test]
fn error_messages() {
    assert_eq!(AppError::InvalidData.message(), "Invalid data");
}
