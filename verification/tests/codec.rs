use mocap_suit::codec::{
    decode, decode_quaternion, encode_data, encode_identify, encode_ready, quat_to_bytes, Command,
    Quaternion,
};

fn quat(w: f32, x: f32, y: f32, z: f32) -> Quaternion {
    Quaternion { w: w.to_bits(), x: x.to_bits(), y: y.to_bits(), z: z.to_bits() }
}

fn block(w: f32, x: f32, y: f32, z: f32) -> Vec<u8> {
    let mut out = Vec::new();
    out.extend_from_slice(&w.to_le_bytes());
    out.extend_from_slice(&x.to_le_bytes());
    out.extend_from_slice(&y.to_le_bytes());
    out.extend_from_slice(&z.to_le_bytes());
    out
}

#[test]
fn decode_matches_known_tags() {
    assert_eq!(decode(b"MSID"), Some(Command::Identify));
    assert_eq!(decode(b"REDY"), Some(Command::ReadyCheck));
    assert_eq!(decode(b"DATA"), Some(Command::DataRequest));
}

#[test]
fn decode_rejects_every_other_input() {
    assert_eq!(decode(b"XXXX"), None);
    assert_eq!(decode(b"msid"), None);
    assert_eq!(decode(b"MSIE"), None);
    assert_eq!(decode(b"DATa"), None);
    assert_eq!(decode(&[0, 0, 0, 0]), None);
    assert_eq!(decode(&[77, 83, 73, 0]), None);
}

#[test]
fn encode_identify_is_three_zero_bytes() {
    assert_eq!(encode_identify(), vec![0u8, 0, 0]);
}

#[test]
fn encode_ready_is_one_byte_flag() {
    assert_eq!(encode_ready(true), vec![1u8]);
    assert_eq!(encode_ready(false), vec![0u8]);
}

#[test]
fn encode_data_is_sixteen_bytes_per_channel() {
    let q = quat(1.0, 0.0, 0.0, 0.0);
    assert_eq!(encode_data(&vec![]).len(), 0);
    assert_eq!(encode_data(&vec![Some(q)]).len(), 16);
    assert_eq!(encode_data(&vec![None]).len(), 16);
    assert_eq!(encode_data(&vec![None, None]).len(), 32);
    assert_eq!(encode_data(&vec![Some(q), None, Some(q), None]).len(), 64);
}

#[test]
fn quaternion_block_is_little_endian_w_x_y_z() {
    let bytes = quat_to_bytes(&quat(1.0, 0.5, -2.0, 0.25));
    assert_eq!(bytes, block(1.0, 0.5, -2.0, 0.25));
    // 1.0f32 is 0x3f800000: little-endian leads with the low zero bytes.
    assert_eq!(&bytes[0..4], [0x00, 0x00, 0x80, 0x3f]);
}

#[test]
fn two_channels_second_read_failed() {
    let readings = vec![Some(quat(1.0, 0.0, 0.0, 0.0)), None];
    let mut expected = block(1.0, 0.0, 0.0, 0.0);
    expected.extend_from_slice(&[0u8; 16]);
    assert_eq!(encode_data(&readings), expected);
}

#[test]
fn failed_channel_zeroes_only_its_own_block() {
    let readings = vec![Some(quat(0.5, -0.5, 0.25, 1.0)), None, Some(quat(-1.0, 0.125, 3.5, -0.75))];
    let bytes = encode_data(&readings);
    assert_eq!(bytes.len(), 48);
    assert_eq!(&bytes[0..16], block(0.5, -0.5, 0.25, 1.0));
    assert_eq!(&bytes[16..32], [0u8; 16]);
    assert_eq!(&bytes[32..48], block(-1.0, 0.125, 3.5, -0.75));
}

#[test]
fn quaternion_round_trip_is_bit_exact() {
    let cases: [(f32, f32, f32, f32); 4] = [
        (1.0, 0.0, 0.0, 0.0),
        (-0.7071, 0.7071, 0.0, 1.0e-12),
        (f32::MIN_POSITIVE, -0.0, 123456.78, -9.9),
        (0.25, -0.25, 0.5, -1.0),
    ];
    for &(w, x, y, z) in cases.iter() {
        let q = quat(w, x, y, z);
        let bytes = quat_to_bytes(&q);
        let back = decode_quaternion(&bytes);
        assert_eq!(back, q);
        assert_eq!(f32::from_bits(back.w).to_bits(), w.to_bits());
        assert_eq!(f32::from_bits(back.x).to_bits(), x.to_bits());
        assert_eq!(f32::from_bits(back.y).to_bits(), y.to_bits());
        assert_eq!(f32::from_bits(back.z).to_bits(), z.to_bits());
    }
}

#[test]
fn repeated_data_requests_return_identical_bytes() {
    let readings = vec![Some(quat(0.1, 0.2, 0.3, 0.4)), Some(quat(-1.0, 0.0, 0.0, 0.0)), None];
    assert_eq!(encode_data(&readings), encode_data(&readings));
}
