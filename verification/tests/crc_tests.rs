use modbus485::crc::compute_crc;

#[test]
fn crc_of_read_holding_register_request() {
    // 01 03 00 00 00 01 is sent on the line as 01 03 00 00 00 01 84 0A.
    assert_eq!(compute_crc(&[0x01, 0x03, 0x00, 0x00, 0x00, 0x01]), [0x84, 0x0A]);
}

#[test]
fn crc_of_write_single_register_request() {
    // 11 06 00 01 00 03 is sent as 11 06 00 01 00 03 9A 9B.
    assert_eq!(compute_crc(&[0x11, 0x06, 0x00, 0x01, 0x00, 0x03]), [0x9A, 0x9B]);
}

#[test]
fn crc_of_nothing_is_the_initial_register() {
    assert_eq!(compute_crc(&[]), [0xFF, 0xFF]);
}

#[test]
fn frame_with_its_checksum_checks_to_zero() {
    for data in [vec![0x01u8, 0x03, 0x00, 0x00, 0x00, 0x01], vec![0xFFu8; 17], vec![0x42u8], vec![]] {
        let mut frame = data.clone();
        frame.extend_from_slice(&compute_crc(&data));
        assert_eq!(compute_crc(&frame), [0, 0]);
    }
}

#[test]
fn single_bit_errors_are_detected() {
    let a = vec![0x01u8, 0x03, 0x00, 0x00, 0x00, 0x01];
    let crc = compute_crc(&a);
    for i in 0..a.len() {
        for k in 0..8 {
            let mut b = a.clone();
            b[i] ^= 1 << k;
            assert_ne!(compute_crc(&b), crc);
        }
    }
}

#[test]
fn checksum_is_affine_for_one_length() {
    let a = vec![0x12u8, 0x34, 0x56, 0x78, 0x9A];
    let b = vec![0xFFu8, 0x00, 0x0F, 0xF0, 0x55];
    let x: Vec<u8> = a.iter().zip(&b).map(|(p, q)| p ^ q).collect();
    let z = vec![0u8; a.len()];
    let (cx, ca, cb, cz) = (compute_crc(&x), compute_crc(&a), compute_crc(&b), compute_crc(&z));
    for k in 0..2 {
        assert_eq!(cx[k], ca[k] ^ cb[k] ^ cz[k]);
    }
}
