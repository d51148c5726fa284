use multi_trait::EncodeInto;
use multi_util::error::Error;
use multi_util::varbytes::{decode_varbytes, Varbytes, VarbytesMax, DEFAULT_MAX, MAX_DECODED_SIZE};

#[test]
fn test_default() {
    let v = Varbytes::default();
    assert_eq!(Vec::<u8>::default(), *v);
}

#[test]
fn test_to_inner() {
    let v = Varbytes::new(vec![1, 2, 3]);
    assert_eq!(vec![1, 2, 3], v.to_inner());
}

#[test]
fn test_default_round_trip() {
    let v1 = Varbytes::default();
    let v: Vec<u8> = v1.clone().into();
    let v2 = Varbytes::try_from(v.as_slice()).unwrap();
    assert!(v1 == v2);
}

#[test]
fn test_encode_decode_round_trip() {
    let v1 = Varbytes::new(vec![1, 2, 3]);
    let (v2, _) = Varbytes::try_decode_from(&v1.encode_into()).unwrap();
    assert!(v1 == v2);
}

#[test]
fn test_into_tryfrom_round_trip() {
    let v1 = Varbytes::new(vec![1, 2, 3]);
    let data: Vec<u8> = v1.clone().into();
    let v2 = Varbytes::try_from(data.as_slice()).unwrap();
    assert!(v1 == v2);
}

#[test]
fn test_debug() {
    let v = Varbytes::new(vec![1, 2, 3]);
    assert_eq!("[3, 1, 2, 3]".to_string(), v.to_debug_string());
}

#[test]
fn test_crit1_buffer_overflow_prevented() {
    // Claims 4GB length but only has 3 bytes.
    let mut malicious = Vec::new();
    let huge_length = 0xFFFF_FFFF_usize;
    malicious.extend(huge_length.encode_into());
    malicious.extend(&[0x01, 0x02, 0x03]);

    let result = Varbytes::try_decode_from(&malicious);
    assert!(
        result.is_err(),
        "Should reject length claim that exceeds available data"
    );
    match result.err().unwrap() {
        Error::InputTooLarge { claimed, max } => {
            assert_eq!(claimed, huge_length);
            assert_eq!(max, MAX_DECODED_SIZE);
        }
        Error::InsufficientData { expected, actual } => {
            assert_eq!(expected, huge_length);
            assert_eq!(actual, 3);
        }
        e => panic!("Expected InputTooLarge or InsufficientData error, got: {e:?}"),
    }
}

#[test]
fn test_crit1_regression_zero_length() {
    let encoded = 0usize.encode_into();
    let result = Varbytes::try_decode_from(&encoded);
    assert!(result.is_ok(), "Zero-length varbytes should be valid");
    let (varbytes, remaining) = result.unwrap();
    assert_eq!(varbytes.to_inner(), Vec::<u8>::new());
    assert!(remaining.is_empty());
}

#[test]
fn test_crit1_regression_exact_length() {
    let data = vec![0xAA, 0xBB, 0xCC];
    let mut encoded = data.len().encode_into();
    encoded.extend(&data);
    let result = Varbytes::try_decode_from(&encoded);
    assert!(result.is_ok(), "Exact length match should succeed");
    let (varbytes, remaining) = result.unwrap();
    assert_eq!(varbytes.to_inner(), data);
    assert!(remaining.is_empty());
}

#[test]
fn test_crit1_one_byte_over() {
    let mut malicious = Vec::new();
    malicious.extend(4usize.encode_into());
    malicious.extend(&[0x01, 0x02, 0x03]);
    let result = Varbytes::try_decode_from(&malicious);
    assert!(
        result.is_err(),
        "Should reject length claim exceeding buffer by 1"
    );
    match result.err().unwrap() {
        Error::InsufficientData { expected, actual } => {
            assert_eq!(expected, 4);
            assert_eq!(actual, 3);
        }
        _ => panic!("Expected InsufficientData error"),
    }
}

#[test]
fn test_crit1_empty_buffer_nonzero_length() {
    let mut malicious = Vec::new();
    malicious.extend(100usize.encode_into());
    let result = Varbytes::try_decode_from(&malicious);
    assert!(result.is_err(), "Should reject nonzero length with no data");
}

#[test]
fn test_crit1_legitimate_large_data() {
    let large_data = vec![0x42; 1024 * 1024];
    let mut encoded = large_data.len().encode_into();
    encoded.extend(&large_data);
    let result = Varbytes::try_decode_from(&encoded);
    assert!(result.is_ok(), "Legitimate large data should be accepted");
    let (varbytes, remaining) = result.unwrap();
    let inner = varbytes.to_inner();
    assert_eq!(inner.len(), 1024 * 1024);
    assert_eq!(inner[0], 0x42);
    assert!(remaining.is_empty());
}

#[test]
fn test_crit1_with_trailing_data() {
    let data = vec![0xAA, 0xBB];
    let trailing = vec![0xCC, 0xDD, 0xEE];
    let mut encoded = data.len().encode_into();
    encoded.extend(&data);
    encoded.extend(&trailing);
    let result = Varbytes::try_decode_from(&encoded);
    assert!(result.is_ok());
    let (varbytes, remaining) = result.unwrap();
    assert_eq!(varbytes.to_inner(), data);
    assert_eq!(remaining, trailing.as_slice());
}

// Deterministic stand-ins for the property checks: a small generator walks
// many inputs.

fn next(state: &mut u64) -> u64 {
    *state = state
        .wrapping_mul(6364136223846793005)
        .wrapping_add(1442695040888963407);
    *state >> 33
}

#[test]
fn crit1_never_panics_on_many_inputs() {
    let mut state = 7u64;
    for _ in 0..2000 {
        let len = (next(&mut state) % 64) as usize;
        let bytes: Vec<u8> = (0..len).map(|_| next(&mut state) as u8).collect();
        let _ = Varbytes::try_decode_from(&bytes);
    }
}

#[test]
fn crit1_valid_roundtrip_on_many_inputs() {
    let mut state = 11u64;
    for _ in 0..300 {
        let len = (next(&mut state) % 3000) as usize;
        let data: Vec<u8> = (0..len).map(|_| next(&mut state) as u8).collect();
        let encoded = Varbytes::new(data.clone()).encode_into();
        let (decoded, remaining) = Varbytes::try_decode_from(&encoded).unwrap();
        assert_eq!(decoded.to_inner(), data);
        assert!(remaining.is_empty());
    }
}

#[test]
fn crit1_length_mismatch_detected_on_many_inputs() {
    for claimed_len in 1usize..200 {
        for actual_len in 0usize..claimed_len.min(100) {
            let mut malicious = Vec::new();
            malicious.extend(claimed_len.encode_into());
            malicious.extend(vec![0u8; actual_len]);
            match Varbytes::try_decode_from(&malicious) {
                Err(Error::InsufficientData { expected, actual }) => {
                    assert_eq!(expected, claimed_len);
                    assert_eq!(actual, actual_len);
                }
                Err(e) => panic!("Wrong error: {e:?}"),
                Ok(_) => panic!("Decoding should fail"),
            }
        }
    }
}

#[test]
fn encode_into_is_length_prefix_then_bytes() {
    let v = Varbytes::new(vec![0x11; 300]);
    let encoded = v.encode_into();
    assert_eq!(&encoded[..2], &[0xAC, 0x02]);
    assert_eq!(&encoded[2..], &[0x11; 300][..]);
}

#[test]
fn over_cap_is_refused_before_buffer_check() {
    let mut payload = Vec::new();
    payload.extend((MAX_DECODED_SIZE + 1).encode_into());
    payload.extend(&[0u8; 4]);
    match Varbytes::try_decode_from(&payload) {
        Err(Error::InputTooLarge { claimed, max }) => {
            assert_eq!(claimed, MAX_DECODED_SIZE + 1);
            assert_eq!(max, MAX_DECODED_SIZE);
        }
        Err(e) => panic!("Wrong error: {e:?}"),
        Ok(_) => panic!("Decoding should fail"),
    }
}

#[test]
fn bad_length_prefix_is_varint_error() {
    // A continuation byte with nothing after it.
    assert!(matches!(
        Varbytes::try_decode_from(&[0x80]),
        Err(Error::Multitrait(_))
    ));
    // A trailing zero group is not a minimal varint.
    assert!(matches!(
        Varbytes::try_decode_from(&[0x81, 0x00]),
        Err(Error::Multitrait(_))
    ));
    // Empty input.
    assert!(matches!(
        Varbytes::try_decode_from(&[]),
        Err(Error::Multitrait(_))
    ));
}

#[test]
fn split_payload_checks_cap_then_buffer() {
    let ptr = [1u8, 2, 3, 4];
    let (v, rest) = Varbytes::split_payload(3, &ptr, 3).unwrap();
    assert_eq!(v.as_bytes(), &[1, 2, 3]);
    assert_eq!(rest, &[4]);
    assert!(matches!(
        Varbytes::split_payload(5, &ptr, 4),
        Err(Error::InputTooLarge { claimed: 5, max: 4 })
    ));
    assert!(matches!(
        Varbytes::split_payload(5, &ptr, 8),
        Err(Error::InsufficientData { expected: 5, actual: 4 })
    ));
}

#[test]
fn decode_varbytes_len_equal_to_max_is_accepted() {
    let max = 8usize;
    let data = vec![0xABu8; max];
    let mut payload = Vec::new();
    payload.extend(max.encode_into());
    payload.extend(&data);
    let v = decode_varbytes(&payload, max).expect("len == max should be accepted");
    assert_eq!(v, data);
}

#[test]
fn decode_varbytes_len_just_over_max_is_refused() {
    let max = 8usize;
    let over = max + 1;
    let mut payload = Vec::new();
    payload.extend(over.encode_into());
    payload.extend(vec![0u8; over]);
    assert!(matches!(
        decode_varbytes(&payload, max),
        Err(Error::InputTooLarge { claimed: 9, max: 8 })
    ));
}

#[test]
fn decode_varbytes_len_over_buffer_is_refused() {
    let malicious: &[u8] = &[0x04, 0x01, 0x02, 0x03];
    assert!(matches!(
        decode_varbytes(malicious, MAX_DECODED_SIZE),
        Err(Error::InsufficientData { expected: 4, actual: 3 })
    ));
}

#[test]
fn as_bytes_mut_changes_the_value() {
    let mut v = Varbytes::new(vec![1, 2]);
    v.as_bytes_mut().push(3);
    assert_eq!(v.as_bytes(), &[1, 2, 3]);
    assert_eq!(v.as_ref(), &[1, 2, 3]);
}

#[test]
fn debug_text_of_larger_bytes() {
    let v = Varbytes::new(vec![0, 10, 99, 100, 255]);
    assert_eq!(v.to_debug_string(), "[5, 0, 10, 99, 100, 255]");
    assert_eq!(Varbytes::default().to_debug_string(), "[0]");
}

#[test]
fn varbytes_max_caps_at_the_type_level() {
    let mut payload = 9usize.encode_into();
    payload.extend(vec![7u8; 9]);
    assert!(matches!(
        VarbytesMax::<8>::try_decode_from(&payload),
        Err(Error::InputTooLarge { claimed: 9, max: 8 })
    ));
    let (v, rest) = VarbytesMax::<9>::try_decode_from(&payload).unwrap();
    assert_eq!(v.as_bytes(), &[7u8; 9]);
    assert!(rest.is_empty());
    assert_eq!(v.encode_into(), payload);
    assert_eq!(v.into_varbytes().to_inner(), vec![7u8; 9]);
    assert_eq!(DEFAULT_MAX, MAX_DECODED_SIZE);
    assert_eq!(VarbytesMax::<4>::new(vec![1]).as_bytes(), &[1]);
}
