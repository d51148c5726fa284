use multi_util::base::Base;
use multi_util::base_encoded::BaseEncoded;
use multi_util::base_encoder::{Base58Encoder, BaseEncoder, DetectedEncoder, MultibaseEncoder};
use multi_util::error::{BaseEncodedError, BaseEncoderError, Error};
use multi_util::varbytes::{EncodingInfo, Varbytes};

#[test]
fn multibase_encodes_with_prefix() {
    assert_eq!(
        MultibaseEncoder::to_base_encoded(Base::Base58Btc, b"hello"),
        "zCn8eVZg"
    );
    assert_eq!(
        DetectedEncoder::to_base_encoded(Base::Base16Lower, &[0x59, 0xDE, 0xAD]),
        "f59dead"
    );
}

#[test]
fn multibase_decodes_prefixed_values() {
    let v = MultibaseEncoder::from_base_encoded("zCn8eVZg").unwrap();
    assert_eq!(v, vec![(Base::Base58Btc, b"hello".to_vec())]);
    // permissive decoding accepts the other case of a hex string
    let v = MultibaseEncoder::from_base_encoded("f59DEAD").unwrap();
    assert_eq!(v, vec![(Base::Base16Lower, vec![0x59, 0xDE, 0xAD])]);
}

#[test]
fn multibase_refuses_unknown_prefix() {
    assert!(matches!(
        MultibaseEncoder::from_base_encoded("xabc"),
        Err(Error::BaseEncoded(BaseEncodedError::ValueFailed))
    ));
    assert!(matches!(
        MultibaseEncoder::from_base_encoded(""),
        Err(Error::BaseEncoded(BaseEncodedError::ValueFailed))
    ));
}

#[test]
fn multibase_round_trip() {
    let data = vec![0u8, 1, 2, 250, 251, 255];
    for base in [Base::Base2, Base::Base16Upper, Base::Base32HexPadLower, Base::Base58Btc, Base::Base64Url] {
        let s = MultibaseEncoder::to_base_encoded(base, &data);
        assert_eq!(MultibaseEncoder::from_base_encoded(&s).unwrap(), vec![(base, data.clone())]);
    }
}

#[test]
fn base58_encodes_without_prefix() {
    assert_eq!(Base58Encoder::to_base_encoded(Base::Base64, b"hello"), "Cn8eVZg");
    let v = Base58Encoder::from_base_encoded("Cn8eVZg").unwrap();
    assert_eq!(v, vec![(Base::Base58Btc, b"hello".to_vec())]);
}

#[test]
fn base58_refuses_invalid_text() {
    let expected = format!(
        "{:?}",
        multi_base::Base::Base58Btc.decode("0OIl", true).unwrap_err()
    );
    match Base58Encoder::from_base_encoded("0OIl") {
        Err(Error::BaseEncoder(BaseEncoderError::Base58(msg))) => assert_eq!(msg, expected),
        other => panic!("Wrong result: {other:?}"),
    }
}

#[test]
fn encoders_read_back_what_they_write() {
    let samples: Vec<Vec<u8>> = vec![vec![], vec![0], vec![0, 0, 7], vec![255; 9], b"hello world".to_vec()];
    let mut base = Base::Identity;
    while let Some(next) = base.successor() {
        base = next;
        for data in &samples {
            let s = MultibaseEncoder::to_base_encoded(base, data);
            assert_eq!(MultibaseEncoder::from_base_encoded(&s).unwrap(), vec![(base, data.clone())]);
            let s = DetectedEncoder::to_base_encoded(base, data);
            assert_eq!(DetectedEncoder::from_base_encoded(&s).unwrap(), vec![(base, data.clone())]);
            let s = Base58Encoder::to_base_encoded(base, data);
            assert_eq!(
                Base58Encoder::from_base_encoded(&s).unwrap(),
                vec![(Base::Base58Btc, data.clone())]
            );
        }
    }
}

#[test]
fn preferred_encodings() {
    assert_eq!(MultibaseEncoder::preferred_encoding(Base::Base32Z), Base::Base32Z);
    assert_eq!(DetectedEncoder::preferred_encoding(Base::Base8), Base::Base8);
    assert_eq!(Base58Encoder::preferred_encoding(Base::Base8), Base::Base58Btc);
    assert_eq!(Varbytes::preferred_encoding(), Base::Base16Lower);
    assert_eq!(Varbytes::new(vec![]).encoding(), Base::Base16Lower);
}

#[test]
fn debug_strings() {
    assert_eq!(MultibaseEncoder::debug_string(Base::Base16Lower), "Base16Lower ('f')");
    assert_eq!(DetectedEncoder::debug_string(Base::Base64Pad), "Base64Pad ('M')");
    assert_eq!(Base58Encoder::debug_string(Base::Base2), "Base58Btc ('z')");
}

#[test]
fn detected_prefers_multibase() {
    let v = DetectedEncoder::from_base_encoded("zCn8eVZg").unwrap();
    assert_eq!(v, vec![(Base::Base58Btc, b"hello".to_vec())]);
}

#[test]
fn detected_falls_back_to_naked_bases_in_table_order() {
    // '1' is no base code, so the text is tried without prefix in table
    // order: Base2 and Base8 refuse it, Base10 reads it.
    let v = DetectedEncoder::from_base_encoded("12").unwrap();
    assert_eq!(v[0].0, Base::Base10);
    assert_eq!(v, vec![(Base::Base10, vec![12])]);
}

#[test]
fn detected_refuses_what_no_base_decodes() {
    assert!(matches!(
        DetectedEncoder::from_base_encoded("x!!"),
        Err(Error::BaseEncoded(BaseEncodedError::ValueFailed))
    ));
}

#[test]
fn base_codes_round_trip() {
    let mut b = Base::Identity;
    let mut count = 1;
    while let Some(n) = b.successor() {
        assert_eq!(Base::from_code(n.code()), Some(n));
        b = n;
        count += 1;
    }
    assert_eq!(count, 24);
    assert_eq!(Base::from_code('x'), None);
    assert_eq!(Base::Base256Emoji.code(), '🚀');
}

#[test]
fn encoded_varbytes_text() {
    let v = Varbytes::encoded_new(Base::Base16Lower, vec![0x01, 0x02, 0x03]);
    assert_eq!(v.to_string(), "f03010203");
    let back = BaseEncoded::<Varbytes>::try_from_str("f03010203").unwrap();
    let bare: BaseEncoded<Varbytes, Base58Encoder> = BaseEncoded::new(Base::Base64, Varbytes::new(vec![1, 2, 3]));
    let text = bare.to_string();
    assert_eq!(text, Base58Encoder::to_base_encoded(Base::Base64, &[3, 1, 2, 3]));
    let read = BaseEncoded::<Varbytes, Base58Encoder>::try_from_str(&text).unwrap();
    assert_eq!(read.base(), Base::Base58Btc);
    assert_eq!(read.value().as_bytes(), &[1, 2, 3]);
    assert!(back == v);
    assert_eq!(back.base(), Base::Base16Lower);
    assert_eq!(back.value().as_bytes(), &[1, 2, 3]);
    assert!(matches!(
        BaseEncoded::<Varbytes>::try_from_str("f0401"),
        Err(Error::InsufficientData { expected: 4, actual: 1 })
    ));
}
