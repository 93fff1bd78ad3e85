use zip_entry::{code_of, method_of, Method, UnsupportedMethod};

#[test]
fn codes_of_the_four_methods() {
    assert_eq!(code_of(Method::Store), 0);
    assert_eq!(code_of(Method::Deflate), 8);
    assert_eq!(code_of(Method::BZIP2), 12);
    assert_eq!(code_of(Method::LZMA), 14);
}

#[test]
fn methods_of_the_four_codes() {
    assert_eq!(method_of(0), Ok(Method::Store));
    assert_eq!(method_of(8), Ok(Method::Deflate));
    assert_eq!(method_of(12), Ok(Method::BZIP2));
    assert_eq!(method_of(14), Ok(Method::LZMA));
}

#[test]
fn registry_round_trip_is_identity() {
    for code in [0u16, 8, 12, 14] {
        let first = method_of(code).unwrap();
        assert_eq!(code_of(first), code);
        assert_eq!(method_of(code_of(first)), method_of(code));
    }
}

#[test]
fn method_survives_its_code() {
    for method in [Method::Store, Method::Deflate, Method::BZIP2, Method::LZMA] {
        assert_eq!(method_of(code_of(method)), Ok(method));
    }
}

#[test]
fn every_other_code_is_unsupported() {
    let mut refused: u32 = 0;
    for code in 0..=u16::MAX {
        if code == 0 || code == 8 || code == 12 || code == 14 {
            assert!(method_of(code).is_ok());
        } else {
            assert_eq!(method_of(code), Err(UnsupportedMethod { code }));
            refused += 1;
        }
    }
    assert_eq!(refused, 65536 - 4);
}

#[test]
fn unsupported_code_is_not_taken_for_store() {
    // 99 is the code of AES encryption, 98 that of PPMd: well formed, not in the registry.
    assert_eq!(method_of(99), Err(UnsupportedMethod { code: 99 }));
    assert_eq!(method_of(98), Err(UnsupportedMethod { code: 98 }));
    assert_ne!(method_of(1).ok(), Some(Method::Store));
    assert_eq!(method_of(u16::MAX).unwrap_err().code, 65535);
}
