use kubeconfig::bytes::Bytes;

fn decoded(text: &str) -> Vec<u8> {
    match Bytes::from_base64(text) {
        Ok(bytes) => bytes.as_slice().to_vec(),
        Err(message) => panic!("{}", message),
    }
}

fn refused(text: &str) -> String {
    match Bytes::from_base64(text) {
        Ok(_) => panic!("{:?} was decoded", text),
        Err(message) => message,
    }
}

#[test]
fn base64_of_bytes_decodes_to_the_same_bytes() {
    let samples: Vec<Vec<u8>> = vec![
        vec![],
        vec![0],
        vec![0, 1],
        vec![0, 1, 2],
        b"hello world".to_vec(),
        (0u8..=255).collect(),
    ];
    for sample in samples {
        assert_eq!(decoded(&base64::encode(&sample)), sample);
    }
}

#[test]
fn base64_known_text_decodes() {
    assert_eq!(decoded("aGVsbG8gd29ybGQ="), b"hello world".to_vec());
    assert_eq!(decoded(""), Vec::<u8>::new());
}

#[test]
fn base64_failure_carries_the_detail() {
    assert_eq!(refused("a*b="), "unable to decode base64 string: InvalidByte(1, 42)");
    assert_eq!(refused("abcde"), "unable to decode base64 string: InvalidLength");
    assert_eq!(refused("iYV="), "unable to decode base64 string: InvalidLastSymbol(2, 86)");
}

#[test]
fn base64_is_not_read_as_literal_text() {
    // what fails as base64 is not taken verbatim instead
    assert!(Bytes::from_base64("-----BEGIN CERTIFICATE-----").is_err());
}

#[test]
fn decoder_answer_is_wrapped_as_it_is() {
    match Bytes::from_decoded(Ok(vec![1, 2, 3])) {
        Ok(bytes) => assert_eq!(bytes.as_slice(), &[1, 2, 3]),
        Err(message) => panic!("{}", message),
    }
    match Bytes::from_decoded(Err("InvalidLength".to_string())) {
        Ok(_) => panic!("decoded"),
        Err(message) => assert_eq!(message, "unable to decode base64 string: InvalidLength"),
    }
}

#[test]
fn text_is_taken_verbatim() {
    let text = "-----BEGIN CERTIFICATE-----\nZm9v\n-----END CERTIFICATE-----\n";
    assert_eq!(Bytes::from_text(text).as_slice(), text.as_bytes());
    assert_eq!(Bytes::from_text("Zm9v").as_slice(), b"Zm9v");
    assert_eq!(Bytes::from_text("é").as_slice(), &[0xc3, 0xa9]);
    assert_eq!(Bytes::from_text("").len(), 0);
}

#[test]
fn bytes_read_elsewhere_are_kept_exactly() {
    let data: Vec<u8> = vec![0, 255, 10, 13, 0];
    let bytes = Bytes::new(data.clone());
    assert_eq!(bytes.as_slice(), data.as_slice());
    assert_eq!(bytes.len(), 5);
    assert_eq!(&*bytes, data.as_slice());
}

#[test]
fn debug_text_shows_the_length_only() {
    assert_eq!(Bytes::new(vec![]).debug_text(), "&u8[0]");
    assert_eq!(Bytes::new(b"secret key".to_vec()).debug_text(), "&u8[10]");
    assert_eq!(Bytes::new(vec![7; 1234]).debug_text(), "&u8[1234]");
}

#[test]
fn clone_of_bytes_holds_the_same_bytes() {
    let bytes = Bytes::new(vec![9, 8, 7]);
    let copy = bytes.clone();
    assert_eq!(copy.as_slice(), bytes.as_slice());
}
