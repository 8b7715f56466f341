use base64::Engine;
use mendel_shell::error::{ErrorKind, ShellError};
use mendel_shell::payload::{payload_result, write_binary_file};

fn encode_failure(message: &str) -> ShellError {
    ShellError { kind: ErrorKind::Encode, message: message.to_string() }
}

#[test]
fn well_formed_payload_decodes_to_its_bytes() {
    assert_eq!(write_binary_file("aGVsbG8="), Ok(b"hello".to_vec()));
    assert_eq!(write_binary_file("aGVsbG8gd29ybGR+Cg=="), Ok(b"hello world~\n".to_vec()));
    assert_eq!(write_binary_file("AAECA/8="), Ok(vec![0, 1, 2, 3, 255]));
    assert_eq!(write_binary_file("+/+/"), Ok(vec![0xfb, 0xff, 0xbf]));
}

#[test]
fn empty_payload_decodes_to_no_bytes() {
    assert_eq!(write_binary_file(""), Ok(Vec::new()));
}

#[test]
fn binary_content_round_trips_through_the_payload() {
    let mut content = Vec::new();
    for round in 0..3u32 {
        for byte in 0..=255u8 {
            content.push(byte.wrapping_mul(7).wrapping_add(round as u8));
        }
        let payload = base64::engine::general_purpose::STANDARD.encode(&content);
        assert_eq!(write_binary_file(&payload), Ok(content.clone()));
        content.pop();
    }
}

#[test]
fn symbol_outside_the_alphabet_is_an_encode_failure() {
    assert_eq!(
        write_binary_file("aGVs!G8="),
        Err(encode_failure("base64 decode: Invalid symbol 33, offset 4."))
    );
    assert_eq!(
        write_binary_file("aGVs-G8="),
        Err(encode_failure("base64 decode: Invalid symbol 45, offset 4."))
    );
}

#[test]
fn missing_padding_is_an_encode_failure() {
    assert_eq!(write_binary_file("aGVsbG8"), Err(encode_failure("base64 decode: Invalid padding")));
}

#[test]
fn impossible_length_is_an_encode_failure() {
    assert_eq!(
        write_binary_file("aGVsb"),
        Err(encode_failure("base64 decode: Invalid input length: 5"))
    );
}

#[test]
fn stray_trailing_bits_are_an_encode_failure() {
    assert_eq!(
        write_binary_file("aGVsbG9="),
        Err(encode_failure("base64 decode: Invalid last symbol 57, offset 6."))
    );
}

#[test]
fn malformed_payload_yields_no_bytes_to_write() {
    for payload in ["not base64!", "====", "a", "aGVsbG8=\n", " aGVsbG8="] {
        match write_binary_file(payload) {
            Ok(bytes) => panic!("{:?} decoded to {:?}", payload, bytes),
            Err(e) => {
                assert_eq!(e.kind, ErrorKind::Encode);
                assert!(e.message.starts_with("base64 decode: "));
                let reason = base64::engine::general_purpose::STANDARD
                    .decode(payload)
                    .unwrap_err()
                    .to_string();
                assert_eq!(e.message, format!("base64 decode: {}", reason));
            }
        }
    }
}

#[test]
fn payload_result_passes_bytes_and_labels_the_reason() {
    assert_eq!(payload_result(Ok(vec![1, 2, 3])), Ok(vec![1, 2, 3]));
    assert_eq!(payload_result(Ok(Vec::new())), Ok(Vec::new()));
    assert_eq!(
        payload_result(Err("Invalid padding".to_string())),
        Err(encode_failure("base64 decode: Invalid padding"))
    );
    assert_eq!(payload_result(Err(String::new())), Err(encode_failure("base64 decode: ")));
}
