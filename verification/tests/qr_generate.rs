use qrgen::Outcome;
use qrgen::errors::EncodeFailure;
use qrgen::errors::QrGenError;
use qrgen::qr_generate;

const URL: &str = "https://www.hofler.fi/fi/hofler-cowhide-primaloft.html";
const URL_FILENAME: &str = "1dfa29c04079750c4cf18257391164ae9626c5fc92f541e6ed6f4bc7e8355e9f.png";

// A QR code is generated for a plain invocation.
#[test]
fn test_qr_generate() {
    let args = vec!["qr_test".to_string(), URL.to_string()];
    let r = qr_generate(&args);
    assert!(matches!(r, Ok(Outcome::Terminal(_))));
}

// A QR code is generated in PNG mode, named after the input's digest.
#[test]
fn test_qr_generate_png() {
    let args = vec!["qr_test".to_string(), URL.to_string(), "--png".to_string()];
    match qr_generate(&args) {
        Ok(Outcome::Png {
            bytes,
            filename,
            message,
        }) => {
            assert_eq!(filename, URL_FILENAME);
            assert_eq!(message, format!("QR code saved as {}", URL_FILENAME));
            assert!(!bytes.is_empty());
            // Every PNG stream starts with the eight PNG signature bytes.
            assert_eq!(&bytes[..8], &[0x89, 0x50, 0x4e, 0x47, 0x0d, 0x0a, 0x1a, 0x0a]);
        }
        _ => panic!("expected a PNG outcome"),
    }
}

// An unknown second flag is rejected, with the flag embedded in the message.
#[test]
fn test_qr_generate_unknown_argument() {
    let args = vec![
        "qr_test".to_string(),
        URL.to_string(),
        "--test".to_string(),
    ];
    match qr_generate(&args) {
        Err(QrGenError::UnknownArgument(v)) => {
            assert_eq!(v, "--test");
            assert_eq!(
                QrGenError::UnknownArgument(v).message(),
                "Unknown argument --test."
            );
        }
        _ => panic!("expected an unknown-argument error"),
    }
}

// Invoking with only a program name fails for want of an input argument.
#[test]
fn test_qr_generate_fail() {
    let args = vec!["qr_test_fail".to_string()];
    match qr_generate(&args) {
        Err(e) => {
            assert!(matches!(e, QrGenError::MissingInput));
            assert_eq!(
                e.message(),
                "Atleast one argument is required to generate QR code."
            );
        }
        _ => panic!("expected a missing-input error"),
    }
}

// Terminal mode prints a non-empty, multi-line rendering and touches no file.
#[test]
fn test_terminal_output_multiline() {
    let args = vec!["qr_test".to_string(), URL.to_string()];
    match qr_generate(&args) {
        Ok(Outcome::Terminal(text)) => {
            assert!(!text.is_empty());
            assert!(text.contains('\n'));
            // The rendering is made of the QR glyphs, not the input echoed back.
            assert_ne!(text, URL);
        }
        _ => panic!("expected a terminal outcome"),
    }
}

// Empty input in PNG mode is rejected at the filename stage.
#[test]
fn test_qr_generate_png_empty_input() {
    let args = vec![
        "qr_test".to_string(),
        String::new(),
        "--png".to_string(),
    ];
    match qr_generate(&args) {
        Err(e) => {
            assert!(matches!(e, QrGenError::EmptyInput));
            assert_eq!(e.message(), "Input is empty.");
        }
        _ => panic!("expected an empty-input error"),
    }
}

// Input beyond any QR symbol's capacity is rejected by the encoder.
#[test]
fn test_qr_generate_data_too_long() {
    let mut long = String::new();
    for _ in 0..4000 {
        long.push('a');
    }
    let args = vec!["qr_test".to_string(), long];
    match qr_generate(&args) {
        Err(QrGenError::Encode(f)) => {
            assert_eq!(f, EncodeFailure::DataTooLong);
            assert_eq!(QrGenError::Encode(f).message(), "data too long");
        }
        _ => panic!("expected an encoder failure"),
    }
}

// Arguments beyond the third are ignored.
#[test]
fn test_qr_generate_extra_arguments_ignored() {
    let args = vec![
        "qr_test".to_string(),
        URL.to_string(),
        "--png".to_string(),
        "ignored".to_string(),
    ];
    match qr_generate(&args) {
        Ok(Outcome::Png { filename, .. }) => assert_eq!(filename, URL_FILENAME),
        _ => panic!("expected a PNG outcome"),
    }
}
