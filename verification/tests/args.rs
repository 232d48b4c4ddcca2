use qrgen::args::Mode;
use qrgen::args::parse_args;
use qrgen::errors::QrGenError;

// No input argument at all is rejected.
#[test]
fn test_parse_args_missing_input() {
    let args = vec!["prog".to_string()];
    assert!(matches!(parse_args(&args), Err(QrGenError::MissingInput)));
}

// A single input argument selects terminal mode.
#[test]
fn test_parse_args_terminal() {
    let args = vec!["prog".to_string(), "hello".to_string()];
    let req = parse_args(&args).unwrap();
    assert_eq!(req.input, "hello");
    assert_eq!(req.mode, Mode::Terminal);
}

// The PNG flag in the second slot selects PNG mode.
#[test]
fn test_parse_args_png() {
    let args = vec![
        "prog".to_string(),
        "hello".to_string(),
        "--png".to_string(),
    ];
    let req = parse_args(&args).unwrap();
    assert_eq!(req.input, "hello");
    assert_eq!(req.mode, Mode::Png);
}

// Any other second flag is rejected, and the message embeds it literally.
#[test]
fn test_parse_args_unknown_flag() {
    let args = vec![
        "prog".to_string(),
        "hello".to_string(),
        "--jpeg".to_string(),
    ];
    match parse_args(&args) {
        Err(QrGenError::UnknownArgument(v)) => {
            assert_eq!(v, "--jpeg");
            assert_eq!(
                QrGenError::UnknownArgument(v).message(),
                "Unknown argument --jpeg."
            );
        }
        _ => panic!("expected an unknown-argument error"),
    }
}
