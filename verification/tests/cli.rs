use rcli::cli::base64_options::{parser_base64_format, Base64Format};
use rcli::cli::csv_options::{parse_output_format, OutputFormat};
use rcli::cli::text_options::{parser_text_sign_format, TextSignFormat};
use rcli::cli::{verify_file, verify_input_file, verify_path, CliError};

#[test]
fn test_verify_file() {
    assert!(matches!(verify_file("-", false), Ok(s) if s == "-"));
    assert!(matches!(verify_file("Cargo.toml", true), Ok(s) if s == "Cargo.toml"));
    assert!(verify_file("*", false).is_err());
    assert!(verify_file("Cargo.toml", true).is_ok());
    assert!(verify_file("not_exist.txt", false).is_err());
}

#[test]
fn verify_file_names_the_missing_file() {
    let refused = verify_file("not_exist.txt", false).unwrap_err();
    assert_eq!(refused, CliError::InputNotFound { path: "not_exist.txt".to_string() });
    assert_eq!(refused.message(), "Input file not_exist.txt not found");
    assert_eq!(verify_file("-", true), Ok("-".to_string()));
    assert!(verify_file("--", false).is_err());
    assert!(verify_file("", false).is_err());
}

#[test]
fn verify_input_file_has_no_name_for_standard_input() {
    assert_eq!(verify_input_file("input.csv", true), Ok("input.csv".to_string()));
    assert_eq!(
        verify_input_file("-", false),
        Err(CliError::InputNotFound { path: "-".to_string() })
    );
}

#[test]
fn verify_path_wants_a_directory() {
    assert_eq!(verify_path(".", true, true), Ok(".".to_string()));
    let file = verify_path("Cargo.toml", true, false).unwrap_err();
    assert_eq!(file, CliError::OutputNotDirectory { path: "Cargo.toml".to_string() });
    assert_eq!(file.message(), "Output file Cargo.toml dose not exist");
    assert!(verify_path("nowhere", false, false).is_err());
    assert!(verify_path("nowhere", false, true).is_err());
}

#[test]
fn scheme_names_are_matched_exactly() {
    assert_eq!(parser_text_sign_format("blake3"), Ok(TextSignFormat::Blake3));
    assert_eq!(parser_text_sign_format("ed25519"), Ok(TextSignFormat::Ed25519));
    assert_eq!(parser_text_sign_format("Blake3"), Err(CliError::InvalidScheme));
    assert_eq!(parser_text_sign_format("blake3 "), Err(CliError::InvalidScheme));
    assert_eq!(parser_text_sign_format(""), Err(CliError::InvalidScheme));
    assert_eq!(CliError::InvalidScheme.message(), "Invalid text sign format");
    assert_eq!("ed25519".parse::<TextSignFormat>(), Ok(TextSignFormat::Ed25519));
    assert!("rsa".parse::<TextSignFormat>().is_err());
}

#[test]
fn scheme_names_round_trip() {
    for format in [TextSignFormat::Blake3, TextSignFormat::Ed25519] {
        let name: &'static str = format.into();
        assert_eq!(parser_text_sign_format(name), Ok(format));
    }
    assert_eq!(<&'static str>::from(TextSignFormat::Blake3), "blake3");
    assert_eq!(<&'static str>::from(TextSignFormat::Ed25519), "ed25519");
}

#[test]
fn base64_format_names_are_matched_exactly() {
    assert_eq!(parser_base64_format("url_safe"), Ok(Base64Format::UrlSafe));
    assert_eq!(parser_base64_format("standard"), Ok(Base64Format::Standard));
    let refused = parser_base64_format("Standard").unwrap_err();
    assert_eq!(refused, CliError::InvalidBase64Format { format: "Standard".to_string() });
    assert_eq!(refused.message(), "Invalid base64 format: Standard");
    assert_eq!("standard".parse::<Base64Format>(), Ok(Base64Format::Standard));
}

#[test]
fn base64_format_names_round_trip() {
    assert_eq!(String::from(Base64Format::UrlSafe), "url_safe");
    assert_eq!(String::from(Base64Format::Standard), "standard");
    for format in [Base64Format::UrlSafe, Base64Format::Standard] {
        assert_eq!(parser_base64_format(&String::from(format)), Ok(format));
    }
}

#[test]
fn output_format_names_ignore_case() {
    assert_eq!(parse_output_format("json"), Ok(OutputFormat::Json));
    assert_eq!(parse_output_format("JSON"), Ok(OutputFormat::Json));
    assert_eq!(parse_output_format("Yaml"), Ok(OutputFormat::Yaml));
    let refused = parse_output_format("TOML").unwrap_err();
    assert_eq!(refused, CliError::InvalidOutputFormat { format: "TOML".to_string() });
    assert_eq!(refused.message(), "Invalid output format: TOML");
    assert!(parse_output_format("").is_err());
}

#[test]
fn output_format_names_round_trip() {
    assert_eq!(<&'static str>::from(OutputFormat::Json), "json");
    assert_eq!(<&'static str>::from(OutputFormat::Yaml), "yaml");
    for format in [OutputFormat::Json, OutputFormat::Yaml] {
        let name: &'static str = format.into();
        assert_eq!(name.parse::<OutputFormat>(), Ok(format));
        assert_eq!(name.to_uppercase().parse::<OutputFormat>(), Ok(format));
    }
    assert!("toml".parse::<OutputFormat>().is_err());
}
