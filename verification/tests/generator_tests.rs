use kbs2::config::{GeneratorCommandConfig, GeneratorConfig, GeneratorInternalConfig};
use kbs2::error::Error;
use kbs2::generator::Generator;

#[test]
fn test_internal_generator_secret_length_and_alphabet() {
    let generator = GeneratorInternalConfig::default();
    let secret = generator.secret().unwrap();

    assert_eq!(secret.chars().count(), 16);
    for c in secret.chars() {
        assert!(generator.alphabet.contains(c));
    }
}

#[test]
fn test_internal_generator_small_alphabet() {
    let generator = GeneratorInternalConfig {
        name: "ones".into(),
        alphabet: "1".into(),
        length: 8,
    };
    assert_eq!(generator.secret().unwrap(), "11111111");
}

#[test]
fn test_internal_generator_rejects_non_ascii_alphabet() {
    let generator = GeneratorInternalConfig {
        name: "bad".into(),
        alphabet: "abc\u{e9}".into(),
        length: 4,
    };
    assert!(generator.secret().is_err());
}

#[test]
fn test_generator_names() {
    let internal = GeneratorConfig::Internal(GeneratorInternalConfig::default());
    assert_eq!(internal.name(), "default");

    let command = GeneratorConfig::Command(GeneratorCommandConfig {
        name: "from-command".into(),
        command: "true".into(),
    });
    assert_eq!(command.name(), "from-command");
}

#[test]
fn test_error_message() {
    let error = Error::new("something went wrong");
    assert_eq!(error.message(), "something went wrong");
}
