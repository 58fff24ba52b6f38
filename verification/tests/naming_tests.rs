use kbs2::config::{CommandConfigs, Config, GeneratorConfig};
use kbs2::naming::shm_name_for;

fn config_for_keyfile(keyfile: &str) -> Config {
    Config {
        config_dir: "/not/a/real/dir".into(),
        public_key: "not a real public key".into(),
        keyfile: keyfile.into(),
        wrapped: true,
        store: "/tmp".into(),
        pre_hook: None,
        post_hook: None,
        reentrant_hooks: false,
        generators: Vec::<GeneratorConfig>::new(),
        commands: CommandConfigs::default(),
    }
}

#[test]
fn test_shm_name_known_answer() {
    // SHA-256 of "abc" starts with ba7816bf8f01cfea414140de5dae2223...;
    // ten bytes of prefix leave twenty-one hex digits before the cut.
    let name = shm_name_for(b"abc");
    assert_eq!(name, "/_kbs2_uk_ba7816bf8f01cfea41414");
}

#[test]
fn test_shm_name_is_31_bytes() {
    assert_eq!(shm_name_for(b"/some/path/to/a/key").len(), 31);
    assert_eq!(shm_name_for(b"").len(), 31);
}

#[test]
fn test_shm_name_deterministic() {
    // Two spellings that canonicalize to the same path name the same entry.
    let a = shm_name_for(b"/etc/kbs2/key");
    let b = shm_name_for(b"/etc/kbs2/key");
    assert_eq!(a, b);
}

#[test]
fn test_shm_name_distinct_keyfiles_differ() {
    // Distinct canonical paths get distinct identifiers (with overwhelming
    // probability; here witnessed on concrete paths).
    let a = shm_name_for(b"/etc/kbs2/key");
    let b = shm_name_for(b"/etc/kbs2/other-key");
    assert_ne!(a, b);
}

#[test]
fn test_unwrapped_key_shm_name_matches_free_function() {
    let config = config_for_keyfile("/etc/kbs2/key");
    let name = config.unwrapped_key_shm_name(b"/etc/kbs2/key");
    assert_eq!(name, shm_name_for(b"/etc/kbs2/key"));
    assert!(name.starts_with("/_kbs2_uk_"));
    assert_eq!(name.len(), 31);
}

#[test]
fn test_shm_name_agrees_with_reference_digest() {
    // Recompute the identifier from the digest the hash crate reports,
    // checking prefix, hex encoding, and truncation against it.
    let path = b"/home/user/.config/kbs2/key";
    let digest = <sha2::Sha256 as sha2::Digest>::digest(path);
    let mut expected = String::from("/_kbs2_uk_");
    for byte in digest.iter() {
        expected.push_str(&format!("{:02x}", byte));
    }
    expected.truncate(31);
    assert_eq!(shm_name_for(path), expected);
}
