use kbs2::config::{
    CommandConfigs, Config, GeneratorConfig, GeneratorInternalConfig, PassConfig, RmConfig,
    X11Clipboard, find_config_dir, store_dir,
};
use kbs2::generator::Generator;

fn dummy_config() -> Config {
    Config {
        config_dir: "/not/a/real/dir".into(),
        public_key: "not a real public key".into(),
        keyfile: "not a real private key file".into(),
        wrapped: false,
        store: "/tmp".into(),
        pre_hook: Some("true".into()),
        post_hook: Some("false".into()),
        reentrant_hooks: false,
        generators: vec![GeneratorConfig::Internal(Default::default())],
        commands: CommandConfigs {
            rm: RmConfig {
                post_hook: Some("this-command-does-not-exist".into()),
            },
            ..Default::default()
        },
    }
}

#[test]
fn test_find_config_dir() {
    let dir = find_config_dir("/home/user");
    assert!(dir.starts_with("/home/user"));
    assert!(dir.ends_with("/.config/kbs2"));
    assert_eq!(dir, "/home/user/.config/kbs2");
}

#[test]
fn test_store_dir() {
    assert_eq!(store_dir("/home/user"), "/home/user/.local/share/kbs2");
}

#[test]
fn test_get_generator() {
    let config = dummy_config();

    assert!(config.get_generator("default").is_some());
    assert!(config.get_generator("nonexistent-generator").is_none());
}

#[test]
fn test_get_generator_returns_named_generator() {
    let config = dummy_config();

    let generator = config.get_generator("default").unwrap();
    assert_eq!(generator.name(), "default");
}

#[test]
fn test_hook_should_run() {
    let mut config = dummy_config();

    assert!(config.hook_should_run(false));
    assert!(!config.hook_should_run(true));

    config.reentrant_hooks = true;
    assert!(config.hook_should_run(false));
    assert!(config.hook_should_run(true));
}

#[test]
fn test_command_configs_defaults() {
    let commands = CommandConfigs::default();

    assert!(!commands.new.generate_on_empty);
    assert!(commands.new.pre_hook.is_none());
    assert!(commands.new.post_hook.is_none());
    assert!(commands.edit.editor.is_none());
    assert!(commands.edit.post_hook.is_none());
    assert!(commands.rm.post_hook.is_none());
}

#[test]
fn test_pass_config_defaults() {
    let pass = PassConfig::default();

    assert_eq!(pass.clipboard_duration, 10);
    assert!(pass.clear_after);
    assert_eq!(pass.x11_clipboard, X11Clipboard::Clipboard);
    assert!(pass.pre_hook.is_none());
    assert!(pass.post_hook.is_none());
    assert!(pass.clear_hook.is_none());
}

#[test]
fn test_internal_generator_defaults() {
    let generator = GeneratorInternalConfig::default();

    assert_eq!(generator.name, "default");
    assert_eq!(generator.alphabet, "abcdefghijklmnopqrstuvwxyz0123456789(){}[]-_+=");
    assert_eq!(generator.length, 16);
}
