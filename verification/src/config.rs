//! The main configuration structure and its per-command sub-structures,
//! together with the configuration-level entry points of the key-unwrap
//! core: hook gating, generator lookup, and the cache-entry identifier for
//! the configured key file.
//!
//! Reading and writing the configuration file itself is I/O and lives with
//! the callers; everything here works on plain values.

use crate::generator::Generator;
use crate::naming;
use vstd::prelude::*;
use vstd::string::StringExecFns;

verus! {

/// The main configuration.
#[derive(Debug)]
pub struct Config {
    /// The path to the directory this configuration was loaded from.
    pub config_dir: String,
    /// The public component of the keypair.
    pub public_key: String,
    /// The path to a file holding the private component of the keypair,
    /// which may be wrapped with a passphrase.
    pub keyfile: String,
    /// Whether the private component of the keypair is wrapped with a
    /// passphrase.
    pub wrapped: bool,
    /// The path to the directory where encrypted records are stored.
    pub store: String,
    /// An optional command to run before each subcommand.
    pub pre_hook: Option<String>,
    /// An optional command to run after each subcommand, on success.
    pub post_hook: Option<String>,
    /// Whether hooks are still called when a hook itself invokes the tool.
    pub reentrant_hooks: bool,
    /// The secret generators configured by the user.
    pub generators: Vec<GeneratorConfig>,
    /// Per-command configuration.
    pub commands: CommandConfigs,
}

impl Config {
    /// Whether a hook should run: always when reentrant hooks are enabled,
    /// otherwise only when no hook is already running (as the presence of
    /// the hook marker in the environment tells).
    pub fn hook_should_run(&self, hook_marker_present: bool) -> (r: bool)
        ensures
            r == (self.reentrant_hooks || !hook_marker_present),
    {
        self.reentrant_hooks || !hook_marker_present
    }

    /// Given the `name` of a configured generator, returns the first
    /// configured generator of that name, if any exists.
    pub fn get_generator<'a>(&'a self, name: &str) -> (r: Option<&'a GeneratorConfig>)
        ensures
            match r {
                Some(g) => exists|i: int|
                    {
                        &&& 0 <= i < self.generators@.len()
                        &&& self.generators@[i].name_spec() == name@
                        &&& *g == self.generators@[i]
                        &&& forall|j: int|
                            0 <= j < i ==> self.generators@[j].name_spec() != name@
                    },
                None => forall|i: int|
                    0 <= i < self.generators@.len() ==> self.generators@[i].name_spec() != name@,
            },
    {
        let mut i: usize = 0;
        while i < self.generators.len()
            invariant
                i <= self.generators@.len(),
                forall|j: int| 0 <= j < i ==> self.generators@[j].name_spec() != name@,
            decreases self.generators@.len() - i,
        {
            let g = &self.generators[i];
            if str_eq(g.name(), name) {
                return Some(g);
            }
            i = i + 1;
        }
        None
    }

    /// Derives the identifier of the shared-memory cache entry that can (or
    /// already does) store the unwrapped key: a deterministic, truncated
    /// hash of the key file's canonical path. The caller resolves
    /// `self.keyfile` to its canonical (symlink-free, absolute) form and
    /// hands its bytes in, so that every spelling of the same file names
    /// the same entry.
    pub fn unwrapped_key_shm_name(&self, canonical_keyfile: &[u8]) -> (r: String)
        ensures
            r@ == naming::shm_name_spec(canonical_keyfile@),
            r@.len() == 31,
    {
        naming::shm_name_for(canonical_keyfile)
    }
}

/// Compares two string slices by contents.
fn str_eq(a: &str, b: &str) -> (r: bool)
    ensures
        r == (a@ == b@),
{
    let a_owned = a.to_owned();
    let b_owned = b.to_owned();
    a_owned == b_owned
}

/// The different types of generators.
#[derive(Debug)]
pub enum GeneratorConfig {
    /// A generator that runs an external command.
    Command(GeneratorCommandConfig),
    /// A generator that samples an alphabet internally.
    Internal(GeneratorInternalConfig),
}

/// The configuration settings for a "command" generator.
#[derive(Debug)]
pub struct GeneratorCommandConfig {
    /// The name of the generator.
    pub name: String,
    /// The command to run to generate a secret.
    pub command: String,
}

/// The configuration settings for an "internal" generator.
#[derive(Debug)]
pub struct GeneratorInternalConfig {
    /// The name of the generator.
    pub name: String,
    /// The alphabet to sample from when generating a secret.
    pub alphabet: String,
    /// The number of characters to sample from the alphabet.
    pub length: u32,
}

impl Default for GeneratorInternalConfig {
    /// The built-in generator: named `default`, sixteen characters from an
    /// alphabet with symbols but without the commonly blacklisted ones.
    fn default() -> (c: Self)
        ensures
            c.name@ == "default"@,
            c.alphabet@ == "abcdefghijklmnopqrstuvwxyz0123456789(){}[]-_+="@,
            c.length == 16,
    {
        GeneratorInternalConfig {
            name: "default".to_owned(),
            alphabet: "abcdefghijklmnopqrstuvwxyz0123456789(){}[]-_+=".to_owned(),
            length: 16,
        }
    }
}

/// The per-command configuration settings.
#[derive(Debug)]
pub struct CommandConfigs {
    /// Settings for the `new` command.
    pub new: NewConfig,
    /// Settings for the `pass` command.
    pub pass: PassConfig,
    /// Settings for the `edit` command.
    pub edit: EditConfig,
    /// Settings for the `rm` command.
    pub rm: RmConfig,
}

impl Default for CommandConfigs {
    fn default() -> (c: Self)
        ensures
            c.new.generate_on_empty == false,
            c.new.pre_hook is None,
            c.new.post_hook is None,
            c.pass.clipboard_duration == 10,
            c.pass.clear_after == true,
            c.pass.x11_clipboard == X11Clipboard::Clipboard,
            c.pass.pre_hook is None,
            c.pass.post_hook is None,
            c.pass.clear_hook is None,
            c.edit.editor is None,
            c.edit.post_hook is None,
            c.rm.post_hook is None,
    {
        CommandConfigs {
            new: NewConfig::default(),
            pass: PassConfig::default(),
            edit: EditConfig::default(),
            rm: RmConfig::default(),
        }
    }
}

/// Configuration settings for the `new` command.
#[derive(Debug)]
pub struct NewConfig {
    /// Whether an empty entry asks the generator instead.
    pub generate_on_empty: bool,
    /// An optional command to run before the command.
    pub pre_hook: Option<String>,
    /// An optional command to run after the command, on success.
    pub post_hook: Option<String>,
}

impl Default for NewConfig {
    fn default() -> (c: Self)
        ensures
            c.generate_on_empty == false,
            c.pre_hook is None,
            c.post_hook is None,
    {
        NewConfig { generate_on_empty: false, pre_hook: None, post_hook: None }
    }
}

/// Configuration settings for the `pass` command.
#[derive(Debug)]
pub struct PassConfig {
    /// How long a password stays on the clipboard, in seconds.
    pub clipboard_duration: u64,
    /// Whether the clipboard is cleared afterwards.
    pub clear_after: bool,
    /// Which X11 clipboard to use.
    pub x11_clipboard: X11Clipboard,
    /// An optional command to run before the command.
    pub pre_hook: Option<String>,
    /// An optional command to run after the command, on success.
    pub post_hook: Option<String>,
    /// An optional command to run after the clipboard is cleared.
    pub clear_hook: Option<String>,
}

impl Default for PassConfig {
    fn default() -> (c: Self)
        ensures
            c.clipboard_duration == 10,
            c.clear_after == true,
            c.x11_clipboard == X11Clipboard::Clipboard,
            c.pre_hook is None,
            c.post_hook is None,
            c.clear_hook is None,
    {
        PassConfig {
            clipboard_duration: 10,
            clear_after: true,
            x11_clipboard: X11Clipboard::Clipboard,
            pre_hook: None,
            post_hook: None,
            clear_hook: None,
        }
    }
}

/// The X11 clipboards a password can be placed on.
#[derive(Clone, Copy, Debug, PartialEq, Eq, Structural)]
pub enum X11Clipboard {
    /// The CLIPBOARD selection.
    Clipboard,
    /// The PRIMARY selection.
    Primary,
}

/// Configuration settings for the `edit` command.
#[derive(Debug)]
pub struct EditConfig {
    /// The editor to open records with.
    pub editor: Option<String>,
    /// An optional command to run after the command, on success.
    pub post_hook: Option<String>,
}

impl Default for EditConfig {
    fn default() -> (c: Self)
        ensures
            c.editor is None,
            c.post_hook is None,
    {
        EditConfig { editor: None, post_hook: None }
    }
}

/// Configuration settings for the `rm` command.
#[derive(Debug)]
pub struct RmConfig {
    /// An optional command to run after the command, on success.
    pub post_hook: Option<String>,
}

impl Default for RmConfig {
    fn default() -> (c: Self)
        ensures
            c.post_hook is None,
    {
        RmConfig { post_hook: None }
    }
}

/// Returns the configuration directory for the given home directory:
/// `.config/kbs2` under it, across all platforms.
pub fn find_config_dir(home: &str) -> (r: String)
    ensures
        r@ == home@ + "/.config/kbs2"@,
{
    home.to_owned().concat("/.config/kbs2")
}

/// Returns the record store directory for the given home directory:
/// `.local/share/kbs2` under it, across all platforms.
pub fn store_dir(home: &str) -> (r: String)
    ensures
        r@ == home@ + "/.local/share/kbs2"@,
{
    home.to_owned().concat("/.local/share/kbs2")
}

} // verus!
