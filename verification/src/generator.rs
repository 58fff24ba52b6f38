//! Secret generators.
//!
//! A generator produces a fresh secret on demand. The internal generator
//! samples a configured alphabet with a random index for each character;
//! randomness comes from the operating system through a trusted wrapper, and
//! the sampling logic is verified for every value the wrapper can return.
//! A "command" generator runs an external command, which is I/O and lives
//! with the callers; its configuration can still be named and looked up.

use crate::config::{GeneratorCommandConfig, GeneratorConfig, GeneratorInternalConfig};
use crate::error::Error;
use crate::naming;
use vstd::prelude::*;
use vstd::string::{string_is_ascii, StrSliceExecFns, StringExecFnsIsAscii};

verus! {

/// Something that can name itself and generate a secret.
pub trait Generator {
    /// The generator's name.
    spec fn name_spec(&self) -> Seq<char>;

    /// The inputs on which the generator can be asked for a secret.
    spec fn secret_req(&self) -> bool;

    /// What holds of the generator's answer.
    spec fn secret_post(&self, r: &Result<String, Error>) -> bool;

    /// The generator's name.
    fn name(&self) -> (r: &str)
        ensures
            r@ == self.name_spec(),
    ;

    /// Generates a secret.
    fn secret(&self) -> (r: Result<String, Error>)
        requires
            self.secret_req(),
        ensures
            self.secret_post(&r),
    ;
}

/// Relies on `rand::Rng::gen_range` over `rand::thread_rng`: an index drawn
/// below the bound. The draw is random; nothing else is assumed of it.
#[verifier::external_body]
fn random_index(bound: usize) -> (r: usize)
    requires
        bound > 0,
    ensures
        r < bound,
{
    rand::Rng::gen_range(&mut rand::thread_rng(), 0..bound)
}

impl Generator for GeneratorInternalConfig {
    open spec fn name_spec(&self) -> Seq<char> {
        self.name@
    }

    /// Sampling indexes the alphabet, so it must not be empty.
    open spec fn secret_req(&self) -> bool {
        self.alphabet@.len() > 0
    }

    /// A generated secret has exactly the configured length and draws every
    /// character from the configured alphabet; a non-ASCII alphabet is
    /// rejected instead (its byte indexing would split characters).
    open spec fn secret_post(&self, r: &Result<String, Error>) -> bool {
        match r {
            Ok(s) => {
                &&& string_is_ascii(&self.alphabet)
                &&& s@.len() == self.length as nat
                &&& forall|i: int| 0 <= i < s@.len() ==> self.alphabet@.contains(s@[i])
            },
            Err(_) => !string_is_ascii(&self.alphabet),
        }
    }

    fn name(&self) -> (r: &str) {
        self.name.as_str()
    }

    fn secret(&self) -> (r: Result<String, Error>) {
        if !self.alphabet.is_ascii() {
            return Err(Error::new("generator alphabet contains non-ascii characters"));
        }
        let alphabet_len = self.alphabet.as_str().unicode_len();
        let mut sampled: Vec<u8> = Vec::new();
        let mut i: u32 = 0;
        while i < self.length
            invariant
                string_is_ascii(&self.alphabet),
                alphabet_len as nat == self.alphabet@.len(),
                alphabet_len > 0,
                i <= self.length,
                sampled@.len() == i as nat,
                forall|k: int|
                    0 <= k < sampled@.len() ==> sampled@[k] < 128 && self.alphabet@.contains(
                        sampled@[k] as char,
                    ),
            decreases self.length - i,
        {
            let idx = random_index(alphabet_len);
            let b = self.alphabet.as_str().get_ascii(idx);
            sampled.push(b);
            i = i + 1;
        }
        let secret = naming::ascii_bytes_to_string(&sampled);
        Ok(secret)
    }
}

impl Generator for GeneratorCommandConfig {
    open spec fn name_spec(&self) -> Seq<char> {
        self.name@
    }

    /// Running the configured command is outside work, so a command
    /// generator cannot be asked for a secret here; callers that run it do
    /// so beside the library.
    open spec fn secret_req(&self) -> bool {
        false
    }

    open spec fn secret_post(&self, r: &Result<String, Error>) -> bool {
        true
    }

    fn name(&self) -> (r: &str) {
        self.name.as_str()
    }

    fn secret(&self) -> (r: Result<String, Error>) {
        Err(Error::new("command generators run outside the verified core"))
    }
}

impl Generator for GeneratorConfig {
    open spec fn name_spec(&self) -> Seq<char> {
        match self {
            GeneratorConfig::Command(g) => g.name@,
            GeneratorConfig::Internal(g) => g.name@,
        }
    }

    /// A secret can be asked of the internal kind; the command kind runs
    /// outside work.
    open spec fn secret_req(&self) -> bool {
        match self {
            GeneratorConfig::Command(g) => g.secret_req(),
            GeneratorConfig::Internal(g) => g.secret_req(),
        }
    }

    open spec fn secret_post(&self, r: &Result<String, Error>) -> bool {
        match self {
            GeneratorConfig::Command(g) => g.secret_post(r),
            GeneratorConfig::Internal(g) => g.secret_post(r),
        }
    }

    fn name(&self) -> (r: &str) {
        match self {
            GeneratorConfig::Command(g) => g.name(),
            GeneratorConfig::Internal(g) => g.name(),
        }
    }

    fn secret(&self) -> (r: Result<String, Error>) {
        match self {
            GeneratorConfig::Command(g) => g.secret(),
            GeneratorConfig::Internal(g) => g.secret(),
        }
    }
}

} // verus!
