//! One-time pairing credentials.

use crate::chars::{all_alphanumeric, chars_of, is_alphanumeric, starts_with, tail_is_alphanumeric};
use rand::rngs::ThreadRng;
use rand::Rng;
use vstd::prelude::*;

verus! {

/// `rand::rngs::ThreadRng`, the handle of the random number generator of
/// the running thread.
#[verifier::external_type_specification]
#[verifier::external_body]
pub struct ExThreadRng(rand::rngs::ThreadRng);

/// `rand::thread_rng` returns the generator of the running thread. Nothing
/// is assumed of it. It fails, without returning, only where the
/// generator cannot be seeded by the system.
pub assume_specification[ rand::thread_rng ]() -> (rng: ThreadRng);

/// Calls `rand::Rng::sample` with the distribution
/// `rand::distributions::Alphanumeric`, which picks one byte out of the
/// ASCII letters and digits. Assumed: the byte is one of those 62
/// characters. Nothing is assumed of which.
#[verifier::external_body]
fn sample_alphanumeric(rng: &mut ThreadRng) -> (byte: u8)
    ensures
        is_alphanumeric(byte as char),
{
    rng.sample(rand::distributions::Alphanumeric)
}

/// The number of characters of a password, and of the random part of a
/// device name.
pub const CODE_LEN: usize = 7;

/// What every device name begins with.
pub open spec fn name_prefix() -> Seq<char> {
    "ADB_WIFI_"@
}

/// A code is seven characters of the credential alphabet.
pub open spec fn valid_code(s: Seq<char>) -> bool {
    s.len() == CODE_LEN && all_alphanumeric(s)
}

/// A password is a code.
pub open spec fn valid_password(s: Seq<char>) -> bool {
    valid_code(s)
}

/// A device name is the prefix `ADB_WIFI_` followed by a code.
pub open spec fn valid_device_name(s: Seq<char>) -> bool {
    &&& s.len() == name_prefix().len() + CODE_LEN
    &&& s.take(name_prefix().len() as int) == name_prefix()
    &&& all_alphanumeric(s.skip(name_prefix().len() as int))
}

/// The prefix followed by a code is a valid device name.
pub proof fn lemma_prefixed_code_is_a_device_name(code: Seq<char>)
    requires
        valid_code(code),
    ensures
        valid_device_name(name_prefix() + code),
{
    let name = name_prefix() + code;
    assert(name.take(name_prefix().len() as int) =~= name_prefix());
    assert(name.skip(name_prefix().len() as int) =~= code);
}

/// The mathematical content of [`Credentials`].
pub struct CredentialsView {
    pub password: Seq<char>,
    pub device_name: Seq<char>,
}

/// Credentials are well formed when both parts are valid.
pub open spec fn well_formed(v: CredentialsView) -> bool {
    valid_password(v.password) && valid_device_name(v.device_name)
}

/// The pairing password and the name under which the host advertises
/// itself, made once per run. Every value of this type is well formed.
#[derive(Debug, PartialEq, Eq)]
pub struct Credentials {
    password: String,
    device_name: String,
}

impl View for Credentials {
    type V = CredentialsView;

    closed spec fn view(&self) -> CredentialsView {
        CredentialsView { password: self.password@, device_name: self.device_name@ }
    }
}

impl Clone for Credentials {
    fn clone(&self) -> (c: Self)
        ensures
            c@ == self@,
    {
        proof {
            use_type_invariant(self);
        }
        Credentials { password: self.password.clone(), device_name: self.device_name.clone() }
    }
}

/// Draws a code from `rng`, character by character.
fn random_code(rng: &mut ThreadRng) -> (code: String)
    ensures
        valid_code(code@),
{
    let mut code = String::new();
    let mut i: usize = 0;
    while i < CODE_LEN
        invariant
            i <= CODE_LEN,
            code@.len() == i,
            all_alphanumeric(code@),
        decreases CODE_LEN - i,
    {
        let byte = sample_alphanumeric(rng);
        code.push(byte as char);
        i += 1;
    }
    code
}

impl Credentials {
    /// Both parts are valid, in every value of the type.
    #[verifier::type_invariant]
    spec fn inv(self) -> bool {
        well_formed(self@)
    }

    /// Credentials with the given password and device name, if both are
    /// valid.
    pub fn new(password: &str, device_name: &str) -> (r: Option<Credentials>)
        ensures
            r is Some <==> valid_password(password@) && valid_device_name(device_name@),
            r matches Some(c) ==> c@.password == password@ && c@.device_name == device_name@,
    {
        let p = chars_of(password);
        let n = chars_of(device_name);
        let prefix = chars_of("ADB_WIFI_");
        proof {
            reveal_strlit("ADB_WIFI_");
            assert(p@.skip(0) =~= p@);
        }
        if p.len() == CODE_LEN && tail_is_alphanumeric(&p, 0) && n.len() == prefix.len() + CODE_LEN
            && starts_with(&n, &prefix) && tail_is_alphanumeric(&n, prefix.len()) {
            Some(Credentials { password: password.to_owned(), device_name: device_name.to_owned() })
        } else {
            None
        }
    }

    /// Credentials made of two codes, if both are valid: the first is the
    /// password, the second follows the prefix in the device name.
    pub fn from_codes(password: &str, suffix: &str) -> (r: Option<Credentials>)
        ensures
            r is Some <==> valid_code(password@) && valid_code(suffix@),
            r matches Some(c) ==> c@.password == password@ && c@.device_name == name_prefix()
                + suffix@,
    {
        let p = chars_of(password);
        let s = chars_of(suffix);
        proof {
            assert(p@.skip(0) =~= p@);
            assert(s@.skip(0) =~= s@);
        }
        if p.len() == CODE_LEN && tail_is_alphanumeric(&p, 0) && s.len() == CODE_LEN
            && tail_is_alphanumeric(&s, 0) {
            let device_name = "ADB_WIFI_".to_owned().concat(suffix);
            proof {
                lemma_prefixed_code_is_a_device_name(suffix@);
            }
            Some(Credentials { password: password.to_owned(), device_name })
        } else {
            None
        }
    }

    /// Fresh credentials: a random password and a random device name, each
    /// character drawn from the generator of the running thread.
    pub fn generate() -> (c: Credentials)
        ensures
            well_formed(c@),
    {
        let mut rng = rand::thread_rng();
        let password = random_code(&mut rng);
        let suffix = random_code(&mut rng);
        let made = Credentials::from_codes(password.as_str(), suffix.as_str());
        let c = made.unwrap();
        proof {
            lemma_prefixed_code_is_a_device_name(suffix@);
        }
        c
    }

    /// The pairing password.
    pub fn password(&self) -> (s: &str)
        ensures
            s@ == self@.password,
            valid_password(s@),
    {
        proof {
            use_type_invariant(self);
        }
        self.password.as_str()
    }

    /// The name under which the host advertises itself.
    pub fn device_name(&self) -> (s: &str)
        ensures
            s@ == self@.device_name,
            valid_device_name(s@),
    {
        proof {
            use_type_invariant(self);
        }
        self.device_name.as_str()
    }
}

} // verus!
