//! Network names and passphrases, held in the fixed-capacity strings that
//! the wireless stack takes them in: 32 bytes for a name, 64 for a
//! passphrase.

use vstd::prelude::*;
use vstd::string::StringSliceAdditionalSpecFns;
use crate::error::SetupError;

verus! {

/// The most bytes that a network name can have.
pub const SSID_CAPACITY: usize = 32;

/// The most bytes that a passphrase can have.
pub const PASSPHRASE_CAPACITY: usize = 64;

/// `heapless::String`, a string with a fixed capacity of `N` bytes. Nothing
/// is known of a value but what the functions below say.
#[verifier::external_type_specification]
#[verifier::external_body]
pub struct ExFixedString<const N: usize>(heapless::String<N>);

/// The characters that a 32-byte string holds.
pub uninterp spec fn ssid_text(stored: heapless::String<32>) -> Seq<char>;

/// The characters that a 64-byte string holds.
pub uninterp spec fn passphrase_text(stored: heapless::String<64>) -> Seq<char>;

/// `heapless::String::<32>::try_from(&str)`: starts from the empty string
/// and appends `text`, which succeeds exactly if `text` has no more bytes
/// than the capacity. The string that comes back holds `text`.
#[verifier::external_body]
fn store_ssid(text: &str) -> (result: Result<heapless::String<32>, ()>)
    ensures
        result is Ok <==> text.spec_bytes().len() <= 32,
        result matches Ok(stored) ==> ssid_text(stored) == text@,
{
    heapless::String::try_from(text)
}

/// `heapless::String::<64>::try_from(&str)`: as for 32 bytes, with a
/// capacity of 64.
#[verifier::external_body]
fn store_passphrase(text: &str) -> (result: Result<heapless::String<64>, ()>)
    ensures
        result is Ok <==> text.spec_bytes().len() <= 64,
        result matches Ok(stored) ==> passphrase_text(stored) == text@,
{
    heapless::String::try_from(text)
}

/// `heapless::String::<32>::as_str`: the whole content as a string slice.
#[verifier::external_body]
fn ssid_str(stored: &heapless::String<32>) -> (text: &str)
    ensures
        text@ == ssid_text(*stored),
{
    stored.as_str()
}

/// `heapless::String::<64>::as_str`: the whole content as a string slice.
#[verifier::external_body]
fn passphrase_str(stored: &heapless::String<64>) -> (text: &str)
    ensures
        text@ == passphrase_text(*stored),
{
    stored.as_str()
}

/// The name of a wireless network.
#[derive(Debug)]
pub struct Ssid {
    stored: heapless::String<32>,
}

impl View for Ssid {
    type V = Seq<char>;

    closed spec fn view(&self) -> Seq<char> {
        ssid_text(self.stored)
    }
}

impl Ssid {
    /// Takes `text` as a network name. A text of more than 32 bytes is
    /// none.
    pub fn new(text: &str) -> (result: Result<Ssid, SetupError>)
        ensures
            result is Ok <==> text.spec_bytes().len() <= SSID_CAPACITY,
            result matches Ok(ssid) ==> ssid@ == text@,
            result matches Err(e) ==> e == SetupError::NetworkConfig,
    {
        match store_ssid(text) {
            Ok(stored) => Ok(Ssid { stored }),
            Err(_) => Err(SetupError::NetworkConfig),
        }
    }

    pub fn as_str(&self) -> (text: &str)
        ensures
            text@ == self@,
    {
        ssid_str(&self.stored)
    }

    /// Hands the name over in the form that the wireless stack takes.
    pub fn into_stored(self) -> (stored: heapless::String<32>)
        ensures
            ssid_text(stored) == self@,
    {
        self.stored
    }
}

/// The passphrase of a wireless network.
#[derive(Debug)]
pub struct Passphrase {
    stored: heapless::String<64>,
}

impl View for Passphrase {
    type V = Seq<char>;

    closed spec fn view(&self) -> Seq<char> {
        passphrase_text(self.stored)
    }
}

impl Passphrase {
    /// Takes `text` as a passphrase. A text of more than 64 bytes is none.
    pub fn new(text: &str) -> (result: Result<Passphrase, SetupError>)
        ensures
            result is Ok <==> text.spec_bytes().len() <= PASSPHRASE_CAPACITY,
            result matches Ok(passphrase) ==> passphrase@ == text@,
            result matches Err(e) ==> e == SetupError::NetworkConfig,
    {
        match store_passphrase(text) {
            Ok(stored) => Ok(Passphrase { stored }),
            Err(_) => Err(SetupError::NetworkConfig),
        }
    }

    pub fn as_str(&self) -> (text: &str)
        ensures
            text@ == self@,
    {
        passphrase_str(&self.stored)
    }

    /// Hands the passphrase over in the form that the wireless stack takes.
    pub fn into_stored(self) -> (stored: heapless::String<64>)
        ensures
            passphrase_text(stored) == self@,
    {
        self.stored
    }
}

} // verus!
