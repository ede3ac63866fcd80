//! Mnemonics, signing keys and their text forms, which other crates compute.
#[allow(unused_imports)]
use crate::text::trimmed;
use vstd::prelude::*;

verus! {

/// What `bip39::Mnemonic::parse_in` makes of an English phrase: the phrase as it is displayed, or
/// the error as it is displayed.
pub uninterp spec fn bip39_phrase(text: Seq<char>) -> Result<Seq<char>, Seq<char>>;

/// What `bip39::Mnemonic::to_seed` makes of an English phrase and a passphrase.
pub uninterp spec fn bip39_seed(phrase: Seq<char>, passphrase: Seq<char>) -> Seq<u8>;

/// What `bs58::encode` makes of bytes.
pub uninterp spec fn base58(bytes: Seq<u8>) -> Seq<char>;

/// What `bs58::decode` makes of a text: the bytes, or the error as it is displayed.
pub uninterp spec fn base58_decoded(text: Seq<char>) -> Result<Seq<u8>, Seq<char>>;

/// The public key that `ed25519_dalek` derives from a secret one.
pub uninterp spec fn ed25519_public(secret: Seq<u8>) -> Seq<u8>;

/// The text of an outcome.
pub open spec fn result_text(r: Result<String, String>) -> Result<Seq<char>, Seq<char>> {
    match r {
        Ok(text) => Ok(text@),
        Err(e) => Err(e@),
    }
}

/// The bytes of an outcome.
pub open spec fn result_bytes(r: Result<Vec<u8>, String>) -> Result<Seq<u8>, Seq<char>> {
    match r {
        Ok(bytes) => Ok(bytes@),
        Err(e) => Err(e@),
    }
}

/// Whether a phrase is in the form that it is displayed in: it parses to itself, and no white
/// space stands around it.
pub open spec fn is_canonical(phrase: Seq<char>) -> bool {
    bip39_phrase(phrase) == Ok::<Seq<char>, Seq<char>>(phrase) && trimmed(phrase) == phrase
}

/// The number of words in a phrase whose words stand one blank apart.
pub open spec fn word_count(phrase: Seq<char>) -> nat {
    phrase.filter(|c: char| c == ' ').len() + 1
}

/// `bip39::Mnemonic::parse_in` takes a text as an English mnemonic. What it accepts, and which
/// error it gives otherwise, is a function of the text. Displayed, a mnemonic is its words, one
/// blank apart, which parse to the same mnemonic again.
#[verifier::external_body]
pub(crate) fn parse_mnemonic(text: &str) -> (r: Result<String, String>)
    ensures
        result_text(r) == bip39_phrase(text@),
        r matches Ok(phrase) ==> is_canonical(phrase@),
{
    match bip39::Mnemonic::parse_in(bip39::Language::English, text) {
        Ok(mnemonic) => Ok(mnemonic.to_string()),
        Err(e) => Err(e.to_string()),
    }
}

/// `bip39::Mnemonic::generate_in` makes an English mnemonic of so many random words, for the word
/// counts that there are mnemonics of. Which words they are is left to chance.
#[verifier::external_body]
pub(crate) fn generate_mnemonic(words: usize) -> (r: Result<String, String>)
    ensures
        r is Ok <==> (words == 12 || words == 15 || words == 18 || words == 21 || words == 24),
        r matches Ok(phrase) ==> is_canonical(phrase@) && word_count(phrase@) == words,
{
    match bip39::Mnemonic::generate_in(bip39::Language::English, words) {
        Ok(mnemonic) => Ok(mnemonic.to_string()),
        Err(e) => Err(e.to_string()),
    }
}

/// `bip39::Mnemonic::to_seed` derives 64 bytes from an English mnemonic and a passphrase, for
/// every text that is a mnemonic.
#[verifier::external_body]
pub(crate) fn mnemonic_seed(phrase: &str, passphrase: &str) -> (r: Result<Vec<u8>, String>)
    ensures
        r is Ok <==> bip39_phrase(phrase@) is Ok,
        r matches Ok(seed) ==> seed@ == bip39_seed(phrase@, passphrase@) && seed@.len() == 64,
        r matches Err(e) ==> bip39_phrase(phrase@)->Err_0 == e@,
{
    match bip39::Mnemonic::parse_in(bip39::Language::English, phrase) {
        Ok(mnemonic) => Ok(mnemonic.to_seed(passphrase).to_vec()),
        Err(e) => Err(e.to_string()),
    }
}

/// `bs58::encode` writes bytes in base 58, in the form that `bs58::decode` reads back.
#[verifier::external_body]
pub(crate) fn base58_encode(bytes: &[u8]) -> (r: String)
    ensures
        r@ == base58(bytes@),
        base58_decoded(r@) is Ok && base58_decoded(r@)->Ok_0 == bytes@,
{
    bs58::encode(bytes).into_string()
}

/// `bs58::decode` reads bytes that are written in base 58, or says why it cannot.
#[verifier::external_body]
pub(crate) fn base58_decode(text: &str) -> (r: Result<Vec<u8>, String>)
    ensures
        result_bytes(r) == base58_decoded(text@),
{
    match bs58::decode(text).into_vec() {
        Ok(bytes) => Ok(bytes),
        Err(e) => Err(e.to_string()),
    }
}

/// `ed25519_dalek::SigningKey::from_bytes` takes any 32 bytes as a secret key, and its
/// `VerifyingKey` is the 32 bytes of the public one.
#[verifier::external_body]
pub(crate) fn public_key(secret: &[u8; 32]) -> (r: [u8; 32])
    ensures
        r@ == ed25519_public(secret@),
{
    ed25519_dalek::VerifyingKey::from(&ed25519_dalek::SigningKey::from_bytes(secret)).to_bytes()
}

} // verus!
