//! Wallets, and the agent that uses them.
#[allow(unused_imports)]
use crate::chat::key_used;
use crate::config::{AiConfig, AiProvider};
#[allow(unused_imports)]
use crate::config::AiConfigView;
#[allow(unused_imports)]
use crate::keys::{
    base58, base58_decode, base58_decoded, base58_encode, bip39_phrase, bip39_seed,
    ed25519_public, generate_mnemonic, is_canonical, mnemonic_seed, parse_mnemonic, public_key,
    result_bytes, word_count,
};
#[allow(unused_imports)]
use crate::text::{cat2, opt_text, texts, trim, trimmed};
#[allow(unused_imports)]
use crate::text_lemmas::{is_blank, law_padding_is_trimmed};
use vstd::prelude::*;

verus! {

/// `std::path::PathBuf` is a path in the file system; it is passed on as it stands.
#[verifier::external_type_specification]
#[verifier::external_body]
pub struct ExPathBuf(std::path::PathBuf);

/// The service name that wallets are stored under.
pub const WALLET_SERVICE: &'static str = "wezterm-solana";

/// How many words a new mnemonic has.
pub const MNEMONIC_WORDS: usize = 24;

/// A command on wallets.
#[derive(Debug)]
pub struct SolanaCommand {
    pub sub: SolanaSubCommand,
}

/// The commands on wallets.
#[derive(Debug)]
pub enum SolanaSubCommand {
    CreateWallet(CreateWallet),
    ImportWallet(ImportWallet),
    Address(Address),
    ShowMnemonic(ShowMnemonic),
    Agent(Agent),
}

/// Create a new wallet.
#[derive(Debug)]
pub struct CreateWallet {
    pub profile: String,
    /// Print the mnemonic.
    pub show_mnemonic: bool,
}

/// Import a wallet from a mnemonic.
#[derive(Debug)]
pub struct ImportWallet {
    pub profile: String,
    pub mnemonic: Option<String>,
    pub mnemonic_file: Option<std::path::PathBuf>,
}

/// Show the wallet's address.
#[derive(Debug)]
pub struct Address {
    pub profile: String,
}

/// Show the stored mnemonic.
#[derive(Debug)]
pub struct ShowMnemonic {
    pub profile: String,
}

/// Run the agent.
#[derive(Debug)]
pub struct Agent {
    pub profile: String,
    /// Where the agent's script is.
    pub script_path: Option<std::path::PathBuf>,
}

/// What reading an entry of the keyring gave.
#[derive(Debug)]
pub enum KeyringEntry {
    /// The keyring has no such entry to offer, for this cause.
    Unavailable(String),
    /// The entry holds no password, for this cause.
    Missing(String),
    /// The password that the entry holds.
    Password(String),
}

/// Why a command on wallets fails.
#[derive(Debug)]
pub enum WalletError {
    Keyring(String),
    ProfileExists,
    NoPhrase,
    InvalidMnemonic(String),
    MnemonicNotFound(String),
    WalletNotFound(String),
    InvalidKeypairData(String),
    InvalidKeypairLength,
    ScriptNotFound,
}

/// A failure as plain text.
pub ghost enum WalletErrorView {
    Keyring(Seq<char>),
    ProfileExists,
    NoPhrase,
    InvalidMnemonic(Seq<char>),
    MnemonicNotFound(Seq<char>),
    WalletNotFound(Seq<char>),
    InvalidKeypairData(Seq<char>),
    InvalidKeypairLength,
    ScriptNotFound,
}

impl View for WalletError {
    type V = WalletErrorView;

    open spec fn view(&self) -> WalletErrorView {
        match self {
            WalletError::Keyring(e) => WalletErrorView::Keyring(e@),
            WalletError::ProfileExists => WalletErrorView::ProfileExists,
            WalletError::NoPhrase => WalletErrorView::NoPhrase,
            WalletError::InvalidMnemonic(e) => WalletErrorView::InvalidMnemonic(e@),
            WalletError::MnemonicNotFound(e) => WalletErrorView::MnemonicNotFound(e@),
            WalletError::WalletNotFound(e) => WalletErrorView::WalletNotFound(e@),
            WalletError::InvalidKeypairData(e) => WalletErrorView::InvalidKeypairData(e@),
            WalletError::InvalidKeypairLength => WalletErrorView::InvalidKeypairLength,
            WalletError::ScriptNotFound => WalletErrorView::ScriptNotFound,
        }
    }
}

/// What the user is told: what failed and, behind it, the cause.
pub open spec fn wallet_error_text(e: WalletErrorView) -> Seq<char> {
    match e {
        WalletErrorView::Keyring(cause) => cause,
        WalletErrorView::ProfileExists => "wallet profile already exists"@,
        WalletErrorView::NoPhrase => "provide --mnemonic or --mnemonic-file"@,
        WalletErrorView::InvalidMnemonic(cause) => cause,
        WalletErrorView::MnemonicNotFound(cause) =>
            "mnemonic not found; run wezterm solana create-wallet: "@ + cause,
        WalletErrorView::WalletNotFound(cause) =>
            "wallet not found; run wezterm solana create-wallet: "@ + cause,
        WalletErrorView::InvalidKeypairData(cause) => "invalid keypair data: "@ + cause,
        WalletErrorView::InvalidKeypairLength => "invalid keypair length"@,
        WalletErrorView::ScriptNotFound =>
            "Solana agent script not found. Set WEZTERM_SOLANA_AGENT_JS or --script-path"@,
    }
}

impl WalletError {
    /// What the user is told.
    pub fn message(&self) -> (r: String)
        ensures
            r@ == wallet_error_text(self@),
    {
        match self {
            WalletError::Keyring(cause) => cause.clone(),
            WalletError::ProfileExists => "wallet profile already exists".to_owned(),
            WalletError::NoPhrase => "provide --mnemonic or --mnemonic-file".to_owned(),
            WalletError::InvalidMnemonic(cause) => cause.clone(),
            WalletError::MnemonicNotFound(cause) => cat2(
                "mnemonic not found; run wezterm solana create-wallet: ",
                cause.as_str(),
            ),
            WalletError::WalletNotFound(cause) => cat2(
                "wallet not found; run wezterm solana create-wallet: ",
                cause.as_str(),
            ),
            WalletError::InvalidKeypairData(cause) => cat2(
                "invalid keypair data: ",
                cause.as_str(),
            ),
            WalletError::InvalidKeypairLength => "invalid keypair length".to_owned(),
            WalletError::ScriptNotFound =>
                "Solana agent script not found. Set WEZTERM_SOLANA_AGENT_JS or --script-path"
                .to_owned(),
        }
    }
}

/// The account that a profile's mnemonic is stored under.
pub open spec fn mnemonic_account_of(profile: Seq<char>) -> Seq<char> {
    "mnemonic:"@ + profile
}

/// The account that a profile's keypair is stored under.
pub open spec fn keypair_account_of(profile: Seq<char>) -> Seq<char> {
    "keypair:"@ + profile
}

/// The secret key of the wallet of a phrase: the first half of the phrase's seed.
pub open spec fn wallet_secret(phrase: Seq<char>) -> Seq<u8> {
    bip39_seed(phrase, ""@).take(32)
}

/// The address of a wallet: its public key in base 58.
pub open spec fn address_of(secret: Seq<u8>) -> Seq<char> {
    base58(ed25519_public(secret))
}

/// The form that a keypair is stored in: the secret key and the public key, in base 58.
pub open spec fn keypair_text(secret: Seq<u8>) -> Seq<char> {
    base58(secret + ed25519_public(secret))
}

/// The secret key in a stored keypair.
pub open spec fn keypair_of(text: Seq<char>) -> Result<Seq<u8>, WalletErrorView> {
    secret_of(base58_decoded(text))
}

/// The secret key in the bytes of a keypair, where there are any.
pub open spec fn secret_of(decoded: Result<Seq<u8>, Seq<char>>) -> Result<
    Seq<u8>,
    WalletErrorView,
> {
    match decoded {
        Err(cause) => Err(WalletErrorView::InvalidKeypairData(cause)),
        Ok(bytes) => if bytes.len() != 64 {
            Err(WalletErrorView::InvalidKeypairLength)
        } else {
            Ok(bytes.take(32))
        },
    }
}

/// The secret key that bytes begin with: the seed of a phrase, or a keypair.
pub fn first_half(bytes: &Vec<u8>) -> (r: [u8; 32])
    requires
        bytes@.len() >= 32,
    ensures
        r@ == bytes@.take(32),
{
    let mut half: [u8; 32] = [0u8; 32];
    let mut i: usize = 0;
    while i < 32
        invariant
            i <= 32,
            bytes@.len() >= 32,
            forall|k: int| 0 <= k < i ==> half@[k] == bytes@[k],
        decreases 32 - i,
    {
        half[i] = bytes[i];
        i += 1;
    }
    assert(half@ =~= bytes@.take(32));
    half
}

/// Derives a wallet's secret key from its phrase. It is there for every mnemonic.
pub fn keypair_from_mnemonic(phrase: &str) -> (r: Result<[u8; 32], WalletError>)
    ensures
        match bip39_phrase(phrase@) {
            Ok(_) => r matches Ok(secret) && secret@ == wallet_secret(phrase@),
            Err(cause) => r matches Err(e) && e@ == WalletErrorView::InvalidMnemonic(cause),
        },
{
    match mnemonic_seed(phrase, "") {
        Ok(seed) => Ok(first_half(&seed)),
        Err(cause) => Err(WalletError::InvalidMnemonic(cause)),
    }
}

/// The address of a wallet.
pub fn wallet_address(secret: &[u8; 32]) -> (r: String)
    ensures
        r@ == address_of(secret@),
{
    base58_encode(&public_key(secret))
}

/// A password to store, and the account that it goes under.
#[derive(Debug)]
pub struct StoredEntry {
    pub account: String,
    pub password: String,
}

impl View for StoredEntry {
    type V = (Seq<char>, Seq<char>);

    open spec fn view(&self) -> (Seq<char>, Seq<char>) {
        (self.account@, self.password@)
    }
}

/// The account that a profile's mnemonic is stored under.
pub fn mnemonic_account(profile: &str) -> (r: String)
    ensures
        r@ == mnemonic_account_of(profile@),
{
    cat2("mnemonic:", profile)
}

/// The account that a profile's keypair is stored under.
pub fn keypair_account(profile: &str) -> (r: String)
    ensures
        r@ == keypair_account_of(profile@),
{
    cat2("keypair:", profile)
}

/// The 64 bytes of a keypair: the secret key and then the public key.
pub fn keypair_bytes(secret: &[u8; 32], public: &[u8; 32]) -> (r: Vec<u8>)
    ensures
        r@ == secret@ + public@,
        r@.len() == 64,
{
    let mut bytes: Vec<u8> = Vec::new();
    let mut i: usize = 0;
    while i < 32
        invariant
            i <= 32,
            bytes@ == secret@.take(i as int),
        decreases 32 - i,
    {
        bytes.push(secret[i]);
        i += 1;
    }
    assert(bytes@ =~= secret@);
    i = 0;
    while i < 32
        invariant
            i <= 32,
            bytes@ == secret@ + public@.take(i as int),
        decreases 32 - i,
    {
        bytes.push(public[i]);
        i += 1;
    }
    assert(public@.take(32) =~= public@);
    bytes
}

/// The entries of a wallet, in the order in which they are stored.
pub open spec fn wallet_entries(
    profile: Seq<char>,
    phrase: Seq<char>,
    keypair: Seq<char>,
) -> Seq<(Seq<char>, Seq<char>)> {
    seq![(mnemonic_account_of(profile), phrase), (keypair_account_of(profile), keypair)]
}

/// The entries of a list, as account and password.
pub open spec fn entries_of(entries: Seq<StoredEntry>) -> Seq<(Seq<char>, Seq<char>)> {
    entries.map_values(|e: StoredEntry| e@)
}

/// The entries to store for a phrase and a keypair, the mnemonic before the keypair.
pub fn list_entries(profile: &str, phrase: &str, keypair: String) -> (r: Vec<StoredEntry>)
    ensures
        entries_of(r@) == wallet_entries(profile@, phrase@, keypair@),
{
    let mut entries: Vec<StoredEntry> = Vec::new();
    entries.push(StoredEntry { account: mnemonic_account(profile), password: phrase.to_owned() });
    entries.push(StoredEntry { account: keypair_account(profile), password: keypair });
    assert(entries_of(entries@) =~= wallet_entries(profile@, phrase@, keypair@));
    entries
}

/// The entries to store for a wallet. What is stored of the keypair holds the secret key that went
/// into it.
pub fn store_wallet(profile: &str, phrase: &str, secret: &[u8; 32]) -> (r: Vec<StoredEntry>)
    ensures
        entries_of(r@) == wallet_entries(profile@, phrase@, keypair_text(secret@)),
        keypair_of(keypair_text(secret@)) == Ok::<Seq<u8>, WalletErrorView>(secret@),
{
    let bytes = keypair_bytes(secret, &public_key(secret));
    assert(bytes@.take(32) =~= secret@);
    list_entries(profile, phrase, base58_encode(bytes.as_slice()))
}

/// What a stored mnemonic's entry gives.
pub open spec fn mnemonic_in(entry: KeyringEntry) -> Result<Seq<char>, WalletErrorView> {
    match entry {
        KeyringEntry::Unavailable(cause) => Err(WalletErrorView::Keyring(cause@)),
        KeyringEntry::Missing(cause) => Err(WalletErrorView::MnemonicNotFound(cause@)),
        KeyringEntry::Password(text) => Ok(text@),
    }
}

/// What a stored keypair's entry gives.
pub open spec fn keypair_in(entry: KeyringEntry) -> Result<Seq<char>, WalletErrorView> {
    match entry {
        KeyringEntry::Unavailable(cause) => Err(WalletErrorView::Keyring(cause@)),
        KeyringEntry::Missing(cause) => Err(WalletErrorView::WalletNotFound(cause@)),
        KeyringEntry::Password(text) => Ok(text@),
    }
}

/// A text, or a failure, as plain text.
pub open spec fn text_or_error(r: Result<String, WalletError>) -> Result<
    Seq<char>,
    WalletErrorView,
> {
    match r {
        Ok(text) => Ok(text@),
        Err(e) => Err(e@),
    }
}

/// The stored mnemonic.
pub fn load_mnemonic(entry: KeyringEntry) -> (r: Result<String, WalletError>)
    ensures
        text_or_error(r) == mnemonic_in(entry),
{
    match entry {
        KeyringEntry::Unavailable(cause) => Err(WalletError::Keyring(cause)),
        KeyringEntry::Missing(cause) => Err(WalletError::MnemonicNotFound(cause)),
        KeyringEntry::Password(text) => Ok(text),
    }
}

/// The stored keypair, as it is stored.
pub fn load_keypair_secret(entry: KeyringEntry) -> (r: Result<String, WalletError>)
    ensures
        text_or_error(r) == keypair_in(entry),
{
    match entry {
        KeyringEntry::Unavailable(cause) => Err(WalletError::Keyring(cause)),
        KeyringEntry::Missing(cause) => Err(WalletError::WalletNotFound(cause)),
        KeyringEntry::Password(text) => Ok(text),
    }
}

/// The secret key of the stored keypair.
pub open spec fn secret_in(entry: KeyringEntry) -> Result<Seq<u8>, WalletErrorView> {
    match keypair_in(entry) {
        Err(e) => Err(e),
        Ok(text) => keypair_of(text),
    }
}

/// The secret key of the stored keypair.
pub fn load_keypair(entry: KeyringEntry) -> (r: Result<[u8; 32], WalletError>)
    ensures
        match r {
            Ok(secret) => Ok::<Seq<u8>, WalletErrorView>(secret@),
            Err(e) => Err(e@),
        } == secret_in(entry),
{
    let text = match load_keypair_secret(entry) {
        Ok(text) => text,
        Err(e) => {
            return Err(e);
        },
    };
    secret_from(base58_decode(text.as_str()))
}

/// The secret key in the bytes of a keypair, or why there are none.
pub fn secret_from(decoded: Result<Vec<u8>, String>) -> (r: Result<[u8; 32], WalletError>)
    ensures
        match r {
            Ok(secret) => Ok::<Seq<u8>, WalletErrorView>(secret@),
            Err(e) => Err(e@),
        } == secret_of(result_bytes(decoded)),
{
    match decoded {
        Err(cause) => Err(WalletError::InvalidKeypairData(cause)),
        Ok(bytes) => if bytes.len() != 64 {
            Err(WalletError::InvalidKeypairLength)
        } else {
            Ok(first_half(&bytes))
        },
    }
}

/// Why a wallet may not go under a profile, given the profile's keypair entry.
pub open spec fn profile_taken(entry: KeyringEntry) -> Option<WalletErrorView> {
    match entry {
        KeyringEntry::Unavailable(cause) => Some(WalletErrorView::Keyring(cause@)),
        KeyringEntry::Password(_) => Some(WalletErrorView::ProfileExists),
        KeyringEntry::Missing(_) => None,
    }
}

/// Refuses a profile that a keypair is stored under.
pub fn ensure_profile_unused(entry: &KeyringEntry) -> (r: Result<(), WalletError>)
    ensures
        match r {
            Ok(_) => None,
            Err(e) => Some(e@),
        } == profile_taken(*entry),
{
    match entry {
        KeyringEntry::Unavailable(cause) => Err(WalletError::Keyring(cause.clone())),
        KeyringEntry::Password(_) => Err(WalletError::ProfileExists),
        KeyringEntry::Missing(_) => Ok(()),
    }
}

/// The phrase to import: the file's, else the one on the command line, without the white space
/// around it.
pub open spec fn phrase_given(mnemonic: Option<Seq<char>>, file: Option<Seq<char>>) -> Result<
    Seq<char>,
    WalletErrorView,
> {
    match (file, mnemonic) {
        (Some(text), _) => mnemonic_or_error(trimmed(text)),
        (None, Some(text)) => mnemonic_or_error(trimmed(text)),
        (None, None) => Err(WalletErrorView::NoPhrase),
    }
}

/// A text as a mnemonic.
pub open spec fn mnemonic_or_error(text: Seq<char>) -> Result<Seq<char>, WalletErrorView> {
    match bip39_phrase(text) {
        Ok(phrase) => Ok(phrase),
        Err(cause) => Err(WalletErrorView::InvalidMnemonic(cause)),
    }
}

/// Reads the phrase to import: `file` is the text of the mnemonic file, where one is named. The
/// phrase comes back in the form that it reads as again.
pub fn load_mnemonic_from_args(mnemonic: Option<String>, file: Option<String>) -> (r: Result<
    String,
    WalletError,
>)
    ensures
        text_or_error(r) == phrase_given(opt_text(mnemonic), opt_text(file)),
        r matches Ok(phrase) ==> is_canonical(phrase@),
{
    let text = match file {
        Some(text) => text,
        None => match mnemonic {
            Some(text) => text,
            None => {
                return Err(WalletError::NoPhrase);
            },
        },
    };
    match parse_mnemonic(trim(text.as_str()).as_str()) {
        Ok(phrase) => Ok(phrase),
        Err(cause) => Err(WalletError::InvalidMnemonic(cause)),
    }
}

/// A wallet to store, and what is printed once it is stored.
#[derive(Debug)]
pub struct NewWallet {
    /// In the order in which they are stored.
    pub entries: Vec<StoredEntry>,
    pub lines: Vec<String>,
}

/// The line that shows a new wallet's address.
pub open spec fn address_line(address: Seq<char>) -> Seq<char> {
    "Address: "@ + address
}

/// The line on a new wallet's mnemonic.
pub open spec fn mnemonic_line(phrase: Seq<char>, show: bool) -> Seq<char> {
    if show {
        "Mnemonic: "@ + phrase
    } else {
        "Mnemonic: (hidden) use --show-mnemonic to display"@
    }
}

/// Whether the entries are those of the wallet of `phrase`, and the stored keypair opens it.
pub open spec fn is_wallet_of(wallet: NewWallet, profile: Seq<char>, phrase: Seq<char>) -> bool {
    let secret = wallet_secret(phrase);
    &&& is_canonical(phrase)
    &&& entries_of(wallet.entries@) == wallet_entries(profile, phrase, keypair_text(secret))
    &&& keypair_of(keypair_text(secret)) == Ok::<Seq<u8>, WalletErrorView>(secret)
}

/// The phrase that a wallet is stored with.
pub open spec fn stored_phrase(wallet: NewWallet) -> Seq<char> {
    wallet.entries@[0].password@
}

/// The lines that are printed of a created wallet.
pub open spec fn lines_created(address: Seq<char>, phrase: Seq<char>, show: bool) -> Seq<
    Seq<char>,
> {
    seq![address_line(address), mnemonic_line(phrase, show)]
}

/// The lines that are printed of a created wallet.
pub fn created_lines(address: &str, phrase: &str, show: bool) -> (r: Vec<String>)
    ensures
        texts(r@) == lines_created(address@, phrase@, show),
{
    let mut lines: Vec<String> = Vec::new();
    lines.push(cat2("Address: ", address));
    if show {
        lines.push(cat2("Mnemonic: ", phrase));
    } else {
        lines.push("Mnemonic: (hidden) use --show-mnemonic to display".to_owned());
    }
    assert(texts(lines@) =~= lines_created(address@, phrase@, show));
    lines
}

/// The lines that are printed of an imported wallet.
pub fn imported_lines(address: &str) -> (r: Vec<String>)
    ensures
        texts(r@) == seq![address_line(address@)],
{
    let mut lines: Vec<String> = Vec::new();
    lines.push(cat2("Address: ", address));
    assert(texts(lines@) =~= seq![address_line(address@)]);
    lines
}

/// What creating a wallet gives. The phrase is left to chance.
pub open spec fn created(
    cmd: CreateWallet,
    entry: KeyringEntry,
    r: Result<NewWallet, WalletError>,
) -> bool {
    match (profile_taken(entry), r) {
        (Some(taken), Err(e)) => e@ == taken,
        (None, Ok(wallet)) => {
            let phrase = stored_phrase(wallet);
            &&& is_wallet_of(wallet, cmd.profile@, phrase)
            &&& word_count(phrase) == MNEMONIC_WORDS
            &&& texts(wallet.lines@) == lines_created(
                address_of(wallet_secret(phrase)),
                phrase,
                cmd.show_mnemonic,
            )
        },
        _ => false,
    }
}

/// What importing a wallet gives. A phrase that is none is told before a profile that is taken.
pub open spec fn imported(
    cmd: ImportWallet,
    entry: KeyringEntry,
    file: Option<Seq<char>>,
    r: Result<NewWallet, WalletError>,
) -> bool {
    match (phrase_given(opt_text(cmd.mnemonic), file), profile_taken(entry), r) {
        (Err(refused), _, Err(e)) => e@ == refused,
        (Ok(_), Some(taken), Err(e)) => e@ == taken,
        (Ok(phrase), None, Ok(wallet)) => {
            &&& is_wallet_of(wallet, cmd.profile@, phrase)
            &&& texts(wallet.lines@) == seq![
                address_line(address_of(wallet_secret(phrase))),
            ]
        },
        _ => false,
    }
}

impl CreateWallet {
    /// Creates a wallet of a fresh mnemonic, given the profile's keypair entry.
    pub fn run(self, entry: KeyringEntry) -> (r: Result<NewWallet, WalletError>)
        ensures
            created(self, entry, r),
    {
        if let Err(e) = ensure_profile_unused(&entry) {
            return Err(e);
        }
        let phrase = match generate_mnemonic(MNEMONIC_WORDS) {
            Ok(phrase) => phrase,
            Err(cause) => {
                return Err(WalletError::InvalidMnemonic(cause));
            },
        };
        self.store(phrase)
    }

    /// The wallet of a phrase, as it is stored and shown.
    pub fn store(self, phrase: String) -> (r: Result<NewWallet, WalletError>)
        ensures
            match bip39_phrase(phrase@) {
                Err(cause) => r matches Err(e) && e@ == WalletErrorView::InvalidMnemonic(cause),
                Ok(_) => r matches Ok(wallet) && {
                    let secret = wallet_secret(phrase@);
                    &&& entries_of(wallet.entries@) == wallet_entries(
                        self.profile@,
                        phrase@,
                        keypair_text(secret),
                    )
                    &&& stored_phrase(wallet) == phrase@
                    &&& keypair_of(keypair_text(secret)) == Ok::<Seq<u8>, WalletErrorView>(secret)
                    &&& texts(wallet.lines@) == lines_created(
                        address_of(secret),
                        phrase@,
                        self.show_mnemonic,
                    )
                },
            },
    {
        let secret = match keypair_from_mnemonic(phrase.as_str()) {
            Ok(secret) => secret,
            Err(e) => {
                return Err(e);
            },
        };
        let entries = store_wallet(self.profile.as_str(), phrase.as_str(), &secret);
        let address = wallet_address(&secret);
        let lines = created_lines(address.as_str(), phrase.as_str(), self.show_mnemonic);
        assert(entries_of(entries@).len() == 2);
        assert(entries_of(entries@)[0] == entries@[0]@);
        Ok(NewWallet { entries, lines })
    }
}

impl ImportWallet {
    /// Imports the wallet of a mnemonic, given the profile's keypair entry and the text of the
    /// mnemonic file, where one is named.
    pub fn run(self, entry: KeyringEntry, file: Option<String>) -> (r: Result<
        NewWallet,
        WalletError,
    >)
        ensures
            imported(self, entry, opt_text(file), r),
    {
        let phrase = load_mnemonic_from_args(self.mnemonic, file);
        import_phrase(self.profile.as_str(), phrase, &entry)
    }
}

/// What importing gives once the phrase has been read, or has not.
pub open spec fn phrase_imported(
    profile: Seq<char>,
    phrase: Result<Seq<char>, WalletErrorView>,
    entry: KeyringEntry,
    r: Result<NewWallet, WalletError>,
) -> bool {
    match (phrase, profile_taken(entry), r) {
        (Err(refused), _, Err(e)) => e@ == refused,
        (Ok(_), Some(taken), Err(e)) => e@ == taken,
        (Ok(phrase), None, _) => match (bip39_phrase(phrase), r) {
            (Err(cause), Err(e)) => e@ == WalletErrorView::InvalidMnemonic(cause),
            (Ok(_), Ok(wallet)) => {
                let secret = wallet_secret(phrase);
                &&& entries_of(wallet.entries@) == wallet_entries(
                    profile,
                    phrase,
                    keypair_text(secret),
                )
                &&& keypair_of(keypair_text(secret)) == Ok::<Seq<u8>, WalletErrorView>(secret)
                &&& texts(wallet.lines@) == seq![address_line(address_of(secret))]
            },
            _ => false,
        },
        _ => false,
    }
}

/// Imports the wallet of a phrase that has been read, or says why it has not.
pub fn import_phrase(
    profile: &str,
    phrase: Result<String, WalletError>,
    entry: &KeyringEntry,
) -> (r: Result<NewWallet, WalletError>)
    ensures
        phrase_imported(profile@, text_or_error(phrase), *entry, r),
{
    let phrase = match phrase {
        Ok(phrase) => phrase,
        Err(e) => {
            return Err(e);
        },
    };
    if let Err(e) = ensure_profile_unused(entry) {
        return Err(e);
    }
    let secret = match keypair_from_mnemonic(phrase.as_str()) {
        Ok(secret) => secret,
        Err(e) => {
            return Err(e);
        },
    };
    let entries = store_wallet(profile, phrase.as_str(), &secret);
    let lines = imported_lines(wallet_address(&secret).as_str());
    Ok(NewWallet { entries, lines })
}

/// What showing an address gives.
pub open spec fn address_shown(entry: KeyringEntry) -> Result<Seq<char>, WalletErrorView> {
    match secret_in(entry) {
        Ok(secret) => Ok(address_of(secret)),
        Err(e) => Err(e),
    }
}

impl Address {
    /// The line that shows the address, given the profile's keypair entry.
    pub fn run(self, entry: KeyringEntry) -> (r: Result<String, WalletError>)
        ensures
            text_or_error(r) == address_shown(entry),
    {
        match load_keypair(entry) {
            Ok(secret) => Ok(wallet_address(&secret)),
            Err(e) => Err(e),
        }
    }
}

impl ShowMnemonic {
    /// The line that shows the mnemonic, given the profile's mnemonic entry.
    pub fn run(self, entry: KeyringEntry) -> (r: Result<String, WalletError>)
        ensures
            text_or_error(r) == mnemonic_in(entry),
    {
        load_mnemonic(entry)
    }
}

/// The environment variable that may name the agent's script.
pub const AGENT_VARIABLE: &'static str = "WEZTERM_SOLANA_AGENT_JS";

/// The agent's script.
pub open spec fn script_resolved(
    script_path: Option<std::path::PathBuf>,
    variable: Option<std::path::PathBuf>,
    default_path: std::path::PathBuf,
    default_exists: bool,
) -> Option<std::path::PathBuf> {
    if script_path is Some {
        script_path
    } else if variable is Some {
        variable
    } else if default_exists {
        Some(default_path)
    } else {
        None
    }
}

/// Picks the agent's script: the one asked for, else the one that the environment names, else the
/// default one, if it exists.
pub fn resolve_agent_script(
    script_path: Option<std::path::PathBuf>,
    variable: Option<std::path::PathBuf>,
    default_path: std::path::PathBuf,
    default_exists: bool,
) -> (r: Result<std::path::PathBuf, WalletError>)
    ensures
        match r {
            Ok(path) => Some(path),
            Err(_) => None,
        } == script_resolved(script_path, variable, default_path, default_exists),
        match (script_path, variable) {
            (Some(path), _) => r == Ok::<std::path::PathBuf, WalletError>(path),
            (None, Some(path)) => r == Ok::<std::path::PathBuf, WalletError>(path),
            (None, None) => if default_exists {
                r == Ok::<std::path::PathBuf, WalletError>(default_path)
            } else {
                r matches Err(e) && e@ == WalletErrorView::ScriptNotFound
            },
        },
{
    if let Some(path) = script_path {
        return Ok(path);
    }
    if let Some(path) = variable {
        return Ok(path);
    }
    if default_exists {
        return Ok(default_path);
    }
    Err(WalletError::ScriptNotFound)
}

/// Picks a provider's key: the stored one, else the one in the environment.
pub fn load_ai_key(stored: Option<String>, variable: Option<String>) -> (r: Option<String>)
    ensures
        opt_text(r) == key_used(opt_text(stored), opt_text(variable)),
        opt_text(r) == if stored is Some {
            opt_text(stored)
        } else {
            opt_text(variable)
        },
{
    match stored {
        Some(key) => Some(key),
        None => variable,
    }
}

/// What the agent knows a provider by.
pub open spec fn provider_name(provider: AiProvider) -> Seq<char> {
    match provider {
        AiProvider::Ollama => "ollama"@,
        AiProvider::OpenAI => "openai"@,
        AiProvider::Anthropic => "anthropic"@,
    }
}

/// What the agent knows a provider by.
pub fn ai_provider_name(provider: &AiProvider) -> (r: String)
    ensures
        r@ == provider_name(*provider),
{
    let name = match provider {
        AiProvider::Ollama => "ollama",
        AiProvider::OpenAI => "openai",
        AiProvider::Anthropic => "anthropic",
    };
    name.to_owned()
}

/// A variable that is set where there is a value.
pub open spec fn set_if(name: Seq<char>, value: Option<Seq<char>>) -> Seq<(Seq<char>, Seq<char>)> {
    match value {
        Some(value) => seq![(name, value)],
        None => Seq::empty(),
    }
}

/// The environment variables that the agent is given.
pub open spec fn agent_variables(
    secret: Seq<char>,
    config: AiConfigView,
    openai: Option<Seq<char>>,
    anthropic: Option<Seq<char>>,
) -> Seq<(Seq<char>, Seq<char>)> {
    seq![("WEZTERM_SOLANA_SECRET_KEY"@, secret)] + set_if(
        "WEZTERM_SOLANA_RPC_URL"@,
        config.solana_rpc_url,
    ) + seq![("WEZTERM_AI_PROVIDER"@, provider_name(config.ai_provider))] + set_if(
        "WEZTERM_AI_MODEL"@,
        config.ai_model,
    ) + seq![("WEZTERM_OLLAMA_BASE_URL"@, config.ai_ollama_base_url)] + set_if(
        "WEZTERM_OPENAI_API_KEY"@,
        openai,
    ) + set_if("WEZTERM_ANTHROPIC_API_KEY"@, anthropic)
}

/// The variables of a list, as name and value.
pub open spec fn variables_of(list: Seq<(String, String)>) -> Seq<(Seq<char>, Seq<char>)> {
    list.map_values(|v: (String, String)| (v.0@, v.1@))
}

fn put(list: &mut Vec<(String, String)>, name: &str, value: &str)
    ensures
        variables_of(final(list)@) == variables_of(old(list)@) + seq![(name@, value@)],
{
    list.push((name.to_owned(), value.to_owned()));
    assert(variables_of(list@) =~= variables_of(old(list)@) + seq![(name@, value@)]);
}

fn put_some(list: &mut Vec<(String, String)>, name: &str, value: &Option<String>)
    ensures
        variables_of(final(list)@) == variables_of(old(list)@) + set_if(name@, opt_text(*value)),
{
    if let Some(value) = value {
        put(list, name, value.as_str());
    } else {
        assert(variables_of(list@) =~= variables_of(list@) + set_if(name@, None));
    }
}

/// An agent that is ready to be run.
#[derive(Debug)]
pub struct AgentLaunch {
    /// The keypair as it is stored.
    pub secret: String,
    /// Where the agent's script is asked to be.
    pub script_path: Option<std::path::PathBuf>,
}

impl Agent {
    /// Takes the wallet for the agent, given the profile's keypair entry.
    pub fn run(self, entry: KeyringEntry) -> (r: Result<AgentLaunch, WalletError>)
        ensures
            launched(self, entry, r),
    {
        match load_keypair_secret(entry) {
            Ok(secret) => Ok(AgentLaunch { secret, script_path: self.script_path }),
            Err(e) => Err(e),
        }
    }
}

/// What taking the wallet for the agent gives.
pub open spec fn launched(
    cmd: Agent,
    entry: KeyringEntry,
    r: Result<AgentLaunch, WalletError>,
) -> bool {
    match (keypair_in(entry), r) {
        (Ok(secret), Ok(launch)) => launch.secret@ == secret && launch.script_path
            == cmd.script_path,
        (Err(failed), Err(e)) => e@ == failed,
        _ => false,
    }
}

impl AgentLaunch {
    /// The environment variables that the agent is given.
    pub fn variables(
        &self,
        config: &AiConfig,
        openai: &Option<String>,
        anthropic: &Option<String>,
    ) -> (r: Vec<(String, String)>)
        ensures
            variables_of(r@) == agent_variables(
                self.secret@,
                config@,
                opt_text(*openai),
                opt_text(*anthropic),
            ),
    {
        let mut list: Vec<(String, String)> = Vec::new();
        put(&mut list, "WEZTERM_SOLANA_SECRET_KEY", self.secret.as_str());
        assert(variables_of(list@) =~= seq![("WEZTERM_SOLANA_SECRET_KEY"@, self.secret@)]);
        put_some(&mut list, "WEZTERM_SOLANA_RPC_URL", &config.solana_rpc_url);
        put(&mut list, "WEZTERM_AI_PROVIDER", ai_provider_name(&config.ai_provider).as_str());
        put_some(&mut list, "WEZTERM_AI_MODEL", &config.ai_model);
        put(&mut list, "WEZTERM_OLLAMA_BASE_URL", config.ai_ollama_base_url.as_str());
        put_some(&mut list, "WEZTERM_OPENAI_API_KEY", openai);
        put_some(&mut list, "WEZTERM_ANTHROPIC_API_KEY", anthropic);
        list
    }
}

/// What the user is told of an agent that fails; `status` is how it ended.
pub fn agent_failure(status: &str) -> (r: String)
    ensures
        r@ == "solana agent exited with "@ + status@,
{
    cat2("solana agent exited with ", status)
}

/// What a command comes to.
#[derive(Debug)]
pub enum SolanaOutcome {
    /// Store the wallet, then print its lines.
    Store(NewWallet),
    /// Print the line.
    Print(String),
    /// Run the agent.
    Launch(AgentLaunch),
}

/// The account that a command reads.
pub open spec fn account_read(sub: SolanaSubCommand) -> Seq<char> {
    match sub {
        SolanaSubCommand::CreateWallet(cmd) => keypair_account_of(cmd.profile@),
        SolanaSubCommand::ImportWallet(cmd) => keypair_account_of(cmd.profile@),
        SolanaSubCommand::Address(cmd) => keypair_account_of(cmd.profile@),
        SolanaSubCommand::ShowMnemonic(cmd) => mnemonic_account_of(cmd.profile@),
        SolanaSubCommand::Agent(cmd) => keypair_account_of(cmd.profile@),
    }
}

/// A line to print, or a failure, as plain text; `None` for another outcome.
pub open spec fn printed(r: Result<SolanaOutcome, WalletError>) -> Option<
    Result<Seq<char>, WalletErrorView>,
> {
    match r {
        Ok(SolanaOutcome::Print(line)) => Some(Ok(line@)),
        Ok(_) => None,
        Err(e) => Some(Err(e@)),
    }
}

/// What a command gives.
pub open spec fn ran(
    sub: SolanaSubCommand,
    entry: KeyringEntry,
    file: Option<Seq<char>>,
    r: Result<SolanaOutcome, WalletError>,
) -> bool {
    match sub {
        SolanaSubCommand::CreateWallet(cmd) => match r {
            Ok(SolanaOutcome::Store(wallet)) => created(cmd, entry, Ok(wallet)),
            Ok(_) => false,
            Err(e) => created(cmd, entry, Err(e)),
        },
        SolanaSubCommand::ImportWallet(cmd) => match r {
            Ok(SolanaOutcome::Store(wallet)) => imported(cmd, entry, file, Ok(wallet)),
            Ok(_) => false,
            Err(e) => imported(cmd, entry, file, Err(e)),
        },
        SolanaSubCommand::Address(_) => printed(r) == Some(address_shown(entry)),
        SolanaSubCommand::ShowMnemonic(_) => printed(r) == Some(mnemonic_in(entry)),
        SolanaSubCommand::Agent(cmd) => match r {
            Ok(SolanaOutcome::Launch(launch)) => launched(cmd, entry, Ok(launch)),
            Ok(_) => false,
            Err(e) => launched(cmd, entry, Err(e)),
        },
    }
}

impl SolanaCommand {
    /// The account that the command reads.
    pub fn account(&self) -> (r: String)
        ensures
            r@ == account_read(self.sub),
    {
        match &self.sub {
            SolanaSubCommand::CreateWallet(cmd) => keypair_account(cmd.profile.as_str()),
            SolanaSubCommand::ImportWallet(cmd) => keypair_account(cmd.profile.as_str()),
            SolanaSubCommand::Address(cmd) => keypair_account(cmd.profile.as_str()),
            SolanaSubCommand::ShowMnemonic(cmd) => mnemonic_account(cmd.profile.as_str()),
            SolanaSubCommand::Agent(cmd) => keypair_account(cmd.profile.as_str()),
        }
    }

    /// Runs the command, given the entry of its account and the text of the mnemonic file, where
    /// one is named.
    pub fn run(self, entry: KeyringEntry, file: Option<String>) -> (r: Result<
        SolanaOutcome,
        WalletError,
    >)
        ensures
            ran(self.sub, entry, opt_text(file), r),
    {
        match self.sub {
            SolanaSubCommand::CreateWallet(cmd) => match cmd.run(entry) {
                Ok(wallet) => Ok(SolanaOutcome::Store(wallet)),
                Err(e) => Err(e),
            },
            SolanaSubCommand::ImportWallet(cmd) => match cmd.run(entry, file) {
                Ok(wallet) => Ok(SolanaOutcome::Store(wallet)),
                Err(e) => Err(e),
            },
            SolanaSubCommand::Address(cmd) => match cmd.run(entry) {
                Ok(line) => Ok(SolanaOutcome::Print(line)),
                Err(e) => Err(e),
            },
            SolanaSubCommand::ShowMnemonic(cmd) => match cmd.run(entry) {
                Ok(line) => Ok(SolanaOutcome::Print(line)),
                Err(e) => Err(e),
            },
            SolanaSubCommand::Agent(cmd) => match cmd.run(entry) {
                Ok(launch) => Ok(SolanaOutcome::Launch(launch)),
                Err(e) => Err(e),
            },
        }
    }
}

/// The phrase of a wallet, with any white space around it, imports as itself: from a file,
/// whatever stands on the command line, and from the command line, where there is no file.
pub proof fn law_phrase_imports_again(
    phrase: Seq<char>,
    before: Seq<char>,
    after: Seq<char>,
    other: Option<Seq<char>>,
)
    requires
        is_canonical(phrase),
        is_blank(before),
        is_blank(after),
    ensures
        phrase_given(other, Some(before + phrase + after)) == Ok::<Seq<char>, WalletErrorView>(
            phrase,
        ),
        phrase_given(Some(before + phrase + after), None) == Ok::<Seq<char>, WalletErrorView>(
            phrase,
        ),
{
    law_padding_is_trimmed(before, phrase, after);
}

/// A keyring, as the passwords under its accounts, once entries have been stored in it.
pub open spec fn keyring_after(
    keyring: Map<Seq<char>, Seq<char>>,
    entries: Seq<(Seq<char>, Seq<char>)>,
) -> Map<Seq<char>, Seq<char>>
    decreases entries.len(),
{
    if entries.len() == 0 {
        keyring
    } else {
        keyring_after(keyring, entries.drop_last()).insert(entries.last().0, entries.last().1)
    }
}

/// Whether reading an account of the keyring gives the entry.
pub open spec fn reads(
    keyring: Map<Seq<char>, Seq<char>>,
    account: Seq<char>,
    entry: KeyringEntry,
) -> bool {
    match entry {
        KeyringEntry::Password(text) => keyring.contains_key(account) && keyring[account] == text@,
        _ => !keyring.contains_key(account),
    }
}

proof fn lemma_accounts_differ(profile: Seq<char>, other: Seq<char>)
    ensures
        mnemonic_account_of(profile) != keypair_account_of(other),
        profile != other ==> mnemonic_account_of(profile) != mnemonic_account_of(other),
        profile != other ==> keypair_account_of(profile) != keypair_account_of(other),
{
    reveal_strlit("mnemonic:");
    reveal_strlit("keypair:");
    assert(mnemonic_account_of(profile)[0] == 'm');
    assert(keypair_account_of(other)[0] == 'k');
    assert(mnemonic_account_of(profile).skip(9) =~= profile);
    assert(mnemonic_account_of(other).skip(9) =~= other);
    assert(keypair_account_of(profile).skip(8) =~= profile);
    assert(keypair_account_of(other).skip(8) =~= other);
}

proof fn lemma_keyring_after_wallet(
    keyring: Map<Seq<char>, Seq<char>>,
    profile: Seq<char>,
    phrase: Seq<char>,
    keypair: Seq<char>,
)
    ensures
        keyring_after(keyring, wallet_entries(profile, phrase, keypair)) == keyring.insert(
            mnemonic_account_of(profile),
            phrase,
        ).insert(keypair_account_of(profile), keypair),
{
    let entries = wallet_entries(profile, phrase, keypair);
    assert(entries.drop_last() =~= seq![(mnemonic_account_of(profile), phrase)]);
    assert(entries.drop_last().drop_last() =~= Seq::<(Seq<char>, Seq<char>)>::empty());
    reveal_with_fuel(keyring_after, 3);
}

/// A stored wallet shows its own phrase and the address that was printed when it was made, and
/// its profile is not given away again.
pub proof fn law_stored_wallet_reads_back(
    keyring: Map<Seq<char>, Seq<char>>,
    wallet: NewWallet,
    profile: Seq<char>,
    phrase: Seq<char>,
    mnemonic: KeyringEntry,
    keypair: KeyringEntry,
)
    requires
        is_wallet_of(wallet, profile, phrase),
        reads(
            keyring_after(keyring, entries_of(wallet.entries@)),
            mnemonic_account_of(profile),
            mnemonic,
        ),
        reads(
            keyring_after(keyring, entries_of(wallet.entries@)),
            keypair_account_of(profile),
            keypair,
        ),
    ensures
        mnemonic_in(mnemonic) == Ok::<Seq<char>, WalletErrorView>(phrase),
        address_shown(keypair) == Ok::<Seq<char>, WalletErrorView>(
            address_of(wallet_secret(phrase)),
        ),
        profile_taken(keypair) == Some(WalletErrorView::ProfileExists),
{
    lemma_keyring_after_wallet(keyring, profile, phrase, keypair_text(wallet_secret(phrase)));
    lemma_accounts_differ(profile, profile);
}

/// Storing a wallet changes no entry of another profile.
pub proof fn law_profiles_are_apart(
    keyring: Map<Seq<char>, Seq<char>>,
    wallet: NewWallet,
    profile: Seq<char>,
    phrase: Seq<char>,
    other: Seq<char>,
    entry: KeyringEntry,
)
    requires
        is_wallet_of(wallet, profile, phrase),
        other != profile,
    ensures
        reads(
            keyring_after(keyring, entries_of(wallet.entries@)),
            mnemonic_account_of(other),
            entry,
        ) == reads(keyring, mnemonic_account_of(other), entry),
        reads(
            keyring_after(keyring, entries_of(wallet.entries@)),
            keypair_account_of(other),
            entry,
        ) == reads(keyring, keypair_account_of(other), entry),
{
    lemma_keyring_after_wallet(keyring, profile, phrase, keypair_text(wallet_secret(phrase)));
    lemma_accounts_differ(profile, other);
    lemma_accounts_differ(other, profile);
}

/// Importing the phrase of a created wallet, from a file with any white space around it, under a
/// profile that is free, restores that wallet: the same keypair is stored and the same address is
/// shown.
pub proof fn law_import_restores_wallet(
    create: CreateWallet,
    create_entry: KeyringEntry,
    wallet: NewWallet,
    import: ImportWallet,
    import_entry: KeyringEntry,
    before: Seq<char>,
    after: Seq<char>,
    r: Result<NewWallet, WalletError>,
)
    requires
        created(create, create_entry, Ok(wallet)),
        profile_taken(import_entry) is None,
        is_blank(before),
        is_blank(after),
        imported(import, import_entry, Some(before + stored_phrase(wallet) + after), r),
    ensures
        r matches Ok(restored) && {
            &&& stored_phrase(restored) == stored_phrase(wallet)
            &&& entries_of(restored.entries@)[1].1 == entries_of(wallet.entries@)[1].1
            &&& texts(restored.lines@)[0] == texts(wallet.lines@)[0]
        },
{
    let phrase = stored_phrase(wallet);
    law_phrase_imports_again(phrase, before, after, opt_text(import.mnemonic));
    let listed = wallet_entries(import.profile@, phrase, keypair_text(wallet_secret(phrase)));
    assert(listed[0] == (mnemonic_account_of(import.profile@), phrase));
    assert(entries_of(r->Ok_0.entries@).len() == 2);
    assert(entries_of(r->Ok_0.entries@)[0] == r->Ok_0.entries@[0]@);
}

} // verus!
