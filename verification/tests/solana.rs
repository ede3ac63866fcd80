use std::path::PathBuf;
use wezterm_ai::config::{AiConfig, AiProvider};
use wezterm_ai::solana::{
    agent_failure, ai_provider_name, created_lines, ensure_profile_unused, first_half,
    import_phrase, imported_lines, keypair_account, keypair_bytes, keypair_from_mnemonic,
    list_entries, load_ai_key, load_keypair, load_keypair_secret, load_mnemonic,
    load_mnemonic_from_args, mnemonic_account, resolve_agent_script, secret_from, store_wallet,
    wallet_address, Address, Agent, CreateWallet, ImportWallet, KeyringEntry, NewWallet,
    ShowMnemonic, SolanaCommand, SolanaOutcome, SolanaSubCommand, WalletError, AGENT_VARIABLE,
    MNEMONIC_WORDS, WALLET_SERVICE,
};

const PHRASE: &str = "abandon abandon abandon abandon abandon abandon abandon abandon abandon \
                      abandon abandon about";
const ADDRESS: &str = "EHqmfkN89RJ7Y33CXM6uCzhVeuywHoJXZZLszBHHZy7o";
const KEYPAIR: &str =
    "2toRUbaioVgUMx5nZ3bDQMiTzqqwoCn5Ghet7XtztT5X233cSApiZPs6VZujgQHxQVucrpSZHimy4bXrUE3qqVXo";
const SECRET: [u8; 32] = [
    94, 176, 11, 189, 220, 240, 105, 8, 72, 137, 168, 171, 145, 85, 86, 129, 101, 245, 196, 83,
    204, 184, 94, 112, 129, 26, 174, 214, 246, 218, 95, 193,
];

fn text(s: &str) -> Option<String> {
    Some(s.to_string())
}

fn missing() -> KeyringEntry {
    KeyringEntry::Missing("no entry".to_string())
}

fn unavailable() -> KeyringEntry {
    KeyringEntry::Unavailable("locked".to_string())
}

fn password(s: &str) -> KeyringEntry {
    KeyringEntry::Password(s.to_string())
}

fn import(mnemonic: Option<&str>) -> ImportWallet {
    ImportWallet {
        profile: "p".to_string(),
        mnemonic: mnemonic.map(|m| m.to_string()),
        mnemonic_file: None,
    }
}

fn create(show_mnemonic: bool) -> CreateWallet {
    CreateWallet { profile: "p".to_string(), show_mnemonic }
}

fn entries(wallet: &NewWallet) -> Vec<(&str, &str)> {
    wallet.entries.iter().map(|e| (e.account.as_str(), e.password.as_str())).collect()
}

fn config(provider: AiProvider) -> AiConfig {
    AiConfig {
        ai_provider: provider,
        ai_model: text("m"),
        ai_ollama_base_url: "http://h".to_string(),
        code_mode_auto_accept: false,
        solana_rpc_url: text("https://rpc"),
    }
}

#[test]
fn a_phrase_has_one_secret_key() {
    assert_eq!(keypair_from_mnemonic(PHRASE).unwrap(), SECRET);
    let e = keypair_from_mnemonic("abandon").unwrap_err();
    assert!(matches!(e, WalletError::InvalidMnemonic(_)));
}

#[test]
fn a_secret_key_has_one_address() {
    assert_eq!(wallet_address(&SECRET), ADDRESS);
}

#[test]
fn the_public_key_of_a_known_secret() {
    let secret: [u8; 32] = [
        0x9d, 0x61, 0xb1, 0x9d, 0xef, 0xfd, 0x5a, 0x60, 0xba, 0x84, 0x4a, 0xf4, 0x92, 0xec, 0x2c,
        0xc4, 0x44, 0x49, 0xc5, 0x69, 0x7b, 0x32, 0x69, 0x19, 0x70, 0x3b, 0xac, 0x03, 0x1c, 0xae,
        0x7f, 0x60,
    ];
    let public: [u8; 32] = [
        0xd7, 0x5a, 0x98, 0x01, 0x82, 0xb1, 0x0a, 0xb7, 0xd5, 0x4b, 0xfe, 0xd3, 0xc9, 0x64, 0x07,
        0x3a, 0x0e, 0xe1, 0x72, 0xf3, 0xda, 0xa6, 0x23, 0x25, 0xaf, 0x02, 0x1a, 0x68, 0xf7, 0x07,
        0x51, 0x1a,
    ];
    assert_eq!(wallet_address(&secret), bs58::encode(public).into_string());
}

#[test]
fn importing_stores_the_phrase_and_the_keypair() {
    let wallet = import(Some(PHRASE)).run(missing(), None).unwrap();
    assert_eq!(entries(&wallet), vec![("mnemonic:p", PHRASE), ("keypair:p", KEYPAIR)]);
    assert_eq!(wallet.lines, vec![format!("Address: {ADDRESS}")]);
}

#[test]
fn white_space_around_a_phrase_does_not_matter() {
    let padded = format!("\n  {PHRASE} \n");
    let wallet = import(None).run(missing(), Some(padded.clone())).unwrap();
    assert_eq!(wallet.entries[0].password, PHRASE);
    let wallet = import(Some(&padded)).run(missing(), None).unwrap();
    assert_eq!(wallet.entries[0].password, PHRASE);
}

#[test]
fn the_file_goes_before_the_argument() {
    assert_eq!(load_mnemonic_from_args(text("junk"), text(PHRASE)).unwrap(), PHRASE);
    let e = load_mnemonic_from_args(text(PHRASE), text("junk")).unwrap_err();
    assert!(matches!(e, WalletError::InvalidMnemonic(_)));
    let e = load_mnemonic_from_args(None, None).unwrap_err();
    assert_eq!(e.message(), "provide --mnemonic or --mnemonic-file");
}

#[test]
fn a_bad_phrase_is_told_before_a_taken_profile() {
    let e = import(Some("one two")).run(password(KEYPAIR), None).unwrap_err();
    assert!(matches!(e, WalletError::InvalidMnemonic(_)));
    let expected = bip39::Mnemonic::parse_in(bip39::Language::English, "one two").unwrap_err();
    assert_eq!(e.message(), expected.to_string());
    let e = import(Some(PHRASE)).run(password(KEYPAIR), None).unwrap_err();
    assert_eq!(e.message(), "wallet profile already exists");
    let e = import(Some(PHRASE)).run(unavailable(), None).unwrap_err();
    assert_eq!(e.message(), "locked");
}

#[test]
fn a_new_wallet_has_twenty_four_words() {
    let wallet = create(true).run(missing()).unwrap();
    let phrase = wallet.entries[0].password.clone();
    assert_eq!(phrase.split(' ').count(), MNEMONIC_WORDS);
    assert_eq!(MNEMONIC_WORDS, 24);
    let secret = keypair_from_mnemonic(&phrase).unwrap();
    let address = wallet_address(&secret);
    assert_eq!(wallet.lines, vec![format!("Address: {address}"), format!("Mnemonic: {phrase}")]);
    assert_eq!(wallet.entries[0].account, "mnemonic:p");
    assert_eq!(wallet.entries[1].account, "keypair:p");
    let other = create(true).run(missing()).unwrap();
    assert_ne!(other.entries[0].password, phrase);
}

#[test]
fn a_mnemonic_is_hidden_unless_asked_for() {
    let wallet = create(false).run(missing()).unwrap();
    assert_eq!(wallet.lines[1], "Mnemonic: (hidden) use --show-mnemonic to display");
    assert_eq!(wallet.lines.len(), 2);
}

#[test]
fn a_taken_profile_is_refused() {
    let e = create(true).run(password("anything")).unwrap_err();
    assert!(matches!(e, WalletError::ProfileExists));
    let e = create(true).run(unavailable()).unwrap_err();
    assert!(matches!(e, WalletError::Keyring(_)));
}

#[test]
fn a_stored_wallet_reads_back() {
    let wallet = create(true).run(missing()).unwrap();
    let phrase = wallet.entries[0].password.clone();
    let keypair = wallet.entries[1].password.clone();
    let shown = Address { profile: "p".to_string() }.run(password(&keypair)).unwrap();
    assert_eq!(format!("Address: {shown}"), wallet.lines[0]);
    let shown = ShowMnemonic { profile: "p".to_string() }.run(password(&phrase)).unwrap();
    assert_eq!(shown, phrase);
    let secret = load_keypair(password(&keypair)).unwrap();
    assert_eq!(secret, keypair_from_mnemonic(&phrase).unwrap());
    let restored = import(None).run(missing(), Some(format!(" {phrase}\n"))).unwrap();
    assert_eq!(restored.entries[1].password, keypair);
    assert_eq!(restored.lines[0], wallet.lines[0]);
}

#[test]
fn profiles_have_their_own_accounts() {
    assert_eq!(mnemonic_account("p"), "mnemonic:p");
    assert_eq!(keypair_account("p"), "keypair:p");
    assert_ne!(keypair_account("p"), keypair_account("q"));
    assert_eq!(WALLET_SERVICE, "wezterm-solana");
    let stored = store_wallet("q", PHRASE, &SECRET);
    assert_eq!(stored[0].account, "mnemonic:q");
    assert_eq!(stored[1].account, "keypair:q");
    assert_eq!(stored[1].password, KEYPAIR);
}

#[test]
fn a_stored_keypair_is_checked() {
    assert_eq!(load_keypair(password(KEYPAIR)).unwrap(), SECRET);
    let e = load_keypair(password("0OIl")).unwrap_err();
    let cause = bs58::decode("0OIl").into_vec().unwrap_err();
    assert_eq!(e.message(), format!("invalid keypair data: {cause}"));
    let short = bs58::encode([1u8; 32]).into_string();
    let e = load_keypair(password(&short)).unwrap_err();
    assert_eq!(e.message(), "invalid keypair length");
    let e = load_keypair(missing()).unwrap_err();
    assert_eq!(e.message(), "wallet not found; run wezterm solana create-wallet: no entry");
    let e = load_keypair(unavailable()).unwrap_err();
    assert_eq!(e.message(), "locked");
}

#[test]
fn a_stored_text_is_handed_on() {
    assert_eq!(load_mnemonic(password("x")).unwrap(), "x");
    let e = load_mnemonic(missing()).unwrap_err();
    assert_eq!(e.message(), "mnemonic not found; run wezterm solana create-wallet: no entry");
    assert!(matches!(load_mnemonic(unavailable()), Err(WalletError::Keyring(_))));
    assert_eq!(load_keypair_secret(password("x")).unwrap(), "x");
    assert!(matches!(load_keypair_secret(missing()), Err(WalletError::WalletNotFound(_))));
    assert!(matches!(load_keypair_secret(unavailable()), Err(WalletError::Keyring(_))));
}

#[test]
fn the_script_is_looked_for_in_order() {
    let path = |s: &str| PathBuf::from(s);
    let r = resolve_agent_script(Some(path("a")), Some(path("b")), path("c"), true);
    assert_eq!(r.unwrap(), path("a"));
    let r = resolve_agent_script(None, Some(path("b")), path("c"), true);
    assert_eq!(r.unwrap(), path("b"));
    let r = resolve_agent_script(None, None, path("c"), true);
    assert_eq!(r.unwrap(), path("c"));
    let e = resolve_agent_script(None, None, path("c"), false).unwrap_err();
    assert_eq!(
        e.message(),
        "Solana agent script not found. Set WEZTERM_SOLANA_AGENT_JS or --script-path"
    );
    assert_eq!(AGENT_VARIABLE, "WEZTERM_SOLANA_AGENT_JS");
}

#[test]
fn the_agent_gets_its_environment() {
    let agent = Agent { profile: "p".to_string(), script_path: Some(PathBuf::from("a.mjs")) };
    let launch = agent.run(password("raw")).unwrap();
    assert_eq!(launch.secret, "raw");
    assert_eq!(launch.script_path, Some(PathBuf::from("a.mjs")));
    let pairs = |list: Vec<(String, String)>| -> Vec<String> {
        list.into_iter().map(|(name, value)| format!("{name}={value}")).collect()
    };
    assert_eq!(
        pairs(launch.variables(&config(AiProvider::Anthropic), &text("o"), &text("a"))),
        vec![
            "WEZTERM_SOLANA_SECRET_KEY=raw",
            "WEZTERM_SOLANA_RPC_URL=https://rpc",
            "WEZTERM_AI_PROVIDER=anthropic",
            "WEZTERM_AI_MODEL=m",
            "WEZTERM_OLLAMA_BASE_URL=http://h",
            "WEZTERM_OPENAI_API_KEY=o",
            "WEZTERM_ANTHROPIC_API_KEY=a",
        ]
    );
    let mut bare = config(AiProvider::Ollama);
    bare.ai_model = None;
    bare.solana_rpc_url = None;
    assert_eq!(
        pairs(launch.variables(&bare, &None, &None)),
        vec![
            "WEZTERM_SOLANA_SECRET_KEY=raw",
            "WEZTERM_AI_PROVIDER=ollama",
            "WEZTERM_OLLAMA_BASE_URL=http://h",
        ]
    );
    assert_eq!(ai_provider_name(&AiProvider::OpenAI), "openai");
    assert_eq!(agent_failure("exit status: 1"), "solana agent exited with exit status: 1");
}

#[test]
fn a_stored_key_goes_before_the_environment() {
    assert_eq!(load_ai_key(text("a"), text("b")), text("a"));
    assert_eq!(load_ai_key(None, text("b")), text("b"));
    assert_eq!(load_ai_key(None, None), None);
}

#[test]
fn each_command_reads_its_account_and_runs() {
    let p = || "p".to_string();
    let command = |sub| SolanaCommand { sub };
    let c = command(SolanaSubCommand::CreateWallet(create(false)));
    assert_eq!(c.account(), "keypair:p");
    assert!(matches!(c.run(missing(), None), Ok(SolanaOutcome::Store(_))));
    let c = command(SolanaSubCommand::ImportWallet(import(Some(PHRASE))));
    assert_eq!(c.account(), "keypair:p");
    assert!(matches!(c.run(missing(), None), Ok(SolanaOutcome::Store(_))));
    let c = command(SolanaSubCommand::Address(Address { profile: p() }));
    assert_eq!(c.account(), "keypair:p");
    match c.run(password(KEYPAIR), None) {
        Ok(SolanaOutcome::Print(line)) => assert_eq!(line, ADDRESS),
        other => panic!("{other:?}"),
    }
    let c = command(SolanaSubCommand::ShowMnemonic(ShowMnemonic { profile: p() }));
    assert_eq!(c.account(), "mnemonic:p");
    match c.run(password(PHRASE), None) {
        Ok(SolanaOutcome::Print(line)) => assert_eq!(line, PHRASE),
        other => panic!("{other:?}"),
    }
    let c = command(SolanaSubCommand::Agent(Agent { profile: p(), script_path: None }));
    assert_eq!(c.account(), "keypair:p");
    match c.run(password("raw"), None) {
        Ok(SolanaOutcome::Launch(launch)) => assert_eq!(launch.secret, "raw"),
        other => panic!("{other:?}"),
    }
    let c = command(SolanaSubCommand::Agent(Agent { profile: p(), script_path: None }));
    assert!(matches!(c.run(missing(), None), Err(WalletError::WalletNotFound(_))));
}

#[test]
fn keys_are_put_together_and_taken_apart() {
    let bytes = keypair_bytes(&[1u8; 32], &[2u8; 32]);
    assert_eq!(bytes.len(), 64);
    assert_eq!(bytes[..32], [1u8; 32]);
    assert_eq!(bytes[32..], [2u8; 32]);
    assert_eq!(first_half(&bytes), [1u8; 32]);
    assert_eq!(secret_from(Ok(bytes)).unwrap(), [1u8; 32]);
    let e = secret_from(Ok(vec![0; 63])).unwrap_err();
    assert!(matches!(e, WalletError::InvalidKeypairLength));
    let e = secret_from(Err("why".to_string())).unwrap_err();
    assert_eq!(e.message(), "invalid keypair data: why");
}

#[test]
fn entries_and_lines_are_listed() {
    let listed = list_entries("q", "words", "pair".to_string());
    let listed: Vec<(String, String)> =
        listed.into_iter().map(|e| (e.account, e.password)).collect();
    assert_eq!(
        listed,
        vec![
            ("mnemonic:q".to_string(), "words".to_string()),
            ("keypair:q".to_string(), "pair".to_string())
        ]
    );
    assert_eq!(created_lines("a", "words", true), vec!["Address: a", "Mnemonic: words"]);
    assert_eq!(
        created_lines("a", "words", false),
        vec!["Address: a", "Mnemonic: (hidden) use --show-mnemonic to display"]
    );
    assert_eq!(imported_lines("a"), vec!["Address: a"]);
}

#[test]
fn a_given_phrase_makes_the_wallet() {
    let wallet = create(true).store(PHRASE.to_string()).unwrap();
    assert_eq!(entries(&wallet), vec![("mnemonic:p", PHRASE), ("keypair:p", KEYPAIR)]);
    assert_eq!(
        wallet.lines,
        vec![format!("Address: {ADDRESS}"), format!("Mnemonic: {PHRASE}")]
    );
    let e = create(true).store("junk".to_string()).unwrap_err();
    assert!(matches!(e, WalletError::InvalidMnemonic(_)));
    let wallet = import_phrase("p", Ok(PHRASE.to_string()), &missing()).unwrap();
    assert_eq!(entries(&wallet), vec![("mnemonic:p", PHRASE), ("keypair:p", KEYPAIR)]);
    let e = import_phrase("p", Err(WalletError::NoPhrase), &password("x")).unwrap_err();
    assert!(matches!(e, WalletError::NoPhrase));
    let e = import_phrase("p", Ok(PHRASE.to_string()), &password("x")).unwrap_err();
    assert!(matches!(e, WalletError::ProfileExists));
}

#[test]
fn a_free_profile_is_one_without_a_keypair() {
    assert!(ensure_profile_unused(&missing()).is_ok());
    assert!(matches!(ensure_profile_unused(&password("")), Err(WalletError::ProfileExists)));
    assert!(matches!(ensure_profile_unused(&unavailable()), Err(WalletError::Keyring(_))));
}
