//! What holds of wallets, and of the agent that uses them.
#[allow(unused_imports)]
use crate::config::{AiConfigView, AiProvider};
#[allow(unused_imports)]
use crate::keys::{
    base58, base58_decoded, bip39_phrase, bip39_seed, ed25519_public, is_canonical, word_count,
};
#[allow(unused_imports)]
use crate::ollama_laws::ends_in;
#[allow(unused_imports)]
use crate::solana::{
    account_read, address_of, address_shown, agent_variables, created, entries_of, imported,
    keypair_in, keypair_text, launched, lines_created, mnemonic_in, phrase_given, profile_taken,
    provider_name, ran, script_resolved, secret_in, set_if, stored_phrase, wallet_entries,
    wallet_error_text, wallet_secret, AgentLaunch, Agent, CreateWallet, ImportWallet, KeyringEntry,
    NewWallet, SolanaOutcome, SolanaSubCommand, WalletError, WalletErrorView,
};
#[allow(unused_imports)]
use crate::text::{opt_text, texts, trimmed};
use vstd::prelude::*;

verus! {

/// The secret key of a phrase: the first 32 bytes of its seed, without a passphrase.
pub open spec fn phrase_key(phrase: Seq<char>) -> Seq<u8> {
    bip39_seed(phrase, ""@).take(32)
}

/// A wallet is created exactly where the profile is free. It has a phrase of 24 words that reads as
/// itself; what is stored is that phrase and the phrase's key with its public key, under the
/// profile's accounts, the phrase first; and the address that is shown is that of this key.
pub proof fn law_created_wallet_is_its_phrases(
    cmd: CreateWallet,
    entry: KeyringEntry,
    r: Result<NewWallet, WalletError>,
)
    requires
        created(cmd, entry, r),
    ensures
        r is Ok <==> entry is Missing,
        entry is Password ==> (r matches Err(e) && e@ == WalletErrorView::ProfileExists),
        entry matches KeyringEntry::Unavailable(cause) ==> (r matches Err(e) && e@
            == WalletErrorView::Keyring(cause@)),
        r matches Ok(wallet) ==> {
            let phrase = wallet.entries@[0].password@;
            let key = phrase_key(phrase);
            &&& wallet.entries@.len() == 2
            &&& wallet.entries@[0].account@ == "mnemonic:"@ + cmd.profile@
            &&& wallet.entries@[1].account@ == "keypair:"@ + cmd.profile@
            &&& wallet.entries@[1].password@ == base58(key + ed25519_public(key))
            &&& bip39_phrase(phrase) == Ok::<Seq<char>, Seq<char>>(phrase)
            &&& word_count(phrase) == 24
            &&& wallet.lines@.len() == 2
            &&& wallet.lines@[0]@ == "Address: "@ + base58(ed25519_public(key))
            &&& cmd.show_mnemonic ==> wallet.lines@[1]@ == "Mnemonic: "@ + phrase
            &&& !cmd.show_mnemonic ==> wallet.lines@[1]@
                == "Mnemonic: (hidden) use --show-mnemonic to display"@
        },
{
    if let Ok(wallet) = r {
        let phrase = stored_phrase(wallet);
        let listed = entries_of(wallet.entries@);
        assert(listed.len() == 2);
        assert(listed[0] == wallet.entries@[0]@);
        assert(listed[1] == wallet.entries@[1]@);
        let lines = texts(wallet.lines@);
        assert(lines.len() == 2);
        assert(lines[0] == wallet.lines@[0]@);
        assert(lines[1] == wallet.lines@[1]@);
    }
}

/// A wallet is imported exactly where a phrase was given that reads as a mnemonic and the profile
/// is free. The file's text goes before the argument, and what is wrong with the phrase is told
/// before what is wrong with the profile. What is stored and shown is the phrase's, as for a
/// created wallet.
pub proof fn law_imported_wallet_is_its_phrases(
    cmd: ImportWallet,
    entry: KeyringEntry,
    file: Option<Seq<char>>,
    text: Seq<char>,
    r: Result<NewWallet, WalletError>,
)
    requires
        imported(cmd, entry, file, r),
    ensures
        file is None && cmd.mnemonic is None ==> (r matches Err(e) && e@
            == WalletErrorView::NoPhrase),
        file == Some(text) || file is None && opt_text(cmd.mnemonic) == Some(text) ==> {
            let read = bip39_phrase(trimmed(text));
            &&& read matches Err(cause) ==> (r matches Err(e) && e@
                == WalletErrorView::InvalidMnemonic(cause))
            &&& read is Ok && entry is Password ==> (r matches Err(e) && e@
                == WalletErrorView::ProfileExists)
            &&& read is Ok && entry is Unavailable ==> (r matches Err(e) && e@
                == WalletErrorView::Keyring(entry->Unavailable_0@))
            &&& read is Ok && entry is Missing ==> {
                let phrase = read->Ok_0;
                let key = phrase_key(phrase);
                r matches Ok(wallet) && {
                    &&& wallet.entries@.len() == 2
                    &&& wallet.entries@[0].account@ == "mnemonic:"@ + cmd.profile@
                    &&& wallet.entries@[0].password@ == phrase
                    &&& wallet.entries@[1].account@ == "keypair:"@ + cmd.profile@
                    &&& wallet.entries@[1].password@ == base58(key + ed25519_public(key))
                    &&& wallet.lines@.len() == 1
                    &&& wallet.lines@[0]@ == "Address: "@ + base58(ed25519_public(key))
                }
            }
        },
{
    if let Ok(wallet) = r {
        let listed = entries_of(wallet.entries@);
        assert(listed.len() == 2);
        assert(listed[0] == wallet.entries@[0]@);
        assert(listed[1] == wallet.entries@[1]@);
        let lines = texts(wallet.lines@);
        assert(lines.len() == 1);
        assert(lines[0] == wallet.lines@[0]@);
    }
}

/// The address that is shown is that of the key in the first half of the 64 stored bytes; anything
/// that is not 64 bytes in base 58 is refused for what is wrong with it, and so is a wallet that is
/// not there.
pub proof fn law_address_is_the_stored_keys(entry: KeyringEntry, text: String, bytes: Seq<u8>)
    ensures
        base58_decoded(text@) == Ok::<Seq<u8>, Seq<char>>(bytes) && bytes.len() == 64
            ==> address_shown(KeyringEntry::Password(text)) == Ok::<Seq<char>, WalletErrorView>(
            base58(ed25519_public(bytes.take(32))),
        ),
        base58_decoded(text@) == Ok::<Seq<u8>, Seq<char>>(bytes) && bytes.len() != 64
            ==> address_shown(KeyringEntry::Password(text)) == Err::<Seq<char>, WalletErrorView>(
            WalletErrorView::InvalidKeypairLength,
        ),
        base58_decoded(text@) matches Err(cause) ==> address_shown(KeyringEntry::Password(text))
            == Err::<Seq<char>, WalletErrorView>(WalletErrorView::InvalidKeypairData(cause)),
        entry matches KeyringEntry::Missing(cause) ==> address_shown(entry) == Err::<
            Seq<char>,
            WalletErrorView,
        >(WalletErrorView::WalletNotFound(cause@)),
        entry matches KeyringEntry::Unavailable(cause) ==> address_shown(entry) == Err::<
            Seq<char>,
            WalletErrorView,
        >(WalletErrorView::Keyring(cause@)),
{
}

/// A stored phrase is shown as it stands, and one that is not there is told so.
pub proof fn law_phrase_is_shown_as_stored(entry: KeyringEntry)
    ensures
        entry matches KeyringEntry::Password(text) ==> mnemonic_in(entry) == Ok::<
            Seq<char>,
            WalletErrorView,
        >(text@),
        entry matches KeyringEntry::Missing(cause) ==> mnemonic_in(entry) == Err::<
            Seq<char>,
            WalletErrorView,
        >(WalletErrorView::MnemonicNotFound(cause@)),
        entry matches KeyringEntry::Unavailable(cause) ==> mnemonic_in(entry) == Err::<
            Seq<char>,
            WalletErrorView,
        >(WalletErrorView::Keyring(cause@)),
{
}

/// A phrase that is not asked for does not show: what is printed is the same for every phrase with
/// that address.
pub proof fn law_phrase_stays_hidden(address: Seq<char>, phrase: Seq<char>, other: Seq<char>)
    ensures
        lines_created(address, phrase, false) == lines_created(address, other, false),
        lines_created(address, phrase, true)[1] == "Mnemonic: "@ + phrase,
        lines_created(address, phrase, true)[0] == "Address: "@ + address,
        lines_created(address, phrase, false)[0] == "Address: "@ + address,
{
}

/// Every command reads the entry of its own profile: the mnemonic's to show the phrase, and the
/// keypair's for everything else.
pub proof fn law_commands_read_their_profile(sub: SolanaSubCommand)
    ensures
        match sub {
            SolanaSubCommand::CreateWallet(cmd) => account_read(sub) == "keypair:"@ + cmd.profile@,
            SolanaSubCommand::ImportWallet(cmd) => account_read(sub) == "keypair:"@ + cmd.profile@,
            SolanaSubCommand::Address(cmd) => account_read(sub) == "keypair:"@ + cmd.profile@,
            SolanaSubCommand::ShowMnemonic(cmd) => account_read(sub) == "mnemonic:"@
                + cmd.profile@,
            SolanaSubCommand::Agent(cmd) => account_read(sub) == "keypair:"@ + cmd.profile@,
        },
{
}

/// Every command comes to what it is for: wallets that are made are stored, the address and the
/// phrase are printed, and the agent is launched with the keypair as it is stored and the script
/// that was asked for.
pub proof fn law_commands_do_what_they_are_for(
    sub: SolanaSubCommand,
    entry: KeyringEntry,
    file: Option<Seq<char>>,
    r: Result<SolanaOutcome, WalletError>,
)
    requires
        ran(sub, entry, file, r),
    ensures
        r matches Ok(outcome) ==> match sub {
            SolanaSubCommand::CreateWallet(_) => outcome is Store,
            SolanaSubCommand::ImportWallet(_) => outcome is Store,
            SolanaSubCommand::Address(_) => outcome is Print,
            SolanaSubCommand::ShowMnemonic(_) => outcome is Print,
            SolanaSubCommand::Agent(_) => outcome is Launch,
        },
        sub is Address ==> (r is Ok <==> address_shown(entry) is Ok),
        sub is Address && r is Ok ==> Ok::<Seq<char>, WalletErrorView>(r->Ok_0->Print_0@)
            == address_shown(entry),
        sub is ShowMnemonic ==> (r is Ok <==> entry is Password),
        sub is ShowMnemonic && r is Ok ==> r->Ok_0->Print_0@ == entry->Password_0@,
        sub is Agent ==> (r is Ok <==> entry is Password),
        sub is Agent && r is Ok ==> {
            &&& r->Ok_0->Launch_0.secret@ == entry->Password_0@
            &&& r->Ok_0->Launch_0.script_path == sub->Agent_0.script_path
        },
        sub is CreateWallet ==> (r is Ok <==> entry is Missing),
        sub is ImportWallet && r is Ok ==> entry is Missing,
        (sub is Address || sub is Agent) && entry is Missing ==> (r matches Err(e) && e@
            == WalletErrorView::WalletNotFound(entry->Missing_0@)),
{
}

proof fn lemma_pair_in(
    a: Seq<(Seq<char>, Seq<char>)>,
    b: Seq<(Seq<char>, Seq<char>)>,
    pair: (Seq<char>, Seq<char>),
)
    ensures
        (a + b).contains(pair) <==> a.contains(pair) || b.contains(pair),
{
    if a.contains(pair) {
        let k = choose|k: int| 0 <= k < a.len() && a[k] == pair;
        assert((a + b)[k] == pair);
    }
    if b.contains(pair) {
        let k = choose|k: int| 0 <= k < b.len() && b[k] == pair;
        assert((a + b)[a.len() + k] == pair);
    }
    if (a + b).contains(pair) {
        let k = choose|k: int| 0 <= k < (a + b).len() && (a + b)[k] == pair;
        if k < a.len() {
            assert(a[k] == pair);
        } else {
            assert(b[k - a.len()] == pair);
        }
    }
}

proof fn lemma_pair_alone(a: (Seq<char>, Seq<char>), pair: (Seq<char>, Seq<char>))
    ensures
        seq![a].contains(pair) <==> a == pair,
{
    assert(seq![a][0] == a);
}

proof fn lemma_pair_if(name: Seq<char>, value: Option<Seq<char>>, pair: (Seq<char>, Seq<char>))
    ensures
        set_if(name, value).contains(pair) <==> value is Some && pair == (name, value->0),
        set_if(name, value).len() == if value is Some {
            1int
        } else {
            0
        },
{
    if value is Some {
        assert(set_if(name, value)[0] == (name, value->0));
    }
}

/// What a provider is called by the agent.
pub open spec fn agent_name_of(provider: AiProvider) -> Seq<char> {
    match provider {
        AiProvider::Ollama => "ollama"@,
        AiProvider::OpenAI => "openai"@,
        AiProvider::Anthropic => "anthropic"@,
    }
}

/// The agent is given the wallet's keypair, the provider and the local server's address always, and
/// the chain's address, the model and each key exactly where there is one; and nothing else.
pub proof fn law_agent_gets_what_it_needs(
    secret: Seq<char>,
    config: AiConfigView,
    openai: Option<Seq<char>>,
    anthropic: Option<Seq<char>>,
    name: Seq<char>,
    value: Seq<char>,
)
    ensures
        agent_variables(secret, config, openai, anthropic).contains((name, value)) <==> {
            ||| name == "WEZTERM_SOLANA_SECRET_KEY"@ && value == secret
            ||| name == "WEZTERM_AI_PROVIDER"@ && value == agent_name_of(config.ai_provider)
            ||| name == "WEZTERM_OLLAMA_BASE_URL"@ && value == config.ai_ollama_base_url
            ||| name == "WEZTERM_SOLANA_RPC_URL"@ && config.solana_rpc_url == Some(value)
            ||| name == "WEZTERM_AI_MODEL"@ && config.ai_model == Some(value)
            ||| name == "WEZTERM_OPENAI_API_KEY"@ && openai == Some(value)
            ||| name == "WEZTERM_ANTHROPIC_API_KEY"@ && anthropic == Some(value)
        },
        agent_variables(secret, config, openai, anthropic).len() == 3 + (
        if config.solana_rpc_url is Some {
            1int
        } else {
            0
        }) + (if config.ai_model is Some {
            1int
        } else {
            0
        }) + (if openai is Some {
            1int
        } else {
            0
        }) + (if anthropic is Some {
            1int
        } else {
            0
        }),
{
    let pair = (name, value);
    let a = seq![("WEZTERM_SOLANA_SECRET_KEY"@, secret)];
    let b = set_if("WEZTERM_SOLANA_RPC_URL"@, config.solana_rpc_url);
    let c = seq![("WEZTERM_AI_PROVIDER"@, provider_name(config.ai_provider))];
    let d = set_if("WEZTERM_AI_MODEL"@, config.ai_model);
    let e = seq![("WEZTERM_OLLAMA_BASE_URL"@, config.ai_ollama_base_url)];
    let f = set_if("WEZTERM_OPENAI_API_KEY"@, openai);
    let g = set_if("WEZTERM_ANTHROPIC_API_KEY"@, anthropic);
    lemma_pair_in(a + b + c + d + e + f, g, pair);
    lemma_pair_in(a + b + c + d + e, f, pair);
    lemma_pair_in(a + b + c + d, e, pair);
    lemma_pair_in(a + b + c, d, pair);
    lemma_pair_in(a + b, c, pair);
    lemma_pair_in(a, b, pair);
    lemma_pair_alone(a[0], pair);
    lemma_pair_alone(c[0], pair);
    lemma_pair_alone(e[0], pair);
    lemma_pair_if("WEZTERM_SOLANA_RPC_URL"@, config.solana_rpc_url, pair);
    lemma_pair_if("WEZTERM_AI_MODEL"@, config.ai_model, pair);
    lemma_pair_if("WEZTERM_OPENAI_API_KEY"@, openai, pair);
    lemma_pair_if("WEZTERM_ANTHROPIC_API_KEY"@, anthropic, pair);
}

/// The script that was asked for is run, whatever else there is; then the one that the environment
/// names; then the default one, if it exists; and otherwise none.
pub proof fn law_script_is_the_nearest(
    asked: Option<std::path::PathBuf>,
    named: Option<std::path::PathBuf>,
    default_path: std::path::PathBuf,
    default_exists: bool,
)
    ensures
        ({
            let r = script_resolved(asked, named, default_path, default_exists);
            &&& asked is Some ==> r == asked
            &&& asked is None && named is Some ==> r == named
            &&& asked is None && named is None ==> (r is Some <==> default_exists)
            &&& asked is None && named is None && r is Some ==> r == Some(default_path)
        }),
{
}

/// A failure says what failed and, at the end, why.
pub proof fn law_wallet_failures_say_why(cause: Seq<char>)
    ensures
        wallet_error_text(WalletErrorView::Keyring(cause)) == cause,
        wallet_error_text(WalletErrorView::InvalidMnemonic(cause)) == cause,
        ends_in(wallet_error_text(WalletErrorView::MnemonicNotFound(cause)), cause),
        ends_in(wallet_error_text(WalletErrorView::WalletNotFound(cause)), cause),
        ends_in(wallet_error_text(WalletErrorView::InvalidKeypairData(cause)), cause),
{
    let a = wallet_error_text(WalletErrorView::MnemonicNotFound(cause));
    let b = wallet_error_text(WalletErrorView::WalletNotFound(cause));
    let c = wallet_error_text(WalletErrorView::InvalidKeypairData(cause));
    assert(a.skip(a.len() - cause.len()) =~= cause);
    assert(b.skip(b.len() - cause.len()) =~= cause);
    assert(c.skip(c.len() - cause.len()) =~= cause);
}

} // verus!
