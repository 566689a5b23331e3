//! The settings of the bridge and how they are read from environment variables.

use vstd::prelude::*;
use vstd::utf8::is_ascii_chars;

use crate::accounts::{AccountConfig, AccountView, Accounts};
use crate::decimal::{
    numeral, read_decimal, reading, reading_accepts_numerals, write_decimal, DecimalError,
};
use crate::letter_case::{
    ascii_lowered, ascii_uppered, is_ascii_upper, lower_case_is_ascii, lowercase,
    upper_case_comes_back, uppercase,
};
use crate::reply::{unknown_account, unknown_account_reply, Response};
use crate::text::{
    optional_text, pairs, prefix_and_rest_are_the_text, rest_and_suffix_are_the_text, same_text,
    strip_prefix, strip_suffix, without_prefix, without_suffix,
};

verus! {

/// How the HTTP interface is served.
#[derive(Debug)]
pub struct ApiConfig {
    /// The port to listen on.
    pub port: u16,
    /// The token that callers present.
    pub token: String,
}

/// The settings of the bridge.
#[derive(Debug)]
pub struct Config {
    /// How the HTTP interface is served.
    pub api: ApiConfig,
    /// The mailbox accounts.
    pub accounts: Accounts,
    /// Where new mail is announced, if anywhere.
    pub webhook_url: Option<String>,
    /// The token that is presented there.
    pub webhook_token: Option<String>,
}

/// What the settings hold.
pub ghost struct ConfigView {
    pub port: u16,
    pub token: Seq<char>,
    pub accounts: Map<Seq<char>, AccountView>,
    pub webhook_url: Option<Seq<char>>,
    pub webhook_token: Option<Seq<char>>,
}

impl View for Config {
    type V = ConfigView;

    open spec fn view(&self) -> ConfigView {
        ConfigView {
            port: self.api.port,
            token: self.api.token@,
            accounts: self.accounts@,
            webhook_url: optional_text(self.webhook_url),
            webhook_token: optional_text(self.webhook_token),
        }
    }
}

/// Why the settings could not be read.
#[derive(Debug)]
pub enum ConfigError {
    /// No token for callers is set.
    MissingToken,
    /// A port is no number of sixteen bits.
    InvalidPort(DecimalError),
    /// An account lacks the variable of this name.
    MissingVariable(String),
}

/// What a configuration error holds.
pub ghost enum ConfigErrorView {
    MissingToken,
    InvalidPort(DecimalError),
    MissingVariable(Seq<char>),
}

impl View for ConfigError {
    type V = ConfigErrorView;

    open spec fn view(&self) -> ConfigErrorView {
        match self {
            ConfigError::MissingToken => ConfigErrorView::MissingToken,
            ConfigError::InvalidPort(error) => ConfigErrorView::InvalidPort(*error),
            ConfigError::MissingVariable(name) => ConfigErrorView::MissingVariable(name@),
        }
    }
}

/// The message of a configuration error.
pub open spec fn config_error_text(error: ConfigErrorView) -> Seq<char> {
    match error {
        ConfigErrorView::MissingToken => "API_TOKEN environment variable is required"@,
        ConfigErrorView::InvalidPort(
            DecimalError::Empty,
        ) => "cannot parse integer from empty string"@,
        ConfigErrorView::InvalidPort(DecimalError::InvalidDigit) => "invalid digit found in string"@,
        ConfigErrorView::InvalidPort(
            DecimalError::TooLarge,
        ) => "number too large to fit in target type"@,
        ConfigErrorView::MissingVariable(name) => "Missing "@ + name,
    }
}

impl ConfigError {
    /// The message of this error.
    pub fn message(&self) -> (text: String)
        ensures
            text@ == config_error_text(self@),
    {
        match self {
            ConfigError::MissingToken => "API_TOKEN environment variable is required".to_string(),
            ConfigError::InvalidPort(DecimalError::Empty) => {
                "cannot parse integer from empty string".to_string()
            },
            ConfigError::InvalidPort(DecimalError::InvalidDigit) => {
                "invalid digit found in string".to_string()
            },
            ConfigError::InvalidPort(DecimalError::TooLarge) => {
                "number too large to fit in target type".to_string()
            },
            ConfigError::MissingVariable(name) => "Missing ".to_string().concat(name.as_str()),
        }
    }
}

/// The value of variable `name`: that of its first entry.
pub open spec fn variable(vars: Seq<(Seq<char>, Seq<char>)>, name: Seq<char>) -> Option<Seq<char>>
    decreases vars.len(),
{
    if vars.len() == 0 {
        None
    } else if vars[0].0 == name {
        Some(vars[0].1)
    } else {
        variable(vars.drop_first(), name)
    }
}

/// The port that a variable holds, or `default` where it is not set.
pub open spec fn port_or(value: Option<Seq<char>>, default: u16) -> Result<u16, ConfigErrorView> {
    match value {
        None => Ok(default),
        Some(text) => match reading(text, u16::MAX as nat) {
            Ok(port) => Ok(port as u16),
            Err(error) => Err(ConfigErrorView::InvalidPort(error)),
        },
    }
}

/// The part of a login variable's name that names the account.
pub open spec fn login_stem(key: Seq<char>) -> Option<Seq<char>> {
    match without_prefix(key, "ACCOUNT_"@) {
        Some(rest) => without_suffix(rest, "_LOGIN"@),
        None => None,
    }
}

/// The account that the variable `key` is the login of, if any.
pub open spec fn account_of(key: Seq<char>) -> Option<Seq<char>> {
    match login_stem(key) {
        Some(stem) => Some(lowercase(stem)),
        None => None,
    }
}

/// What the names of the variables of account `name` start with.
pub open spec fn variable_stem(name: Seq<char>) -> Seq<char> {
    "ACCOUNT_"@ + uppercase(name)
}

/// A login variable: the account, what the names of its other variables start with, and the
/// login.
#[derive(Debug)]
pub struct LoginEntry {
    /// The account.
    pub name: String,
    /// What the names of its other variables start with.
    pub stem: String,
    /// The login.
    pub login: String,
}

/// What a login variable holds.
pub ghost struct EntryView {
    pub name: Seq<char>,
    pub stem: Seq<char>,
    pub login: Seq<char>,
}

impl View for LoginEntry {
    type V = EntryView;

    open spec fn view(&self) -> EntryView {
        EntryView { name: self.name@, stem: self.stem@, login: self.login@ }
    }
}

/// What the login variables of a list hold.
pub open spec fn entry_views(list: Seq<LoginEntry>) -> Seq<EntryView> {
    Seq::new(list.len(), |i: int| list[i]@)
}

/// What a variable says as a login variable, where it is one.
pub open spec fn login_entry(name: Seq<char>, value: Seq<char>) -> Option<EntryView> {
    match account_of(name) {
        Some(account) => Some(
            EntryView { name: account, stem: variable_stem(account), login: value },
        ),
        None => None,
    }
}

/// The login variables among `vars`, in their order.
pub open spec fn login_entries(vars: Seq<(Seq<char>, Seq<char>)>) -> Seq<EntryView>
    decreases vars.len(),
{
    if vars.len() == 0 {
        Seq::empty()
    } else {
        let before = login_entries(vars.drop_last());
        match login_entry(vars.last().0, vars.last().1) {
            Some(entry) => before.push(entry),
            None => before,
        }
    }
}

/// The account whose variables start with `stem`, with login `login`.
pub open spec fn account_settings(
    vars: Seq<(Seq<char>, Seq<char>)>,
    stem: Seq<char>,
    login: Seq<char>,
) -> Result<AccountView, ConfigErrorView> {
    let imap_host = variable(vars, stem + "_IMAP_HOST"@);
    let imap_port = port_or(variable(vars, stem + "_IMAP_PORT"@), 993);
    let smtp_host = variable(vars, stem + "_SMTP_HOST"@);
    let smtp_port = port_or(variable(vars, stem + "_SMTP_PORT"@), 587);
    let password = variable(vars, stem + "_PASSWORD"@);
    if imap_host is None {
        Err(ConfigErrorView::MissingVariable(stem + "_IMAP_HOST"@))
    } else if imap_port is Err {
        Err(imap_port->Err_0)
    } else if smtp_host is None {
        Err(ConfigErrorView::MissingVariable(stem + "_SMTP_HOST"@))
    } else if smtp_port is Err {
        Err(smtp_port->Err_0)
    } else if password is None {
        Err(ConfigErrorView::MissingVariable(stem + "_PASSWORD"@))
    } else {
        Ok(
            AccountView {
                imap_host: imap_host->0,
                imap_port: imap_port->Ok_0,
                smtp_host: smtp_host->0,
                smtp_port: smtp_port->Ok_0,
                login,
                password: password->0,
            },
        )
    }
}

/// The accounts that the login variables `entries` make; of several for one account the last
/// counts. The first of them that cannot be read decides the error.
pub open spec fn accounts_from(
    vars: Seq<(Seq<char>, Seq<char>)>,
    entries: Seq<EntryView>,
) -> Result<Map<Seq<char>, AccountView>, ConfigErrorView>
    decreases entries.len(),
{
    if entries.len() == 0 {
        Ok(Map::empty())
    } else {
        let last = entries.last();
        match accounts_from(vars, entries.drop_last()) {
            Err(error) => Err(error),
            Ok(found) => match account_settings(vars, last.stem, last.login) {
                Ok(account) => Ok(found.insert(last.name, account)),
                Err(error) => Err(error),
            },
        }
    }
}

/// The settings that the variables hold, given the login variables among them. The first thing
/// that is wrong decides the error: the port, then the token, then the accounts.
pub open spec fn settings_with(
    vars: Seq<(Seq<char>, Seq<char>)>,
    entries: Seq<EntryView>,
) -> Result<ConfigView, ConfigErrorView> {
    let port = port_or(variable(vars, "API_PORT"@), 8090);
    let token = variable(vars, "API_TOKEN"@);
    let accounts = accounts_from(vars, entries);
    if port is Err {
        Err(port->Err_0)
    } else if token is None {
        Err(ConfigErrorView::MissingToken)
    } else if accounts is Err {
        Err(accounts->Err_0)
    } else {
        Ok(
            ConfigView {
                port: port->Ok_0,
                token: token->0,
                accounts: accounts->Ok_0,
                webhook_url: variable(vars, "WEBHOOK_URL"@),
                webhook_token: variable(vars, "WEBHOOK_TOKEN"@),
            },
        )
    }
}

/// The settings that the variables hold.
pub open spec fn settings(vars: Seq<(Seq<char>, Seq<char>)>) -> Result<ConfigView, ConfigErrorView> {
    settings_with(vars, login_entries(vars))
}

/// Whether the account names and variable names that come from ASCII variable names are those
/// that the ASCII letters give.
pub open spec fn ascii_names_are_plain(vars: Seq<(Seq<char>, Seq<char>)>) -> bool {
    forall|i: int|
        0 <= i < vars.len() ==> (login_stem((#[trigger] vars[i]).0) matches Some(stem)
            ==> is_ascii_chars(stem) ==> {
            &&& account_of(vars[i].0) == Some(ascii_lowered(stem))
            &&& variable_stem(ascii_lowered(stem)) == "ACCOUNT_"@ + ascii_uppered(
                ascii_lowered(stem),
            )
        })
}

/// Looks up a variable.
fn look_up(vars: &Vec<(String, String)>, name: &str) -> (value: Option<String>)
    ensures
        optional_text(value) == variable(pairs(vars@), name@),
{
    let ghost all = pairs(vars@);
    let mut i: usize = 0;
    assert(all.skip(0) == all);
    while i < vars.len()
        invariant
            i <= vars.len(),
            all == pairs(vars@),
            variable(all.skip(i as int), name@) == variable(all, name@),
        decreases vars.len() - i,
    {
        assert(all.skip(i as int)[0] == all[i as int]);
        if same_text(vars[i].0.as_str(), name) {
            return Some(vars[i].1.clone());
        }
        assert(all.skip(i as int).drop_first() == all.skip(i + 1));
        i += 1;
    }
    None
}

/// Reads a port from a variable.
fn port_from(value: Option<String>, default: u16) -> (port: Result<u16, ConfigError>)
    ensures
        match port {
            Ok(port) => port_or(optional_text(value), default) == Ok::<u16, ConfigErrorView>(port),
            Err(error) => port_or(optional_text(value), default) == Err::<u16, ConfigErrorView>(
                error@,
            ),
        },
{
    match value {
        None => Ok(default),
        Some(text) => match read_decimal(text.as_str(), u16::MAX as u64) {
            Ok(port) => Ok(port as u16),
            Err(error) => Err(ConfigError::InvalidPort(error)),
        },
    }
}

/// The account that the variable `key` is the login of: the text between `ACCOUNT_` and
/// `_LOGIN`, in lower case.
pub fn account_name(key: &str) -> (name: Option<String>)
    ensures
        optional_text(name) == account_of(key@),
        login_stem(key@) matches Some(stem) ==> is_ascii_chars(stem) ==> optional_text(name) == Some(
            ascii_lowered(stem),
        ),
{
    match strip_prefix(key, "ACCOUNT_") {
        None => None,
        Some(rest) => match strip_suffix(rest, "_LOGIN") {
            None => None,
            Some(stem) => Some(stem.to_lowercase()),
        },
    }
}

/// What the names of the variables of account `name` start with.
pub fn variable_prefix(name: &str) -> (stem: String)
    ensures
        stem@ == variable_stem(name@),
        is_ascii_chars(name@) ==> stem@ == "ACCOUNT_"@ + ascii_uppered(name@),
{
    "ACCOUNT_".to_string().concat(name.to_uppercase().as_str())
}

/// Reads the account whose variables start with `stem`.
pub fn load_account(vars: &Vec<(String, String)>, stem: &str, login: &str) -> (account: Result<
    AccountConfig,
    ConfigError,
>)
    ensures
        match account {
            Ok(account) => account_settings(pairs(vars@), stem@, login@) == Ok::<
                AccountView,
                ConfigErrorView,
            >(account@),
            Err(error) => account_settings(pairs(vars@), stem@, login@) == Err::<
                AccountView,
                ConfigErrorView,
            >(error@),
        },
{
    let host_name: String = stem.to_string().concat("_IMAP_HOST");
    let imap_host = match look_up(vars, host_name.as_str()) {
        Some(host) => host,
        None => return Err(ConfigError::MissingVariable(host_name)),
    };
    let imap_port: u16 = match port_from(
        look_up(vars, stem.to_string().concat("_IMAP_PORT").as_str()),
        993,
    ) {
        Ok(port) => port,
        Err(error) => return Err(error),
    };

    let host_name: String = stem.to_string().concat("_SMTP_HOST");
    let smtp_host = match look_up(vars, host_name.as_str()) {
        Some(host) => host,
        None => return Err(ConfigError::MissingVariable(host_name)),
    };
    let smtp_port: u16 = match port_from(
        look_up(vars, stem.to_string().concat("_SMTP_PORT").as_str()),
        587,
    ) {
        Ok(port) => port,
        Err(error) => return Err(error),
    };

    let password_name: String = stem.to_string().concat("_PASSWORD");
    let password = match look_up(vars, password_name.as_str()) {
        Some(password) => password,
        None => return Err(ConfigError::MissingVariable(password_name)),
    };

    Ok(
        AccountConfig {
            imap_host,
            imap_port,
            smtp_host,
            smtp_port,
            login: login.to_string(),
            password,
        },
    )
}

/// Finds the login variables.
pub fn find_logins(vars: &Vec<(String, String)>) -> (entries: Vec<LoginEntry>)
    ensures
        entry_views(entries@) == login_entries(pairs(vars@)),
        ascii_names_are_plain(pairs(vars@)),
{
    let ghost all = pairs(vars@);
    let mut entries: Vec<LoginEntry> = Vec::new();
    let mut i: usize = 0;
    while i < vars.len()
        invariant
            i <= vars.len(),
            all == pairs(vars@),
            entry_views(entries@) == login_entries(all.take(i as int)),
            ascii_names_are_plain(all.take(i as int)),
        decreases vars.len() - i,
    {
        let ghost now = all.take(i + 1);
        assert(now.drop_last() == all.take(i as int));
        assert(now.last() == (vars@[i as int].0@, vars@[i as int].1@));
        let ghost before = entry_views(entries@);
        if let Some(name) = account_name(vars[i].0.as_str()) {
            let stem: String = variable_prefix(name.as_str());
            let entry = LoginEntry { name, stem, login: vars[i].1.clone() };
            let ghost last = entry@;
            entries.push(entry);
            proof {
                assert(entry_views(entries@) =~= before.push(last));
                let written = login_stem(now.last().0)->0;
                if is_ascii_chars(written) {
                    lower_case_is_ascii(written);
                }
            }
        }
        proof {
            assert forall|j: int| 0 <= j < now.len() implies (login_stem(
                (#[trigger] now[j]).0,
            ) matches Some(stem) ==> is_ascii_chars(stem) ==> {
                &&& account_of(now[j].0) == Some(ascii_lowered(stem))
                &&& variable_stem(ascii_lowered(stem)) == "ACCOUNT_"@ + ascii_uppered(
                    ascii_lowered(stem),
                )
            }) by {
                if j < i {
                    assert(all.take(i as int)[j] == now[j]);
                }
            }
        }
        i += 1;
    }
    assert(all.take(all.len() as int) == all);
    entries
}

/// Reads the settings from the environment variables `vars`, given the login variables among
/// them.
pub fn load_with(vars: &Vec<(String, String)>, entries: &Vec<LoginEntry>) -> (config: Result<
    Config,
    ConfigError,
>)
    ensures
        match config {
            Ok(config) => settings_with(pairs(vars@), entry_views(entries@)) == Ok::<
                ConfigView,
                ConfigErrorView,
            >(config@),
            Err(error) => settings_with(pairs(vars@), entry_views(entries@)) == Err::<
                ConfigView,
                ConfigErrorView,
            >(error@),
        },
{
    let ghost all = pairs(vars@);
    let ghost logins = entry_views(entries@);
    let port: u16 = match port_from(look_up(vars, "API_PORT"), 8090) {
        Ok(port) => port,
        Err(error) => return Err(error),
    };
    let token = match look_up(vars, "API_TOKEN") {
        Some(token) => token,
        None => return Err(ConfigError::MissingToken),
    };
    let webhook_url = look_up(vars, "WEBHOOK_URL");
    let webhook_token = look_up(vars, "WEBHOOK_TOKEN");

    let mut accounts = Accounts::new();
    let mut i: usize = 0;
    while i < entries.len()
        invariant
            i <= entries.len(),
            all == pairs(vars@),
            logins == entry_views(entries@),
            accounts_from(all, logins.take(i as int)) == Ok::<
                Map<Seq<char>, AccountView>,
                ConfigErrorView,
            >(accounts@),
            port_or(variable(all, "API_PORT"@), 8090) is Ok,
            variable(all, "API_TOKEN"@) is Some,
        decreases entries.len() - i,
    {
        assert(logins.take(i + 1).drop_last() == logins.take(i as int));
        assert(logins.take(i + 1).last() == entries@[i as int]@);
        match load_account(vars, entries[i].stem.as_str(), entries[i].login.as_str()) {
            Ok(account) => accounts.insert(entries[i].name.clone(), account),
            Err(error) => {
                proof {
                    first_error_stays(all, logins, i + 1);
                }
                return Err(error);
            },
        }
        i += 1;
    }
    assert(logins.take(logins.len() as int) == logins);

    Ok(Config { api: ApiConfig { port, token }, accounts, webhook_url, webhook_token })
}

proof fn first_error_stays(vars: Seq<(Seq<char>, Seq<char>)>, entries: Seq<EntryView>, k: int)
    requires
        0 <= k <= entries.len(),
        accounts_from(vars, entries.take(k)) is Err,
    ensures
        accounts_from(vars, entries) == accounts_from(vars, entries.take(k)),
    decreases entries.len() - k,
{
    if k < entries.len() {
        assert(entries.take(k + 1).drop_last() == entries.take(k));
        first_error_stays(vars, entries, k + 1);
    } else {
        assert(entries.take(k) == entries);
    }
}

/// Reads the settings from the environment variables `vars`.
///
/// `API_PORT` (8090 where it is not set), `API_TOKEN` (required), `WEBHOOK_URL` and
/// `WEBHOOK_TOKEN` (optional) are read once. Each variable `ACCOUNT_<NAME>_LOGIN` makes an
/// account, which also has `ACCOUNT_<NAME>_IMAP_HOST`, `_IMAP_PORT` (993), `_SMTP_HOST`,
/// `_SMTP_PORT` (587) and `_PASSWORD`. Where `<NAME>` is written in upper case ASCII, the account
/// is called by it in lower case, and its variables are those with `<NAME>` as it stands.
pub fn load_config(vars: &Vec<(String, String)>) -> (config: Result<Config, ConfigError>)
    ensures
        match config {
            Ok(config) => settings(pairs(vars@)) == Ok::<ConfigView, ConfigErrorView>(config@),
            Err(error) => settings(pairs(vars@)) == Err::<ConfigView, ConfigErrorView>(error@),
        },
        ascii_names_are_plain(pairs(vars@)),
        config matches Ok(config) ==> forall|i: int|
            0 <= i < vars@.len() ==> (login_stem((#[trigger] pairs(vars@)[i]).0) matches Some(stem)
                ==> is_ascii_upper(stem) ==> {
                &&& config@.accounts.contains_key(ascii_lowered(stem))
                &&& variable_stem(ascii_lowered(stem)) == "ACCOUNT_"@ + stem
            }),
{
    let entries: Vec<LoginEntry> = find_logins(vars);
    let config = load_with(vars, &entries);
    proof {
        let all = pairs(vars@);
        let logins = login_entries(all);
        if config is Ok {
            assert forall|i: int| 0 <= i < all.len() implies (login_stem(
                (#[trigger] all[i]).0,
            ) matches Some(stem) ==> is_ascii_upper(stem) ==> {
                &&& config->Ok_0@.accounts.contains_key(ascii_lowered(stem))
                &&& variable_stem(ascii_lowered(stem)) == "ACCOUNT_"@ + stem
            }) by {
                if login_stem(all[i].0) is Some && is_ascii_upper(login_stem(all[i].0)->0) {
                    let stem = login_stem(all[i].0)->0;
                    let entry = login_entry(all[i].0, all[i].1)->0;
                    upper_case_comes_back(stem);
                    entries_come_from_variables(all);
                    assert(logins.contains(entry));
                    let k = choose|k: int| 0 <= k < logins.len() && logins[k] == entry;
                    accounts_come_from_login_variables(all, logins, ascii_lowered(stem));
                    assert(logins[k].name == ascii_lowered(stem));
                }
            }
        }
    }
    config
}

/// Finds an account, or answers that it is not configured.
pub fn get_account<'a>(cfg: &'a Config, name: &str) -> (account: Result<
    &'a AccountConfig,
    Response,
>)
    ensures
        match account {
            Ok(account) => cfg@.accounts.contains_key(name@) && cfg@.accounts[name@] == account@,
            Err(response) => !cfg@.accounts.contains_key(name@) && response@
                == unknown_account_reply(name@),
        },
{
    match cfg.accounts.get(name) {
        Some(account) => Ok(account),
        None => Err(unknown_account(name)),
    }
}

/// The address that the HTTP interface listens on: every interface of the machine, at the
/// configured port.
pub fn listen_address(cfg: &Config) -> (address: String)
    ensures
        address@ == "0.0.0.0:"@ + numeral(cfg@.port as nat),
{
    "0.0.0.0:".to_string().concat(write_decimal(cfg.api.port as u64).as_str())
}

/// The login variables that are found are those among the variables: each comes from one, and
/// none is left out.
pub proof fn entries_come_from_variables(vars: Seq<(Seq<char>, Seq<char>)>)
    ensures
        forall|entry: EntryView| #[trigger]
            login_entries(vars).contains(entry) <==> exists|i: int|
                0 <= i < vars.len() && login_entry((#[trigger] vars[i]).0, vars[i].1) == Some(
                    entry,
                ),
    decreases vars.len(),
{
    if vars.len() > 0 {
        let init = vars.drop_last();
        entries_come_from_variables(init);
        let now = login_entries(vars);
        let before = login_entries(init);
        assert forall|entry: EntryView| #[trigger]
            now.contains(entry) <==> exists|i: int|
                0 <= i < vars.len() && login_entry((#[trigger] vars[i]).0, vars[i].1) == Some(
                    entry,
                ) by {
            if now.contains(entry) {
                let j = choose|j: int| 0 <= j < now.len() && now[j] == entry;
                if j < before.len() {
                    assert(before[j] == entry);
                    assert(before.contains(entry));
                    let i = choose|i: int|
                        0 <= i < init.len() && login_entry((#[trigger] init[i]).0, init[i].1)
                            == Some(entry);
                    assert(vars[i] == init[i]);
                } else {
                    assert(login_entry(vars[vars.len() - 1].0, vars[vars.len() - 1].1) == Some(
                        entry,
                    ));
                }
            }
            if exists|i: int|
                0 <= i < vars.len() && login_entry((#[trigger] vars[i]).0, vars[i].1) == Some(
                    entry,
                ) {
                let i = choose|i: int|
                    0 <= i < vars.len() && login_entry((#[trigger] vars[i]).0, vars[i].1) == Some(
                        entry,
                    );
                if i < init.len() {
                    assert(init[i] == vars[i]);
                    assert(before.contains(entry));
                    let j = choose|j: int| 0 <= j < before.len() && before[j] == entry;
                    assert(now[j] == entry);
                } else {
                    assert(now[now.len() - 1] == entry);
                }
            }
        }
    }
}

proof fn accounts_grow(vars: Seq<(Seq<char>, Seq<char>)>, entries: Seq<EntryView>)
    requires
        accounts_from(vars, entries) is Ok,
        entries.len() > 0,
    ensures
        accounts_from(vars, entries.drop_last()) is Ok,
        account_settings(vars, entries.last().stem, entries.last().login) is Ok,
        accounts_from(vars, entries)->Ok_0 == accounts_from(vars, entries.drop_last())->Ok_0.insert(
            entries.last().name,
            account_settings(vars, entries.last().stem, entries.last().login)->Ok_0,
        ),
{
}

proof fn accounts_are_named(
    vars: Seq<(Seq<char>, Seq<char>)>,
    entries: Seq<EntryView>,
    name: Seq<char>,
)
    requires
        accounts_from(vars, entries) is Ok,
    ensures
        accounts_from(vars, entries)->Ok_0.contains_key(name) <==> exists|i: int|
            0 <= i < entries.len() && (#[trigger] entries[i]).name == name,
    decreases entries.len(),
{
    if entries.len() > 0 {
        let init = entries.drop_last();
        accounts_grow(vars, entries);
        accounts_are_named(vars, init, name);
        assert(entries.last() == entries[entries.len() - 1]);
        if accounts_from(vars, init)->Ok_0.contains_key(name) {
            let i = choose|i: int| 0 <= i < init.len() && (#[trigger] init[i]).name == name;
            assert(entries[i].name == name);
        }
        if exists|i: int| 0 <= i < entries.len() && (#[trigger] entries[i]).name == name {
            let i = choose|i: int| 0 <= i < entries.len() && (#[trigger] entries[i]).name == name;
            if i < init.len() {
                assert(init[i].name == name);
            }
        }
    }
}

proof fn last_entry_counts(
    vars: Seq<(Seq<char>, Seq<char>)>,
    entries: Seq<EntryView>,
    i: int,
)
    requires
        accounts_from(vars, entries) is Ok,
        0 <= i < entries.len(),
        forall|j: int| i < j < entries.len() ==> (#[trigger] entries[j]).name != entries[i].name,
    ensures
        account_settings(vars, entries[i].stem, entries[i].login) == Ok::<
            AccountView,
            ConfigErrorView,
        >(accounts_from(vars, entries)->Ok_0[entries[i].name]),
    decreases entries.len(),
{
    let init = entries.drop_last();
    accounts_grow(vars, entries);
    assert(entries.last() == entries[entries.len() - 1]);
    if i < init.len() {
        assert(init[i] == entries[i]);
        last_entry_counts(vars, init, i);
    }
}

/// The accounts are those of the login variables: where all of them can be read, an account is
/// there exactly where some login variable names it, and it holds the settings that belong to
/// the last such variable.
pub proof fn accounts_come_from_login_variables(
    vars: Seq<(Seq<char>, Seq<char>)>,
    entries: Seq<EntryView>,
    name: Seq<char>,
)
    requires
        accounts_from(vars, entries) is Ok,
    ensures
        ({
            let found = accounts_from(vars, entries)->Ok_0;
            &&& found.contains_key(name) <==> exists|i: int|
                0 <= i < entries.len() && (#[trigger] entries[i]).name == name
            &&& forall|i: int|
                0 <= i < entries.len() && (#[trigger] entries[i]).name == name && (forall|j: int|
                    i < j < entries.len() ==> (#[trigger] entries[j]).name != name)
                    ==> account_settings(vars, entries[i].stem, entries[i].login) == Ok::<
                    AccountView,
                    ConfigErrorView,
                >(found[name])
        }),
{
    accounts_are_named(vars, entries, name);
    let found = accounts_from(vars, entries)->Ok_0;
    assert forall|i: int|
        0 <= i < entries.len() && (#[trigger] entries[i]).name == name && (forall|j: int|
            i < j < entries.len() ==> (#[trigger] entries[j]).name != name) implies account_settings(
        vars,
        entries[i].stem,
        entries[i].login,
    ) == Ok::<AccountView, ConfigErrorView>(found[name]) by {
        last_entry_counts(vars, entries, i);
    }
}

/// The settings, the login variables and the errors are what their fields hold.
pub proof fn settings_show_their_fields(
    config: Config,
    entry: LoginEntry,
    entries: Seq<LoginEntry>,
    error: ConfigError,
)
    ensures
        config@.port == config.api.port,
        config@.token == config.api.token@,
        config@.accounts == config.accounts@,
        config@.webhook_url == optional_text(config.webhook_url),
        config@.webhook_token == optional_text(config.webhook_token),
        entry@.name == entry.name@,
        entry@.stem == entry.stem@,
        entry@.login == entry.login@,
        entry_views(entries).len() == entries.len(),
        forall|i: int| 0 <= i < entries.len() ==> #[trigger] entry_views(entries)[i] == entries[i]@,
        error is MissingToken <==> error@ is MissingToken,
        error matches ConfigError::InvalidPort(reason) ==> error@ == ConfigErrorView::InvalidPort(
            reason,
        ),
        error matches ConfigError::MissingVariable(name) ==> error@
            == ConfigErrorView::MissingVariable(name@),
{
}

/// Each error says what is wrong with the settings, and with which variable.
pub proof fn errors_say_what_is_wrong(name: Seq<char>)
    ensures
        config_error_text(ConfigErrorView::MissingToken)
            == "API_TOKEN environment variable is required"@,
        config_error_text(ConfigErrorView::MissingVariable(name)) == "Missing "@ + name,
        config_error_text(ConfigErrorView::InvalidPort(DecimalError::Empty))
            == "cannot parse integer from empty string"@,
        config_error_text(ConfigErrorView::InvalidPort(DecimalError::InvalidDigit))
            == "invalid digit found in string"@,
        config_error_text(ConfigErrorView::InvalidPort(DecimalError::TooLarge))
            == "number too large to fit in target type"@,
{
}

/// A variable has the value of the first entry of its name, whatever that value is; it has none
/// exactly where no entry has its name.
pub proof fn the_first_entry_of_a_name_counts(
    vars: Seq<(Seq<char>, Seq<char>)>,
    name: Seq<char>,
    i: int,
)
    ensures
        0 <= i < vars.len() && vars[i].0 == name && (forall|j: int|
            0 <= j < i ==> (#[trigger] vars[j]).0 != name) ==> variable(vars, name) == Some(
            vars[i].1,
        ),
        (forall|j: int| 0 <= j < vars.len() ==> (#[trigger] vars[j]).0 != name) <==> variable(
            vars,
            name,
        ) is None,
    decreases vars.len(),
{
    if vars.len() > 0 {
        let rest = vars.drop_first();
        the_first_entry_of_a_name_counts(rest, name, i - 1);
        if vars[0].0 != name {
            if 0 <= i < vars.len() && vars[i].0 == name && (forall|j: int|
                0 <= j < i ==> (#[trigger] vars[j]).0 != name) {
                assert(rest[i - 1] == vars[i]);
                assert forall|j: int| 0 <= j < i - 1 implies (#[trigger] rest[j]).0 != name by {
                    assert(vars[j + 1].0 != name);
                }
            }
            if forall|j: int| 0 <= j < vars.len() ==> (#[trigger] vars[j]).0 != name {
                assert forall|j: int| 0 <= j < rest.len() implies (#[trigger] rest[j]).0 != name by {
                    assert(vars[j + 1].0 != name);
                }
            }
            if forall|j: int| 0 <= j < rest.len() ==> (#[trigger] rest[j]).0 != name {
                assert forall|j: int| 0 <= j < vars.len() implies (#[trigger] vars[j]).0 != name by {
                    if j > 0 {
                        assert(rest[j - 1].0 != name);
                    }
                }
            }
        }
    }
}

/// A port is the number that its variable holds, where that is one of 16 bits, and an error where
/// it is none; a port that is not set is the default.
pub proof fn ports_are_what_their_variables_say(text: Seq<char>, default: u16)
    ensures
        port_or(None, default) == Ok::<u16, ConfigErrorView>(default),
        reading(text, 65535) matches Ok(n) ==> port_or(Some(text), default) is Ok && port_or(
            Some(text),
            default,
        )->Ok_0 == n,
        reading(text, 65535) matches Err(error) ==> port_or(Some(text), default) == Err::<
            u16,
            ConfigErrorView,
        >(ConfigErrorView::InvalidPort(error)),
{
    reading_accepts_numerals(text, 65535);
}

/// A variable is a login variable exactly where its name is `ACCOUNT_`, some text and `_LOGIN`.
/// That text in lower case is the account; the names of its other variables start with `ACCOUNT_`
/// and the account in upper case.
pub proof fn login_variables_name_their_account(
    key: Seq<char>,
    stem: Seq<char>,
    value: Seq<char>,
)
    ensures
        login_stem(key) == Some(stem) <==> key == "ACCOUNT_"@ + stem + "_LOGIN"@,
        key == "ACCOUNT_"@ + stem + "_LOGIN"@ ==> {
            &&& account_of(key) == Some(lowercase(stem))
            &&& login_entry(key, value) == Some(
                EntryView {
                    name: lowercase(stem),
                    stem: "ACCOUNT_"@ + uppercase(lowercase(stem)),
                    login: value,
                },
            )
        },
        account_of(key) is None <==> login_stem(key) is None,
        login_entry(key, value) is None <==> login_stem(key) is None,
        variable_stem(stem) == "ACCOUNT_"@ + uppercase(stem),
{
    let rest = stem + "_LOGIN"@;
    assert("ACCOUNT_"@ + stem + "_LOGIN"@ =~= "ACCOUNT_"@ + rest);
    if key == "ACCOUNT_"@ + rest {
        prefix_and_rest_are_the_text(key, "ACCOUNT_"@, rest);
        rest_and_suffix_are_the_text(rest, stem, "_LOGIN"@);
    }
    if login_stem(key) == Some(stem) {
        let behind = without_prefix(key, "ACCOUNT_"@)->0;
        prefix_and_rest_are_the_text(key, "ACCOUNT_"@, behind);
        rest_and_suffix_are_the_text(behind, stem, "_LOGIN"@);
        assert(behind == rest);
    }
}

/// The login variables of two lists, one behind the other, are those of the first and then those
/// of the second; one variable alone is a login variable or not.
pub proof fn login_variables_keep_their_order(
    one: Seq<(Seq<char>, Seq<char>)>,
    other: Seq<(Seq<char>, Seq<char>)>,
    name: Seq<char>,
    value: Seq<char>,
)
    ensures
        login_entries(one + other) == login_entries(one) + login_entries(other),
        login_entry(name, value) matches Some(entry) ==> login_entries(seq![(name, value)])
            == seq![entry],
        login_entry(name, value) is None ==> login_entries(seq![(name, value)]).len() == 0,
    decreases other.len(),
{
    reveal_with_fuel(login_entries, 2);
    let single = seq![(name, value)];
    assert(single.drop_last() =~= Seq::<(Seq<char>, Seq<char>)>::empty());
    if login_entry(name, value) is Some {
        assert(login_entries(single) =~= seq![login_entry(name, value)->0]);
    }
    if other.len() == 0 {
        assert(one + other =~= one);
        assert(login_entries(one) + login_entries(other) =~= login_entries(one));
    } else {
        login_variables_keep_their_order(one, other.drop_last(), name, value);
        assert((one + other).drop_last() =~= one + other.drop_last());
        assert((one + other).last() == other.last());
        assert(login_entries(one + other) =~= login_entries(one) + login_entries(other));
    }
}

/// An account has the hosts, ports and password that its own variables hold, whatever they are,
/// 993 and 587 being the ports where none are set, and the login that was found. There is an
/// account exactly where both hosts and the password are set and the ports that are set are
/// numbers of 16 bits.
pub proof fn accounts_have_what_their_variables_hold(
    vars: Seq<(Seq<char>, Seq<char>)>,
    stem: Seq<char>,
    login: Seq<char>,
)
    ensures
        ({
            let imap_port = variable(vars, stem + "_IMAP_PORT"@);
            let smtp_port = variable(vars, stem + "_SMTP_PORT"@);
            &&& account_settings(vars, stem, login) is Ok <==> {
                &&& variable(vars, stem + "_IMAP_HOST"@) is Some
                &&& variable(vars, stem + "_SMTP_HOST"@) is Some
                &&& variable(vars, stem + "_PASSWORD"@) is Some
                &&& imap_port matches Some(text) ==> reading(text, 65535) is Ok
                &&& smtp_port matches Some(text) ==> reading(text, 65535) is Ok
            }
            &&& account_settings(vars, stem, login) matches Ok(account) ==> {
                &&& Some(account.imap_host) == variable(vars, stem + "_IMAP_HOST"@)
                &&& Some(account.smtp_host) == variable(vars, stem + "_SMTP_HOST"@)
                &&& Some(account.password) == variable(vars, stem + "_PASSWORD"@)
                &&& account.login == login
                &&& imap_port is None ==> account.imap_port == 993
                &&& imap_port matches Some(text) ==> account.imap_port as nat == reading(
                    text,
                    65535,
                )->Ok_0
                &&& smtp_port is None ==> account.smtp_port == 587
                &&& smtp_port matches Some(text) ==> account.smtp_port as nat == reading(
                    text,
                    65535,
                )->Ok_0
            }
        }),
{
    if let Some(text) = variable(vars, stem + "_IMAP_PORT"@) {
        ports_are_what_their_variables_say(text, 993);
    }
    if let Some(text) = variable(vars, stem + "_SMTP_PORT"@) {
        ports_are_what_their_variables_say(text, 587);
    }
}

/// What keeps an account from being read is the first fault among its variables, in the order
/// IMAP host, IMAP port, SMTP host, SMTP port, password: the name of the one that is missing, or
/// what is wrong with the port.
pub proof fn the_first_fault_of_an_account_is_reported(
    vars: Seq<(Seq<char>, Seq<char>)>,
    stem: Seq<char>,
    login: Seq<char>,
)
    ensures
        ({
            let imap_host = variable(vars, stem + "_IMAP_HOST"@);
            let imap_port = variable(vars, stem + "_IMAP_PORT"@);
            let smtp_host = variable(vars, stem + "_SMTP_HOST"@);
            let smtp_port = variable(vars, stem + "_SMTP_PORT"@);
            let password = variable(vars, stem + "_PASSWORD"@);
            let imap_port_is_good = imap_port matches Some(text) ==> reading(text, 65535) is Ok;
            let smtp_port_is_good = smtp_port matches Some(text) ==> reading(text, 65535) is Ok;
            let read = account_settings(vars, stem, login);
            &&& imap_host is None ==> read == Err::<AccountView, ConfigErrorView>(
                ConfigErrorView::MissingVariable(stem + "_IMAP_HOST"@),
            )
            &&& imap_host is Some && !imap_port_is_good ==> read == Err::<
                AccountView,
                ConfigErrorView,
            >(ConfigErrorView::InvalidPort(reading(imap_port->0, 65535)->Err_0))
            &&& imap_host is Some && imap_port_is_good && smtp_host is None ==> read == Err::<
                AccountView,
                ConfigErrorView,
            >(ConfigErrorView::MissingVariable(stem + "_SMTP_HOST"@))
            &&& imap_host is Some && imap_port_is_good && smtp_host is Some && !smtp_port_is_good
                ==> read == Err::<AccountView, ConfigErrorView>(
                ConfigErrorView::InvalidPort(reading(smtp_port->0, 65535)->Err_0),
            )
            &&& imap_host is Some && imap_port_is_good && smtp_host is Some && smtp_port_is_good
                && password is None ==> read == Err::<AccountView, ConfigErrorView>(
                ConfigErrorView::MissingVariable(stem + "_PASSWORD"@),
            )
        }),
{
    if let Some(text) = variable(vars, stem + "_IMAP_PORT"@) {
        ports_are_what_their_variables_say(text, 993);
    }
    if let Some(text) = variable(vars, stem + "_SMTP_PORT"@) {
        ports_are_what_their_variables_say(text, 587);
    }
}

/// The accounts can be read exactly where each of them can; otherwise the first that cannot, in
/// the order of the login variables, gives the error.
pub proof fn the_first_faulty_account_is_reported(
    vars: Seq<(Seq<char>, Seq<char>)>,
    entries: Seq<EntryView>,
    k: int,
)
    requires
        0 <= k <= entries.len(),
        forall|i: int|
            0 <= i < k ==> account_settings(
                vars,
                (#[trigger] entries[i]).stem,
                entries[i].login,
            ) is Ok,
    ensures
        k == entries.len() ==> accounts_from(vars, entries) is Ok,
        k < entries.len() && account_settings(vars, entries[k].stem, entries[k].login) is Err
            ==> accounts_from(vars, entries) is Err && accounts_from(vars, entries)->Err_0
            == account_settings(vars, entries[k].stem, entries[k].login)->Err_0,
    decreases entries.len(),
{
    if entries.len() > 0 {
        let init = entries.drop_last();
        assert(forall|i: int| 0 <= i < init.len() ==> init[i] == entries[i]);
        assert(entries.last() == entries[entries.len() - 1]);
        if k < entries.len() {
            the_first_faulty_account_is_reported(vars, init, k);
        } else {
            the_first_faulty_account_is_reported(vars, init, k - 1);
        }
    }
}

/// The settings hold the port that `API_PORT` gives, 8090 where it is not set, the token in
/// `API_TOKEN`, the accounts of the login variables, and the webhook's address and token where
/// `WEBHOOK_URL` and `WEBHOOK_TOKEN` are set.
pub proof fn settings_hold_what_the_variables_hold(
    vars: Seq<(Seq<char>, Seq<char>)>,
    entries: Seq<EntryView>,
)
    ensures
        settings(vars) == settings_with(vars, login_entries(vars)),
        ({
            let port = variable(vars, "API_PORT"@);
            let token = variable(vars, "API_TOKEN"@);
            let port_is_good = port matches Some(text) ==> reading(text, 65535) is Ok;
            let read = settings_with(vars, entries);
            &&& !port_is_good ==> read == Err::<ConfigView, ConfigErrorView>(
                ConfigErrorView::InvalidPort(reading(port->0, 65535)->Err_0),
            )
            &&& port_is_good && token is None ==> read == Err::<ConfigView, ConfigErrorView>(
                ConfigErrorView::MissingToken,
            )
            &&& port_is_good && token is Some ==> (read is Ok <==> accounts_from(
                vars,
                entries,
            ) is Ok)
            &&& port_is_good && token is Some && accounts_from(vars, entries) is Err ==> read
                == Err::<ConfigView, ConfigErrorView>(accounts_from(vars, entries)->Err_0)
            &&& read matches Ok(config) ==> {
                &&& port is None ==> config.port == 8090
                &&& port matches Some(text) ==> config.port as nat == reading(text, 65535)->Ok_0
                &&& Some(config.token) == token
                &&& config.webhook_url == variable(vars, "WEBHOOK_URL"@)
                &&& config.webhook_token == variable(vars, "WEBHOOK_TOKEN"@)
                &&& accounts_from(vars, entries) == Ok::<
                    Map<Seq<char>, AccountView>,
                    ConfigErrorView,
                >(config.accounts)
            }
        }),
{
    if let Some(text) = variable(vars, "API_PORT"@) {
        ports_are_what_their_variables_say(text, 8090);
    }
}

} // verus!
