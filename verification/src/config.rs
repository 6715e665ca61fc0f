//! The settings of the service and how they are read from named values.

use crate::shared::decimal::{char_at, digit_of, digit_value};
use vstd::prelude::*;
use vstd::string::{StrSliceExecFns, StringExecFns};

verus! {

/// Where the service listens.
#[derive(Debug, Clone)]
pub struct App {
    pub host: String,
    pub port: u16,
    pub env: String,
}

/// How the store is reached.
#[derive(Debug, Clone)]
pub struct Database {
    pub host: String,
    pub port: u16,
    pub user: String,
    pub password: String,
    pub db_name: String,
    pub max_connections: u32,
    pub connect_timeout_secs: u64,
}

/// The settings of the service.
#[derive(Debug, Clone)]
pub struct AppConfig {
    pub app: App,
    pub database: Database,
}

/// Why the settings could not be read.
#[derive(Debug)]
pub enum ConfigError {
    /// The value with this name is not set.
    MissingVar(String),
    /// This text stands where a number in range was expected.
    InvalidValue(String),
}

/// [`App`] as text.
pub struct AppModel {
    pub host: Seq<char>,
    pub port: u16,
    pub env: Seq<char>,
}

/// [`Database`] as text.
pub struct DatabaseModel {
    pub host: Seq<char>,
    pub port: u16,
    pub user: Seq<char>,
    pub password: Seq<char>,
    pub db_name: Seq<char>,
    pub max_connections: u32,
    pub connect_timeout_secs: u64,
}

/// [`AppConfig`] as text.
pub struct AppConfigModel {
    pub app: AppModel,
    pub database: DatabaseModel,
}

/// [`ConfigError`] as text.
pub enum ConfigErrorModel {
    MissingVar(Seq<char>),
    InvalidValue(Seq<char>),
}

impl View for App {
    type V = AppModel;

    open spec fn view(&self) -> AppModel {
        AppModel { host: self.host@, port: self.port, env: self.env@ }
    }
}

impl View for Database {
    type V = DatabaseModel;

    open spec fn view(&self) -> DatabaseModel {
        DatabaseModel {
            host: self.host@,
            port: self.port,
            user: self.user@,
            password: self.password@,
            db_name: self.db_name@,
            max_connections: self.max_connections,
            connect_timeout_secs: self.connect_timeout_secs,
        }
    }
}

impl View for AppConfig {
    type V = AppConfigModel;

    open spec fn view(&self) -> AppConfigModel {
        AppConfigModel { app: self.app@, database: self.database@ }
    }
}

impl View for ConfigError {
    type V = ConfigErrorModel;

    open spec fn view(&self) -> ConfigErrorModel {
        match self {
            ConfigError::MissingVar(name) => ConfigErrorModel::MissingVar(name@),
            ConfigError::InvalidValue(text) => ConfigErrorModel::InvalidValue(text@),
        }
    }
}

/// The character of a decimal digit.
pub open spec fn digit_char(d: nat) -> char {
    if d == 0 {
        '0'
    } else if d == 1 {
        '1'
    } else if d == 2 {
        '2'
    } else if d == 3 {
        '3'
    } else if d == 4 {
        '4'
    } else if d == 5 {
        '5'
    } else if d == 6 {
        '6'
    } else if d == 7 {
        '7'
    } else if d == 8 {
        '8'
    } else {
        '9'
    }
}

/// A number written in decimal, without sign or leading zeros.
pub open spec fn decimal_text(n: nat) -> Seq<char>
    decreases n,
{
    if n < 10 {
        seq![digit_char(n)]
    } else {
        decimal_text(n / 10).push(digit_char(n % 10))
    }
}

fn digit_text(d: u64) -> (text: &'static str)
    requires
        d < 10,
    ensures
        text@ == seq![digit_char(d as nat)],
{
    proof {
        reveal_strlit("0");
        reveal_strlit("1");
        reveal_strlit("2");
        reveal_strlit("3");
        reveal_strlit("4");
        reveal_strlit("5");
        reveal_strlit("6");
        reveal_strlit("7");
        reveal_strlit("8");
        reveal_strlit("9");
    }
    let text = if d == 0 {
        "0"
    } else if d == 1 {
        "1"
    } else if d == 2 {
        "2"
    } else if d == 3 {
        "3"
    } else if d == 4 {
        "4"
    } else if d == 5 {
        "5"
    } else if d == 6 {
        "6"
    } else if d == 7 {
        "7"
    } else if d == 8 {
        "8"
    } else {
        "9"
    };
    assert(text@ =~= seq![digit_char(d as nat)]);
    text
}

/// Writes a number in decimal at the end of a text.
pub fn append_decimal(out: &mut String, n: u64)
    ensures
        final(out)@ == old(out)@ + decimal_text(n as nat),
    decreases n,
{
    if n >= 10 {
        append_decimal(out, n / 10);
    }
    out.append(digit_text(n % 10));
    assert(out@ =~= old(out)@ + decimal_text(n as nat));
}

/// The address of the store: scheme, user, password, host, port and the
/// name of the database.
pub open spec fn connection_text(d: DatabaseModel) -> Seq<char> {
    "postgres://"@ + d.user + ":"@ + d.password + "@"@ + d.host + ":"@ + decimal_text(
        d.port as nat,
    ) + "/"@ + d.db_name
}

impl Database {
    pub fn connection_string(&self) -> (url: String)
        ensures
            url@ == connection_text(self@),
    {
        let mut url = "postgres://".to_owned();
        url.append(self.user.as_str());
        url.append(":");
        url.append(self.password.as_str());
        url.append("@");
        url.append(self.host.as_str());
        url.append(":");
        append_decimal(&mut url, self.port as u64);
        url.append("/");
        url.append(self.db_name.as_str());
        url
    }
}

/// The number that a text of decimal digits stands for; none for the empty
/// text and for one that holds anything but the digits 0 to 9.
pub open spec fn digits_value(s: Seq<char>) -> Option<nat>
    decreases s.len(),
{
    if s.len() == 0 {
        None
    } else {
        match digit_of(s.last()) {
            None => None,
            Some(d) => if s.len() == 1 {
                Some(d)
            } else {
                match digits_value(s.drop_last()) {
                    Some(v) => Some(v * 10 + d),
                    None => None,
                }
            },
        }
    }
}

/// The number that a text stands for: decimal digits, with one plus sign
/// before them or without.
pub open spec fn unsigned_value(s: Seq<char>) -> Option<nat> {
    if s.len() > 0 && s[0] == '+' {
        digits_value(s.skip(1))
    } else {
        digits_value(s)
    }
}

/// The number that a text stands for, where it fits in 64 bits.
pub open spec fn parsed_u64(s: Seq<char>) -> Option<u64> {
    match unsigned_value(s) {
        Some(v) => if v <= u64::MAX {
            Some(v as u64)
        } else {
            None
        },
        None => None,
    }
}

/// A text with a character that is no digit stands for no number.
proof fn lemma_not_a_number(s: Seq<char>, i: int)
    requires
        0 <= i < s.len(),
        digit_of(s[i]) is None,
    ensures
        digits_value(s) is None,
    decreases s.len(),
{
    if i < s.len() - 1 {
        let t = s.drop_last();
        assert(t[i] == s[i]);
        lemma_not_a_number(t, i);
    }
}

/// The number that the first characters of a text of digits stand for is no
/// greater than the number that the whole text stands for.
proof fn lemma_number_of_prefix(s: Seq<char>, n: int)
    requires
        0 < n <= s.len(),
        digits_value(s) is Some,
    ensures
        digits_value(s.take(n)) is Some,
        digits_value(s.take(n))->0 <= digits_value(s)->0,
    decreases s.len(),
{
    if n == s.len() {
        assert(s.take(n) =~= s);
    } else {
        let t = s.drop_last();
        lemma_number_of_prefix(t, n);
        assert(t.take(n) =~= s.take(n));
    }
}

/// Reads a number as `str::parse::<u64>` does: decimal digits, with one plus
/// sign before them or without; nothing where the text is anything else or
/// the number does not fit in 64 bits.
fn parse_u64(text: &str) -> (value: Option<u64>)
    ensures
        value == parsed_u64(text@),
{
    let ascii = text.is_ascii();
    let len = text.unicode_len();
    if len == 0 {
        return None;
    }
    let start: usize = if char_at(text, 0, ascii) == '+' {
        1
    } else {
        0
    };
    let ghost t = if start == 1 {
        text@.skip(1)
    } else {
        text@
    };
    assert(unsigned_value(text@) == digits_value(t));
    if start == len {
        return None;
    }
    let mut i: usize = start;
    let mut acc: u64 = 0;
    while i < len
        invariant
            start <= i <= len,
            len == text@.len(),
            ascii ==> text.is_ascii(),
            t.len() == len - start,
            forall|k: int| 0 <= k < t.len() ==> t[k] == text@[start + k],
            unsigned_value(text@) == digits_value(t),
            i > start ==> digits_value(t.take(i - start)) == Some(acc as nat),
        decreases len - i,
    {
        let ghost before = t.take(i - start);
        let ghost upto = t.take(i - start + 1);
        proof {
            assert(upto.drop_last() =~= before);
            assert(upto.last() == t[i - start]);
        }
        match digit_value(char_at(text, i, ascii)) {
            None => {
                proof {
                    lemma_not_a_number(t, i - start);
                }
                return None;
            },
            Some(d) => {
                if i > start && acc > (u64::MAX - d) / 10 {
                    proof {
                        assert(digits_value(upto) == Some((acc * 10 + d) as nat));
                        if digits_value(t) is Some {
                            lemma_number_of_prefix(t, i - start + 1);
                        }
                    }
                    return None;
                }
                acc = if i > start {
                    acc * 10 + d
                } else {
                    d
                };
                assert(digits_value(upto) == Some(acc as nat));
            },
        }
        i = i + 1;
    }
    assert(t.take(len - start) =~= t);
    Some(acc)
}

/// The values that the settings are read from, each under the name of its
/// variable; `None` where the variable is not set.
pub struct Vars {
    pub app_host: Option<String>,
    pub app_port: Option<String>,
    pub app_env: Option<String>,
    pub db_host: Option<String>,
    pub db_port: Option<String>,
    pub db_user: Option<String>,
    pub db_password: Option<String>,
    pub db_name: Option<String>,
    pub db_max_connections: Option<String>,
    pub db_connect_timeout: Option<String>,
}

/// [`Vars`] as text.
pub struct VarsModel {
    pub app_host: Option<Seq<char>>,
    pub app_port: Option<Seq<char>>,
    pub app_env: Option<Seq<char>>,
    pub db_host: Option<Seq<char>>,
    pub db_port: Option<Seq<char>>,
    pub db_user: Option<Seq<char>>,
    pub db_password: Option<Seq<char>>,
    pub db_name: Option<Seq<char>>,
    pub db_max_connections: Option<Seq<char>>,
    pub db_connect_timeout: Option<Seq<char>>,
}

/// The text of an optional value.
pub open spec fn value_text(v: Option<String>) -> Option<Seq<char>> {
    match v {
        Some(s) => Some(s@),
        None => None,
    }
}

impl View for Vars {
    type V = VarsModel;

    open spec fn view(&self) -> VarsModel {
        VarsModel {
            app_host: value_text(self.app_host),
            app_port: value_text(self.app_port),
            app_env: value_text(self.app_env),
            db_host: value_text(self.db_host),
            db_port: value_text(self.db_port),
            db_user: value_text(self.db_user),
            db_password: value_text(self.db_password),
            db_name: value_text(self.db_name),
            db_max_connections: value_text(self.db_max_connections),
            db_connect_timeout: value_text(self.db_connect_timeout),
        }
    }
}

/// A value that must be set.
pub open spec fn required_text(v: Option<Seq<char>>, name: Seq<char>) -> Result<
    Seq<char>,
    ConfigErrorModel,
> {
    match v {
        Some(s) => Ok(s),
        None => Err(ConfigErrorModel::MissingVar(name)),
    }
}

/// A value that has a default.
pub open spec fn text_or(v: Option<Seq<char>>, default: Seq<char>) -> Seq<char> {
    match v {
        Some(s) => s,
        None => default,
    }
}

/// The number that a text stands for, where it is one that is at most `max`.
pub open spec fn number_of(text: Seq<char>, max: u64) -> Result<u64, ConfigErrorModel> {
    match parsed_u64(text) {
        Some(n) => if n <= max {
            Ok(n)
        } else {
            Err(ConfigErrorModel::InvalidValue(text))
        },
        None => Err(ConfigErrorModel::InvalidValue(text)),
    }
}

/// What stands first among the things that keep the settings of the
/// listener from being read, or the settings.
pub open spec fn app_of(v: VarsModel) -> Result<AppModel, ConfigErrorModel> {
    match required_text(v.app_host, "APP_HOST"@) {
        Err(e) => Err(e),
        Ok(host) => match required_text(v.app_port, "APP_PORT"@) {
            Err(e) => Err(e),
            Ok(port_text) => match number_of(port_text, 65535) {
                Err(e) => Err(e),
                Ok(port) => match required_text(v.app_env, "APP_ENV"@) {
                    Err(e) => Err(e),
                    Ok(env) => Ok(AppModel { host, port: port as u16, env }),
                },
            },
        },
    }
}

/// The first four settings of the store.
pub open spec fn database_address_of(v: VarsModel) -> Result<
    (Seq<char>, u64, Seq<char>, Seq<char>),
    ConfigErrorModel,
> {
    match required_text(v.db_host, "DB_HOST"@) {
        Err(e) => Err(e),
        Ok(host) => match required_text(v.db_port, "DB_PORT"@) {
            Err(e) => Err(e),
            Ok(port_text) => match number_of(port_text, 65535) {
                Err(e) => Err(e),
                Ok(port) => match required_text(v.db_user, "DB_USER"@) {
                    Err(e) => Err(e),
                    Ok(user) => match required_text(v.db_password, "DB_PASSWORD"@) {
                        Err(e) => Err(e),
                        Ok(password) => Ok((host, port, user, password)),
                    },
                },
            },
        },
    }
}

/// What stands first among the things that keep the settings of the store
/// from being read, or the settings. The number of connections is 10 and
/// the timeout 5 seconds where they are not set.
pub open spec fn database_of(v: VarsModel) -> Result<DatabaseModel, ConfigErrorModel> {
    match database_address_of(v) {
        Err(e) => Err(e),
        Ok(address) => match required_text(v.db_name, "DB_NAME"@) {
            Err(e) => Err(e),
            Ok(db_name) => match number_of(text_or(v.db_max_connections, "10"@), 4294967295) {
                Err(e) => Err(e),
                Ok(max_connections) => match number_of(
                    text_or(v.db_connect_timeout, "5"@),
                    u64::MAX,
                ) {
                    Err(e) => Err(e),
                    Ok(timeout) => Ok(
                        DatabaseModel {
                            host: address.0,
                            port: address.1 as u16,
                            user: address.2,
                            password: address.3,
                            db_name,
                            max_connections: max_connections as u32,
                            connect_timeout_secs: timeout,
                        },
                    ),
                },
            },
        },
    }
}

/// The settings that the values give, or what stands first among the
/// things that keep them from being read: the values are gone through in
/// the order host, port and environment of the listener, then host, port,
/// user, password, name, connections and timeout of the store.
pub open spec fn config_of(v: VarsModel) -> Result<AppConfigModel, ConfigErrorModel> {
    match app_of(v) {
        Err(e) => Err(e),
        Ok(app) => match database_of(v) {
            Err(e) => Err(e),
            Ok(database) => Ok(AppConfigModel { app, database }),
        },
    }
}

/// The settings or the error, as text.
pub open spec fn loaded_view(r: Result<AppConfig, ConfigError>) -> Result<
    AppConfigModel,
    ConfigErrorModel,
> {
    match r {
        Ok(c) => Ok(c@),
        Err(e) => Err(e@),
    }
}

fn required(value: Option<String>, name: &str) -> (r: Result<String, ConfigError>)
    ensures
        match r {
            Ok(s) => required_text(value_text(value), name@) == Ok::<Seq<char>, ConfigErrorModel>(
                s@,
            ),
            Err(e) => required_text(value_text(value), name@) == Err::<
                Seq<char>,
                ConfigErrorModel,
            >(e@),
        },
{
    match value {
        Some(s) => Ok(s),
        None => Err(ConfigError::MissingVar(name.to_owned())),
    }
}

fn or_default(value: Option<String>, default: &str) -> (r: String)
    ensures
        r@ == text_or(value_text(value), default@),
{
    match value {
        Some(s) => s,
        None => default.to_owned(),
    }
}

fn number(text: &str, max: u64) -> (r: Result<u64, ConfigError>)
    ensures
        match r {
            Ok(n) => number_of(text@, max) == Ok::<u64, ConfigErrorModel>(n),
            Err(e) => number_of(text@, max) == Err::<u64, ConfigErrorModel>(e@),
        },
{
    match parse_u64(text) {
        Some(n) => {
            if n <= max {
                Ok(n)
            } else {
                Err(ConfigError::InvalidValue(text.to_owned()))
            }
        },
        None => Err(ConfigError::InvalidValue(text.to_owned())),
    }
}

impl AppConfig {
    /// Reads the settings from the values of the variables.
    pub fn from_vars(vars: Vars) -> (r: Result<AppConfig, ConfigError>)
        ensures
            loaded_view(r) == config_of(vars@),
    {
        let host = required(vars.app_host, "APP_HOST")?;
        let port_text = required(vars.app_port, "APP_PORT")?;
        let port = number(port_text.as_str(), 65535)?;
        let env = required(vars.app_env, "APP_ENV")?;
        let app = App { host, port: port as u16, env };
        let db_host = required(vars.db_host, "DB_HOST")?;
        let db_port_text = required(vars.db_port, "DB_PORT")?;
        let db_port = number(db_port_text.as_str(), 65535)?;
        let user = required(vars.db_user, "DB_USER")?;
        let password = required(vars.db_password, "DB_PASSWORD")?;
        let db_name = required(vars.db_name, "DB_NAME")?;
        let connections_text = or_default(vars.db_max_connections, "10");
        let max_connections = number(connections_text.as_str(), 4294967295)?;
        let timeout_text = or_default(vars.db_connect_timeout, "5");
        let connect_timeout_secs = number(timeout_text.as_str(), u64::MAX)?;
        let database = Database {
            host: db_host,
            port: db_port as u16,
            user,
            password,
            db_name,
            max_connections: max_connections as u32,
            connect_timeout_secs,
        };
        Ok(AppConfig { app, database })
    }
}

} // verus!
