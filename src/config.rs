use vstd::prelude::*;

verus! {

/// Whether the manager runs a local engine or only connects to a remote one.
#[derive(Clone, Copy, Debug, PartialEq, Eq, Structural)]
pub enum DatabaseMode {
    Embedded,
    Network,
}

impl Default for DatabaseMode {
    fn default() -> (r: Self)
        ensures
            r == DatabaseMode::Embedded,
    {
        DatabaseMode::Embedded
    }
}

/// The loopback address that a configuration uses when it names no host.
pub open spec fn loopback() -> Seq<char> {
    "127.0.0.1"@
}

/// The host used when a stored configuration leaves it out.
pub fn default_host() -> (r: String)
    ensures
        r@ == loopback(),
{
    String::from_str("127.0.0.1")
}

} // verus!

verus! {

/// Lowest port that a fresh embedded installation may pick.
pub const PORT_LOW: u16 = 15000;

/// One past the highest port that a fresh embedded installation may pick.
pub const PORT_HIGH: u16 = 25000;

/// Number of characters in a generated secret.
pub const SECRET_LEN: usize = 32;

pub open spec fn is_alphanumeric(c: char) -> bool {
    ('A' <= c <= 'Z') || ('a' <= c <= 'z') || ('0' <= c <= '9')
}

/// A generated secret: exactly `SECRET_LEN` ASCII letters and digits.
pub open spec fn is_strong_secret(s: Seq<char>) -> bool {
    s.len() == SECRET_LEN && forall|i: int| 0 <= i < s.len() ==> is_alphanumeric(#[trigger] s[i])
}

/// The persisted connection and secret record of one installation.
pub struct DbConfig {
    pub mode: DatabaseMode,
    pub host: String,
    pub port: u16,
    pub postgres_password: String,
    pub app_password: String,
}

pub struct DbConfigView {
    pub mode: DatabaseMode,
    pub host: Seq<char>,
    pub port: u16,
    pub postgres_password: Seq<char>,
    pub app_password: Seq<char>,
}

impl View for DbConfig {
    type V = DbConfigView;

    open spec fn view(&self) -> DbConfigView {
        DbConfigView {
            mode: self.mode,
            host: self.host@,
            port: self.port,
            postgres_password: self.postgres_password@,
            app_password: self.app_password@,
        }
    }
}

/// The record as it reads back from its file: the mode and the host may be
/// absent, as in files written by an earlier, simpler schema.
pub struct StoredConfig {
    pub mode: Option<DatabaseMode>,
    pub host: Option<String>,
    pub port: u16,
    pub postgres_password: String,
    pub app_password: String,
}

pub struct StoredConfigView {
    pub mode: Option<DatabaseMode>,
    pub host: Option<Seq<char>>,
    pub port: u16,
    pub postgres_password: Seq<char>,
    pub app_password: Seq<char>,
}

impl View for StoredConfig {
    type V = StoredConfigView;

    open spec fn view(&self) -> StoredConfigView {
        StoredConfigView {
            mode: self.mode,
            host: match self.host {
                Some(h) => Some(h@),
                None => None,
            },
            port: self.port,
            postgres_password: self.postgres_password@,
            app_password: self.app_password@,
        }
    }
}

/// The record that a stored file stands for, with the defaults filled in.
pub open spec fn loaded(s: StoredConfigView) -> DbConfigView {
    DbConfigView {
        mode: match s.mode {
            Some(m) => m,
            None => DatabaseMode::Embedded,
        },
        host: match s.host {
            Some(h) => h,
            None => loopback(),
        },
        port: s.port,
        postgres_password: s.postgres_password,
        app_password: s.app_password,
    }
}

/// What is written to the file for a record: every field present.
pub open spec fn stored_form(c: DbConfigView) -> StoredConfigView {
    StoredConfigView {
        mode: Some(c.mode),
        host: Some(c.host),
        port: c.port,
        postgres_password: c.postgres_password,
        app_password: c.app_password,
    }
}

/// A record fit for a fresh embedded installation.
pub open spec fn is_fresh(c: DbConfigView) -> bool {
    &&& c.mode == DatabaseMode::Embedded
    &&& c.host == loopback()
    &&& PORT_LOW <= c.port < PORT_HIGH
    &&& is_strong_secret(c.postgres_password)
    &&& is_strong_secret(c.app_password)
}

/// Relies on rand's `Rng::gen_range` over `thread_rng()`: a value of the
/// half-open range `[low, high)`, which must not be empty.
#[verifier::external_body]
fn random_in_range(low: u16, high: u16) -> (r: u16)
    requires
        low < high,
    ensures
        low <= r < high,
{
    rand::Rng::gen_range(&mut rand::thread_rng(), low..high)
}

/// Relies on rand's `Alphanumeric` distribution sampled from `thread_rng()`:
/// each sample is one of the ASCII letters and digits, and `take(len)` on the
/// endless sample iterator yields exactly `len` of them.
#[verifier::external_body]
fn random_alphanumeric(len: usize) -> (r: String)
    ensures
        r@.len() == len,
        forall|i: int| 0 <= i < r@.len() ==> is_alphanumeric(#[trigger] r@[i]),
{
    rand::Rng::sample_iter(rand::thread_rng(), &rand::distributions::Alphanumeric).take(len).map(
        char::from,
    ).collect()
}

/// Copy of a string that keeps its contents.
pub fn copy_text(s: &String) -> (r: String)
    ensures
        r@ == s@,
{
    s.clone()
}

impl DbConfig {
    /// A fresh secret of `SECRET_LEN` letters and digits from a
    /// cryptographically suitable source.
    pub fn generate_strong_password() -> (r: String)
        ensures
            is_strong_secret(r@),
    {
        random_alphanumeric(SECRET_LEN)
    }

    /// A new record for an installation that has none yet: embedded mode,
    /// loopback host, a random port in `[PORT_LOW, PORT_HIGH)` and two fresh secrets.
    pub fn generate() -> (r: DbConfig)
        ensures
            is_fresh(r@),
    {
        DbConfig {
            mode: DatabaseMode::Embedded,
            host: default_host(),
            port: random_in_range(PORT_LOW, PORT_HIGH),
            postgres_password: Self::generate_strong_password(),
            app_password: Self::generate_strong_password(),
        }
    }

    /// The record that a stored file stands for; absent fields take their defaults.
    pub fn from_stored(s: StoredConfig) -> (r: DbConfig)
        ensures
            r@ == loaded(s@),
    {
        let mode = match s.mode {
            Some(m) => m,
            None => DatabaseMode::Embedded,
        };
        let host = match s.host {
            Some(h) => h,
            None => default_host(),
        };
        DbConfig {
            mode,
            host,
            port: s.port,
            postgres_password: s.postgres_password,
            app_password: s.app_password,
        }
    }

    /// The form in which the record is persisted.
    pub fn to_stored(&self) -> (r: StoredConfig)
        ensures
            r@ == stored_form(self@),
    {
        StoredConfig {
            mode: Some(self.mode),
            host: Some(copy_text(&self.host)),
            port: self.port,
            postgres_password: copy_text(&self.postgres_password),
            app_password: copy_text(&self.app_password),
        }
    }

    /// A copy with the same contents.
    pub fn duplicate(&self) -> (r: DbConfig)
        ensures
            r@ == self@,
    {
        DbConfig {
            mode: self.mode,
            host: copy_text(&self.host),
            port: self.port,
            postgres_password: copy_text(&self.postgres_password),
            app_password: copy_text(&self.app_password),
        }
    }
}

/// Writing a record and reading it back gives the same record: port and
/// secrets, once chosen, are what every later construction finds.
pub proof fn lemma_persisted_record_reloads(c: DbConfigView)
    ensures
        loaded(stored_form(c)) == c,
{
}

} // verus!
