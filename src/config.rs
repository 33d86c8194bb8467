//! The persisted configuration record and its text encoding.

use vstd::prelude::*;
use crate::text::text_eq;

verus! {

#[derive(Clone, Copy, Debug, PartialEq, Eq, Structural)]
pub enum ConfigStatus {
    NotConfigured,
    Configured,
}

/// Which kind of credential the record's key field holds.
#[derive(Clone, Copy, Debug, PartialEq, Eq, Structural)]
pub enum TokenKind {
    /// A durable API key.
    ApiKey,
    /// Anything written by an earlier protocol: a session token at best.
    Unknown,
}

pub open spec fn status_text(s: ConfigStatus) -> Seq<char> {
    match s {
        ConfigStatus::NotConfigured => "not configured"@,
        ConfigStatus::Configured => "configured"@,
    }
}

pub open spec fn status_from_text(t: Seq<char>) -> ConfigStatus {
    if t == "configured"@ {
        ConfigStatus::Configured
    } else {
        ConfigStatus::NotConfigured
    }
}

pub open spec fn token_text(k: TokenKind) -> Seq<char> {
    match k {
        TokenKind::ApiKey => "apiKey"@,
        TokenKind::Unknown => "Unknown"@,
    }
}

pub open spec fn token_from_text(t: Seq<char>) -> TokenKind {
    if t == "apiKey"@ {
        TokenKind::ApiKey
    } else {
        TokenKind::Unknown
    }
}

impl ConfigStatus {
    /// How the status is written in the stored record.
    pub fn as_text(&self) -> (r: &'static str)
        ensures
            r@ == status_text(*self),
    {
        match self {
            ConfigStatus::NotConfigured => "not configured",
            ConfigStatus::Configured => "configured",
        }
    }

    /// Reads a stored status; anything but `configured` is not configured.
    pub fn from_text(t: &str) -> (r: ConfigStatus)
        ensures
            r == status_from_text(t@),
    {
        if text_eq(t, "configured") {
            ConfigStatus::Configured
        } else {
            ConfigStatus::NotConfigured
        }
    }
}

impl TokenKind {
    /// How the kind is written in the stored record.
    pub fn as_text(&self) -> (r: &'static str)
        ensures
            r@ == token_text(*self),
    {
        match self {
            TokenKind::ApiKey => "apiKey",
            TokenKind::Unknown => "Unknown",
        }
    }

    /// Reads a stored kind; anything but `apiKey` is a legacy kind.
    pub fn from_text(t: &str) -> (r: TokenKind)
        ensures
            r == token_from_text(t@),
    {
        if text_eq(t, "apiKey") {
            TokenKind::ApiKey
        } else {
            TokenKind::Unknown
        }
    }
}

/// The configuration that a run starts from and that credential changes
/// rewrite.
pub struct AppConfig {
    pub status: ConfigStatus,
    pub comfy: bool,
    pub server_url: String,
    pub os: String,
    pub api_key: String,
    pub token: TokenKind,
}

pub ghost struct ConfigView {
    pub status: ConfigStatus,
    pub comfy: bool,
    pub server_url: Seq<char>,
    pub os: Seq<char>,
    pub api_key: Seq<char>,
    pub token: TokenKind,
}

impl View for AppConfig {
    type V = ConfigView;

    open spec fn view(&self) -> ConfigView {
        ConfigView {
            status: self.status,
            comfy: self.comfy,
            server_url: self.server_url@,
            os: self.os@,
            api_key: self.api_key@,
            token: self.token,
        }
    }
}

impl ConfigView {
    /// A configured record holds a durable key.
    pub open spec fn wf(self) -> bool {
        self.status == ConfigStatus::Configured ==> self.api_key.len() > 0 && self.token
            == TokenKind::ApiKey
    }

    /// A record that resource calls can use as it stands.
    pub open spec fn ready(self) -> bool {
        &&& self.status == ConfigStatus::Configured
        &&& self.token == TokenKind::ApiKey
        &&& self.api_key.len() > 0
    }
}

/// The record after a logout, and before any setup.
pub open spec fn default_config() -> ConfigView {
    ConfigView {
        status: ConfigStatus::NotConfigured,
        comfy: true,
        server_url: "Unknown"@,
        os: "Unknown"@,
        api_key: "Unknown"@,
        token: TokenKind::Unknown,
    }
}

/// The record as it is written to disk: every field as text.
pub struct ConfigRecord {
    pub status: String,
    pub comfy: bool,
    pub server_url: String,
    pub os: String,
    pub api_key: String,
    pub token: String,
}

pub ghost struct RecordView {
    pub status: Seq<char>,
    pub comfy: bool,
    pub server_url: Seq<char>,
    pub os: Seq<char>,
    pub api_key: Seq<char>,
    pub token: Seq<char>,
}

impl View for ConfigRecord {
    type V = RecordView;

    open spec fn view(&self) -> RecordView {
        RecordView {
            status: self.status@,
            comfy: self.comfy,
            server_url: self.server_url@,
            os: self.os@,
            api_key: self.api_key@,
            token: self.token@,
        }
    }
}

pub open spec fn record_of(c: ConfigView) -> RecordView {
    RecordView {
        status: status_text(c.status),
        comfy: c.comfy,
        server_url: c.server_url,
        os: c.os,
        api_key: c.api_key,
        token: token_text(c.token),
    }
}

pub open spec fn config_of(r: RecordView) -> ConfigView {
    ConfigView {
        status: status_from_text(r.status),
        comfy: r.comfy,
        server_url: r.server_url,
        os: r.os,
        api_key: r.api_key,
        token: token_from_text(r.token),
    }
}

impl Clone for AppConfig {
    fn clone(&self) -> (r: AppConfig)
        ensures
            r@ == self@,
    {
        AppConfig {
            status: self.status,
            comfy: self.comfy,
            server_url: self.server_url.clone(),
            os: self.os.clone(),
            api_key: self.api_key.clone(),
            token: self.token,
        }
    }
}

impl Default for AppConfig {
    fn default() -> (r: AppConfig)
        ensures
            r@ == default_config(),
    {
        AppConfig {
            status: ConfigStatus::NotConfigured,
            comfy: true,
            server_url: String::from_str("Unknown"),
            os: String::from_str("Unknown"),
            api_key: String::from_str("Unknown"),
            token: TokenKind::Unknown,
        }
    }
}

impl AppConfig {
    /// The record to write for this configuration.
    pub fn to_record(&self) -> (r: ConfigRecord)
        ensures
            r@ == record_of(self@),
    {
        ConfigRecord {
            status: String::from_str(self.status.as_text()),
            comfy: self.comfy,
            server_url: self.server_url.clone(),
            os: self.os.clone(),
            api_key: self.api_key.clone(),
            token: String::from_str(self.token.as_text()),
        }
    }

    /// The configuration that a stored record describes.
    pub fn from_record(r: &ConfigRecord) -> (c: AppConfig)
        ensures
            c@ == config_of(r@),
    {
        AppConfig {
            status: ConfigStatus::from_text(r.status.as_str()),
            comfy: r.comfy,
            server_url: r.server_url.clone(),
            os: r.os.clone(),
            api_key: r.api_key.clone(),
            token: TokenKind::from_text(r.token.as_str()),
        }
    }
}

/// Writing a configuration and reading it back gives the same field values.
pub proof fn lemma_record_round_trip(c: ConfigView)
    ensures
        config_of(record_of(c)) == c,
{
    reveal_strlit("configured");
    reveal_strlit("not configured");
    reveal_strlit("apiKey");
    reveal_strlit("Unknown");
    assert(status_text(ConfigStatus::NotConfigured).len() != "configured"@.len());
    assert("Unknown"@.len() != "apiKey"@.len());
}

} // verus!
