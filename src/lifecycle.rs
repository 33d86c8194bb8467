//! The credential lifecycle: from no stored credentials, through a password
//! login and the exchange of the session token for a durable API key, to a
//! stored configuration. The library decides; the caller performs each
//! action and reports what came of it as the next event.

use vstd::prelude::*;
use crate::config::{AppConfig, ConfigStatus, ConfigView, TokenKind, default_config};
use crate::dispatch::{
    APP_NAME, LOGIN_AUTHORIZATION, CliError, ContentType, Method, Request, RequestView,
    call_error, is_success_status, pairs_view, plain_call,
};
use crate::entities::TokenItem;
use crate::json::{json_string_of, object, object_text, string_value};
use crate::server_info::UserAuth;
use crate::text::{join, text_eq};

verus! {

/// Where the token-to-key exchange stands.
#[derive(Clone, Copy, Debug, PartialEq, Eq, Structural)]
pub enum ExchangeStep {
    /// The key list is asked for the first time.
    Lookup,
    /// No key was listed; one is being created.
    Create,
    /// The key list is asked again after the creation.
    Relookup,
}

#[derive(Clone, Copy, Debug, PartialEq, Eq, Structural)]
pub enum Phase {
    NotConfigured,
    /// The password login has been sent.
    Authenticating,
    /// A session token is held in memory and is being exchanged.
    TokenObtained(ExchangeStep),
    /// The durable key is known and its record is being stored.
    KeyExchanged,
    Configured,
    Failed(CliError),
}

/// What the caller reports back.
pub enum Event {
    /// First setup, or a reconfiguration, with what the user supplied.
    Setup { server_url: String, username: String, password: String, os: String },
    Logout,
    /// The reply to the login, with the session token that its body held.
    LoginReply { status: u16, token: Option<String> },
    /// The reply to a key listing, with the keys that its body held.
    KeysReply { status: u16, keys: Option<Vec<TokenItem>> },
    /// The reply to the key creation; only its status matters.
    CreateReply { status: u16 },
    /// The record of the last `Store` action has been written.
    Stored,
}

/// What the caller is to do next.
pub enum Action {
    /// Ask the user for the server address and credentials.
    AskForSetup,
    /// Send this request and report its reply.
    Send(Request),
    /// Write this record, replacing the stored one.
    Store(AppConfig),
    /// Nothing is left to do for the credentials.
    Done,
    /// Stop the run with this error.
    Fail(CliError),
    /// The event does not apply in the current phase; nothing changed.
    Ignored,
}

pub struct Lifecycle {
    pub phase: Phase,
    pub server_url: String,
    pub os: String,
    pub comfy: bool,
    /// The credential in use: the session token during the exchange, the
    /// durable key afterwards.
    pub credential: String,
}

pub ghost struct LifecycleView {
    pub phase: Phase,
    pub server_url: Seq<char>,
    pub os: Seq<char>,
    pub comfy: bool,
    pub credential: Seq<char>,
}

pub ghost enum EventView {
    Setup { server_url: Seq<char>, username: Seq<char>, password: Seq<char>, os: Seq<char> },
    Logout,
    LoginReply { status: u16, token: Option<Seq<char>> },
    KeysReply { status: u16, keys: Option<Seq<TokenItem>> },
    CreateReply { status: u16 },
    Stored,
}

pub ghost enum ActionView {
    AskForSetup,
    Send(RequestView),
    Store(ConfigView),
    Done,
    Fail(CliError),
    Ignored,
}

impl View for Lifecycle {
    type V = LifecycleView;

    open spec fn view(&self) -> LifecycleView {
        LifecycleView {
            phase: self.phase,
            server_url: self.server_url@,
            os: self.os@,
            comfy: self.comfy,
            credential: self.credential@,
        }
    }
}

impl View for Event {
    type V = EventView;

    open spec fn view(&self) -> EventView {
        match self {
            Event::Setup { server_url, username, password, os } => EventView::Setup {
                server_url: server_url@,
                username: username@,
                password: password@,
                os: os@,
            },
            Event::Logout => EventView::Logout,
            Event::LoginReply { status, token } => EventView::LoginReply {
                status: *status,
                token: match token {
                    Some(t) => Some(t@),
                    None => None,
                },
            },
            Event::KeysReply { status, keys } => EventView::KeysReply {
                status: *status,
                keys: match keys {
                    Some(k) => Some(k@),
                    None => None,
                },
            },
            Event::CreateReply { status } => EventView::CreateReply { status: *status },
            Event::Stored => EventView::Stored,
        }
    }
}

impl View for Action {
    type V = ActionView;

    open spec fn view(&self) -> ActionView {
        match self {
            Action::AskForSetup => ActionView::AskForSetup,
            Action::Send(r) => ActionView::Send(r@),
            Action::Store(c) => ActionView::Store(c@),
            Action::Done => ActionView::Done,
            Action::Fail(e) => ActionView::Fail(*e),
            Action::Ignored => ActionView::Ignored,
        }
    }
}

/// The key of the first listed entry made for this client, or nothing when
/// there is none.
pub open spec fn key_in(items: Seq<TokenItem>) -> Seq<char>
    decreases items.len(),
{
    if items.len() == 0 {
        Seq::empty()
    } else if items[0].app_name@ == APP_NAME@ {
        items[0].access_token@
    } else {
        key_in(items.drop_first())
    }
}

/// The key of the first listed entry whose client is this one; empty when
/// there is none.
pub fn find_api_key(items: &Vec<TokenItem>) -> (r: String)
    ensures
        r@ == key_in(items@),
{
    let mut k: usize = 0;
    assert(items@.subrange(0, items.len() as int) =~= items@);
    while k < items.len()
        invariant
            k <= items.len(),
            key_in(items@) == key_in(items@.subrange(k as int, items.len() as int)),
        decreases items.len() - k,
    {
        if text_eq(items[k].app_name.as_str(), APP_NAME) {
            return items[k].access_token.clone();
        }
        assert(items@.subrange(k as int, items.len() as int).drop_first() =~= items@.subrange(
            k + 1,
            items.len() as int,
        ));
        k = k + 1;
    }
    String::new()
}

/// The body of the password login.
pub open spec fn login_body(username: Seq<char>, password: Seq<char>) -> Seq<char> {
    object_text(seq![("Username"@, json_string_of(username)), ("Pw"@, json_string_of(password))])
}

pub open spec fn login_call(server_url: Seq<char>, username: Seq<char>, password: Seq<char>) -> RequestView {
    RequestView {
        method: Method::Post,
        url: server_url + "/Users/authenticatebyname"@,
        query: Seq::empty(),
        authorization: LOGIN_AUTHORIZATION@,
        content_type: ContentType::Json,
        body: login_body(username, password),
    }
}

pub open spec fn keys_call(server_url: Seq<char>, token: Seq<char>) -> RequestView {
    plain_call(Method::Get, server_url + "/Auth/Keys"@, token)
}

/// The creation of a key: an empty POST whose query names this client.
pub open spec fn create_call(server_url: Seq<char>, token: Seq<char>) -> RequestView {
    RequestView {
        query: seq![("app"@, APP_NAME@)],
        ..plain_call(Method::Post, server_url + "/Auth/Keys"@, token)
    }
}

/// The record written once the durable key is known.
pub open spec fn exchanged_config(s: LifecycleView, key: Seq<char>) -> ConfigView {
    ConfigView {
        status: ConfigStatus::Configured,
        comfy: s.comfy,
        server_url: s.server_url,
        os: s.os,
        api_key: key,
        token: TokenKind::ApiKey,
    }
}

pub open spec fn failed(s: LifecycleView, e: CliError) -> (LifecycleView, ActionView) {
    (LifecycleView { phase: Phase::Failed(e), ..s }, ActionView::Fail(e))
}

/// Reading the key list at `step`: a key found is stored; none found at the
/// first lookup leads to a creation, and none after it is a contract
/// violation.
pub open spec fn after_listing(s: LifecycleView, step: ExchangeStep, status: u16, keys: Option<Seq<TokenItem>>) -> (LifecycleView, ActionView) {
    if !is_success_status(status) {
        failed(s, call_error(status))
    } else {
        match keys {
            None => failed(s, CliError::MalformedResponse),
            Some(ks) => {
                let key = key_in(ks);
                if key.len() > 0 {
                    (
                        LifecycleView { phase: Phase::KeyExchanged, credential: key, ..s },
                        ActionView::Store(exchanged_config(s, key)),
                    )
                } else if step == ExchangeStep::Lookup {
                    (
                        LifecycleView { phase: Phase::TokenObtained(ExchangeStep::Create), ..s },
                        ActionView::Send(create_call(s.server_url, s.credential)),
                    )
                } else {
                    failed(s, CliError::ContractViolation)
                }
            },
        }
    }
}

/// The state that a run starts in, and its first action, given the stored
/// record. A record of a legacy kind is upgraded without asking the user:
/// its key field is taken as a session token and exchanged.
pub open spec fn start_of(c: ConfigView) -> (LifecycleView, ActionView) {
    let s = LifecycleView {
        phase: Phase::NotConfigured,
        server_url: c.server_url,
        os: c.os,
        comfy: c.comfy,
        credential: c.api_key,
    };
    if c.status == ConfigStatus::NotConfigured {
        (s, ActionView::AskForSetup)
    } else if c.token != TokenKind::ApiKey {
        (
            LifecycleView { phase: Phase::TokenObtained(ExchangeStep::Lookup), ..s },
            ActionView::Send(keys_call(c.server_url, c.api_key)),
        )
    } else if c.api_key.len() == 0 {
        (s, ActionView::AskForSetup)
    } else {
        (LifecycleView { phase: Phase::Configured, ..s }, ActionView::Done)
    }
}

/// The state in which a run takes an explicit setup or logout: Configured
/// when the stored record is ready for use, else NotConfigured.
pub open spec fn setup_state_of(c: ConfigView) -> LifecycleView {
    LifecycleView {
        phase: if c.ready() {
            Phase::Configured
        } else {
            Phase::NotConfigured
        },
        server_url: c.server_url,
        os: c.os,
        comfy: c.comfy,
        credential: if c.ready() {
            c.api_key
        } else {
            Seq::empty()
        },
    }
}

/// One transition of the lifecycle.
pub open spec fn next(s: LifecycleView, e: EventView) -> (LifecycleView, ActionView) {
    match e {
        EventView::Setup { server_url, username, password, os } => {
            if s.phase == Phase::NotConfigured || s.phase == Phase::Configured {
                (
                    LifecycleView {
                        phase: Phase::Authenticating,
                        server_url,
                        os,
                        comfy: s.comfy,
                        credential: Seq::empty(),
                    },
                    ActionView::Send(login_call(server_url, username, password)),
                )
            } else {
                (s, ActionView::Ignored)
            }
        },
        EventView::Logout => {
            if s.phase == Phase::NotConfigured || s.phase == Phase::Configured {
                (
                    LifecycleView { phase: Phase::NotConfigured, credential: Seq::empty(), ..s },
                    ActionView::Store(default_config()),
                )
            } else {
                (s, ActionView::Ignored)
            }
        },
        EventView::LoginReply { status, token } => {
            if s.phase != Phase::Authenticating {
                (s, ActionView::Ignored)
            } else if is_success_status(status) {
                match token {
                    Some(t) => (
                        LifecycleView {
                            phase: Phase::TokenObtained(ExchangeStep::Lookup),
                            credential: t,
                            ..s
                        },
                        ActionView::Send(keys_call(s.server_url, t)),
                    ),
                    None => failed(s, CliError::MalformedResponse),
                }
            } else if status == 401 {
                failed(s, CliError::Authentication)
            } else {
                failed(s, CliError::Protocol(status))
            }
        },
        EventView::KeysReply { status, keys } => {
            if s.phase == Phase::TokenObtained(ExchangeStep::Lookup) {
                after_listing(s, ExchangeStep::Lookup, status, keys)
            } else if s.phase == Phase::TokenObtained(ExchangeStep::Relookup) {
                after_listing(s, ExchangeStep::Relookup, status, keys)
            } else {
                (s, ActionView::Ignored)
            }
        },
        EventView::CreateReply { status } => {
            if s.phase != Phase::TokenObtained(ExchangeStep::Create) {
                (s, ActionView::Ignored)
            } else if is_success_status(status) {
                (
                    LifecycleView { phase: Phase::TokenObtained(ExchangeStep::Relookup), ..s },
                    ActionView::Send(keys_call(s.server_url, s.credential)),
                )
            } else {
                failed(s, call_error(status))
            }
        },
        EventView::Stored => {
            if s.phase == Phase::KeyExchanged {
                (LifecycleView { phase: Phase::Configured, ..s }, ActionView::Done)
            } else {
                (s, ActionView::Ignored)
            }
        },
    }
}

fn login_request(server_url: &str, username: &str, password: &str) -> (r: Request)
    ensures
        r@ == login_call(server_url@, username@, password@),
{
    let mut members: Vec<(String, String)> = Vec::new();
    members.push((String::from_str("Username"), string_value(username)));
    members.push((String::from_str("Pw"), string_value(password)));
    assert(pairs_view(members@) =~= seq![
        ("Username"@, json_string_of(username@)),
        ("Pw"@, json_string_of(password@)),
    ]);
    let body = object(&members);
    let auth = UserAuth::new(server_url, username, String::from_str(password));
    let r = Request {
        method: Method::Post,
        url: auth.server_url,
        query: Vec::new(),
        authorization: String::from_str(LOGIN_AUTHORIZATION),
        content_type: ContentType::Json,
        body,
    };
    assert(r@.query =~= Seq::empty());
    r
}

fn keys_request(server_url: &str, token: &str) -> (r: Request)
    ensures
        r@ == keys_call(server_url@, token@),
{
    let r = Request::get(join(server_url, "/Auth/Keys"), Vec::new(), token);
    assert(pairs_view(Seq::<(String, String)>::empty()) =~= Seq::empty());
    r
}

fn create_request(server_url: &str, token: &str) -> (r: Request)
    ensures
        r@ == create_call(server_url@, token@),
{
    let mut query: Vec<(String, String)> = Vec::new();
    query.push((String::from_str("app"), String::from_str(APP_NAME)));
    let r = Request::post(join(server_url, "/Auth/Keys"), query, String::new(), ContentType::NoBody, token);
    assert(r@.query =~= seq![("app"@, APP_NAME@)]);
    r
}

/// Whether no listed entry was made for this client.
pub open spec fn no_entry_for_client(items: Seq<TokenItem>) -> bool {
    forall|i: int| 0 <= i < items.len() ==> items[i].app_name@ != APP_NAME@
}

proof fn lemma_key_in_appended(items: Seq<TokenItem>, made: TokenItem)
    requires
        no_entry_for_client(items),
        made.app_name@ == APP_NAME@,
    ensures
        key_in(items.push(made)) == made.access_token@,
    decreases items.len(),
{
    let all = items.push(made);
    if items.len() > 0 {
        assert(all[0] == items[0]);
        assert(all.drop_first() =~= items.drop_first().push(made));
        lemma_key_in_appended(items.drop_first(), made);
    } else {
        assert(all[0] == made);
    }
}

proof fn lemma_key_in_absent(items: Seq<TokenItem>)
    requires
        no_entry_for_client(items),
    ensures
        key_in(items) == Seq::<char>::empty(),
    decreases items.len(),
{
    if items.len() > 0 {
        lemma_key_in_absent(items.drop_first());
    }
}

/// Once the server lists a key for this client, a lookup takes that key and
/// stores it: nothing is created.
pub proof fn lemma_existing_key_reused(s: LifecycleView, status: u16, keys: Seq<TokenItem>)
    requires
        s.phase == Phase::TokenObtained(ExchangeStep::Lookup),
        is_success_status(status),
        key_in(keys).len() > 0,
    ensures
        next(s, EventView::KeysReply { status, keys: Some(keys) }) == (
            LifecycleView { phase: Phase::KeyExchanged, credential: key_in(keys), ..s },
            ActionView::Store(exchanged_config(s, key_in(keys))),
        ),
{
}

/// Running the exchange twice against the same server makes one key. The
/// first run finds none for this client, creates one and reads it back; a
/// second run over the list that now holds it ends in the same state and
/// stores the same key, without creating another.
pub proof fn lemma_exchange_idempotent(s: LifecycleView, ok: u16, keys: Seq<TokenItem>, made: TokenItem)
    requires
        s.phase == Phase::TokenObtained(ExchangeStep::Lookup),
        is_success_status(ok),
        no_entry_for_client(keys),
        made.app_name@ == APP_NAME@,
        made.access_token@.len() > 0,
    ensures
        ({
            let after = keys.push(made);
            let (s1, a1) = next(s, EventView::KeysReply { status: ok, keys: Some(keys) });
            let (s2, a2) = next(s1, EventView::CreateReply { status: ok });
            let (s3, a3) = next(s2, EventView::KeysReply { status: ok, keys: Some(after) });
            let (t1, b1) = next(s, EventView::KeysReply { status: ok, keys: Some(after) });
            &&& a1 == ActionView::Send(create_call(s.server_url, s.credential))
            &&& a2 == ActionView::Send(keys_call(s.server_url, s.credential))
            &&& a3 == ActionView::Store(exchanged_config(s, made.access_token@))
            &&& s3.phase == Phase::KeyExchanged
            &&& t1 == s3
            &&& b1 == a3
        }),
{
    lemma_key_in_absent(keys);
    lemma_key_in_appended(keys, made);
    let (s1, a1) = next(s, EventView::KeysReply { status: ok, keys: Some(keys) });
    let (s2, a2) = next(s1, EventView::CreateReply { status: ok });
    assert(s2 == LifecycleView { phase: Phase::TokenObtained(ExchangeStep::Relookup), ..s });
}

/// Where each phase is entered from. Configured follows KeyExchanged once its
/// record is stored; KeyExchanged follows a key listing during the exchange;
/// the exchange follows a successful login; and a login follows a setup from
/// NotConfigured or Configured.
pub proof fn lemma_phase_entry(s: LifecycleView, e: EventView)
    ensures
        next(s, e).0.phase == Phase::Configured && s.phase != Phase::Configured ==> s.phase
            == Phase::KeyExchanged && e == EventView::Stored,
        next(s, e).0.phase == Phase::KeyExchanged && s.phase != Phase::KeyExchanged ==> s.phase
            is TokenObtained && e is KeysReply,
        next(s, e).0.phase is TokenObtained && !(s.phase is TokenObtained) ==> s.phase
            == Phase::Authenticating && e is LoginReply,
        next(s, e).0.phase == Phase::Authenticating && s.phase != Phase::Authenticating ==> e is Setup
            && (s.phase == Phase::NotConfigured || s.phase == Phase::Configured),
{
}

/// The state after `events`, one transition each.
pub open spec fn run(s: LifecycleView, events: Seq<EventView>) -> LifecycleView
    decreases events.len(),
{
    if events.len() == 0 {
        s
    } else {
        run(next(s, events[0]).0, events.drop_first())
    }
}

/// From NotConfigured, no sequence of events reaches Configured without a
/// setup among them.
pub proof fn lemma_configured_needs_setup(s: LifecycleView, events: Seq<EventView>)
    requires
        s.phase == Phase::NotConfigured,
        run(s, events).phase == Phase::Configured,
    ensures
        exists|i: int| 0 <= i < events.len() && events[i] is Setup,
    decreases events.len(),
{
    if events.len() > 0 && !(events[0] is Setup) {
        let s1 = next(s, events[0]).0;
        assert(s1.phase == Phase::NotConfigured);
        lemma_configured_needs_setup(s1, events.drop_first());
        let i = choose|i: int| 0 <= i < events.drop_first().len() && events.drop_first()[i] is Setup;
        assert(events[i + 1] is Setup);
    }
}

/// From Configured, a reconfiguration sends a new login and re-enters
/// Authenticating, and a logout returns to NotConfigured and stores the
/// default record at once.
pub proof fn lemma_reconfigure_and_logout(
    s: LifecycleView,
    server_url: Seq<char>,
    username: Seq<char>,
    password: Seq<char>,
    os: Seq<char>,
)
    requires
        s.phase == Phase::Configured,
    ensures
        next(s, EventView::Setup { server_url, username, password, os }).0.phase == Phase::Authenticating,
        next(s, EventView::Setup { server_url, username, password, os }).1 == ActionView::Send(
            login_call(server_url, username, password),
        ),
        next(s, EventView::Logout).0.phase == Phase::NotConfigured,
        next(s, EventView::Logout).1 == ActionView::Store(default_config()),
{
}

/// A failed run stays failed: no event changes it or leads to any action.
pub proof fn lemma_failed_is_final(s: LifecycleView, e: EventView)
    requires
        s.phase is Failed,
    ensures
        next(s, e) == (s, ActionView::Ignored),
{
}

/// Configured is left only by a reconfiguration, for Authenticating, or by a
/// logout, for NotConfigured.
pub proof fn lemma_configured_absorbing(s: LifecycleView, e: EventView)
    requires
        s.phase == Phase::Configured,
    ensures
        next(s, e).0.phase == Phase::Configured || (e is Setup && next(s, e).0.phase
            == Phase::Authenticating) || (e is Logout && next(s, e).0.phase == Phase::NotConfigured),
        !(e is Setup) && !(e is Logout) ==> next(s, e) == (s, ActionView::Ignored),
{
}

/// Every record that the lifecycle asks to store is well formed: a configured
/// record holds a non-empty durable key. A failure stores nothing.
pub proof fn lemma_stored_records_wf(s: LifecycleView, e: EventView)
    ensures
        next(s, e).1 matches ActionView::Store(c) ==> c.wf(),
        next(s, e).0.phase is Failed && !(s.phase is Failed) ==> next(s, e).1 is Fail,
{
}

impl Lifecycle {
    /// The state that a run starts in, and its first action, for the stored
    /// record `c`.
    pub fn start(c: &AppConfig) -> (r: (Lifecycle, Action))
        ensures
            (r.0@, r.1@) == start_of(c@),
    {
        let mut s = Lifecycle {
            phase: Phase::NotConfigured,
            server_url: c.server_url.clone(),
            os: c.os.clone(),
            comfy: c.comfy,
            credential: c.api_key.clone(),
        };
        match c.status {
            ConfigStatus::NotConfigured => (s, Action::AskForSetup),
            ConfigStatus::Configured => match c.token {
                TokenKind::Unknown => {
                    let req = keys_request(c.server_url.as_str(), c.api_key.as_str());
                    s.phase = Phase::TokenObtained(ExchangeStep::Lookup);
                    (s, Action::Send(req))
                },
                TokenKind::ApiKey => {
                    if c.api_key.as_str().unicode_len() == 0 {
                        (s, Action::AskForSetup)
                    } else {
                        s.phase = Phase::Configured;
                        (s, Action::Done)
                    }
                },
            },
        }
    }

    /// The state in which a run takes an explicit setup or logout for the
    /// stored record `c`.
    pub fn for_setup(c: &AppConfig) -> (r: Lifecycle)
        ensures
            r@ == setup_state_of(c@),
    {
        let ready = match (c.status, c.token) {
            (ConfigStatus::Configured, TokenKind::ApiKey) => c.api_key.as_str().unicode_len() > 0,
            _ => false,
        };
        Lifecycle {
            phase: if ready {
                Phase::Configured
            } else {
                Phase::NotConfigured
            },
            server_url: c.server_url.clone(),
            os: c.os.clone(),
            comfy: c.comfy,
            credential: if ready {
                c.api_key.clone()
            } else {
                String::new()
            },
        }
    }

    fn fail(&mut self, e: CliError) -> (a: Action)
        ensures
            (final(self)@, a@) == failed(old(self)@, e),
    {
        self.phase = Phase::Failed(e);
        Action::Fail(e)
    }

    fn read_listing(&mut self, step: ExchangeStep, status: u16, keys: Option<Vec<TokenItem>>) -> (a: Action)
        ensures
            (final(self)@, a@) == after_listing(
                old(self)@,
                step,
                status,
                match keys {
                    Some(k) => Some(k@),
                    None => None,
                },
            ),
    {
        if !(200 <= status && status <= 299) {
            let e = if status == 401 {
                CliError::Authorization
            } else {
                CliError::Protocol(status)
            };
            return self.fail(e);
        }
        match keys {
            None => self.fail(CliError::MalformedResponse),
            Some(ks) => {
                let key = find_api_key(&ks);
                if key.as_str().unicode_len() > 0 {
                    let cfg = AppConfig {
                        status: ConfigStatus::Configured,
                        comfy: self.comfy,
                        server_url: self.server_url.clone(),
                        os: self.os.clone(),
                        api_key: key.clone(),
                        token: TokenKind::ApiKey,
                    };
                    self.phase = Phase::KeyExchanged;
                    self.credential = key;
                    Action::Store(cfg)
                } else if step == ExchangeStep::Lookup {
                    let req = create_request(self.server_url.as_str(), self.credential.as_str());
                    self.phase = Phase::TokenObtained(ExchangeStep::Create);
                    Action::Send(req)
                } else {
                    self.fail(CliError::ContractViolation)
                }
            },
        }
    }

    /// Takes one transition on `event` and says what the caller is to do.
    pub fn step(&mut self, event: Event) -> (a: Action)
        ensures
            (final(self)@, a@) == next(old(self)@, event@),
    {
        match event {
            Event::Setup { server_url, username, password, os } => {
                if self.phase == Phase::NotConfigured || self.phase == Phase::Configured {
                    let req = login_request(server_url.as_str(), username.as_str(), password.as_str());
                    self.phase = Phase::Authenticating;
                    self.server_url = server_url;
                    self.os = os;
                    self.credential = String::new();
                    Action::Send(req)
                } else {
                    Action::Ignored
                }
            },
            Event::Logout => {
                if self.phase == Phase::NotConfigured || self.phase == Phase::Configured {
                    self.phase = Phase::NotConfigured;
                    self.credential = String::new();
                    Action::Store(AppConfig::default())
                } else {
                    Action::Ignored
                }
            },
            Event::LoginReply { status, token } => {
                if self.phase != Phase::Authenticating {
                    Action::Ignored
                } else if 200 <= status && status <= 299 {
                    match token {
                        Some(t) => {
                            let req = keys_request(self.server_url.as_str(), t.as_str());
                            self.phase = Phase::TokenObtained(ExchangeStep::Lookup);
                            self.credential = t;
                            Action::Send(req)
                        },
                        None => self.fail(CliError::MalformedResponse),
                    }
                } else if status == 401 {
                    self.fail(CliError::Authentication)
                } else {
                    self.fail(CliError::Protocol(status))
                }
            },
            Event::KeysReply { status, keys } => {
                if self.phase == Phase::TokenObtained(ExchangeStep::Lookup) {
                    self.read_listing(ExchangeStep::Lookup, status, keys)
                } else if self.phase == Phase::TokenObtained(ExchangeStep::Relookup) {
                    self.read_listing(ExchangeStep::Relookup, status, keys)
                } else {
                    Action::Ignored
                }
            },
            Event::CreateReply { status } => {
                if self.phase != Phase::TokenObtained(ExchangeStep::Create) {
                    Action::Ignored
                } else if 200 <= status && status <= 299 {
                    let req = keys_request(self.server_url.as_str(), self.credential.as_str());
                    self.phase = Phase::TokenObtained(ExchangeStep::Relookup);
                    Action::Send(req)
                } else if status == 401 {
                    self.fail(CliError::Authorization)
                } else {
                    self.fail(CliError::Protocol(status))
                }
            },
            Event::Stored => {
                if self.phase == Phase::KeyExchanged {
                    self.phase = Phase::Configured;
                    Action::Done
                } else {
                    Action::Ignored
                }
            },
        }
    }
}

} // verus!
