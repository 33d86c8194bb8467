//! Where a call goes and with which credential.

use vstd::prelude::*;
use crate::dispatch::{Method, Request, RequestView, pairs_view, plain_call};
use crate::json::{json_string_of, object, object_text, string_value};
use crate::text::join;

verus! {

/// The address of one endpoint on the server, and the key to call it with.
pub struct ServerInfo {
    pub server_url: String,
    pub api_key: String,
}

impl ServerInfo {
    /// `endpoint` on the server at `server_url`.
    pub fn new(endpoint: &str, server_url: &str, api_key: &str) -> (r: ServerInfo)
        ensures
            r.server_url@ == server_url@ + endpoint@,
            r.api_key@ == api_key@,
    {
        ServerInfo { server_url: join(server_url, endpoint), api_key: String::from_str(api_key) }
    }

    /// The GET of this endpoint with `query`.
    pub fn get(&self, query: Vec<(String, String)>) -> (r: Request)
        ensures
            r@ == (RequestView {
                query: pairs_view(query@),
                ..plain_call(Method::Get, self.server_url@, self.api_key@)
            }),
    {
        Request::get(self.server_url.clone(), query, self.api_key.as_str())
    }
}

/// The user listing endpoint and the key to call it with.
pub struct UserList {
    pub server_url: String,
    pub api_key: String,
}

impl UserList {
    /// `endpoint` on the server at `server_url`.
    pub fn new(endpoint: &str, server_url: &str, api_key: &str) -> (r: UserList)
        ensures
            r.server_url@ == server_url@ + endpoint@,
            r.api_key@ == api_key@,
    {
        UserList { server_url: join(server_url, endpoint), api_key: String::from_str(api_key) }
    }
}

/// The plugin listing endpoint and the key to call it with.
pub struct PluginInfo {
    pub server_url: String,
    pub api_key: String,
}

impl PluginInfo {
    /// `endpoint` on the server at `server_url`.
    pub fn new(endpoint: &str, server_url: &str, api_key: String) -> (r: PluginInfo)
        ensures
            r.server_url@ == server_url@ + endpoint@,
            r.api_key@ == api_key@,
    {
        PluginInfo { server_url: join(server_url, endpoint), api_key }
    }

    /// The call that lists the installed plugins.
    pub fn get_plugins(&self) -> (r: Request)
        ensures
            r@ == plain_call(Method::Get, self.server_url@, self.api_key@),
    {
        let r = Request::get(self.server_url.clone(), Vec::new(), self.api_key.as_str());
        assert(r@.query =~= Seq::empty());
        r
    }
}

/// One named log file on the server.
pub struct LogFile {
    pub server_info: ServerInfo,
    pub logname: String,
}

impl LogFile {
    pub fn new(server_info: ServerInfo, logname: String) -> (r: LogFile)
        ensures
            r.server_info.server_url@ == server_info.server_url@,
            r.server_info.api_key@ == server_info.api_key@,
            r.logname@ == logname@,
    {
        LogFile { server_info, logname }
    }

    /// The call that reads this log file.
    pub fn get_logfile(&self) -> (r: Request)
        ensures
            r@ == (RequestView {
                query: seq![("name"@, self.logname@)],
                ..plain_call(Method::Get, self.server_info.server_url@, self.server_info.api_key@)
            }),
    {
        let mut q: Vec<(String, String)> = Vec::new();
        q.push((String::from_str("name"), self.logname.clone()));
        let r = Request::get(self.server_info.server_url.clone(), q, self.server_info.api_key.as_str());
        assert(r@.query =~= seq![("name"@, self.logname@)]);
        r
    }
}

/// A user's name and passwords, with the endpoint they are sent to.
pub struct UserWithPass {
    pub username: Option<String>,
    pub pass: Option<String>,
    pub currentpwd: Option<String>,
    pub server_url: String,
    pub auth_key: String,
}

/// The text of an optional field, empty when absent.
pub open spec fn text_or_empty(o: Option<String>) -> Seq<char> {
    match o {
        Some(s) => s@,
        None => Seq::empty(),
    }
}

fn or_empty(o: Option<String>) -> (r: String)
    ensures
        r@ == text_or_empty(o),
{
    match o {
        Some(s) => s,
        None => String::new(),
    }
}

impl UserWithPass {
    /// Every text field is present, empty where none was given.
    pub fn new(
        username: Option<String>,
        pass: Option<String>,
        currentpwd: Option<String>,
        server_url: String,
        auth_key: String,
    ) -> (r: UserWithPass)
        ensures
            r.username is Some && r.username->0@ == text_or_empty(username),
            r.pass is Some && r.pass->0@ == text_or_empty(pass),
            r.currentpwd is Some && r.currentpwd->0@ == text_or_empty(currentpwd),
            r.server_url@ == server_url@,
            r.auth_key@ == auth_key@,
    {
        UserWithPass {
            username: Some(or_empty(username)),
            pass: Some(or_empty(pass)),
            currentpwd: Some(or_empty(currentpwd)),
            server_url,
            auth_key,
        }
    }

    /// The name and passwords as the server reads them; an absent field is
    /// sent empty.
    pub fn to_json(&self) -> (r: String)
        ensures
            r@ == credentials_text(
                text_or_empty(self.username),
                text_or_empty(self.pass),
                text_or_empty(self.currentpwd),
            ),
    {
        let mut members: Vec<(String, String)> = Vec::new();
        members.push((String::from_str("Name"), string_value(text_of(&self.username))));
        members.push((String::from_str("NewPw"), string_value(text_of(&self.pass))));
        members.push((String::from_str("CurrentPw"), string_value(text_of(&self.currentpwd))));
        assert(pairs_view(members@) =~= seq![
            ("Name"@, json_string_of(text_or_empty(self.username))),
            ("NewPw"@, json_string_of(text_or_empty(self.pass))),
            ("CurrentPw"@, json_string_of(text_or_empty(self.currentpwd))),
        ]);
        object(&members)
    }
}

fn text_of(o: &Option<String>) -> (r: &str)
    ensures
        r@ == text_or_empty(*o),
{
    match o {
        Some(s) => s.as_str(),
        None => {
            proof {
                reveal_strlit("");
            }
            ""
        },
    }
}

/// A user's name with a new and the current password, as the server reads
/// them.
pub open spec fn credentials_text(name: Seq<char>, new_pw: Seq<char>, current_pw: Seq<char>) -> Seq<char> {
    object_text(
        seq![
            ("Name"@, json_string_of(name)),
            ("NewPw"@, json_string_of(new_pw)),
            ("CurrentPw"@, json_string_of(current_pw)),
        ],
    )
}

/// A password login: the login endpoint, the user and the password.
pub struct UserAuth {
    pub server_url: String,
    pub username: String,
    pub pw: String,
}

impl UserAuth {
    /// The login of `username` on the server at `server_url`.
    pub fn new(server_url: &str, username: &str, password: String) -> (r: UserAuth)
        ensures
            r.server_url@ == server_url@ + "/Users/authenticatebyname"@,
            r.username@ == username@,
            r.pw@ == password@,
    {
        UserAuth {
            server_url: join(server_url, "/Users/authenticatebyname"),
            username: String::from_str(username),
            pw: password,
        }
    }
}

} // verus!
