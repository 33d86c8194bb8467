//! Requests of the resource commands that are built from the configuration
//! and what the user supplied, and the lookups between their calls.

use vstd::prelude::*;
use crate::config::AppConfig;
use crate::dispatch::{ContentType, Method, Request, RequestView, pairs_view, plain_call};
use crate::endpoint::{lookup, resolve, resolved};
use crate::entities::{DeviceDetails, Policy, RepositoryDetails, UserDetails};
use crate::json::{
    array, array_text, bool_text, bool_value, json_string_of, object, object_text, string_value,
    texts_view,
};
use crate::server_info::{UserList, UserWithPass, credentials_text};
use crate::text::{join, text_eq};

verus! {

/// Which of an item's images is meant.
#[derive(Clone, Copy, Debug, PartialEq, Eq, Structural)]
pub enum ImageType {
    Primary,
    Art,
    Backdrop,
    Banner,
    Logo,
    Thumb,
    Disc,
    Box,
    Screenshot,
    Menu,
    BoxRear,
    Profile,
}

pub open spec fn image_type_text(t: ImageType) -> Seq<char> {
    match t {
        ImageType::Primary => "Primary"@,
        ImageType::Art => "Art"@,
        ImageType::Backdrop => "Backdrop"@,
        ImageType::Banner => "Banner"@,
        ImageType::Logo => "Logo"@,
        ImageType::Thumb => "Thumb"@,
        ImageType::Disc => "Disc"@,
        ImageType::Box => "Box"@,
        ImageType::Screenshot => "Screenshot"@,
        ImageType::Menu => "Menu"@,
        ImageType::BoxRear => "BoxRear"@,
        ImageType::Profile => "Profile"@,
    }
}

impl ImageType {
    /// The name the server knows the image type by.
    pub fn as_text(&self) -> (r: &'static str)
        ensures
            r@ == image_type_text(*self),
    {
        match self {
            ImageType::Primary => "Primary",
            ImageType::Art => "Art",
            ImageType::Backdrop => "Backdrop",
            ImageType::Banner => "Banner",
            ImageType::Logo => "Logo",
            ImageType::Thumb => "Thumb",
            ImageType::Disc => "Disc",
            ImageType::Box => "Box",
            ImageType::Screenshot => "Screenshot",
            ImageType::Menu => "Menu",
            ImageType::BoxRear => "BoxRear",
            ImageType::Profile => "Profile",
        }
    }
}

/// The padded standard base64 text of `b`.
pub uninterp spec fn base64_of(b: Seq<u8>) -> Seq<char>;

/// Relies on base64's `general_purpose::STANDARD` engine and its `encode`:
/// the standard alphabet with padding, as a function of the bytes alone.
#[verifier::external_body]
fn encode_base64(b: &Vec<u8>) -> (r: String)
    ensures
        r@ == base64_of(b@),
{
    base64::Engine::encode(&base64::engine::general_purpose::STANDARD, b)
}

/// A GET of `path` on the configured server, with the configured key.
pub open spec fn config_get(cfg: AppConfig, path: Seq<char>) -> RequestView {
    plain_call(Method::Get, cfg.server_url@ + path, cfg.api_key@)
}

/// A JSON POST of `body` to `url`, with the configured key.
pub open spec fn config_post(cfg: AppConfig, url: Seq<char>, body: Seq<char>) -> RequestView {
    RequestView {
        content_type: ContentType::Json,
        body,
        ..plain_call(Method::Post, url, cfg.api_key@)
    }
}

fn get_path(cfg: &AppConfig, path: &str) -> (r: Request)
    ensures
        r@ == config_get(*cfg, path@),
{
    let r = Request::get(join(cfg.server_url.as_str(), path), Vec::new(), cfg.api_key.as_str());
    assert(r@.query =~= Seq::empty());
    r
}

fn post_json(cfg: &AppConfig, url: String, body: String) -> (r: Request)
    ensures
        r@ == config_post(*cfg, url@, body@),
{
    let r = Request::post(url, Vec::new(), body, ContentType::Json, cfg.api_key.as_str());
    assert(r@.query =~= Seq::empty());
    r
}

/// The call that lists the available packages.
pub fn command_get_packages(cfg: &AppConfig) -> (r: Request)
    ensures
        r@ == config_get(*cfg, "/Packages"@),
{
    get_path(cfg, "/Packages")
}

/// The call that lists the plugin repositories.
pub fn command_get_repositories(cfg: &AppConfig) -> (r: Request)
    ensures
        r@ == config_get(*cfg, "/Repositories"@),
{
    get_path(cfg, "/Repositories")
}

/// `s` with every space written as `%20`.
pub open spec fn spaces_encoded(s: Seq<char>) -> Seq<char>
    decreases s.len(),
{
    if s.len() == 0 {
        Seq::empty()
    } else {
        spaces_encoded(s.drop_last()) + if s.last() == ' ' {
            "%20"@
        } else {
            seq![s.last()]
        }
    }
}

/// Writes every space of `s` as `%20`.
pub fn encode_spaces(s: &str) -> (r: String)
    ensures
        r@ == spaces_encoded(s@),
{
    let n = s.unicode_len();
    let mut out = String::new();
    let mut i: usize = 0;
    while i < n
        invariant
            n == s@.len(),
            i <= n,
            out@ == spaces_encoded(s@.subrange(0, i as int)),
        decreases n - i,
    {
        let c = s.get_char(i);
        assert(s@.subrange(0, i + 1).drop_last() =~= s@.subrange(0, i as int));
        if c == ' ' {
            out.append("%20");
        } else {
            let one = s.substring_char(i, i + 1);
            assert(one@ =~= seq![c]);
            out.append(one);
        }
        i = i + 1;
    }
    assert(s@.subrange(0, n as int) =~= s@);
    out
}

/// The query of a package installation: the version and the repository, each
/// only when given.
pub open spec fn install_query(version: Seq<char>, repository: Seq<char>) -> Seq<(Seq<char>, Seq<char>)> {
    (if version.len() > 0 {
        seq![("version"@, version)]
    } else {
        Seq::empty()
    }) + (if repository.len() > 0 {
        seq![("repositoryUrl"@, repository)]
    } else {
        Seq::empty()
    })
}

pub open spec fn install_url(cfg: AppConfig, package: Seq<char>) -> Seq<char> {
    resolved(
        cfg.server_url@,
        "/Packages/Installed/{package}"@,
        seq![("package"@, spaces_encoded(package))],
    )
}

/// The call that installs `package`, its name with spaces encoded, from
/// `repository` at `version` where those are given.
pub fn command_install_package(cfg: &AppConfig, package: &str, version: &str, repository: &str) -> (r: Request)
    ensures
        r@ == (RequestView {
            query: install_query(version@, repository@),
            ..plain_call(Method::Post, install_url(*cfg, package@), cfg.api_key@)
        }),
{
    let mut params: Vec<(String, String)> = Vec::new();
    params.push((String::from_str("package"), encode_spaces(package)));
    assert(pairs_view(params@) =~= seq![("package"@, spaces_encoded(package@))]);
    let url = resolve(cfg.server_url.as_str(), "/Packages/Installed/{package}", &params);
    let mut query: Vec<(String, String)> = Vec::new();
    if version.unicode_len() > 0 {
        query.push((String::from_str("version"), String::from_str(version)));
    }
    if repository.unicode_len() > 0 {
        query.push((String::from_str("repositoryUrl"), String::from_str(repository)));
    }
    let r = Request::post(url, query, String::new(), ContentType::NoBody, cfg.api_key.as_str());
    assert(r@.query =~= install_query(version@, repository@));
    r
}

/// A repository as the server reads it.
pub open spec fn repository_text(name: Seq<char>, url: Seq<char>, enabled: bool) -> Seq<char> {
    object_text(
        seq![
            ("Name"@, json_string_of(name)),
            ("Url"@, json_string_of(url)),
            ("Enabled"@, bool_text(enabled)),
        ],
    )
}

pub open spec fn repositories_text(repos: Seq<RepositoryDetails>) -> Seq<Seq<char>> {
    repos.map_values(|r: RepositoryDetails| repository_text(r.name@, r.url@, r.enabled))
}

fn repository_json(r: &RepositoryDetails) -> (t: String)
    ensures
        t@ == repository_text(r.name@, r.url@, r.enabled),
{
    let mut members: Vec<(String, String)> = Vec::new();
    members.push((String::from_str("Name"), string_value(r.name.as_str())));
    members.push((String::from_str("Url"), string_value(r.url.as_str())));
    members.push((String::from_str("Enabled"), bool_value(r.enabled)));
    assert(pairs_view(members@) =~= seq![
        ("Name"@, json_string_of(r.name@)),
        ("Url"@, json_string_of(r.url@)),
        ("Enabled"@, bool_text(r.enabled)),
    ]);
    object(&members)
}

/// The call that replaces the server's repositories with `repos` and a new,
/// enabled repository called `name` at `path`.
pub fn command_register_repository(cfg: &AppConfig, repos: &Vec<RepositoryDetails>, name: String, path: String) -> (r: Request)
    ensures
        r@ == config_post(
            *cfg,
            cfg.server_url@ + "/Repositories"@,
            array_text(repositories_text(repos@).push(repository_text(name@, path@, true))),
        ),
{
    let mut items: Vec<String> = Vec::new();
    let mut i: usize = 0;
    while i < repos.len()
        invariant
            i <= repos.len(),
            texts_view(items@) =~= repositories_text(repos@.subrange(0, i as int)),
        decreases repos.len() - i,
    {
        let t = repository_json(&repos[i]);
        items.push(t);
        assert(repositories_text(repos@.subrange(0, i + 1)) =~= repositories_text(
            repos@.subrange(0, i as int),
        ).push(repository_text(repos@[i as int].name@, repos@[i as int].url@, repos@[i as int].enabled)));
        i = i + 1;
    }
    assert(repos@.subrange(0, repos.len() as int) =~= repos@);
    let added = RepositoryDetails::new(name, path, true);
    items.push(repository_json(&added));
    assert(texts_view(items@) =~= repositories_text(repos@).push(repository_text(name@, path@, true)));
    let body = array(&items);
    post_json(cfg, join(cfg.server_url.as_str(), "/Repositories"), body)
}

/// The id of the first user called `name`.
pub open spec fn user_id_in(users: Seq<UserDetails>, name: Seq<char>) -> Option<Seq<char>>
    decreases users.len(),
{
    if users.len() == 0 {
        None
    } else if users[0].name@ == name {
        Some(users[0].id@)
    } else {
        user_id_in(users.drop_first(), name)
    }
}

impl UserList {
    /// The id of the first user in `users` called `username`; none when no
    /// user has that name.
    pub fn get_user_id(users: &Vec<UserDetails>, username: &str) -> (r: Option<String>)
        ensures
            match r {
                Some(id) => user_id_in(users@, username@) == Some(id@),
                None => user_id_in(users@, username@) is None,
            },
    {
        let mut k: usize = 0;
        assert(users@.subrange(0, users.len() as int) =~= users@);
        while k < users.len()
            invariant
                k <= users.len(),
                user_id_in(users@, username@) == user_id_in(
                    users@.subrange(k as int, users.len() as int),
                    username@,
                ),
            decreases users.len() - k,
        {
            if text_eq(users[k].name.as_str(), username) {
                return Some(users[k].id.clone());
            }
            assert(users@.subrange(k as int, users.len() as int).drop_first() =~= users@.subrange(
                k + 1,
                users.len() as int,
            ));
            k = k + 1;
        }
        None
    }

    /// The call that reads this endpoint's user, such as the current one.
    pub fn get_current_user_information(&self) -> (r: Request)
        ensures
            r@ == plain_call(Method::Get, self.server_url@, self.api_key@),
    {
        let r = Request::get(self.server_url.clone(), Vec::new(), self.api_key.as_str());
        assert(r@.query =~= Seq::empty());
        r
    }
}

/// The call that lists the users at `users_endpoint`.
pub fn list_users_request(cfg: &AppConfig, users_endpoint: &str) -> (r: Request)
    ensures
        r@ == config_get(*cfg, users_endpoint@),
{
    get_path(cfg, users_endpoint)
}

/// `template` on the configured server, for the user with `id`.
pub open spec fn user_url(cfg: AppConfig, template: Seq<char>, id: Seq<char>) -> Seq<char> {
    resolved(cfg.server_url@, template, seq![("userId"@, id)])
}

fn user_url_of(cfg: &AppConfig, template: &str, id: &str) -> (r: String)
    ensures
        r@ == user_url(*cfg, template@, id@),
{
    let mut params: Vec<(String, String)> = Vec::new();
    params.push((String::from_str("userId"), String::from_str(id)));
    assert(pairs_view(params@) =~= seq![("userId"@, id@)]);
    resolve(cfg.server_url.as_str(), template, &params)
}

/// The call that reads the user with `id` through `user_id_endpoint`.
pub fn user_information_request(cfg: &AppConfig, user_id_endpoint: &str, id: &str) -> (r: Request)
    ensures
        r@ == plain_call(Method::Get, user_url(*cfg, user_id_endpoint@, id@), cfg.api_key@),
{
    let r = Request::get(user_url_of(cfg, user_id_endpoint, id), Vec::new(), cfg.api_key.as_str());
    assert(r@.query =~= Seq::empty());
    r
}

/// Which policy flag a change sets.
#[derive(Clone, Copy, Debug, PartialEq, Eq, Structural)]
pub enum UserMods {
    Admin,
    Active,
}

/// A policy as the server reads it.
pub open spec fn policy_text(auth: Seq<char>, reset: Seq<char>, is_admin: bool, is_disabled: bool) -> Seq<char> {
    object_text(
        seq![
            ("AuthenticationProviderId"@, json_string_of(auth)),
            ("PasswordResetProviderId"@, json_string_of(reset)),
            ("IsAdministrator"@, bool_text(is_admin)),
            ("IsDisabled"@, bool_text(is_disabled)),
        ],
    )
}

/// The policy of `p` with the administrator flag, or the disabled flag, set
/// to `flag`.
pub open spec fn changed_policy_text(p: Policy, mod_type: UserMods, flag: bool) -> Seq<char> {
    match mod_type {
        UserMods::Admin => policy_text(p.auth_provider_id@, p.pass_reset_provider_id@, flag, p.is_disabled),
        UserMods::Active => policy_text(p.auth_provider_id@, p.pass_reset_provider_id@, p.is_admin, flag),
    }
}

/// The call that stores `user`'s policy with one flag changed.
pub open spec fn policy_call(cfg: AppConfig, user: UserDetails, endpoint: Seq<char>, mod_type: UserMods, flag: bool) -> RequestView {
    config_post(cfg, user_url(cfg, endpoint, user.id@), changed_policy_text(user.policy, mod_type, flag))
}

fn modify_user(cfg: &AppConfig, user: &UserDetails, user_policy_endpoint: &str, mod_type: UserMods, flag: bool) -> (r: Request)
    ensures
        r@ == policy_call(*cfg, *user, user_policy_endpoint@, mod_type, flag),
{
    let p = &user.policy;
    let (is_admin, is_disabled) = match mod_type {
        UserMods::Admin => (flag, p.is_disabled),
        UserMods::Active => (p.is_admin, flag),
    };
    let mut members: Vec<(String, String)> = Vec::new();
    members.push((String::from_str("AuthenticationProviderId"), string_value(p.auth_provider_id.as_str())));
    members.push((String::from_str("PasswordResetProviderId"), string_value(p.pass_reset_provider_id.as_str())));
    members.push((String::from_str("IsAdministrator"), bool_value(is_admin)));
    members.push((String::from_str("IsDisabled"), bool_value(is_disabled)));
    assert(pairs_view(members@) =~= seq![
        ("AuthenticationProviderId"@, json_string_of(p.auth_provider_id@)),
        ("PasswordResetProviderId"@, json_string_of(p.pass_reset_provider_id@)),
        ("IsAdministrator"@, bool_text(is_admin)),
        ("IsDisabled"@, bool_text(is_disabled)),
    ]);
    let body = object(&members);
    post_json(cfg, user_url_of(cfg, user_policy_endpoint, user.id.as_str()), body)
}

/// The call that disables `user`.
pub fn command_disable_user(cfg: &AppConfig, user: &UserDetails, user_policy_endpoint: &str) -> (r: Request)
    ensures
        r@ == policy_call(*cfg, *user, user_policy_endpoint@, UserMods::Active, true),
{
    modify_user(cfg, user, user_policy_endpoint, UserMods::Active, true)
}

/// The call that enables `user`.
pub fn command_enable_user(cfg: &AppConfig, user: &UserDetails, user_policy_endpoint: &str) -> (r: Request)
    ensures
        r@ == policy_call(*cfg, *user, user_policy_endpoint@, UserMods::Active, false),
{
    modify_user(cfg, user, user_policy_endpoint, UserMods::Active, false)
}

/// The call that makes `user` an administrator.
pub fn command_grant_admin(cfg: &AppConfig, user: &UserDetails, user_policy_endpoint: &str) -> (r: Request)
    ensures
        r@ == policy_call(*cfg, *user, user_policy_endpoint@, UserMods::Admin, true),
{
    modify_user(cfg, user, user_policy_endpoint, UserMods::Admin, true)
}

/// The call that takes administrator rights from `user`.
pub fn command_revoke_admin(cfg: &AppConfig, user: &UserDetails, user_policy_endpoint: &str) -> (r: Request)
    ensures
        r@ == policy_call(*cfg, *user, user_policy_endpoint@, UserMods::Admin, false),
{
    modify_user(cfg, user, user_policy_endpoint, UserMods::Admin, false)
}

/// A new user's name and password as the server reads them.
pub open spec fn new_user_text(username: Seq<char>, password: Seq<char>) -> Seq<char> {
    credentials_text(username, password, Seq::empty())
}


/// The call that creates a user called `username` with `password`.
pub fn command_add_user(cfg: &AppConfig, username: String, password: String) -> (r: Request)
    ensures
        r@ == config_post(*cfg, cfg.server_url@ + "/Users/New"@, new_user_text(username@, password@)),
{
    let url = join(cfg.server_url.as_str(), "/Users/New");
    let user = UserWithPass::new(Some(username), Some(password), None, url, cfg.api_key.clone());
    let body = user.to_json();
    post_json(cfg, user.server_url, body)
}

/// Where the `kind` image of the item with `id` is uploaded.
pub open spec fn image_url(cfg: AppConfig, id: Seq<char>, kind: ImageType) -> Seq<char> {
    resolved(
        cfg.server_url@,
        "/Items/{itemId}/Images/{imageType}"@,
        seq![("itemId"@, id), ("imageType"@, image_type_text(kind))],
    )
}

/// The upload of an image, already in base64, as the `kind` image of the item
/// with `id`.
pub open spec fn image_call(cfg: AppConfig, id: Seq<char>, kind: ImageType, img_base64: Seq<char>) -> RequestView {
    RequestView {
        content_type: ContentType::Png,
        body: img_base64,
        ..plain_call(Method::Post, image_url(cfg, id, kind), cfg.api_key@)
    }
}

/// The call that uploads `img_base64` as the `imagetype` image of the item
/// with `id`.
pub fn update_image(cfg: &AppConfig, id: &str, imagetype: ImageType, img_base64: String) -> (r: Request)
    ensures
        r@ == image_call(*cfg, id@, imagetype, img_base64@),
{
    let mut params: Vec<(String, String)> = Vec::new();
    params.push((String::from_str("itemId"), String::from_str(id)));
    params.push((String::from_str("imageType"), String::from_str(imagetype.as_text())));
    assert(pairs_view(params@) =~= seq![("itemId"@, id@), ("imageType"@, image_type_text(imagetype))]);
    let url = resolve(cfg.server_url.as_str(), "/Items/{itemId}/Images/{imageType}", &params);
    let r = Request::post(url, Vec::new(), img_base64, ContentType::Png, cfg.api_key.as_str());
    assert(r@.query =~= Seq::empty());
    r
}

/// The call that uploads the PNG image `png`, in base64, as the `imagetype`
/// image of the item with `id`.
pub fn command_update_image_by_id(cfg: &AppConfig, id: &str, png: &Vec<u8>, imagetype: ImageType) -> (r: Request)
    ensures
        r@ == image_call(*cfg, id@, imagetype, base64_of(png@)),
{
    let img = encode_base64(png);
    update_image(cfg, id, imagetype, img)
}

/// The call that sets a new `password` for the user with `user_id`.
pub fn command_reset_password(cfg: &AppConfig, user_id: &str, password: &str) -> (r: Request)
    ensures
        r@ == config_post(
            *cfg,
            user_url(*cfg, "/Users/{userId}/Password"@, user_id@),
            credentials_text(Seq::empty(), password@, Seq::empty()),
        ),
{
    let url = user_url_of(cfg, "/Users/{userId}/Password", user_id);
    let user = UserWithPass::new(None, Some(String::from_str(password)), Some(String::new()), url, cfg.api_key.clone());
    let body = user.to_json();
    post_json(cfg, user.server_url, body)
}

/// The call that deletes the user with `user_id`.
pub fn command_delete_user(cfg: &AppConfig, user_id: &str) -> (r: Request)
    ensures
        r@ == plain_call(Method::Delete, user_url(*cfg, "/Users/{userId}"@, user_id@), cfg.api_key@),
{
    let r = Request::delete(user_url_of(cfg, "/Users/{userId}", user_id), Vec::new(), cfg.api_key.as_str());
    assert(r@.query =~= Seq::empty());
    r
}

/// A user's record as the server reads it.
pub open spec fn user_text(u: UserDetails) -> Seq<char> {
    object_text(
        seq![
            ("Name"@, json_string_of(u.name@)),
            ("ServerId"@, json_string_of(u.serverid@)),
            ("Id"@, json_string_of(u.id@)),
            ("Policy"@, changed_policy_text(u.policy, UserMods::Admin, u.policy.is_admin)),
        ],
    )
}

/// The two calls that store `info` for the user with `id`: the record itself
/// at `user_id_endpoint`, then its policy below it.
pub fn update_user_info(cfg: &AppConfig, user_id_endpoint: &str, id: &str, info: &UserDetails) -> (r: (Request, Request))
    ensures
        r.0@ == config_post(*cfg, user_url(*cfg, user_id_endpoint@, id@), user_text(*info)),
        r.1@ == config_post(
            *cfg,
            user_url(*cfg, user_id_endpoint@ + "/Policy"@, id@),
            changed_policy_text(info.policy, UserMods::Admin, info.policy.is_admin),
        ),
{
    let policy_req = modify_user_at(cfg, info, user_id_endpoint, id);
    let mut members: Vec<(String, String)> = Vec::new();
    members.push((String::from_str("Name"), string_value(info.name.as_str())));
    members.push((String::from_str("ServerId"), string_value(info.serverid.as_str())));
    members.push((String::from_str("Id"), string_value(info.id.as_str())));
    let ghost pol = changed_policy_text(info.policy, UserMods::Admin, info.policy.is_admin);
    members.push((String::from_str("Policy"), policy_req.body.clone()));
    assert(pairs_view(members@) =~= seq![
        ("Name"@, json_string_of(info.name@)),
        ("ServerId"@, json_string_of(info.serverid@)),
        ("Id"@, json_string_of(info.id@)),
        ("Policy"@, pol),
    ]);
    let body = object(&members);
    (post_json(cfg, user_url_of(cfg, user_id_endpoint, id), body), policy_req)
}

fn modify_user_at(cfg: &AppConfig, info: &UserDetails, user_id_endpoint: &str, id: &str) -> (r: Request)
    ensures
        r@ == config_post(
            *cfg,
            user_url(*cfg, user_id_endpoint@ + "/Policy"@, id@),
            changed_policy_text(info.policy, UserMods::Admin, info.policy.is_admin),
        ),
{
    let p = &info.policy;
    let mut members: Vec<(String, String)> = Vec::new();
    members.push((String::from_str("AuthenticationProviderId"), string_value(p.auth_provider_id.as_str())));
    members.push((String::from_str("PasswordResetProviderId"), string_value(p.pass_reset_provider_id.as_str())));
    members.push((String::from_str("IsAdministrator"), bool_value(p.is_admin)));
    members.push((String::from_str("IsDisabled"), bool_value(p.is_disabled)));
    assert(pairs_view(members@) =~= seq![
        ("AuthenticationProviderId"@, json_string_of(p.auth_provider_id@)),
        ("PasswordResetProviderId"@, json_string_of(p.pass_reset_provider_id@)),
        ("IsAdministrator"@, bool_text(p.is_admin)),
        ("IsDisabled"@, bool_text(p.is_disabled)),
    ]);
    let body = object(&members);
    let template = join(user_id_endpoint, "/Policy");
    post_json(cfg, user_url_of(cfg, template.as_str(), id), body)
}

/// End of the comma-separated field that starts at `i`.
pub open spec fn field_end(s: Seq<char>, i: int) -> int
    decreases s.len() - i,
{
    if i >= s.len() || i < 0 {
        s.len() as int
    } else if s[i] == ',' {
        i
    } else {
        field_end(s, i + 1)
    }
}

/// The name and password of a `name,password` line: its first two
/// comma-separated fields; none when the line holds no comma.
pub open spec fn user_line(line: Seq<char>) -> Option<(Seq<char>, Seq<char>)> {
    let e = field_end(line, 0);
    if e >= line.len() {
        None
    } else {
        Some((line.subrange(0, e), line.subrange(e + 1, field_end(line, e + 1))))
    }
}

proof fn lemma_field_end_range(s: Seq<char>, i: int)
    requires
        0 <= i,
    ensures
        i <= field_end(s, i) <= s.len() || (i > s.len() && field_end(s, i) == s.len()),
    decreases s.len() - i,
{
    if i < s.len() && s[i] != ',' {
        lemma_field_end_range(s, i + 1);
    }
}

fn scan_field(line: &str, n: usize, start: usize) -> (e: usize)
    requires
        n == line@.len(),
        start <= n,
    ensures
        e == field_end(line@, start as int),
{
    let mut e = start;
    while e < n && line.get_char(e) != ','
        invariant
            n == line@.len(),
            start <= e <= n,
            field_end(line@, start as int) == field_end(line@, e as int),
        decreases n - e,
    {
        e = e + 1;
    }
    e
}

/// Splits a `name,password` line of a user file.
pub fn parse_user_line(line: &str) -> (r: Option<(String, String)>)
    ensures
        match r {
            Some(p) => user_line(line@) == Some((p.0@, p.1@)),
            None => user_line(line@) is None,
        },
{
    let n = line.unicode_len();
    let e = scan_field(line, n, 0);
    if e >= n {
        return None;
    }
    let f = scan_field(line, n, e + 1);
    proof {
        lemma_field_end_range(line@, (e + 1) as int);
    }
    let name = String::from_str(line.substring_char(0, e));
    let password = String::from_str(line.substring_char(e + 1, f));
    Some((name, password))
}

/// Where an export is written: `output` when given, else a name made from
/// `username`, or a general name when there is none.
pub open spec fn export_path(output: Seq<char>, username: Seq<char>) -> Seq<char> {
    if output.len() > 0 {
        output
    } else if username.len() == 0 {
        "exported-user-info.json"@
    } else {
        "exported-user-info-"@ + username + ".json"@
    }
}

/// The file that a user export is written to.
pub fn export_filename(output: &str, username: &str) -> (r: String)
    ensures
        r@ == export_path(output@, username@),
{
    if output.unicode_len() > 0 {
        String::from_str(output)
    } else if username.unicode_len() == 0 {
        String::from_str("exported-user-info.json")
    } else {
        let mut r = String::from_str("exported-user-info-");
        r.append(username);
        r.append(".json");
        r
    }
}

/// The ids of the devices last used by `username`, in order.
pub open spec fn device_ids_of(devices: Seq<DeviceDetails>, username: Seq<char>) -> Seq<Seq<char>>
    decreases devices.len(),
{
    if devices.len() == 0 {
        Seq::empty()
    } else {
        let rest = device_ids_of(devices.drop_last(), username);
        if devices.last().lastusername@ == username {
            rest.push(devices.last().id@)
        } else {
            rest
        }
    }
}

/// The ids of the devices last used by `username`.
pub fn get_deviceid_by_username(devices: &Vec<DeviceDetails>, username: &str) -> (r: Vec<String>)
    ensures
        texts_view(r@) == device_ids_of(devices@, username@),
{
    let mut ids: Vec<String> = Vec::new();
    let mut i: usize = 0;
    while i < devices.len()
        invariant
            i <= devices.len(),
            texts_view(ids@) =~= device_ids_of(devices@.subrange(0, i as int), username@),
        decreases devices.len() - i,
    {
        assert(devices@.subrange(0, i + 1).drop_last() =~= devices@.subrange(0, i as int));
        if text_eq(devices[i].lastusername.as_str(), username) {
            ids.push(devices[i].id.clone());
        }
        i = i + 1;
    }
    assert(devices@.subrange(0, devices.len() as int) =~= devices@);
    ids
}

/// The call that removes the device with `id`.
pub fn remove_device(cfg: &AppConfig, devices_endpoint: &str, id: &str) -> (r: Request)
    ensures
        r@ == (RequestView {
            query: seq![("id"@, id@)],
            ..plain_call(Method::Delete, cfg.server_url@ + devices_endpoint@, cfg.api_key@)
        }),
{
    let mut q: Vec<(String, String)> = Vec::new();
    q.push((String::from_str("id"), String::from_str(id)));
    let r = Request::delete(join(cfg.server_url.as_str(), devices_endpoint), q, cfg.api_key.as_str());
    assert(r@.query =~= seq![("id"@, id@)]);
    r
}

/// The empty POST to `endpoint` that restarts or shuts down the server.
pub fn restart_or_shutdown(cfg: &AppConfig, endpoint: &str) -> (r: Request)
    ensures
        r@ == plain_call(Method::Post, cfg.server_url@ + endpoint@, cfg.api_key@),
{
    let r = Request::post(
        join(cfg.server_url.as_str(), endpoint),
        Vec::new(),
        String::new(),
        ContentType::NoBody,
        cfg.api_key.as_str(),
    );
    assert(r@.query =~= Seq::empty());
    r
}

/// The call that starts the scheduled task with `taskid`.
pub fn execute_task_by_id(cfg: &AppConfig, taskid: &str) -> (r: Request)
    ensures
        r@ == plain_call(
            Method::Post,
            resolved(cfg.server_url@, "/ScheduledTasks/Running/{taskId}"@, seq![("taskId"@, taskid@)]),
            cfg.api_key@,
        ),
{
    let mut params: Vec<(String, String)> = Vec::new();
    params.push((String::from_str("taskId"), String::from_str(taskid)));
    assert(pairs_view(params@) =~= seq![("taskId"@, taskid@)]);
    let url = resolve(cfg.server_url.as_str(), "/ScheduledTasks/Running/{taskId}", &params);
    let r = Request::post(url, Vec::new(), String::new(), ContentType::NoBody, cfg.api_key.as_str());
    assert(r@.query =~= Seq::empty());
    r
}

/// `s` in lower case.
pub uninterp spec fn lower_of(s: Seq<char>) -> Seq<char>;

/// Relies on `str::to_lowercase`: the lower case of each character, which
/// depends on the text alone.
#[verifier::external_body]
fn lowercase(s: &str) -> (r: String)
    ensures
        r@ == lower_of(s@),
{
    s.to_lowercase()
}

/// The id paired with the first name equal to `name`.
pub fn first_id_named(tasks: &Vec<(String, String)>, name: &str) -> (r: Option<String>)
    ensures
        match r {
            Some(id) => lookup(pairs_view(tasks@), name@) == Some(id@),
            None => lookup(pairs_view(tasks@), name@) is None,
        },
{
    let ghost ps = pairs_view(tasks@);
    let mut k: usize = 0;
    assert(ps.subrange(0, tasks.len() as int) =~= ps);
    while k < tasks.len()
        invariant
            k <= tasks.len(),
            ps == pairs_view(tasks@),
            lookup(ps, name@) == lookup(ps.subrange(k as int, tasks.len() as int), name@),
        decreases tasks.len() - k,
    {
        if text_eq(tasks[k].0.as_str(), name) {
            return Some(tasks[k].1.clone());
        }
        assert(ps.subrange(k as int, tasks.len() as int).drop_first() =~= ps.subrange(
            k + 1,
            tasks.len() as int,
        ));
        k = k + 1;
    }
    None
}

/// Pairs of a name in lower case and an id.
pub open spec fn folded_pairs(tasks: Seq<(String, String)>) -> Seq<(Seq<char>, Seq<char>)> {
    tasks.map_values(|t: (String, String)| (lower_of(t.0@), t.1@))
}

/// The id of the first task, of the `(name, id)` pairs in `tasks`, whose name
/// equals `taskname` but for case.
pub fn get_taskid_by_taskname(tasks: &Vec<(String, String)>, taskname: &str) -> (r: Option<String>)
    ensures
        match r {
            Some(id) => lookup(folded_pairs(tasks@), lower_of(taskname@)) == Some(id@),
            None => lookup(folded_pairs(tasks@), lower_of(taskname@)) is None,
        },
{
    let mut folded: Vec<(String, String)> = Vec::new();
    let mut i: usize = 0;
    while i < tasks.len()
        invariant
            i <= tasks.len(),
            pairs_view(folded@) =~= folded_pairs(tasks@.subrange(0, i as int)),
        decreases tasks.len() - i,
    {
        let name = lowercase(tasks[i].0.as_str());
        folded.push((name, tasks[i].1.clone()));
        assert(folded_pairs(tasks@.subrange(0, i + 1)) =~= folded_pairs(tasks@.subrange(0, i as int)).push(
            (lower_of(tasks@[i as int].0@), tasks@[i as int].1@),
        ));
        i = i + 1;
    }
    assert(tasks@.subrange(0, tasks.len() as int) =~= tasks@);
    let target = lowercase(taskname);
    first_id_named(&folded, target.as_str())
}

} // verus!
