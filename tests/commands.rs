use jellyroller::commands::{
    command_delete_user, command_reset_password, execute_task_by_id, export_filename,
    get_deviceid_by_username, get_taskid_by_taskname, parse_user_line, remove_device,
    restart_or_shutdown, update_user_info, command_add_user, command_disable_user, command_enable_user, command_get_packages,
    command_get_repositories, command_grant_admin, command_install_package,
    command_register_repository, command_revoke_admin, command_update_image_by_id, encode_spaces,
    list_users_request, user_information_request, ImageType,
};
use jellyroller::config::{AppConfig, ConfigStatus, TokenKind};
use jellyroller::dispatch::{ContentType, Method};
use jellyroller::entities::{
    DeviceDetails, LibraryDetails, LogDetails, Policy, RepositoryDetails, UserDetails,
};
use jellyroller::json::{array, object};
use jellyroller::server_info::{LogFile, PluginInfo, ServerInfo, UserAuth, UserList, UserWithPass};

fn cfg() -> AppConfig {
    AppConfig {
        status: ConfigStatus::Configured,
        comfy: true,
        server_url: "http://h".to_string(),
        os: "linux".to_string(),
        api_key: "K".to_string(),
        token: TokenKind::ApiKey,
    }
}

fn user(name: &str, id: &str) -> UserDetails {
    UserDetails {
        name: name.to_string(),
        serverid: "s".to_string(),
        id: id.to_string(),
        policy: Policy {
            auth_provider_id: "A".to_string(),
            pass_reset_provider_id: "R".to_string(),
            is_admin: false,
            is_disabled: false,
        },
    }
}

#[test]
fn packages_and_repositories_are_gets() {
    let p = command_get_packages(&cfg());
    assert_eq!(p.method, Method::Get);
    assert_eq!(p.url, "http://h/Packages");
    assert_eq!(p.authorization, "MediaBrowser Token=\"K\"");
    assert_eq!(command_get_repositories(&cfg()).url, "http://h/Repositories");
}

#[test]
fn install_package_encodes_name() {
    let r = command_install_package(&cfg(), "My Plugin", "1.0", "");
    assert_eq!(r.method, Method::Post);
    assert_eq!(r.url, "http://h/Packages/Installed/My%20Plugin");
    assert_eq!(r.query, vec![("version".to_string(), "1.0".to_string())]);
    let r = command_install_package(&cfg(), "P", "", "http://repo");
    assert_eq!(r.query, vec![("repositoryUrl".to_string(), "http://repo".to_string())]);
    assert_eq!(encode_spaces("a b  c"), "a%20b%20%20c");
}

#[test]
fn register_repository_appends() {
    let repos = vec![RepositoryDetails::new("Old".to_string(), "http://o".to_string(), false)];
    let r = command_register_repository(&cfg(), &repos, "New".to_string(), "http://n".to_string());
    assert_eq!(r.url, "http://h/Repositories");
    assert_eq!(r.content_type, ContentType::Json);
    assert_eq!(
        r.body,
        "[{\"Name\":\"Old\",\"Url\":\"http://o\",\"Enabled\":false},{\"Name\":\"New\",\"Url\":\"http://n\",\"Enabled\":true}]"
    );
}

#[test]
fn policy_changes() {
    let u = user("bob", "42");
    let d = command_disable_user(&cfg(), &u, "/Users/{userId}/Policy");
    assert_eq!(d.url, "http://h/Users/42/Policy");
    assert_eq!(
        d.body,
        "{\"AuthenticationProviderId\":\"A\",\"PasswordResetProviderId\":\"R\",\"IsAdministrator\":false,\"IsDisabled\":true}"
    );
    let e = command_enable_user(&cfg(), &u, "/Users/{userId}/Policy");
    assert!(e.body.ends_with("\"IsDisabled\":false}"));
    let g = command_grant_admin(&cfg(), &u, "/Users/{userId}/Policy");
    assert!(g.body.contains("\"IsAdministrator\":true"));
    let v = command_revoke_admin(&cfg(), &u, "/Users/{userId}/Policy");
    assert!(v.body.contains("\"IsAdministrator\":false"));
}

#[test]
fn add_user_body() {
    let r = command_add_user(&cfg(), "eve".to_string(), "p\"w".to_string());
    assert_eq!(r.url, "http://h/Users/New");
    assert_eq!(r.body, "{\"Name\":\"eve\",\"NewPw\":\"p\\\"w\",\"CurrentPw\":\"\"}");
}

#[test]
fn update_image_by_id_sends_base64() {
    let r = command_update_image_by_id(&cfg(), "7", &vec![1u8, 2, 3], ImageType::BoxRear);
    assert_eq!(r.url, "http://h/Items/7/Images/BoxRear");
    assert_eq!(r.body, "AQID");
    assert_eq!(r.content_type, ContentType::Png);
}

#[test]
fn user_lookup() {
    let users = vec![user("amy", "1"), user("bob", "2"), user("bob", "3")];
    assert_eq!(UserList::get_user_id(&users, "bob"), Some("2".to_string()));
    assert_eq!(UserList::get_user_id(&users, "zed"), None);
    assert_eq!(list_users_request(&cfg(), "/Users").url, "http://h/Users");
    assert_eq!(user_information_request(&cfg(), "/Users/{userId}", "2").url, "http://h/Users/2");
    let me = UserList::new("/Users/Me", "http://h", "K").get_current_user_information();
    assert_eq!(me.url, "http://h/Users/Me");
    assert_eq!(me.method, Method::Get);
}

#[test]
fn constructors_join_endpoint() {
    let s = ServerInfo::new("/System/Info", "http://h", "K");
    assert_eq!(s.server_url, "http://h/System/Info");
    assert_eq!(s.api_key, "K");
    assert_eq!(PluginInfo::new("/Plugins", "http://h", "K".to_string()).server_url, "http://h/Plugins");
    let l = LogFile::new(ServerInfo::new("/System/Logs/Log", "http://h", "K"), "log.txt".to_string());
    assert_eq!(l.logname, "log.txt");
    assert_eq!(l.server_info.server_url, "http://h/System/Logs/Log");
    let a = UserAuth::new("http://h", "admin", "pw".to_string());
    assert_eq!(a.server_url, "http://h/Users/authenticatebyname");
    let w = UserWithPass::new(Some("n".to_string()), None, None, "u".to_string(), "k".to_string());
    assert_eq!(w.username, Some("n".to_string()));
    assert_eq!(w.pass, Some(String::new()));
    assert_eq!(w.currentpwd, Some(String::new()));
    let d = DeviceDetails::new("1".to_string(), "tv".to_string(), "bob".to_string());
    assert_eq!(d.lastusername, "bob");
    let lib = LibraryDetails::new("M".to_string(), "movies".to_string(), "9".to_string(), "Idle".to_string());
    assert_eq!(lib.collection_type, "movies");
    let log = LogDetails::new("c".to_string(), "m".to_string(), "n".to_string(), 3);
    assert_eq!(log.size, 3);
}

#[test]
fn json_framing() {
    assert_eq!(object(&vec![]), "{}");
    assert_eq!(array(&vec![]), "[]");
    assert_eq!(array(&vec!["1".to_string(), "true".to_string()]), "[1,true]");
    assert_eq!(object(&vec![("a\"b".to_string(), "1".to_string())]), "{\"a\\\"b\":1}");
}

#[test]
fn user_lines() {
    assert_eq!(parse_user_line("bob,pw"), Some(("bob".to_string(), "pw".to_string())));
    assert_eq!(parse_user_line("bob,pw,extra"), Some(("bob".to_string(), "pw".to_string())));
    assert_eq!(parse_user_line("bob,"), Some(("bob".to_string(), String::new())));
    assert_eq!(parse_user_line("bob"), None);
    assert_eq!(parse_user_line(""), None);
}

#[test]
fn export_file_names() {
    assert_eq!(export_filename("out.json", "bob"), "out.json");
    assert_eq!(export_filename("", ""), "exported-user-info.json");
    assert_eq!(export_filename("", "bob"), "exported-user-info-bob.json");
}

#[test]
fn reset_and_delete_user() {
    let r = command_reset_password(&cfg(), "42", "new");
    assert_eq!(r.url, "http://h/Users/42/Password");
    assert_eq!(r.body, "{\"Name\":\"\",\"NewPw\":\"new\",\"CurrentPw\":\"\"}");
    let d = command_delete_user(&cfg(), "42");
    assert_eq!(d.method, Method::Delete);
    assert_eq!(d.url, "http://h/Users/42");
}

#[test]
fn update_user_sends_record_then_policy() {
    let u = user("bob", "42");
    let (rec, pol) = update_user_info(&cfg(), "/Users/{userId}", "42", &u);
    assert_eq!(rec.url, "http://h/Users/42");
    assert_eq!(
        rec.body,
        "{\"Name\":\"bob\",\"ServerId\":\"s\",\"Id\":\"42\",\"Policy\":{\"AuthenticationProviderId\":\"A\",\"PasswordResetProviderId\":\"R\",\"IsAdministrator\":false,\"IsDisabled\":false}}"
    );
    assert_eq!(pol.url, "http://h/Users/42/Policy");
}

#[test]
fn devices_by_user() {
    let ds = vec![
        DeviceDetails::new("1".to_string(), "a".to_string(), "bob".to_string()),
        DeviceDetails::new("2".to_string(), "b".to_string(), "amy".to_string()),
        DeviceDetails::new("3".to_string(), "c".to_string(), "bob".to_string()),
    ];
    assert_eq!(get_deviceid_by_username(&ds, "bob"), vec!["1".to_string(), "3".to_string()]);
    assert!(get_deviceid_by_username(&ds, "zed").is_empty());
    let r = remove_device(&cfg(), "/Devices", "3");
    assert_eq!(r.method, Method::Delete);
    assert_eq!(r.url, "http://h/Devices");
    assert_eq!(r.query, vec![("id".to_string(), "3".to_string())]);
}

#[test]
fn tasks_by_name_ignore_case() {
    let tasks = vec![
        ("Scan Media Library".to_string(), "t1".to_string()),
        ("Clean Logs".to_string(), "t2".to_string()),
    ];
    assert_eq!(get_taskid_by_taskname(&tasks, "clean LOGS"), Some("t2".to_string()));
    assert_eq!(get_taskid_by_taskname(&tasks, "nothing"), None);
    let r = execute_task_by_id(&cfg(), "t2");
    assert_eq!(r.url, "http://h/ScheduledTasks/Running/t2");
    assert_eq!(restart_or_shutdown(&cfg(), "/System/Restart").url, "http://h/System/Restart");
}

#[test]
fn endpoint_holders_build_gets() {
    let g = ServerInfo::new("/System/Info", "http://h", "K").get(vec![("a".to_string(), "b".to_string())]);
    assert_eq!(g.url, "http://h/System/Info");
    assert_eq!(g.method, Method::Get);
    assert_eq!(g.query, vec![("a".to_string(), "b".to_string())]);
    let p = PluginInfo::new("/Plugins", "http://h", "K".to_string()).get_plugins();
    assert_eq!(p.url, "http://h/Plugins");
    assert_eq!(p.authorization, "MediaBrowser Token=\"K\"");
}
