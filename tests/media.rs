use jellyroller::config::{AppConfig, ConfigStatus, TokenKind};
use jellyroller::dispatch::{ContentType, Method};
use jellyroller::media::{
    command_register_libarary, command_scan_library, command_update_metadata, execute_search, export_library,
    get_activity, CollectionType, ScanType,
};
use jellyroller::server_info::{LogFile, ServerInfo};

fn cfg() -> AppConfig {
    AppConfig {
        status: ConfigStatus::Configured,
        comfy: true,
        server_url: "http://h".to_string(),
        os: "linux".to_string(),
        api_key: "K".to_string(),
        token: TokenKind::ApiKey,
    }
}

fn q(ps: &[(&str, &str)]) -> Vec<(String, String)> {
    ps.iter().map(|(a, b)| (a.to_string(), b.to_string())).collect()
}

#[test]
fn scan_all_libraries() {
    let r = command_scan_library(&cfg(), "all", ScanType::All).unwrap();
    assert_eq!(r.method, Method::Post);
    assert_eq!(r.url, "http://h/Library/Refresh");
    assert!(r.query.is_empty());
}

#[test]
fn scan_one_library_by_type() {
    let r = command_scan_library(&cfg(), "abc", ScanType::ReplaceMetadata).unwrap();
    assert_eq!(r.url, "http://h/Items/abc/Refresh");
    assert_eq!(
        r.query,
        q(&[
            ("Recursive", "true"),
            ("ImageRefreshMode", "FullRefresh"),
            ("MetadataRefreshMode", "FullRefresh"),
            ("ReplaceAllImages", "false"),
            ("RegenerateTrickplay", "false"),
            ("ReplaceAllMetadata", "true"),
        ])
    );
    let n = command_scan_library(&cfg(), "abc", ScanType::NewUpdated).unwrap();
    assert_eq!(n.query[1], ("ImageRefreshMode".to_string(), "Default".to_string()));
    let m = command_scan_library(&cfg(), "abc", ScanType::MissingMetadata).unwrap();
    assert_eq!(m.query[5], ("ReplaceAllMetadata".to_string(), "false".to_string()));
    assert!(command_scan_library(&cfg(), "abc", ScanType::All).is_none());
}

#[test]
fn search_query_options() {
    let r = execute_search(&cfg(), "matrix", "all", "", false);
    assert_eq!(r.url, "http://h/Items");
    assert_eq!(r.method, Method::Get);
    assert_eq!(r.query, q(&[("SortBy", "SortName,ProductionYear"), ("Recursive", "true"), ("searchTerm", "matrix")]));
    let r = execute_search(&cfg(), "m", "Movie", "parent7", true);
    assert_eq!(
        r.query,
        q(&[
            ("SortBy", "SortName,ProductionYear"),
            ("Recursive", "true"),
            ("searchTerm", "m"),
            ("IncludeItemTypes", "Movie"),
            ("fields", "Path"),
            ("parentId", "parent7"),
        ])
    );
}

#[test]
fn register_library_endpoint() {
    let r = command_register_libarary(&cfg(), "Films", CollectionType::TVShows, "{}".to_string());
    assert_eq!(r.url, "http://h/Library/VirtualFolders?CollectionType=tvshows&refreshLibrary=true&name=Films");
    assert_eq!(r.body, "{}");
    assert_eq!(r.content_type, ContentType::Json);
}

#[test]
fn metadata_movies_activity_and_logs() {
    let m = command_update_metadata(&cfg(), "i1", "{\"Name\":\"x\"}".to_string());
    assert_eq!(m.url, "http://h/Items/i1");
    assert_eq!(m.method, Method::Post);
    assert_eq!(m.body, "{\"Name\":\"x\"}");
    let e = export_library(&cfg(), "u1");
    assert_eq!(e.url, "http://h/Users/u1/Items");
    assert_eq!(e.query[1], ("IncludeItemTypes".to_string(), "Movie".to_string()));
    assert_eq!(e.query.len(), 4);
    let a = get_activity(&cfg(), "100");
    assert_eq!(a.url, "http://h/System/ActivityLog/Entries");
    assert_eq!(a.query, q(&[("limit", "100")]));
    let l = LogFile::new(ServerInfo::new("/System/Logs/Log", "http://h", "K"), "log_1.log".to_string()).get_logfile();
    assert_eq!(l.url, "http://h/System/Logs/Log");
    assert_eq!(l.query, q(&[("name", "log_1.log")]));
}
