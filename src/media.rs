//! Requests of the library and search commands.

use vstd::prelude::*;
use crate::commands::config_post;
use crate::config::AppConfig;
use crate::dispatch::{ContentType, Method, Request, RequestView, pairs_view, plain_call};
use crate::endpoint::{resolve, resolved};
use crate::json::{bool_text, bool_value};
use crate::text::join;
use crate::text::text_eq;

verus! {

/// How thoroughly a scan refreshes an item.
#[derive(Clone, Copy, Debug, PartialEq, Eq, Structural)]
pub enum ScanType {
    NewUpdated,
    MissingMetadata,
    ReplaceMetadata,
    All,
}

/// What a new library holds.
#[derive(Clone, Copy, Debug, PartialEq, Eq, Structural)]
pub enum CollectionType {
    Movies,
    TVShows,
    Music,
    MusicVideos,
    HomeVideos,
    BoxSets,
    Books,
    Mixed,
}

pub open spec fn collection_text(c: CollectionType) -> Seq<char> {
    match c {
        CollectionType::Movies => "movies"@,
        CollectionType::TVShows => "tvshows"@,
        CollectionType::Music => "music"@,
        CollectionType::MusicVideos => "musicvideos"@,
        CollectionType::HomeVideos => "homevideos"@,
        CollectionType::BoxSets => "boxsets"@,
        CollectionType::Books => "books"@,
        CollectionType::Mixed => "mixed"@,
    }
}

impl CollectionType {
    /// The name the server knows the collection type by.
    pub fn as_text(&self) -> (r: &'static str)
        ensures
            r@ == collection_text(*self),
    {
        match self {
            CollectionType::Movies => "movies",
            CollectionType::TVShows => "tvshows",
            CollectionType::Music => "music",
            CollectionType::MusicVideos => "musicvideos",
            CollectionType::HomeVideos => "homevideos",
            CollectionType::BoxSets => "boxsets",
            CollectionType::Books => "books",
            CollectionType::Mixed => "mixed",
        }
    }
}

/// The refresh query of a scan: images and metadata refreshed in `mode`, and
/// existing metadata replaced when `replace` holds.
pub open spec fn refresh_query(mode: Seq<char>, replace: bool) -> Seq<(Seq<char>, Seq<char>)> {
    seq![
        ("Recursive"@, "true"@),
        ("ImageRefreshMode"@, mode),
        ("MetadataRefreshMode"@, mode),
        ("ReplaceAllImages"@, "false"@),
        ("RegenerateTrickplay"@, "false"@),
        ("ReplaceAllMetadata"@, bool_text(replace)),
    ]
}

/// The query of a scan of one library; none for `All`, which applies only to
/// a scan of every library.
pub open spec fn scan_query(t: ScanType) -> Option<Seq<(Seq<char>, Seq<char>)>> {
    match t {
        ScanType::NewUpdated => Some(refresh_query("Default"@, false)),
        ScanType::MissingMetadata => Some(refresh_query("FullRefresh"@, false)),
        ScanType::ReplaceMetadata => Some(refresh_query("FullRefresh"@, true)),
        ScanType::All => None,
    }
}

fn refresh_pairs(mode: &str, replace: bool) -> (r: Vec<(String, String)>)
    ensures
        pairs_view(r@) == refresh_query(mode@, replace),
{
    let mut q: Vec<(String, String)> = Vec::new();
    q.push((String::from_str("Recursive"), String::from_str("true")));
    q.push((String::from_str("ImageRefreshMode"), String::from_str(mode)));
    q.push((String::from_str("MetadataRefreshMode"), String::from_str(mode)));
    q.push((String::from_str("ReplaceAllImages"), String::from_str("false")));
    q.push((String::from_str("RegenerateTrickplay"), String::from_str("false")));
    q.push((String::from_str("ReplaceAllMetadata"), bool_value(replace)));
    assert(pairs_view(q@) =~= refresh_query(mode@, replace));
    q
}

/// The scan of one library with `id`.
pub open spec fn scan_call(cfg: AppConfig, id: Seq<char>, query: Seq<(Seq<char>, Seq<char>)>) -> RequestView {
    RequestView {
        query,
        ..plain_call(
            Method::Post,
            resolved(cfg.server_url@, "/Items/{library_id}/Refresh"@, seq![("library_id"@, id)]),
            cfg.api_key@,
        )
    }
}

/// The call that scans every library when `library_id` is `all`, and
/// otherwise the library with that id as `scan_type` says; none when a single
/// library is to be scanned with `All`.
pub fn command_scan_library(cfg: &AppConfig, library_id: &str, scan_type: ScanType) -> (r: Option<Request>)
    ensures
        library_id@ == "all"@ ==> r is Some && r->0@ == plain_call(
            Method::Post,
            cfg.server_url@ + "/Library/Refresh"@,
            cfg.api_key@,
        ),
        library_id@ != "all"@ ==> match scan_query(scan_type) {
            Some(q) => r is Some && r->0@ == scan_call(*cfg, library_id@, q),
            None => r is None,
        },
{
    if text_eq(library_id, "all") {
        let r = Request::post(
            join(cfg.server_url.as_str(), "/Library/Refresh"),
            Vec::new(),
            String::new(),
            ContentType::NoBody,
            cfg.api_key.as_str(),
        );
        assert(r@.query =~= Seq::empty());
        return Some(r);
    }
    let query = match scan_type {
        ScanType::NewUpdated => refresh_pairs("Default", false),
        ScanType::MissingMetadata => refresh_pairs("FullRefresh", false),
        ScanType::ReplaceMetadata => refresh_pairs("FullRefresh", true),
        ScanType::All => {
            return None;
        },
    };
    let mut params: Vec<(String, String)> = Vec::new();
    params.push((String::from_str("library_id"), String::from_str(library_id)));
    assert(pairs_view(params@) =~= seq![("library_id"@, library_id@)]);
    let url = resolve(cfg.server_url.as_str(), "/Items/{library_id}/Refresh", &params);
    Some(Request::post(url, query, String::new(), ContentType::NoBody, cfg.api_key.as_str()))
}

/// The query of a search for `term`: of `mediatype` unless that is `all`,
/// with file paths when asked, and under `parentid` when one is given.
pub open spec fn search_query(term: Seq<char>, mediatype: Seq<char>, parentid: Seq<char>, include_filepath: bool) -> Seq<(Seq<char>, Seq<char>)> {
    seq![("SortBy"@, "SortName,ProductionYear"@), ("Recursive"@, "true"@), ("searchTerm"@, term)]
        + (if mediatype != "all"@ {
        seq![("IncludeItemTypes"@, mediatype)]
    } else {
        Seq::empty()
    }) + (if include_filepath {
        seq![("fields"@, "Path"@)]
    } else {
        Seq::empty()
    }) + (if parentid.len() > 0 {
        seq![("parentId"@, parentid)]
    } else {
        Seq::empty()
    })
}

/// The call that searches the server's media.
pub fn execute_search(cfg: &AppConfig, term: &str, mediatype: &str, parentid: &str, include_filepath: bool) -> (r: Request)
    ensures
        r@ == (RequestView {
            query: search_query(term@, mediatype@, parentid@, include_filepath),
            ..plain_call(Method::Get, cfg.server_url@ + "/Items"@, cfg.api_key@)
        }),
{
    let mut q: Vec<(String, String)> = Vec::new();
    q.push((String::from_str("SortBy"), String::from_str("SortName,ProductionYear")));
    q.push((String::from_str("Recursive"), String::from_str("true")));
    q.push((String::from_str("searchTerm"), String::from_str(term)));
    let ghost q0 = pairs_view(q@);
    assert(q0 =~= seq![("SortBy"@, "SortName,ProductionYear"@), ("Recursive"@, "true"@), ("searchTerm"@, term@)]);
    if !text_eq(mediatype, "all") {
        q.push((String::from_str("IncludeItemTypes"), String::from_str(mediatype)));
    }
    let ghost q1 = pairs_view(q@);
    assert(q1 =~= q0 + (if mediatype@ != "all"@ {
        seq![("IncludeItemTypes"@, mediatype@)]
    } else {
        Seq::empty()
    }));
    if include_filepath {
        q.push((String::from_str("fields"), String::from_str("Path")));
    }
    let ghost q2 = pairs_view(q@);
    assert(q2 =~= q1 + (if include_filepath {
        seq![("fields"@, "Path"@)]
    } else {
        Seq::empty()
    }));
    if parentid.unicode_len() > 0 {
        q.push((String::from_str("parentId"), String::from_str(parentid)));
    }
    assert(pairs_view(q@) =~= q2 + (if parentid@.len() > 0 {
        seq![("parentId"@, parentid@)]
    } else {
        Seq::empty()
    }));
    Request::get(join(cfg.server_url.as_str(), "/Items"), q, cfg.api_key.as_str())
}

/// The endpoint that registers a library called `name`.
pub open spec fn register_library_path(name: Seq<char>, c: CollectionType) -> Seq<char> {
    "/Library/VirtualFolders?CollectionType="@ + collection_text(c) + "&refreshLibrary=true"@
        + "&name="@ + name
}

/// The call that registers a library called `name` of `collectiontype`, whose
/// options are the JSON text `contents`.
pub fn command_register_libarary(cfg: &AppConfig, name: &str, collectiontype: CollectionType, contents: String) -> (r: Request)
    ensures
        r@ == config_post(*cfg, cfg.server_url@ + register_library_path(name@, collectiontype), contents@),
{
    let mut endpoint = String::from_str("/Library/VirtualFolders?CollectionType=");
    endpoint.append(collectiontype.as_text());
    endpoint.append("&refreshLibrary=true");
    endpoint.append("&name=");
    endpoint.append(name);
    let r = Request::post(
        join(cfg.server_url.as_str(), endpoint.as_str()),
        Vec::new(),
        contents,
        ContentType::Json,
        cfg.api_key.as_str(),
    );
    assert(r@.query =~= Seq::empty());
    assert(r@.url =~= cfg.server_url@ + register_library_path(name@, collectiontype));
    r
}

/// The call that replaces the metadata of the item with `id` by the JSON text
/// `json`.
pub fn command_update_metadata(cfg: &AppConfig, id: &str, json: String) -> (r: Request)
    ensures
        r@ == config_post(
            *cfg,
            resolved(cfg.server_url@, "/Items/{itemId}"@, seq![("itemId"@, id@)]),
            json@,
        ),
{
    let mut params: Vec<(String, String)> = Vec::new();
    params.push((String::from_str("itemId"), String::from_str(id)));
    assert(pairs_view(params@) =~= seq![("itemId"@, id@)]);
    let url = resolve(cfg.server_url.as_str(), "/Items/{itemId}", &params);
    let r = Request::post(url, Vec::new(), json, ContentType::Json, cfg.api_key.as_str());
    assert(r@.query =~= Seq::empty());
    r
}

/// The query that lists every movie with the fields of a report.
pub open spec fn movie_query() -> Seq<(Seq<char>, Seq<char>)> {
    seq![
        ("SortBy"@, "SortName,ProductionYear"@),
        ("IncludeItemTypes"@, "Movie"@),
        ("Recursive"@, "true"@),
        ("fields"@, "Genres,DateCreated,Width,Height,Path"@),
    ]
}

/// The call that lists the movies visible to the user with `user_id`.
pub fn export_library(cfg: &AppConfig, user_id: &str) -> (r: Request)
    ensures
        r@ == (RequestView {
            query: movie_query(),
            ..plain_call(
                Method::Get,
                resolved(cfg.server_url@, "/Users/{userId}/Items"@, seq![("userId"@, user_id@)]),
                cfg.api_key@,
            )
        }),
{
    let mut params: Vec<(String, String)> = Vec::new();
    params.push((String::from_str("userId"), String::from_str(user_id)));
    assert(pairs_view(params@) =~= seq![("userId"@, user_id@)]);
    let url = resolve(cfg.server_url.as_str(), "/Users/{userId}/Items", &params);
    let mut q: Vec<(String, String)> = Vec::new();
    q.push((String::from_str("SortBy"), String::from_str("SortName,ProductionYear")));
    q.push((String::from_str("IncludeItemTypes"), String::from_str("Movie")));
    q.push((String::from_str("Recursive"), String::from_str("true")));
    q.push((String::from_str("fields"), String::from_str("Genres,DateCreated,Width,Height,Path")));
    assert(pairs_view(q@) =~= movie_query());
    Request::get(url, q, cfg.api_key.as_str())
}

/// The call that reads the latest `limit` entries of the activity log.
pub fn get_activity(cfg: &AppConfig, limit: &str) -> (r: Request)
    ensures
        r@ == (RequestView {
            query: seq![("limit"@, limit@)],
            ..plain_call(Method::Get, cfg.server_url@ + "/System/ActivityLog/Entries"@, cfg.api_key@)
        }),
{
    let mut q: Vec<(String, String)> = Vec::new();
    q.push((String::from_str("limit"), String::from_str(limit)));
    let r = Request::get(join(cfg.server_url.as_str(), "/System/ActivityLog/Entries"), q, cfg.api_key.as_str());
    assert(r@.query =~= seq![("limit"@, limit@)]);
    r
}

} // verus!
