//! Records that the server sends and accepts.

use vstd::prelude::*;

verus! {

/// The server's list of API keys.
pub struct TokenDetails {
    pub items: Vec<TokenItem>,
    pub total_record_count: i64,
    pub start_index: i64,
}

/// One API key and the client it was made for.
pub struct TokenItem {
    pub id: i64,
    pub access_token: String,
    pub device_id: String,
    pub app_name: String,
    pub app_version: String,
    pub device_name: String,
    pub user_id: String,
    pub is_active: bool,
    pub date_created: String,
    pub date_revoked: String,
    pub date_last_activity: String,
    pub user_name: String,
}

/// The reply to a password login.
pub struct UserAuthJson {
    pub access_token: String,
    pub server_id: String,
}

/// The server's list of devices.
pub struct DeviceRootJson {
    pub items: Vec<DeviceDetails>,
}

pub struct DeviceDetails {
    pub id: String,
    pub name: String,
    pub lastusername: String,
}

impl DeviceDetails {
    pub fn new(id: String, name: String, lastusername: String) -> (r: DeviceDetails)
        ensures
            r.id@ == id@,
            r.name@ == name@,
            r.lastusername@ == lastusername@,
    {
        DeviceDetails { id, name, lastusername }
    }
}

pub struct LibraryDetails {
    pub name: String,
    pub collection_type: String,
    pub item_id: String,
    pub refresh_status: String,
}

impl LibraryDetails {
    pub fn new(name: String, collection_type: String, item_id: String, refresh_status: String) -> (r: LibraryDetails)
        ensures
            r.name@ == name@,
            r.collection_type@ == collection_type@,
            r.item_id@ == item_id@,
            r.refresh_status@ == refresh_status@,
    {
        LibraryDetails { name, collection_type, item_id, refresh_status }
    }
}

pub struct LogDetails {
    pub date_created: String,
    pub date_modified: String,
    pub name: String,
    pub size: i32,
}

impl LogDetails {
    pub fn new(date_created: String, date_modified: String, name: String, size: i32) -> (r: LogDetails)
        ensures
            r.date_created@ == date_created@,
            r.date_modified@ == date_modified@,
            r.name@ == name@,
            r.size == size,
    {
        LogDetails { date_created, date_modified, name, size }
    }
}

pub struct RepositoryDetails {
    pub name: String,
    pub url: String,
    pub enabled: bool,
}

impl RepositoryDetails {
    pub fn new(name: String, url: String, enabled: bool) -> (r: RepositoryDetails)
        ensures
            r.name@ == name@,
            r.url@ == url@,
            r.enabled == enabled,
    {
        RepositoryDetails { name, url, enabled }
    }
}

pub struct UserDetails {
    pub name: String,
    pub serverid: String,
    pub id: String,
    pub policy: Policy,
}

/// The part of a user's record that says what the user may do.
pub struct Policy {
    pub auth_provider_id: String,
    pub pass_reset_provider_id: String,
    pub is_admin: bool,
    pub is_disabled: bool,
}

} // verus!
