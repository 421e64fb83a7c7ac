//! The analytics event handed in by the host, and the request handed back.

use vstd::prelude::*;

verus! {

/// A flat string-to-string dictionary, in the order the host gave it.
pub type Dict = Vec<(String, String)>;

#[derive(Clone, Copy, Debug, PartialEq, Eq, Structural)]
pub enum EventType {
    Page,
    Track,
    User,
}

#[derive(Clone, Copy, Debug, PartialEq, Eq, Structural)]
pub enum Consent {
    Pending,
    Granted,
    Denied,
}

#[derive(Clone, Debug)]
pub struct PageData {
    pub name: String,
    pub category: String,
    pub keywords: Vec<String>,
    pub title: String,
    pub url: String,
    pub path: String,
    pub search: String,
    pub referrer: String,
    pub properties: Dict,
}

#[derive(Clone, Debug)]
pub struct UserData {
    pub user_id: String,
    pub anonymous_id: String,
    pub edgee_id: String,
    pub properties: Dict,
}

#[derive(Clone, Debug)]
pub struct TrackData {
    pub name: String,
    pub properties: Dict,
    pub products: Vec<Dict>,
}

#[derive(Clone, Debug)]
pub enum Data {
    Page(PageData),
    Track(TrackData),
    User(UserData),
}

/// What is known of the client device and its location.
#[derive(Clone, Debug)]
pub struct Client {
    pub city: String,
    pub ip: String,
    pub locale: String,
    pub timezone: String,
    pub user_agent: String,
    pub user_agent_architecture: String,
    pub user_agent_bitness: String,
    pub user_agent_full_version_list: String,
    pub user_agent_version_list: String,
    pub user_agent_mobile: String,
    pub user_agent_model: String,
    pub os_name: String,
    pub os_version: String,
    pub screen_width: i32,
    pub screen_height: i32,
    pub continent: String,
    pub country_code: String,
    pub country_name: String,
    pub region: String,
}

#[derive(Clone, Debug)]
pub struct Campaign {
    pub name: String,
    pub source: String,
    pub medium: String,
    pub term: String,
    pub content: String,
    pub creative_format: String,
    pub marketing_tactic: String,
}

#[derive(Clone, Debug)]
pub struct Session {
    pub session_id: String,
    pub previous_session_id: String,
    pub session_count: u32,
    pub session_start: bool,
    pub first_seen: i64,
    pub last_seen: i64,
}

#[derive(Clone, Debug)]
pub struct Context {
    pub page: PageData,
    pub user: UserData,
    pub client: Client,
    pub campaign: Campaign,
    pub session: Session,
}

#[derive(Clone, Debug)]
pub struct Event {
    pub uuid: String,
    pub timestamp: i64,
    pub timestamp_millis: i64,
    pub timestamp_micros: i64,
    pub event_type: EventType,
    pub data: Data,
    pub context: Context,
    pub consent: Option<Consent>,
}

#[derive(Clone, Copy, Debug, PartialEq, Eq, Structural)]
pub enum HttpMethod {
    Get,
    Put,
    Post,
    Delete,
}

/// The outbound request: all data travels in the URL, the body is empty.
#[derive(Clone, Debug)]
pub struct EdgeeRequest {
    pub method: HttpMethod,
    pub url: String,
    pub headers: Dict,
    pub forward_client_headers: bool,
    pub body: String,
}

} // verus!
