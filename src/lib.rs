//! Builds Google Analytics 4 collection requests from analytics events.
//!
//! The library turns a page view or a track event into one outbound request
//! whose query string follows the collector's wire format.

pub mod component;
pub mod consent;
pub mod error;
pub mod escape;
pub mod event;
pub mod ids;
pub mod items;
pub mod payload;
pub mod properties;
pub mod querystring;
pub mod string_ext;
pub mod text;
pub mod wire;

pub use component::GaComponent;
pub use error::GaError;
pub use event::{
    Campaign, Client, Consent, Context, Data, Dict, EdgeeRequest, Event, EventType, HttpMethod,
    PageData, Session, TrackData, UserData,
};
pub use items::Product;
pub use string_ext::StringExt;
