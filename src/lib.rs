//! Resource lifecycle state, request address construction and canonical
//! JSON bodies for browser-hosted applications.
pub mod app_settings;
pub mod data_state;
pub mod fl_url;
pub mod generate_uuid;
pub mod json_body_builder;
pub mod json_text;
pub mod key_order;
pub mod percent;
pub mod render_state;
pub mod script_escape;
mod text;

pub use app_settings::GlobalAppSettings;
pub use data_state::{DataState, NotLoadedCases, Transition};
pub use fl_url::FlUrl;
pub use generate_uuid::generate_uuid;
pub use json_body_builder::JsonBodyBuilder;
pub use json_text::JsonValue;
pub use percent::encode_component;
pub use render_state::RenderState;
pub use script_escape::escape_for_java_script_string;
