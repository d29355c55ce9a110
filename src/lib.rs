//! Current-temperature lookup against a forecast web service: the request that
//! is sent, and how the service's answer becomes a temperature or an error.
mod error;
mod json;
mod request;
mod response;
mod status;

pub use error::FetchError;
pub use json::Json;
pub use request::{Endpoint, RequestPlan, WeatherQuery, REQUEST_TIMEOUT_SECS};
pub use status::{check_status, is_success, status_message};
pub use response::{lemma_lookup_repeatable, on_body, on_response, read_temperature};
