pub mod authority;
pub mod contracts;
pub mod json;
pub mod outcome;

pub use crate::authority::can_replace_host;
pub use crate::authority::parse_url;
pub use crate::authority::replace_host;
pub use crate::authority::rewrite_to_base;
pub use crate::authority::Error;
pub use crate::outcome::Endpoint;
pub use crate::outcome::Service;
pub use crate::outcome::ServiceResult;
