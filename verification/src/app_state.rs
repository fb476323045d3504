//! What is fixed when the service starts.

use vstd::prelude::*;

verus! {

/// The configuration of the service. It is set once and only read after.
pub struct AppConfig {
    /// The name of the service, written into every challenge.
    pub service_name: String,
}

} // verus!
