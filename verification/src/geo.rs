//! Location: the GeoJSON shapes the service stores, and the replies of its
//! location endpoints.

pub mod ingest;
pub mod query;
pub mod util;
