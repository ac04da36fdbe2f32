pub mod address;
pub mod geo_data;
pub mod local;
pub mod maxmind;
pub mod names;
pub mod record;

pub use address::IpAddress;
pub use geo_data::{GeoData, GeoIpReader};
pub use local::LocalResolver;
pub use maxmind::{MaxMindGeoIpError, MaxMindGeoIpReader};
