//! Interactive image resampling: viewport mapping, region extraction,
//! tiered rendering, input throttling and thumbnail caching for an image
//! browser, together with the plain-data side of its file tree and
//! recently-viewed list.

pub mod button_style;
pub mod cos_client;
pub mod decoding;
pub mod encoding;
pub mod file_tree;
pub mod path;
pub mod raster;
pub mod render;
pub mod resampling;
pub mod session;
pub mod smart_directory;
pub mod throttle;
pub mod thumbnail;
pub mod viewport;
