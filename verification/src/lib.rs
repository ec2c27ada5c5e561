pub mod artist;
pub mod cache;
pub mod records;
pub mod users;

pub use artist::{ArtistData, ArtistErrors, ArtistResult, BodyValues, RequestMode};
pub use cache::Cache;
