//! Data and request logic of the guild website: the roster and raid tables
//! that the pages show, and the allow-listed content endpoints that fetch
//! from the object store and fall back to bundled assets.

mod text;

pub mod about_data;
pub mod content;
pub mod dps_sims;
pub mod layout;
pub mod markdown;
pub mod mythic_plus;
pub mod player_metadata;
