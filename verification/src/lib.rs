//! Market-data normalization, object-store replay and persistence helpers
//! for the aetelier engine, with their contracts proved by Verus.

pub mod text;
pub mod clock;
pub mod decimal;
pub mod json;
pub mod model;
pub mod calendar;
pub mod store;
pub mod entrepot;
pub mod s3;
pub mod persist;
pub mod hyperliquid;
pub mod kucoin;
pub mod laws;
