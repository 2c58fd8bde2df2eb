//! Electricity prices in pence per kWh, with optional additional Axle export
//! rewards, and the dispatch policy of the Axle event provider.
pub mod axle;
pub mod binary64;
pub mod config;
pub mod dispatch;
pub mod events;
pub mod export;
pub mod import;
pub mod json;
pub mod laws;
pub mod octopus;
pub mod prices;
pub mod slots;
pub mod standard;
pub mod text;
pub mod utc;
pub mod zone;

pub use config::{AxleConfig, MarketConfig};
pub use dispatch::config::ProviderConfig;
pub use events::{
    AxleDirection as DispatchDirection, AxleEvent as DispatchEvent,
    AxleForecast as DispatchForecast,
};
pub use events::{AxleDirection, AxleEvent, AxleForecast};
pub use export::{ExportPriceSlot, OctopusExports};
pub use import::{ImportSlot, OctopusImports};
pub use prices::{get_export, get_import, ExportSlot};
