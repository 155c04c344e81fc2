//! Pools whose trades are priced by pluggable strategy code, the fixed byte layouts
//! that a strategy is handed, the helpers offered to strategy authors, and the
//! choices made when a batch run is launched.
pub mod launch;
pub mod pool;
pub mod sdk;
pub mod starter;
pub mod wire;
