//! A discrete-time production economy: typed resource pools and exact-size
//! bundles, a tick clock, ore territories, furnaces driven by recipes, a
//! furnace slot that can be switched between recipes, and the routine that
//! turns "I need N of this" into mining, feeding, waiting and withdrawing.
pub mod resources;
pub mod tick;
pub mod territory;
pub mod machine;
pub mod furnace;
pub mod smelting;
pub mod gamemodes;
