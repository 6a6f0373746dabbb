//! Selections of PCR slots: which slots of which banks a command is to work on.
pub mod list;
pub mod mask;
pub mod selection;
pub mod selections;
pub mod slot;

pub use list::{PcrSelectionList, PcrSelectionListBuilder};
pub use selection::{PcrSelectSize, PcrSelection};
pub use slot::PcrSlot;
