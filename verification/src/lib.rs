//! offcut-ui: the verified core of Offcut's interface.

pub mod catalog;
pub mod icons;
pub mod pointer;
pub mod rice;
pub mod shell;
pub mod text;
pub mod theme;
pub mod time;
pub mod timeline;
pub mod trimbar;
pub mod video;
