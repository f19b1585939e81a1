//! A codec for M64 movie files: a fixed header of 1024 bytes, then one
//! 4-byte sample per frame and active controller, interleaved.
//!
//! `M64File::from_bytes` decodes a whole file that is held in memory and
//! `M64File::to_bytes` encodes one; neither touches a path or a file.
//!
//! Beside the codec stands the form in which an editor orders a replacement
//! of frames (`ReplacementTab`), with its rule for frame numbers.

pub mod decimal;
pub mod error;
pub mod flags;
pub mod header;
pub mod input;
pub mod layout;
pub mod movie;
pub mod replacement;
pub mod stream;
pub mod wire;

pub use crate::error::M64Error;
pub use crate::input::Input;
pub use crate::movie::ByteVec;
pub use crate::movie::Controllers;
pub use crate::movie::M64File;
pub use crate::replacement::ReplacementAction;
pub use crate::replacement::ReplacementMessage;
pub use crate::replacement::ReplacementTab;
