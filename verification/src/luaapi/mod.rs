//! What the script environment is given besides the toolkit: the codes of
//! the toolkit's enumerations, text by characters, and workers.

pub mod enums;
pub mod utf8;
pub mod worker;
