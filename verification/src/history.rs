//! Picked-color history entries. The flat-file store that persists them is
//! an external collaborator: it receives and returns these plain records,
//! and lives with the I/O layer outside the library.

use vstd::prelude::*;
use crate::color::parse_hex_color;

verus! {

/// One remembered pick: an identifier, the canonical hex rendering, the
/// channel triple, a timestamp, and an optional user label.
#[derive(Debug, Clone)]
pub struct ColorEntry {
    pub id: String,
    pub hex: String,
    pub rgb: [u8; 3],
    pub timestamp: u64,
    pub label: Option<String>,
}

impl ColorEntry {
    /// The hex rendering is canonical and agrees with the channel triple.
    pub open spec fn wf(self) -> bool {
        parse_hex_color(self.hex@) == Some((self.rgb@[0], self.rgb@[1], self.rgb@[2]))
    }
}

} // verus!
