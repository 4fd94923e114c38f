//! Mandatory labels as the system lays them out in memory.

use crate::bytes::{le_value, lemma_le_value_fits, pointer_bytes, pointer_width, read_le};
use vstd::prelude::*;

verus! {

/// The bytes of a `TOKEN_MANDATORY_LABEL`: a pointer, and attributes padded to the
/// pointer's alignment.
pub open spec fn label_width() -> nat {
    2 * pointer_width()
}

pub fn label_bytes() -> (width: usize)
    ensures
        width == label_width(),
        width == 8 || width == 16,
{
    2 * pointer_bytes()
}

/// What a `TOKEN_MANDATORY_LABEL` holds: the address of a SID, and attribute flags.
#[derive(Debug, Clone, Copy, PartialEq, Eq, Structural)]
pub struct TokenMandatoryLabel {
    pub sid: usize,
    pub attributes: u32,
}

/// The storage that the system filled with a `TOKEN_MANDATORY_LABEL`, and behind it with
/// the SID that the label points to.
///
/// The integrity level is a single SID that stands for the degree of trust that the token
/// has. A normal user typically runs with medium integrity, an elevated session with high
/// integrity.
#[derive(Debug, PartialEq, Eq)]
pub struct TokenIntegrityLevel {
    pub data: Vec<u8>,
}

impl TokenIntegrityLevel {
    /// The storage holds a whole label.
    pub open spec fn well_formed(self) -> bool {
        self.data@.len() >= label_width()
    }

    /// The address of the SID: the pointer at the start of the storage.
    pub open spec fn sid_address(self) -> nat {
        le_value(self.data@.subrange(0, pointer_width() as int))
    }

    /// The attribute flags: the four bytes behind the pointer.
    pub open spec fn label_attributes(self) -> nat {
        le_value(self.data@.subrange(pointer_width() as int, (pointer_width() + 4) as int))
    }

    /// Reads the label at the start of the storage.
    pub fn as_label(&self) -> (label: TokenMandatoryLabel)
        requires
            self.well_formed(),
        ensures
            label.sid == self.sid_address(),
            label.attributes == self.label_attributes(),
    {
        let width: usize = pointer_bytes();
        proof {
            lemma_le_value_fits(self.data@.subrange(0, width as int));
            lemma_le_value_fits(self.data@.subrange(width as int, width + 4));
        }
        TokenMandatoryLabel {
            sid: read_le(&self.data, 0, width) as usize,
            attributes: read_le(&self.data, width, 4) as u32,
        }
    }

    /// The address of the SID that the label names.
    pub fn sid(&self) -> (sid: usize)
        requires
            self.well_formed(),
        ensures
            sid == self.sid_address(),
    {
        self.as_label().sid
    }
}

} // verus!
