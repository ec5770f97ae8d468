//! The ROM set that the machine boots from.

use crate::memory::{ROM_4K, ROM_8K};
use vstd::prelude::*;

verus! {

/// The three ROM images.
pub struct RomSet {
    /// BASIC, 8192 bytes
    pub basic: Vec<u8>,
    /// KERNAL, 8192 bytes
    pub kernal: Vec<u8>,
    /// Character generator, 4096 bytes
    pub char_rom: Vec<u8>,
}

/// A ROM image of the wrong size.
#[derive(Debug, Clone, Copy, PartialEq, Eq, Structural)]
pub enum RomError {
    /// The BASIC image has this many bytes, not 8192.
    BasicSize(usize),
    /// The KERNAL image has this many bytes, not 8192.
    KernalSize(usize),
    /// The character image has this many bytes, not 4096.
    CharSize(usize),
}

/// What is wrong with the sizes of three images, if anything: the first
/// wrong size, BASIC before KERNAL before the character set.
pub open spec fn size_fault(basic: nat, kernal: nat, chars: nat) -> Option<RomError> {
    if basic != ROM_8K {
        Some(RomError::BasicSize(basic as usize))
    } else if kernal != ROM_8K {
        Some(RomError::KernalSize(kernal as usize))
    } else if chars != ROM_4K {
        Some(RomError::CharSize(chars as usize))
    } else {
        None
    }
}

impl RomSet {
    /// Makes a ROM set of three images, which must have their sizes.
    pub fn from_images(basic: Vec<u8>, kernal: Vec<u8>, char_rom: Vec<u8>) -> (roms: Result<
        RomSet,
        RomError,
    >)
        ensures
            match roms {
                Ok(set) => size_fault(basic@.len(), kernal@.len(), char_rom@.len()) is None
                    && set.basic@ == basic@ && set.kernal@ == kernal@ && set.char_rom@
                    == char_rom@,
                Err(fault) => size_fault(basic@.len(), kernal@.len(), char_rom@.len()) == Some(
                    fault,
                ),
            },
    {
        if basic.len() != ROM_8K {
            return Err(RomError::BasicSize(basic.len()));
        }
        if kernal.len() != ROM_8K {
            return Err(RomError::KernalSize(kernal.len()));
        }
        if char_rom.len() != ROM_4K {
            return Err(RomError::CharSize(char_rom.len()));
        }
        Ok(RomSet { basic, kernal, char_rom })
    }
}

} // verus!
