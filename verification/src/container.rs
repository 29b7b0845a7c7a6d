//! The container root: the fixed header values that anchor every ECU's
//! data-section base, and the owner of the decoded ECUs.

use vstd::prelude::*;

verus! {

use crate::ecu::ECU;

/// Size of the stub header that precedes the container header.
pub const STUB_HEADER_SIZE: i32 = 0x410;

/// The fixed header fields this layer reads: the string-pool size and the
/// container-header size, which together anchor each ECU's data section.
#[derive(Debug, Clone, Copy, PartialEq, Eq, Structural)]
pub struct CFFHeader {
    pub size_of_str_pool: i32,
    pub cff_header_size: i32,
}

/// Every ECU's data-section base: the pools sit after the stub header, the
/// container header, its trailing length word, and the string pool.
pub open spec fn sp_data_offset(size_of_str_pool: int, cff_header_size: int) -> int {
    size_of_str_pool + STUB_HEADER_SIZE + cff_header_size + 4
}

/// Root of a decoded file: the header and the ordered ECUs, which it owns
/// exclusively. Immutable once assembled; safe to read from anywhere.
#[derive(Debug)]
pub struct CContainer {
    pub header: CFFHeader,
    pub ecus: Vec<ECU>,
}

impl CContainer {
    /// Assemble the root from a header and its fully decoded ECUs: a
    /// container is never exposed half-built.
    pub fn new(header: CFFHeader, ecus: Vec<ECU>) -> (r: CContainer)
        ensures
            r.header == header,
            r.ecus == ecus,
    {
        CContainer { header, ecus }
    }
}

} // verus!
