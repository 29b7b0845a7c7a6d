//! Diagnostic-service locators. A service's internal byte grammar is decoded
//! elsewhere; this layer computes only where each service record lives and in
//! what order, from the fixed-size entries of an ECU's diagnostic-service
//! pool.

use vstd::prelude::*;

verus! {

/// Ghost form of one service locator.
#[verifier::ext_equal]
pub ghost struct DiagServiceModel {
    pub base_addr: int,
    pub index: int,
    pub size: int,
    pub crc: int,
    pub config: int,
}

/// Where one diagnostic-service record lives: the absolute address computed
/// from its pool entry, the entry's ordinal position, and the entry's size
/// and integrity fields (carried, not verified).
#[derive(Debug, Clone)]
pub struct DiagService {
    pub base_addr: i64,
    pub index: i32,
    pub size: i32,
    pub crc: i32,
    pub config: i16,
}

impl View for DiagService {
    type V = DiagServiceModel;

    open spec fn view(&self) -> DiagServiceModel {
        DiagServiceModel {
            base_addr: self.base_addr as int,
            index: self.index as int,
            size: self.size as int,
            crc: self.crc as int,
            config: self.config as int,
        }
    }
}

} // verus!
