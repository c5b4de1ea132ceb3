//! Configuration of the points of a data block of a PLC.
use vstd::prelude::*;

verus! {

/// Configuration of a point of a data block.
#[derive(Debug, Clone)]
pub struct PointConf {
    pub vrt: Option<u8>,
    pub data_type: String,
    pub offset: Option<u32>,
    pub bit: Option<u8>,
    pub h: Option<u8>,
    pub a: Option<u8>,
    pub comment: Option<String>,
}

} // verus!
