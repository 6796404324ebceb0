//! The compiled-in table of known chains and their asset keys.
use vstd::prelude::*;

verus! {

/// Karura's chain id.
pub const KARURA_ID: u32 = 2000;

/// Mangata's chain id.
pub const MANGATA_ID: u32 = 2110;

/// This chain's registered id.
pub const IMBUE_ID: u32 = 2121;

pub open spec fn spec_kar_key() -> Seq<u8> {
    seq![0u8, 128u8]
}

pub open spec fn spec_ausd_key() -> Seq<u8> {
    seq![0u8, 129u8]
}

pub open spec fn spec_mgx_key() -> Seq<u8> {
    seq![0u8, 0u8, 0u8, 0u8]
}

pub open spec fn spec_imbu_key() -> Seq<u8> {
    seq![0u8, 150u8]
}

/// Karura's key for KAR.
pub fn kar_key() -> (r: Vec<u8>)
    ensures
        r@ == spec_kar_key(),
{
    let r: Vec<u8> = vec![0, 128];
    assert(r@ =~= spec_kar_key());
    r
}

/// Karura's key for AUSD.
pub fn ausd_key() -> (r: Vec<u8>)
    ensures
        r@ == spec_ausd_key(),
{
    let r: Vec<u8> = vec![0, 129];
    assert(r@ =~= spec_ausd_key());
    r
}

/// Mangata's key for MGX.
pub fn mgx_key() -> (r: Vec<u8>)
    ensures
        r@ == spec_mgx_key(),
{
    let r: Vec<u8> = vec![0, 0, 0, 0];
    assert(r@ =~= spec_mgx_key());
    r
}

/// This chain's key for its native asset.
pub fn imbu_key() -> (r: Vec<u8>)
    ensures
        r@ == spec_imbu_key(),
{
    let r: Vec<u8> = vec![0, 150];
    assert(r@ =~= spec_imbu_key());
    r
}

} // verus!
