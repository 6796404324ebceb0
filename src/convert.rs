//! Conversion between local currency identifiers and locations.
use vstd::prelude::*;
use crate::location::{
    bytes_eq, general_key, spec_chain_key, spec_local_key, spec_root, AssetId, AssetIdView, Junction,
    JunctionView, Location, LocationView, MultiAsset,
};
use crate::parachains::{
    ausd_key, imbu_key, kar_key, mgx_key, spec_ausd_key, spec_imbu_key, spec_kar_key, spec_mgx_key, IMBUE_ID,
    KARURA_ID, MANGATA_ID,
};
use crate::registry::{
    option_location_view, spec_location_to_asset_id, spec_multilocation, AssetRegistry, RegistryEntryView,
};
use crate::tokens::CurrencyId;

verus! {

/// The asset that the compiled-in table gives to `key` on chain `para`, seen
/// from this chain, whose id is `self_id`.
pub open spec fn spec_known_pair(self_id: u32, para: u32, key: Seq<u8>) -> Option<CurrencyId> {
    if key == spec_imbu_key() && (para == IMBUE_ID || para == self_id) {
        Some(CurrencyId::Native)
    } else if para == KARURA_ID && key == spec_ausd_key() {
        Some(CurrencyId::AUSD)
    } else if para == KARURA_ID && key == spec_kar_key() {
        Some(CurrencyId::KAR)
    } else if para == MANGATA_ID && key == spec_mgx_key() {
        Some(CurrencyId::MGX)
    } else {
        None
    }
}

/// What the compiled-in table makes of `loc`; `None` where the registry
/// decides.
pub open spec fn spec_static_currency_of(self_id: u32, loc: LocationView) -> Option<CurrencyId> {
    if loc == spec_root(1) {
        Some(CurrencyId::KSM)
    } else if loc.parents == 0 && loc.interior.len() == 1 {
        if loc.interior[0] == JunctionView::GeneralKey(spec_imbu_key()) {
            Some(CurrencyId::Native)
        } else {
            None
        }
    } else if loc.parents == 1 && loc.interior.len() == 2 {
        match (loc.interior[0], loc.interior[1]) {
            (JunctionView::Parachain(para), JunctionView::GeneralKey(key)) => spec_known_pair(self_id, para, key),
            _ => None,
        }
    } else {
        None
    }
}

/// The local asset at `loc`: the compiled-in table first, then the registry.
pub open spec fn spec_currency_of(self_id: u32, reg: Seq<RegistryEntryView>, loc: LocationView) -> Option<CurrencyId> {
    match spec_static_currency_of(self_id, loc) {
        Some(c) => Some(c),
        None => spec_location_to_asset_id(reg, loc),
    }
}

/// The location of `id`, as other chains address it.
pub open spec fn spec_location_of(self_id: u32, reg: Seq<RegistryEntryView>, id: CurrencyId) -> Option<LocationView> {
    match id {
        CurrencyId::Native => Some(spec_chain_key(1, self_id, spec_imbu_key())),
        CurrencyId::KSM => Some(spec_root(1)),
        CurrencyId::AUSD => Some(spec_chain_key(1, KARURA_ID, spec_ausd_key())),
        CurrencyId::KAR => Some(spec_chain_key(1, KARURA_ID, spec_kar_key())),
        CurrencyId::MGX => Some(spec_chain_key(1, MANGATA_ID, spec_mgx_key())),
        CurrencyId::ForeignAsset(_) => spec_multilocation(reg, id),
    }
}

/// The compiled-in keys differ from one another.
pub proof fn lemma_keys_distinct()
    ensures
        spec_imbu_key() != spec_ausd_key(),
        spec_imbu_key() != spec_kar_key(),
        spec_imbu_key() != spec_mgx_key(),
        spec_ausd_key() != spec_kar_key(),
{
    assert(spec_imbu_key()[1] != spec_ausd_key()[1]);
    assert(spec_imbu_key()[1] != spec_kar_key()[1]);
    assert(spec_imbu_key().len() != spec_mgx_key().len());
    assert(spec_ausd_key()[1] != spec_kar_key()[1]);
}

/// Every statically known asset but a foreign one resolves back to itself
/// from its own location, on any chain and with any registry.
pub proof fn lemma_round_trip(self_id: u32, reg: Seq<RegistryEntryView>, id: CurrencyId)
    requires
        !(id is ForeignAsset),
    ensures
        spec_location_of(self_id, reg, id) matches Some(loc) && spec_currency_of(self_id, reg, loc) == Some(id),
{
    lemma_keys_distinct();
    let loc = spec_location_of(self_id, reg, id)->Some_0;
    if id != CurrencyId::KSM {
        assert(loc.interior.len() == 2);
        assert(loc != spec_root(1));
    }
}

/// The native asset resolves to `Native` both as this chain addresses it,
/// `(0, [key])`, and as a sibling does, `(1, [Parachain(self_id), key])`.
pub proof fn lemma_native_self_consistent(self_id: u32, reg: Seq<RegistryEntryView>)
    ensures
        spec_currency_of(self_id, reg, spec_local_key(spec_imbu_key())) == Some(CurrencyId::Native),
        spec_currency_of(self_id, reg, spec_chain_key(1, self_id, spec_imbu_key())) == Some(CurrencyId::Native),
{
    assert(spec_local_key(spec_imbu_key()) != spec_root(1));
    assert(spec_chain_key(1, self_id, spec_imbu_key()).interior.len() == 2);
    assert(spec_chain_key(1, self_id, spec_imbu_key()) != spec_root(1));
}

/// Converts between this chain's `CurrencyId` and the locations by which
/// other chains name the same assets.
#[derive(Clone, Copy, PartialEq, Eq, Debug, Structural)]
pub struct CurrencyIdConvert {
    /// This chain's own id, as the relay chain registered it.
    pub self_para_id: u32,
}

fn known_pair(self_id: u32, para: u32, key: &Vec<u8>) -> (r: Option<CurrencyId>)
    ensures
        r == spec_known_pair(self_id, para, key@),
{
    if bytes_eq(key.as_slice(), imbu_key().as_slice()) && (para == IMBUE_ID || para == self_id) {
        Some(CurrencyId::Native)
    } else if para == KARURA_ID && bytes_eq(key.as_slice(), ausd_key().as_slice()) {
        Some(CurrencyId::AUSD)
    } else if para == KARURA_ID && bytes_eq(key.as_slice(), kar_key().as_slice()) {
        Some(CurrencyId::KAR)
    } else if para == MANGATA_ID && bytes_eq(key.as_slice(), mgx_key().as_slice()) {
        Some(CurrencyId::MGX)
    } else {
        None
    }
}

fn chain_key_location(para: u32, key: Vec<u8>) -> (r: Location)
    requires
        key@.len() <= 32,
    ensures
        r@ == spec_chain_key(1, para, key@),
{
    let r = Location::x2(1, Junction::Parachain(para), general_key(key.as_slice()));
    assert(r@.interior =~= spec_chain_key(1, para, key@).interior);
    r
}

impl CurrencyIdConvert {
    /// A converter for the chain whose id is `self_para_id`.
    pub fn new(self_para_id: u32) -> (r: CurrencyIdConvert)
        ensures
            r.self_para_id == self_para_id,
    {
        CurrencyIdConvert { self_para_id }
    }

    /// The local asset at `location`, or `None` where neither the compiled-in
    /// table nor the registry knows it.
    pub fn currency_of(&self, location: &Location, registry: &AssetRegistry) -> (r: Option<CurrencyId>)
        requires
            registry.wf(),
        ensures
            r == spec_currency_of(self.self_para_id, registry@, location@),
    {
        if location.parents == 1 && location.interior.len() == 0 {
            assert(location@.interior =~= spec_root(1).interior);
            return Some(CurrencyId::KSM);
        }
        assert(location@ != spec_root(1)) by {
            if location.parents == 1 {
                assert(location@.interior.len() != 0);
            }
        }
        if location.parents == 0 && location.interior.len() == 1 {
            match &location.interior[0] {
                Junction::GeneralKey(k) => {
                    if bytes_eq(k.as_slice(), imbu_key().as_slice()) {
                        return Some(CurrencyId::Native);
                    }
                },
                _ => {},
            }
            return registry.location_to_asset_id(location);
        }
        if location.parents == 1 && location.interior.len() == 2 {
            match (&location.interior[0], &location.interior[1]) {
                (Junction::Parachain(para), Junction::GeneralKey(key)) => {
                    match known_pair(self.self_para_id, *para, key) {
                        Some(c) => {
                            return Some(c);
                        },
                        None => {},
                    }
                },
                _ => {},
            }
        }
        registry.location_to_asset_id(location)
    }

    /// The local asset of `asset`, where it is named by location; `None` for
    /// an abstract name, without looking further.
    pub fn currency_of_asset(&self, asset: &MultiAsset, registry: &AssetRegistry) -> (r: Option<CurrencyId>)
        requires
            registry.wf(),
        ensures
            match asset.id@ {
                AssetIdView::Concrete(loc) => r == spec_currency_of(self.self_para_id, registry@, loc),
                AssetIdView::Abstract(_) => r is None,
            },
    {
        match &asset.id {
            AssetId::Concrete(location) => self.currency_of(location, registry),
            AssetId::Abstract(_) => None,
        }
    }

    /// The location by which other chains address `id`; `None` for a foreign
    /// asset that the registry gives no location.
    pub fn location_of(&self, id: CurrencyId, registry: &AssetRegistry) -> (r: Option<Location>)
        requires
            registry.wf(),
        ensures
            option_location_view(r) == spec_location_of(self.self_para_id, registry@, id),
            !(id is ForeignAsset) ==> (r matches Some(l) && l@.wf()),
    {
        match id {
            CurrencyId::KSM => Some(Location::parent()),
            CurrencyId::AUSD => Some(chain_key_location(KARURA_ID, ausd_key())),
            CurrencyId::KAR => Some(chain_key_location(KARURA_ID, kar_key())),
            CurrencyId::MGX => Some(chain_key_location(MANGATA_ID, mgx_key())),
            CurrencyId::Native => Some(chain_key_location(self.self_para_id, imbu_key())),
            CurrencyId::ForeignAsset(_) => registry.multilocation(id),
        }
    }
}

/// Addresses a local account as a location: `(0, [AccountId32(account)])`.
#[derive(Clone, Copy, PartialEq, Eq, Debug, Structural)]
pub struct AccountIdToMultiLocation;

impl AccountIdToMultiLocation {
    pub fn convert(account: [u8; 32]) -> (r: Location)
        ensures
            r@ == (LocationView { parents: 0, interior: seq![JunctionView::AccountId32(account@)] }),
    {
        Location::x1(0, Junction::AccountId32(account))
    }
}

} // verus!
