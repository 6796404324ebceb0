//! The asset registry's lookup contract, over a snapshot of its entries, and
//! the rules that this chain adds to it: what a registration needs, the fee
//! rate of a registered asset, and who may administer it.
use vstd::prelude::*;
use crate::fees::{default_per_second, spec_default_per_second, Balance};
use crate::location::{Location, LocationView};
use crate::tokens::{CurrencyId, CustomMetadata};

verus! {

/// What the registry holds about one asset.
#[derive(Debug, Clone)]
pub struct AssetMetadata {
    pub decimals: u32,
    /// The asset's canonical location, where it has one.
    pub location: Option<Location>,
    pub additional: CustomMetadata,
}

/// The mathematical value of an `AssetMetadata`.
pub struct AssetMetadataView {
    pub decimals: u32,
    pub location: Option<LocationView>,
    pub additional: CustomMetadata,
}

pub open spec fn option_location_view(l: Option<Location>) -> Option<LocationView> {
    match l {
        Some(l) => Some(l@),
        None => None,
    }
}

impl View for AssetMetadata {
    type V = AssetMetadataView;

    open spec fn view(&self) -> AssetMetadataView {
        AssetMetadataView {
            decimals: self.decimals,
            location: option_location_view(self.location),
            additional: self.additional,
        }
    }
}

impl AssetMetadata {
    /// A copy of this metadata.
    pub fn duplicate(&self) -> (r: AssetMetadata)
        ensures
            r@ == self@,
    {
        let location = match &self.location {
            Some(l) => Some(l.duplicate()),
            None => None,
        };
        AssetMetadata { decimals: self.decimals, location, additional: self.additional }
    }
}

/// One registered asset.
pub struct RegistryEntryView {
    pub id: CurrencyId,
    pub metadata: AssetMetadataView,
}

/// Identifiers are unique, and so are the locations that are given.
pub open spec fn registry_wf(s: Seq<RegistryEntryView>) -> bool {
    forall|i: int, j: int|
        0 <= i < s.len() && 0 <= j < s.len() && i != j ==> {
            &&& (#[trigger] s[i]).id != (#[trigger] s[j]).id
            &&& (s[i].metadata.location is Some ==> s[i].metadata.location != s[j].metadata.location)
        }
}

pub open spec fn has_location(s: Seq<RegistryEntryView>, loc: LocationView) -> bool {
    exists|i: int| 0 <= i < s.len() && (#[trigger] s[i]).metadata.location == Some(loc)
}

pub open spec fn has_id(s: Seq<RegistryEntryView>, id: CurrencyId) -> bool {
    exists|i: int| 0 <= i < s.len() && (#[trigger] s[i]).id == id
}

/// The metadata registered at `loc`.
pub open spec fn spec_metadata_by_location(s: Seq<RegistryEntryView>, loc: LocationView) -> Option<AssetMetadataView> {
    if has_location(s, loc) {
        Some(s[choose|i: int| 0 <= i < s.len() && (#[trigger] s[i]).metadata.location == Some(loc)].metadata)
    } else {
        None
    }
}

/// The identifier registered at `loc`.
pub open spec fn spec_location_to_asset_id(s: Seq<RegistryEntryView>, loc: LocationView) -> Option<CurrencyId> {
    if has_location(s, loc) {
        Some(s[choose|i: int| 0 <= i < s.len() && (#[trigger] s[i]).metadata.location == Some(loc)].id)
    } else {
        None
    }
}

/// The location registered for `id`.
pub open spec fn spec_multilocation(s: Seq<RegistryEntryView>, id: CurrencyId) -> Option<LocationView> {
    if has_id(s, id) {
        s[choose|i: int| 0 <= i < s.len() && (#[trigger] s[i]).id == id].metadata.location
    } else {
        None
    }
}

/// What registering an asset under `id` at `loc` comes to.
pub open spec fn spec_register_outcome(s: Seq<RegistryEntryView>, id: Option<CurrencyId>, loc: Option<LocationView>) -> Result<(), RegistryError> {
    match id {
        None => Err(RegistryError::AssetIdRequired),
        Some(i) => if has_id(s, i) {
            Err(RegistryError::ConflictingAssetId)
        } else {
            match loc {
                Some(l) => if has_location(s, l) {
                    Err(RegistryError::ConflictingLocation)
                } else {
                    Ok(())
                },
                None => Ok(()),
            }
        },
    }
}

/// Why a registration was refused.
#[derive(Clone, Copy, PartialEq, Eq, Debug, Structural)]
pub enum RegistryError {
    /// Registration needs an explicit identifier.
    AssetIdRequired,
    /// The identifier is registered already.
    ConflictingAssetId,
    /// The location is registered already.
    ConflictingLocation,
}

/// The assets of the external registry, each once by identifier and by
/// location.
#[derive(Debug)]
pub struct AssetRegistry {
    entries: Vec<(CurrencyId, AssetMetadata)>,
}

impl View for AssetRegistry {
    type V = Seq<RegistryEntryView>;

    closed spec fn view(&self) -> Seq<RegistryEntryView> {
        self.entries@.map_values(|e: (CurrencyId, AssetMetadata)| RegistryEntryView { id: e.0, metadata: e.1@ })
    }
}

impl AssetRegistry {
    pub open spec fn wf(&self) -> bool {
        registry_wf(self@)
    }

    /// A registry with no assets.
    pub fn new() -> (r: AssetRegistry)
        ensures
            r.wf(),
            r@ == Seq::<RegistryEntryView>::empty(),
    {
        let r = AssetRegistry { entries: Vec::new() };
        assert(r@ =~= Seq::<RegistryEntryView>::empty());
        r
    }

    /// The number of registered assets.
    pub fn len(&self) -> (r: usize)
        ensures
            r == self@.len(),
    {
        self.entries.len()
    }

    fn index_of_location(&self, loc: &Location) -> (r: Option<usize>)
        ensures
            match r {
                Some(i) => i < self@.len() && self@[i as int].metadata.location == Some(loc@),
                None => !has_location(self@, loc@),
            },
    {
        let mut i: usize = 0;
        while i < self.entries.len()
            invariant
                i <= self@.len(),
                self@.len() == self.entries@.len(),
                forall|j: int| 0 <= j < i ==> self@[j].metadata.location != Some(loc@),
            decreases self@.len() - i,
        {
            assert(self@[i as int].metadata == self.entries@[i as int].1@);
            match &self.entries[i].1.location {
                Some(l) => {
                    if l.equals(loc) {
                        return Some(i);
                    }
                },
                None => {},
            }
            i = i + 1;
        }
        None
    }

    fn index_of_id(&self, id: CurrencyId) -> (r: Option<usize>)
        ensures
            match r {
                Some(i) => i < self@.len() && self@[i as int].id == id,
                None => !has_id(self@, id),
            },
    {
        let mut i: usize = 0;
        while i < self.entries.len()
            invariant
                i <= self@.len(),
                self@.len() == self.entries@.len(),
                forall|j: int| 0 <= j < i ==> self@[j].id != id,
            decreases self@.len() - i,
        {
            assert(self@[i as int].id == self.entries@[i as int].0);
            if self.entries[i].0 == id {
                return Some(i);
            }
            i = i + 1;
        }
        None
    }

    /// The metadata registered at `loc`.
    pub fn metadata_by_location(&self, loc: &Location) -> (r: Option<AssetMetadata>)
        requires
            self.wf(),
        ensures
            match r {
                Some(m) => spec_metadata_by_location(self@, loc@) == Some(m@),
                None => spec_metadata_by_location(self@, loc@) is None,
            },
    {
        match self.index_of_location(loc) {
            Some(i) => {
                let m = self.entries[i].1.duplicate();
                assert(m@ == self@[i as int].metadata);
                Some(m)
            },
            None => None,
        }
    }

    /// The identifier registered at `loc`.
    pub fn location_to_asset_id(&self, loc: &Location) -> (r: Option<CurrencyId>)
        requires
            self.wf(),
        ensures
            r == spec_location_to_asset_id(self@, loc@),
    {
        match self.index_of_location(loc) {
            Some(i) => {
                assert(self@[i as int].id == self.entries@[i as int].0);
                Some(self.entries[i].0)
            },
            None => None,
        }
    }

    /// The location registered for `id`.
    pub fn multilocation(&self, id: CurrencyId) -> (r: Option<Location>)
        requires
            self.wf(),
        ensures
            option_location_view(r) == spec_multilocation(self@, id),
    {
        match self.index_of_id(id) {
            Some(i) => {
                let m = self.entries[i].1.duplicate();
                assert(m@ == self@[i as int].metadata);
                m.location
            },
            None => None,
        }
    }

    /// Registers `metadata` under `id`. Refused without an identifier, or
    /// where the identifier or the location is taken; nothing changes then.
    pub fn register(&mut self, id: Option<CurrencyId>, metadata: AssetMetadata) -> (r: Result<(), RegistryError>)
        requires
            old(self).wf(),
        ensures
            final(self).wf(),
            r == spec_register_outcome(old(self)@, id, metadata@.location),
            r is Ok ==> final(self)@ == old(self)@.push(RegistryEntryView { id: id->Some_0, metadata: metadata@ }),
            r is Err ==> final(self)@ == old(self)@,
    {
        let (asset, meta) = match CustomAssetProcessor::pre_register(id, metadata) {
            Ok(pair) => pair,
            Err(e) => {
                return Err(e);
            },
        };
        if self.index_of_id(asset).is_some() {
            return Err(RegistryError::ConflictingAssetId);
        }
        match &meta.location {
            Some(l) => {
                assert(metadata@.location == Some(l@));
                if self.index_of_location(l).is_some() {
                    return Err(RegistryError::ConflictingLocation);
                }
            },
            None => {},
        }
        let ghost before = self@;
        let ghost entry = RegistryEntryView { id: asset, metadata: meta@ };
        self.entries.push((asset, meta));
        assert(self@ =~= before.push(entry));
        proof {
            assert forall|i: int, j: int|
                0 <= i < self@.len() && 0 <= j < self@.len() && i != j implies {
                    &&& (#[trigger] self@[i]).id != (#[trigger] self@[j]).id
                    &&& (self@[i].metadata.location is Some ==> self@[i].metadata.location != self@[j].metadata.location)
                } by {
                if i < before.len() && j < before.len() {
                    assert(before[i] == self@[i] && before[j] == self@[j]);
                } else if i == before.len() {
                    assert(before[j] == self@[j]);
                } else {
                    assert(before[i] == self@[i]);
                }
            }
        }
        CustomAssetProcessor::post_register(asset, &self.entries[self.entries.len() - 1].1)
    }
}

/// This chain's checks on a registration.
#[derive(Clone, Copy, PartialEq, Eq, Debug, Structural)]
pub struct CustomAssetProcessor;

impl CustomAssetProcessor {
    /// A registration needs an explicit identifier.
    pub fn pre_register(id: Option<CurrencyId>, metadata: AssetMetadata) -> (r: Result<(CurrencyId, AssetMetadata), RegistryError>)
        ensures
            match id {
                Some(i) => r matches Ok((i2, m)) && i2 == i && m@ == metadata@,
                None => r == Err::<(CurrencyId, AssetMetadata), _>(RegistryError::AssetIdRequired),
            },
    {
        match id {
            Some(id) => Ok((id, metadata)),
            None => Err(RegistryError::AssetIdRequired),
        }
    }

    /// Nothing follows a registration.
    pub fn post_register(_id: CurrencyId, _metadata: &AssetMetadata) -> (r: Result<(), RegistryError>)
        ensures
            r == Ok::<(), RegistryError>(()),
    {
        Ok(())
    }
}

/// The fee per second of a registered asset: its own where it sets one, else
/// the baseline.
pub open spec fn spec_registry_fee_per_second(s: Seq<RegistryEntryView>, loc: LocationView) -> Option<u128> {
    match spec_metadata_by_location(s, loc) {
        Some(m) => match m.additional.xcm.fee_per_second {
            Some(f) => Some(f),
            None => Some(spec_default_per_second() as u128),
        },
        None => None,
    }
}

/// Fee rates of the assets that only the registry knows.
#[derive(Clone, Copy, PartialEq, Eq, Debug, Structural)]
pub struct FixedConversionRateProvider;

impl FixedConversionRateProvider {
    /// The fee per second of the asset registered at `location`; `None` where
    /// none is.
    pub fn get_fee_per_second(registry: &AssetRegistry, location: &Location) -> (r: Option<u128>)
        requires
            registry.wf(),
        ensures
            r == spec_registry_fee_per_second(registry@, location@),
    {
        match registry.metadata_by_location(location) {
            Some(m) => match m.additional.xcm.fee_per_second {
                Some(f) => Some(f),
                None => Some(default_per_second()),
            },
            None => None,
        }
    }
}

/// Who may administer the registry's assets.
#[derive(Clone, Copy, PartialEq, Eq, Debug, Structural)]
pub struct AuthorityOrigin;

impl AuthorityOrigin {
    /// Every asset, named or not, is governed by the default administrative
    /// check, whose outcome is `default_check`: success carries nothing, and
    /// a refused origin is handed back unchanged.
    pub fn try_origin<S, O>(default_check: Result<S, O>, asset_id: &Option<CurrencyId>) -> (r: Result<(), O>)
        ensures
            r is Ok <==> default_check is Ok,
            default_check matches Err(o) ==> r == Err::<(), O>(o),
    {
        match default_check {
            Ok(_) => Ok(()),
            Err(o) => Err(o),
        }
    }
}

} // verus!
