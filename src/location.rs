//! Hierarchical cross-chain addresses.
use vstd::prelude::*;

verus! {

/// The longest key that a `GeneralKey` junction may hold.
pub const MAX_KEY_LEN: usize = 32;

/// The most junctions that a location's interior may hold.
pub const MAX_JUNCTIONS: usize = 8;

/// One segment of a location.
#[derive(Debug, Clone)]
pub enum Junction {
    /// A chain, by its identifier.
    Parachain(u32),
    /// An opaque key of at most `MAX_KEY_LEN` bytes.
    GeneralKey(Vec<u8>),
    /// A 32-byte account.
    AccountId32([u8; 32]),
}

/// The mathematical value of a `Junction`.
pub enum JunctionView {
    Parachain(u32),
    GeneralKey(Seq<u8>),
    AccountId32(Seq<u8>),
}

impl View for Junction {
    type V = JunctionView;

    open spec fn view(&self) -> JunctionView {
        match self {
            Junction::Parachain(id) => JunctionView::Parachain(*id),
            Junction::GeneralKey(k) => JunctionView::GeneralKey(k@),
            Junction::AccountId32(a) => JunctionView::AccountId32(a@),
        }
    }
}

impl JunctionView {
    pub open spec fn wf(self) -> bool {
        self matches JunctionView::GeneralKey(k) ==> k.len() <= MAX_KEY_LEN
    }
}

/// Compares two byte strings.
pub fn bytes_eq(a: &[u8], b: &[u8]) -> (r: bool)
    ensures
        r == (a@ == b@),
{
    if a.len() != b.len() {
        return false;
    }
    let mut i: usize = 0;
    while i < a.len()
        invariant
            a@.len() == b@.len(),
            i <= a@.len(),
            forall|j: int| 0 <= j < i ==> a@[j] == b@[j],
        decreases a@.len() - i,
    {
        if a[i] != b[i] {
            return false;
        }
        i = i + 1;
    }
    assert(a@ =~= b@);
    true
}

fn copy_bytes(a: &[u8]) -> (r: Vec<u8>)
    ensures
        r@ == a@,
{
    let mut r: Vec<u8> = Vec::new();
    let mut i: usize = 0;
    while i < a.len()
        invariant
            i <= a@.len(),
            r@ == a@.subrange(0, i as int),
        decreases a@.len() - i,
    {
        r.push(a[i]);
        i = i + 1;
        assert(r@ =~= a@.subrange(0, i as int));
    }
    assert(a@.subrange(0, a@.len() as int) =~= a@);
    r
}

impl Junction {
    /// Structural equality of two junctions.
    pub fn equals(&self, other: &Junction) -> (r: bool)
        ensures
            r == (self@ == other@),
    {
        match (self, other) {
            (Junction::Parachain(a), Junction::Parachain(b)) => *a == *b,
            (Junction::GeneralKey(a), Junction::GeneralKey(b)) => bytes_eq(a.as_slice(), b.as_slice()),
            (Junction::AccountId32(a), Junction::AccountId32(b)) => bytes_eq(a.as_slice(), b.as_slice()),
            _ => false,
        }
    }

    /// A copy of this junction.
    pub fn duplicate(&self) -> (r: Junction)
        ensures
            r@ == self@,
    {
        match self {
            Junction::Parachain(id) => Junction::Parachain(*id),
            Junction::GeneralKey(k) => Junction::GeneralKey(copy_bytes(k.as_slice())),
            Junction::AccountId32(a) => Junction::AccountId32(*a),
        }
    }
}


/// Builds a `GeneralKey` junction from a key of at most `MAX_KEY_LEN` bytes.
/// A longer key is a programming error: it is never truncated.
pub fn general_key(key: &[u8]) -> (r: Junction)
    requires
        key@.len() <= MAX_KEY_LEN,
    ensures
        r@ == JunctionView::GeneralKey(key@),
{
    Junction::GeneralKey(copy_bytes(key))
}

/// A hierarchical address: how many consensus systems up, then a path down.
#[derive(Debug, Clone)]
pub struct Location {
    pub parents: u8,
    pub interior: Vec<Junction>,
}

/// The mathematical value of a `Location`.
pub struct LocationView {
    pub parents: u8,
    pub interior: Seq<JunctionView>,
}

impl View for Location {
    type V = LocationView;

    open spec fn view(&self) -> LocationView {
        LocationView { parents: self.parents, interior: self.interior@.map_values(|j: Junction| j@) }
    }
}

impl LocationView {
    /// At most `MAX_JUNCTIONS` junctions, each key within its bound.
    pub open spec fn wf(self) -> bool {
        &&& self.interior.len() <= MAX_JUNCTIONS
        &&& forall|i: int| 0 <= i < self.interior.len() ==> (#[trigger] self.interior[i]).wf()
    }
}

/// The location `(parents, [])`.
pub open spec fn spec_root(parents: u8) -> LocationView {
    LocationView { parents, interior: Seq::empty() }
}

/// The location `(parents, [Parachain(chain), GeneralKey(key)])`.
pub open spec fn spec_chain_key(parents: u8, chain: u32, key: Seq<u8>) -> LocationView {
    LocationView {
        parents,
        interior: seq![JunctionView::Parachain(chain), JunctionView::GeneralKey(key)],
    }
}

/// The location `(0, [GeneralKey(key)])`.
pub open spec fn spec_local_key(key: Seq<u8>) -> LocationView {
    LocationView { parents: 0, interior: seq![JunctionView::GeneralKey(key)] }
}

impl Location {
    /// A location with the given parent count and interior.
    pub fn new(parents: u8, interior: Vec<Junction>) -> (r: Location)
        ensures
            r.parents == parents,
            r.interior@ == interior@,
    {
        Location { parents, interior }
    }

    /// The directly connected parent system: `(1, [])`.
    pub fn parent() -> (r: Location)
        ensures
            r@ == spec_root(1),
    {
        let r = Location { parents: 1, interior: Vec::new() };
        assert(r@.interior =~= Seq::<JunctionView>::empty());
        r
    }

    /// The location `(parents, [j])`.
    pub fn x1(parents: u8, j: Junction) -> (r: Location)
        ensures
            r@ == (LocationView { parents, interior: seq![j@] }),
    {
        let mut v: Vec<Junction> = Vec::new();
        v.push(j);
        let r = Location { parents, interior: v };
        assert(r@.interior =~= seq![j@]);
        r
    }

    /// The location `(parents, [j0, j1])`.
    pub fn x2(parents: u8, j0: Junction, j1: Junction) -> (r: Location)
        ensures
            r@ == (LocationView { parents, interior: seq![j0@, j1@] }),
    {
        let mut v: Vec<Junction> = Vec::new();
        v.push(j0);
        v.push(j1);
        let r = Location { parents, interior: v };
        assert(r@.interior =~= seq![j0@, j1@]);
        r
    }

    /// Structural equality of two locations.
    pub fn equals(&self, other: &Location) -> (r: bool)
        ensures
            r == (self@ == other@),
    {
        if self.parents != other.parents || self.interior.len() != other.interior.len() {
            if self.interior.len() != other.interior.len() {
                assert(self@.interior.len() != other@.interior.len());
            }
            return false;
        }
        let mut i: usize = 0;
        while i < self.interior.len()
            invariant
                self.interior@.len() == other.interior@.len(),
                i <= self.interior@.len(),
                forall|j: int| 0 <= j < i ==> self.interior@[j]@ == other.interior@[j]@,
            decreases self.interior@.len() - i,
        {
            if !self.interior[i].equals(&other.interior[i]) {
                assert(self@.interior[i as int] != other@.interior[i as int]);
                return false;
            }
            i = i + 1;
        }
        assert(self@.interior =~= other@.interior);
        true
    }

    /// A copy of this location.
    pub fn duplicate(&self) -> (r: Location)
        ensures
            r@ == self@,
    {
        let mut v: Vec<Junction> = Vec::new();
        let mut i: usize = 0;
        while i < self.interior.len()
            invariant
                i <= self.interior@.len(),
                v@.len() == i,
                forall|j: int| 0 <= j < i ==> v@[j]@ == self.interior@[j]@,
            decreases self.interior@.len() - i,
        {
            v.push(self.interior[i].duplicate());
            i = i + 1;
        }
        let r = Location { parents: self.parents, interior: v };
        assert(r@.interior =~= self@.interior);
        r
    }
}

/// How an asset is identified.
#[derive(Debug, Clone)]
pub enum AssetId {
    /// By its location.
    Concrete(Location),
    /// By an abstract, class-indexed name.
    Abstract(Vec<u8>),
}

/// A fungible asset: an identifier and an amount.
#[derive(Debug, Clone)]
pub struct MultiAsset {
    pub id: AssetId,
    pub amount: u128,
}

/// The mathematical value of an `AssetId`.
pub enum AssetIdView {
    Concrete(LocationView),
    Abstract(Seq<u8>),
}

impl View for AssetId {
    type V = AssetIdView;

    open spec fn view(&self) -> AssetIdView {
        match self {
            AssetId::Concrete(l) => AssetIdView::Concrete(l@),
            AssetId::Abstract(n) => AssetIdView::Abstract(n@),
        }
    }
}

/// The mathematical value of a `MultiAsset`.
pub struct MultiAssetView {
    pub id: AssetIdView,
    pub amount: u128,
}

impl View for MultiAsset {
    type V = MultiAssetView;

    open spec fn view(&self) -> MultiAssetView {
        MultiAssetView { id: self.id@, amount: self.amount }
    }
}

impl MultiAsset {
    /// A fungible amount of the asset at `location`.
    pub fn concrete(location: Location, amount: u128) -> (r: MultiAsset)
        ensures
            r@ == (MultiAssetView { id: AssetIdView::Concrete(location@), amount }),
    {
        MultiAsset { id: AssetId::Concrete(location), amount }
    }
}

} // verus!
