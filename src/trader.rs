//! The ordered chain of fee traders that charges an inbound message's
//! attached asset for its own execution, and the sink that receives the fees.
use vstd::prelude::*;
use vstd::arithmetic::div_mod::{lemma_fundamental_div_mod, lemma_hoist_over_denominator};
use crate::convert::{lemma_keys_distinct, spec_currency_of, spec_static_currency_of};
use crate::fees::{
    lemma_default_per_second_value,    ausd_fixed_rate, kar_fixed_rate, ksm_per_second, mgx_fixed_rate, native_per_second, spec_default_per_second,
    Balance, AUSD_RATE_MULTIPLIER, KAR_RATE_MULTIPLIER, KSM_RATE_DIVISOR, MGX_RATE_MULTIPLIER, WEIGHT_PER_SECOND,
};
use crate::location::{
    general_key, spec_chain_key, spec_local_key, spec_root, AssetId, AssetIdView, Junction, Location,
    LocationView, MultiAsset, MultiAssetView,
};
use crate::parachains::{
    ausd_key, imbu_key, kar_key, mgx_key, spec_ausd_key, spec_imbu_key, spec_kar_key, spec_mgx_key, IMBUE_ID,
    KARURA_ID, MANGATA_ID,
};
use crate::registry::{has_location, spec_registry_fee_per_second, AssetRegistry, FixedConversionRateProvider, RegistryEntryView};

verus! {

/// A fixed fee rate for the asset at one exact location.
#[derive(Debug, Clone)]
pub struct FixedRate {
    pub location: Location,
    pub units_per_second: Balance,
}

/// The mathematical value of a `FixedRate`.
pub struct FixedRateView {
    pub location: LocationView,
    pub units_per_second: Balance,
}

impl View for FixedRate {
    type V = FixedRateView;

    open spec fn view(&self) -> FixedRateView {
        FixedRateView { location: self.location@, units_per_second: self.units_per_second }
    }
}

/// The strategy that charged a message.
#[derive(Clone, Copy, PartialEq, Eq, Debug, Structural)]
pub enum Strategy {
    /// The fixed rate at this position of the table.
    FixedRate(usize),
    /// The rate of an asset that the registry knows.
    Registry,
}

/// A successful charge.
#[derive(Clone, Copy, PartialEq, Eq, Debug, Structural)]
pub struct Purchase {
    pub strategy: Strategy,
    pub charged: Balance,
}

/// Why a message could not pay for its execution.
#[derive(Clone, Copy, PartialEq, Eq, Debug, Structural)]
pub enum TradeError {
    /// No strategy takes the asset, or it does not cover the fee.
    NoSuitablePaymentAsset,
}

/// `units_per_second * weight / WEIGHT_PER_SECOND`, rounded down, clamped to
/// the largest balance.
pub open spec fn spec_charge(units_per_second: Balance, weight: u64) -> Balance {
    let exact = units_per_second as int * weight as int / WEIGHT_PER_SECOND as int;
    if exact > Balance::MAX {
        Balance::MAX
    } else {
        exact as Balance
    }
}

/// Rate `i` is the first in `rates` at `loc`.
pub open spec fn rate_selects(rates: Seq<FixedRateView>, loc: LocationView, i: int) -> bool {
    &&& 0 <= i < rates.len()
    &&& rates[i].location == loc
    &&& forall|j: int| 0 <= j < i ==> (#[trigger] rates[j]).location != loc
}

/// The strategy that takes an asset at `loc`, with its rate: the first fixed
/// rate at `loc`, else the registry's rate.
pub open spec fn spec_select(rates: Seq<FixedRateView>, reg: Seq<RegistryEntryView>, loc: LocationView) -> Option<(Strategy, Balance)> {
    if exists|i: int| rate_selects(rates, loc, i) {
        let i = choose|i: int| rate_selects(rates, loc, i);
        Some((Strategy::FixedRate(i as usize), rates[i].units_per_second))
    } else {
        match spec_registry_fee_per_second(reg, loc) {
            Some(f) => Some((Strategy::Registry, f)),
            None => None,
        }
    }
}

/// The outcome of charging `asset` for `weight`.
pub open spec fn spec_buy_weight(rates: Seq<FixedRateView>, reg: Seq<RegistryEntryView>, asset: MultiAssetView, weight: u64) -> Result<Purchase, TradeError> {
    match asset.id {
        AssetIdView::Concrete(loc) => match spec_select(rates, reg, loc) {
            Some((strategy, rate)) => if spec_charge(rate, weight) <= asset.amount {
                Ok(Purchase { strategy, charged: spec_charge(rate, weight) })
            } else {
                Err(TradeError::NoSuitablePaymentAsset)
            },
            None => Err(TradeError::NoSuitablePaymentAsset),
        },
        AssetIdView::Abstract(_) => Err(TradeError::NoSuitablePaymentAsset),
    }
}

/// This chain's fixed rates, in the order in which they are tried: the native
/// asset as this chain and as other chains address it, the relay chain's
/// asset, AUSD, KAR and MGX.
pub open spec fn spec_runtime_rates() -> Seq<FixedRateView> {
    seq![
        FixedRateView { location: spec_local_key(spec_imbu_key()), units_per_second: spec_default_per_second() as u128 },
        FixedRateView {
            location: spec_chain_key(1, IMBUE_ID, spec_imbu_key()),
            units_per_second: spec_default_per_second() as u128,
        },
        FixedRateView {
            location: spec_root(1),
            units_per_second: (spec_default_per_second() / KSM_RATE_DIVISOR as int) as u128,
        },
        FixedRateView {
            location: spec_chain_key(1, KARURA_ID, spec_ausd_key()),
            units_per_second: (spec_default_per_second() * AUSD_RATE_MULTIPLIER) as u128,
        },
        FixedRateView {
            location: spec_chain_key(1, KARURA_ID, spec_kar_key()),
            units_per_second: (spec_default_per_second() * KAR_RATE_MULTIPLIER) as u128,
        },
        FixedRateView {
            location: spec_chain_key(1, MANGATA_ID, spec_mgx_key()),
            units_per_second: (spec_default_per_second() * MGX_RATE_MULTIPLIER) as u128,
        },
    ]
}

/// The fee per second of the asset at `loc`: the first fixed rate at `loc`,
/// else the registry's rate; `None` where neither knows it.
pub open spec fn spec_fee_per_second_for(rates: Seq<FixedRateView>, reg: Seq<RegistryEntryView>, loc: LocationView) -> Option<Balance> {
    match spec_select(rates, reg, loc) {
        Some((_, rate)) => Some(rate),
        None => None,
    }
}

/// At most one rate is the first at a location.
pub proof fn lemma_rate_selects_unique(rates: Seq<FixedRateView>, loc: LocationView, i: int, k: int)
    requires
        rate_selects(rates, loc, i),
        rate_selects(rates, loc, k),
    ensures
        i == k,
{
    if i < k {
        assert(rates[i].location == loc);
    } else if k < i {
        assert(rates[k].location == loc);
    }
}

/// The rate that `spec_select` takes where rate `i` is the first at `loc`.
pub proof fn lemma_select_fixed(rates: Seq<FixedRateView>, reg: Seq<RegistryEntryView>, loc: LocationView, i: int)
    requires
        rate_selects(rates, loc, i),
    ensures
        spec_select(rates, reg, loc) == Some((Strategy::FixedRate(i as usize), rates[i].units_per_second)),
{
    let k = choose|k: int| rate_selects(rates, loc, k);
    lemma_rate_selects_unique(rates, loc, i, k);
}

/// The relay chain's asset pays a fiftieth of the baseline rate, rounded
/// down; AUSD and MGX pay fifty times it and KAR a hundred times, whatever
/// the registry holds.
pub proof fn lemma_fixed_rate_ratios(reg: Seq<RegistryEntryView>)
    ensures
        spec_fee_per_second_for(spec_runtime_rates(), reg, spec_root(1)) matches Some(ksm) && ksm * 50 <= spec_default_per_second()
            < (ksm + 1) * 50,
        spec_fee_per_second_for(spec_runtime_rates(), reg, spec_chain_key(1, KARURA_ID, spec_ausd_key())) == Some(
            (spec_default_per_second() * 50) as Balance,
        ),
        spec_fee_per_second_for(spec_runtime_rates(), reg, spec_chain_key(1, MANGATA_ID, spec_mgx_key())) == Some(
            (spec_default_per_second() * 50) as Balance,
        ),
        spec_fee_per_second_for(spec_runtime_rates(), reg, spec_chain_key(1, KARURA_ID, spec_kar_key())) == Some(
            (spec_default_per_second() * 100) as Balance,
        ),
{
    let rates = spec_runtime_rates();
    lemma_default_per_second_value();
    lemma_keys_distinct();
    assert(rates[0].location.interior.len() == 1);
    assert(rates[1].location.interior.len() == 2);
    assert(rates[3].location.interior.len() == 2);
    assert(rates[4].location.interior.len() == 2);
    assert(rates[2].location.interior.len() == 0);
    assert(rates[1].location.interior[0] != rates[3].location.interior[0]);
    assert(rates[3].location.interior[1] != rates[4].location.interior[1]);
    assert(rates[1].location.interior[0] != rates[5].location.interior[0]);
    assert(rates[3].location.interior[0] != rates[5].location.interior[0]);
    lemma_select_fixed(rates, reg, spec_root(1), 2);
    lemma_select_fixed(rates, reg, spec_chain_key(1, KARURA_ID, spec_ausd_key()), 3);
    lemma_select_fixed(rates, reg, spec_chain_key(1, KARURA_ID, spec_kar_key()), 4);
    lemma_select_fixed(rates, reg, spec_chain_key(1, MANGATA_ID, spec_mgx_key()), 5);
}

/// Charging is a function of the trader's table, the registry, the asset and
/// the weight alone: the same request is charged the same amount by the same
/// strategy every time.
pub proof fn lemma_buy_weight_deterministic(
    rates: Seq<FixedRateView>,
    reg: Seq<RegistryEntryView>,
    a1: MultiAssetView,
    a2: MultiAssetView,
    weight: u64,
)
    requires
        a1 == a2,
    ensures
        spec_buy_weight(rates, reg, a1, weight) == spec_buy_weight(rates, reg, a2, weight),
{
}

/// A location that the compiled-in table does not resolve, and that the
/// registry does not hold, resolves to no asset, and this chain's trader
/// refuses it as payment instead of charging nothing.
pub proof fn lemma_unknown_location(self_id: u32, reg: Seq<RegistryEntryView>, loc: LocationView, amount: u128, weight: u64)
    requires
        spec_static_currency_of(self_id, loc) is None,
        !has_location(reg, loc),
    ensures
        spec_currency_of(self_id, reg, loc) is None,
        spec_buy_weight(
            spec_runtime_rates(),
            reg,
            MultiAssetView { id: AssetIdView::Concrete(loc), amount },
            weight,
        ) == Err::<Purchase, TradeError>(TradeError::NoSuitablePaymentAsset),
{
    let rates = spec_runtime_rates();
    lemma_keys_distinct();
    assert forall|i: int| 0 <= i < rates.len() implies rates[i].location != loc by {
        if i != 2 {
            assert(rates[i].location != spec_root(1)) by {
                assert(rates[i].location.interior.len() != 0);
            }
        }
    }
    assert(!exists|i: int| rate_selects(rates, loc, i));
}

fn chain_key_rate(para: u32, key: Vec<u8>, units_per_second: Balance) -> (r: FixedRate)
    requires
        key@.len() <= 32,
    ensures
        r@ == (FixedRateView { location: spec_chain_key(1, para, key@), units_per_second }),
{
    let location = Location::x2(1, Junction::Parachain(para), general_key(key.as_slice()));
    assert(location@.interior =~= spec_chain_key(1, para, key@).interior);
    FixedRate { location, units_per_second }
}

/// Receives the fees charged.
#[derive(Debug)]
pub struct ToTreasury {
    /// Every fee received, in order.
    pub received: Vec<MultiAsset>,
}

impl ToTreasury {
    /// A sink that has received nothing.
    pub fn new() -> (r: ToTreasury)
        ensures
            r.received@.len() == 0,
    {
        ToTreasury { received: Vec::new() }
    }

    /// Keeps `revenue`.
    pub fn take_revenue(&mut self, revenue: MultiAsset)
        ensures
            final(self).received@ == old(self).received@.push(revenue),
    {
        self.received.push(revenue);
    }
}

/// The fee of `units_per_second` for `weight`.
pub fn charge_for(units_per_second: Balance, weight: u64) -> (r: Balance)
    ensures
        r == spec_charge(units_per_second, weight),
{
    let second = WEIGHT_PER_SECOND as Balance;
    let w = weight as Balance;
    let whole = units_per_second / second;
    let rest = units_per_second % second;
    proof {
        let r = units_per_second as int;
        let s = second as int;
        let i = whole as int;
        let m = rest as int;
        lemma_fundamental_div_mod(r, s);
        assert(w * m + w * i * s == w * r) by (nonlinear_arith)
            requires r == s * i + m;
        lemma_hoist_over_denominator(w * m, w * i, s as nat);
        assert(w * m / s >= 0) by (nonlinear_arith)
            requires w >= 0, m >= 0, s > 0;
        assert(w * m < 0x1_0000_0000_0000_0000 * 1_000_000_000_000) by (nonlinear_arith)
            requires 0 <= w < 0x1_0000_0000_0000_0000, 0 <= m < s, s == 1_000_000_000_000;
    }
    match whole.checked_mul(w) {
        None => Balance::MAX,
        Some(integer) => integer.saturating_add(rest * w / second),
    }
}

/// The fixed rates, tried in order, then the registry.
#[derive(Debug)]
pub struct Trader {
    pub rates: Vec<FixedRate>,
}

impl View for Trader {
    type V = Seq<FixedRateView>;

    open spec fn view(&self) -> Seq<FixedRateView> {
        self.rates@.map_values(|r: FixedRate| r@)
    }
}

impl Trader {
    /// This chain's trader, over `spec_runtime_rates`.
    pub fn runtime() -> (r: Trader)
        ensures
            r@ == spec_runtime_rates(),
    {
        let canonical = Location::x1(0, general_key(imbu_key().as_slice()));
        assert(canonical@.interior =~= spec_local_key(spec_imbu_key()).interior);
        let mut rates: Vec<FixedRate> = Vec::new();
        rates.push(FixedRate { location: canonical, units_per_second: native_per_second() });
        rates.push(chain_key_rate(IMBUE_ID, imbu_key(), native_per_second()));
        rates.push(FixedRate { location: Location::parent(), units_per_second: ksm_per_second() });
        rates.push(chain_key_rate(KARURA_ID, ausd_key(), ausd_fixed_rate()));
        rates.push(chain_key_rate(KARURA_ID, kar_key(), kar_fixed_rate()));
        rates.push(chain_key_rate(MANGATA_ID, mgx_key(), mgx_fixed_rate()));
        let r = Trader { rates };
        assert(r@ =~= spec_runtime_rates());
        r
    }

    /// The fee per second that this trader charges the asset at `location`.
    pub fn fee_per_second_for(&self, registry: &AssetRegistry, location: &Location) -> (r: Option<Balance>)
        requires
            registry.wf(),
        ensures
            r == spec_fee_per_second_for(self@, registry@, location@),
    {
        match self.select_fixed(location) {
            Some(i) => {
                proof {
                    assert forall|k: int| rate_selects(self@, location@, k) implies k == i as int by {
                        if k < i as int {
                            assert(self@[k].location == location@);
                        } else if k > i as int {
                            assert(self@[i as int].location == location@);
                        }
                    }
                }
                assert(self@[i as int] == self.rates@[i as int]@);
                Some(self.rates[i].units_per_second)
            },
            None => FixedConversionRateProvider::get_fee_per_second(registry, location),
        }
    }

    /// The first rate at `loc`.
    fn select_fixed(&self, loc: &Location) -> (r: Option<usize>)
        ensures
            match r {
                Some(i) => rate_selects(self@, loc@, i as int),
                None => !exists|i: int| rate_selects(self@, loc@, i),
            },
    {
        let mut i: usize = 0;
        while i < self.rates.len()
            invariant
                i <= self@.len(),
                self@.len() == self.rates@.len(),
                forall|j: int| 0 <= j < i ==> (#[trigger] self@[j]).location != loc@,
            decreases self@.len() - i,
        {
            assert(self@[i as int] == self.rates@[i as int]@);
            if self.rates[i].location.equals(loc) {
                return Some(i);
            }
            i = i + 1;
        }
        None
    }

    /// Charges `payment` for `weight` through the first strategy that takes
    /// it, and forwards the fee to `sink`. All or nothing: where the asset is
    /// unknown or does not cover the fee, neither `payment` nor `sink` changes.
    pub fn buy_weight(&self, registry: &AssetRegistry, weight: u64, payment: &mut MultiAsset, sink: &mut ToTreasury) -> (r: Result<Purchase, TradeError>)
        requires
            registry.wf(),
        ensures
            r == spec_buy_weight(self@, registry@, old(payment)@, weight),
            r matches Ok(p) ==> {
                &&& final(payment)@ == (MultiAssetView { id: old(payment)@.id, amount: (old(payment)@.amount - p.charged) as u128 })
                &&& final(sink).received@.len() == old(sink).received@.len() + 1
                &&& final(sink).received@.drop_last() == old(sink).received@
                &&& final(sink).received@.last()@ == (MultiAssetView { id: old(payment)@.id, amount: p.charged })
            },
            r is Err ==> final(payment)@ == old(payment)@ && final(sink).received@ == old(sink).received@,
    {
        let loc = match &payment.id {
            AssetId::Concrete(l) => l,
            AssetId::Abstract(_) => {
                return Err(TradeError::NoSuitablePaymentAsset);
            },
        };
        let (strategy, rate) = match self.select_fixed(loc) {
            Some(i) => {
                proof {
                    assert forall|k: int| rate_selects(self@, loc@, k) implies k == i as int by {
                        if k < i as int {
                            assert(self@[k].location == loc@);
                        } else if k > i as int {
                            assert(self@[i as int].location == loc@);
                        }
                    }
                }
                assert(self@[i as int] == self.rates@[i as int]@);
                (Strategy::FixedRate(i), self.rates[i].units_per_second)
            },
            None => match FixedConversionRateProvider::get_fee_per_second(registry, loc) {
                Some(f) => (Strategy::Registry, f),
                None => {
                    return Err(TradeError::NoSuitablePaymentAsset);
                },
            },
        };
        let charged = charge_for(rate, weight);
        if charged > payment.amount {
            return Err(TradeError::NoSuitablePaymentAsset);
        }
        let revenue = MultiAsset { id: AssetId::Concrete(loc.duplicate()), amount: charged };
        payment.amount = payment.amount - charged;
        sink.take_revenue(revenue);
        Ok(Purchase { strategy, charged })
    }
}

} // verus!
