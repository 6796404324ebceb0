use imbue_assets::fees::default_per_second;
use imbue_assets::location::{general_key, AssetId, Junction, Location, MultiAsset};
use imbue_assets::parachains::{ausd_key, imbu_key, kar_key, mgx_key, IMBUE_ID, KARURA_ID, MANGATA_ID};
use imbue_assets::registry::{AssetMetadata, AssetRegistry, FixedConversionRateProvider};
use imbue_assets::tokens::{CurrencyId, CustomMetadata, XcmMetadata};
use imbue_assets::trader::{Purchase, Strategy, ToTreasury, TradeError, Trader};

const SECOND: u64 = 1_000_000_000_000;

fn chain_key(para: u32, key: Vec<u8>) -> Location {
    Location::x2(1, Junction::Parachain(para), general_key(&key))
}

fn register(registry: &mut AssetRegistry, id: u32, loc: Location, fee_per_second: Option<u128>) {
    let m = AssetMetadata {
        decimals: 12,
        location: Some(loc),
        additional: CustomMetadata { xcm: XcmMetadata { fee_per_second } },
    };
    registry.register(Some(CurrencyId::ForeignAsset(id)), m).unwrap();
}

#[test]
fn fixed_rate_ratios() {
    let trader = Trader::runtime();
    let registry = AssetRegistry::new();
    let d = default_per_second();
    let ksm = trader.fee_per_second_for(&registry, &Location::parent()).unwrap();
    assert_eq!(ksm, d / 50);
    assert!(ksm * 50 <= d && d < (ksm + 1) * 50);
    assert_eq!(trader.fee_per_second_for(&registry, &chain_key(KARURA_ID, ausd_key())), Some(d * 50));
    assert_eq!(trader.fee_per_second_for(&registry, &chain_key(MANGATA_ID, mgx_key())), Some(d * 50));
    assert_eq!(trader.fee_per_second_for(&registry, &chain_key(KARURA_ID, kar_key())), Some(d * 100));
    assert_eq!(trader.fee_per_second_for(&registry, &chain_key(IMBUE_ID, imbu_key())), Some(d));
    let local = Location::x1(0, general_key(&imbu_key()));
    assert_eq!(trader.fee_per_second_for(&registry, &local), Some(d));
    assert_eq!(trader.fee_per_second_for(&registry, &chain_key(4000, vec![1])), None);
}

#[test]
fn registry_rates() {
    let trader = Trader::runtime();
    let mut registry = AssetRegistry::new();
    let own = chain_key(4000, vec![1]);
    let plain = chain_key(4000, vec![2]);
    register(&mut registry, 1, own.clone(), Some(42));
    register(&mut registry, 2, plain.clone(), None);
    assert_eq!(FixedConversionRateProvider::get_fee_per_second(&registry, &own), Some(42));
    assert_eq!(FixedConversionRateProvider::get_fee_per_second(&registry, &plain), Some(default_per_second()));
    assert_eq!(FixedConversionRateProvider::get_fee_per_second(&registry, &Location::parent()), None);
    assert_eq!(trader.fee_per_second_for(&registry, &own), Some(42));
    assert_eq!(trader.fee_per_second_for(&registry, &plain), Some(default_per_second()));
}

#[test]
fn fixed_rate_charges_and_forwards() {
    let trader = Trader::runtime();
    let registry = AssetRegistry::new();
    let mut sink = ToTreasury::new();
    let mut payment = MultiAsset::concrete(Location::parent(), 1_000_000_000_000);
    let r = trader.buy_weight(&registry, SECOND, &mut payment, &mut sink);
    let fee = default_per_second() / 50;
    assert_eq!(r, Ok(Purchase { strategy: Strategy::FixedRate(2), charged: fee }));
    assert_eq!(payment.amount, 1_000_000_000_000 - fee);
    assert_eq!(sink.received.len(), 1);
    assert_eq!(sink.received[0].amount, fee);
    match &sink.received[0].id {
        AssetId::Concrete(l) => assert!(l.equals(&Location::parent())),
        AssetId::Abstract(_) => panic!("revenue must be concrete"),
    }
}

#[test]
fn native_strategies_in_table_order() {
    let trader = Trader::runtime();
    let registry = AssetRegistry::new();
    let mut sink = ToTreasury::new();
    let mut local = MultiAsset::concrete(Location::x1(0, general_key(&imbu_key())), u128::MAX);
    let r = trader.buy_weight(&registry, SECOND / 2, &mut local, &mut sink);
    assert_eq!(r, Ok(Purchase { strategy: Strategy::FixedRate(0), charged: default_per_second() / 2 }));
    let mut sibling = MultiAsset::concrete(chain_key(IMBUE_ID, imbu_key()), u128::MAX);
    let r = trader.buy_weight(&registry, SECOND / 2, &mut sibling, &mut sink);
    assert_eq!(r, Ok(Purchase { strategy: Strategy::FixedRate(1), charged: default_per_second() / 2 }));
    let mut kar = MultiAsset::concrete(chain_key(KARURA_ID, kar_key()), u128::MAX);
    let r = trader.buy_weight(&registry, SECOND, &mut kar, &mut sink);
    assert_eq!(r, Ok(Purchase { strategy: Strategy::FixedRate(4), charged: default_per_second() * 100 }));
    assert_eq!(sink.received.len(), 3);
}

#[test]
fn registry_strategy_charges() {
    let trader = Trader::runtime();
    let mut registry = AssetRegistry::new();
    let loc = chain_key(4000, vec![1]);
    register(&mut registry, 1, loc.clone(), Some(2_000_000_000_000));
    let mut sink = ToTreasury::new();
    let mut payment = MultiAsset::concrete(loc, 10);
    let r = trader.buy_weight(&registry, 3, &mut payment, &mut sink);
    assert_eq!(r, Ok(Purchase { strategy: Strategy::Registry, charged: 6 }));
    assert_eq!(payment.amount, 4);
}

#[test]
fn repeated_requests_charge_the_same() {
    let trader = Trader::runtime();
    let registry = AssetRegistry::new();
    let mut sink = ToTreasury::new();
    let mut a = MultiAsset::concrete(chain_key(KARURA_ID, ausd_key()), u128::MAX);
    let mut b = MultiAsset::concrete(chain_key(KARURA_ID, ausd_key()), u128::MAX);
    let ra = trader.buy_weight(&registry, 123_456_789, &mut a, &mut sink);
    let rb = trader.buy_weight(&registry, 123_456_789, &mut b, &mut sink);
    assert_eq!(ra, rb);
    assert_eq!(a.amount, b.amount);
    assert_eq!(ra.unwrap().strategy, Strategy::FixedRate(3));
}

#[test]
fn insufficient_payment_changes_nothing() {
    let trader = Trader::runtime();
    let registry = AssetRegistry::new();
    let mut sink = ToTreasury::new();
    let mut payment = MultiAsset::concrete(Location::parent(), 10);
    let r = trader.buy_weight(&registry, SECOND, &mut payment, &mut sink);
    assert_eq!(r, Err(TradeError::NoSuitablePaymentAsset));
    assert_eq!(payment.amount, 10);
    assert!(sink.received.is_empty());
}

#[test]
fn unknown_asset_is_refused() {
    let trader = Trader::runtime();
    let registry = AssetRegistry::new();
    let mut sink = ToTreasury::new();
    let mut payment = MultiAsset::concrete(chain_key(4000, vec![1]), u128::MAX);
    assert_eq!(trader.buy_weight(&registry, 0, &mut payment, &mut sink), Err(TradeError::NoSuitablePaymentAsset));
    assert_eq!(payment.amount, u128::MAX);
    let mut abstract_payment = MultiAsset { id: AssetId::Abstract(vec![1]), amount: 5 };
    assert_eq!(
        trader.buy_weight(&registry, 0, &mut abstract_payment, &mut sink),
        Err(TradeError::NoSuitablePaymentAsset)
    );
    assert!(sink.received.is_empty());
}

#[test]
fn zero_weight_charges_zero_on_known_asset() {
    let trader = Trader::runtime();
    let registry = AssetRegistry::new();
    let mut sink = ToTreasury::new();
    let mut payment = MultiAsset::concrete(Location::parent(), 0);
    let r = trader.buy_weight(&registry, 0, &mut payment, &mut sink);
    assert_eq!(r, Ok(Purchase { strategy: Strategy::FixedRate(2), charged: 0 }));
}

#[test]
fn large_registry_rate_is_charged_in_full() {
    let trader = Trader::runtime();
    let mut registry = AssetRegistry::new();
    let loc = chain_key(4000, vec![3]);
    register(&mut registry, 7, loc.clone(), Some(1u128 << 127));
    let mut sink = ToTreasury::new();
    let mut payment = MultiAsset::concrete(loc, u128::MAX);
    let r = trader.buy_weight(&registry, 4, &mut payment, &mut sink);
    let fee = 680_564_733_841_876_926_926_749_214u128;
    assert_eq!(r, Ok(Purchase { strategy: Strategy::Registry, charged: fee }));
    assert_eq!(payment.amount, u128::MAX - fee);
    assert_eq!(sink.received[0].amount, fee);
}
