use shylock::catalog::{
    amount_le_exec, city_options, compare_amounts, compare_by_value, compare_properties,
    filter_asset_type, find_auction, get_bidinfo, keep_selection, model_options,
    other_asset_sorting, property_cities, property_filter, property_places, property_provinces,
    set_global_info, text_less, vehicle_filter, OtherAssetSorting, PropertySorting,
    VehicleSorting, ALL_BRAND_STR, ALL_CITIES_STR, ALL_MODEL_STR,
};
use shylock::catalog::{
    next_other_asset_sorting, next_property_sorting, next_vehicle_sorting, PropertyColumn,
    PropertySortState, SortingOrder,
};
use shylock::categories::PropertyCategory;
use shylock::dates::Date;
use shylock::provinces::Province;
use shylock::types::{
    Amount, Asset, Auction, AuctionKind, BidInfo, LotAuctionKind, Management, Other, Property,
    Vehicle,
};
use std::cmp::Ordering;

fn amount(mantissa: i64, scale: u32) -> Amount {
    Amount { mantissa, scale }
}

fn bid(value: i64) -> BidInfo {
    BidInfo {
        appraisal: amount(0, 2),
        bid_step: amount(0, 2),
        claim_quantity: amount(0, 2),
        deposit: amount(0, 2),
        minimum_bid: amount(0, 2),
        value: amount(value, 2),
    }
}

fn management() -> Management {
    Management {
        code: String::from("1"),
        description: String::from("NA"),
        address: String::from("NA"),
        telephone: String::from("NA"),
        fax: String::from("NA"),
        email: String::from("NA"),
    }
}

fn auction(id: &str, value: i64) -> Auction {
    Auction {
        id: String::from(id),
        kind: AuctionKind::TaxAgency,
        claim_quantity: amount(0, 2),
        lots: 0,
        lot_kind: LotAuctionKind::NotApplicable,
        management: management(),
        bidinfo: bid(value),
        start_date: Date { year: 2020, month: 1, day: 1 },
        end_date: Date { year: 2020, month: 2, day: 1 },
        notice: String::from("BOE"),
    }
}

fn property(id: &str, city: &str, province: Province, bidinfo: Option<BidInfo>) -> Property {
    Property {
        address: String::from("NA"),
        auction_id: String::from(id),
        bidinfo,
        catastro_reference: String::from("NA"),
        category: PropertyCategory::Apartment,
        charges: amount(0, 2),
        city: String::from(city),
        description: String::from("NA"),
        owner_status: String::from("NA"),
        postal_code: String::from("NA"),
        primary_residence: String::from("NA"),
        province,
        register_inscription: String::from("NA"),
        visitable: String::from("NA"),
    }
}

fn vehicle(brand: &str, model: &str) -> Vehicle {
    Vehicle {
        auction_id: String::from("A"),
        bidinfo: None,
        brand: String::from(brand),
        charges: amount(0, 2),
        description: String::from("NA"),
        frame_number: String::from("NA"),
        licensed_date: Date { year: 2000, month: 1, day: 1 },
        license_plate: String::from("NA"),
        localization: String::from("NA"),
        model: String::from(model),
        subcategory: String::from("TURISMOS"),
        visitable: String::from("NA"),
    }
}

fn other(bidinfo: Option<BidInfo>) -> Other {
    Other {
        additional_information: String::from("NA"),
        auction_id: String::from("B"),
        bidinfo,
        charges: amount(0, 2),
        description: String::from("NA"),
        judicial_title: String::from("NA"),
        subcategory: String::from("NA"),
        visitable: String::from("NA"),
    }
}

#[test]
fn amount_order_test() {
    assert!(amount_le_exec(&amount(150, 2), &amount(15, 1)));
    assert!(amount_le_exec(&amount(15, 1), &amount(150, 2)));
    assert!(amount_le_exec(&amount(999, 2), &amount(10, 0)));
    assert!(!amount_le_exec(&amount(10, 0), &amount(999, 2)));
    assert!(amount_le_exec(&amount(-5, 0), &amount(0, 30)));
    assert!(!amount_le_exec(&amount(1, 0), &amount(i64::MAX, 25)));
    assert!(amount_le_exec(&amount(i64::MAX, 25), &amount(1, 0)));
    assert_eq!(compare_amounts(&amount(150, 2), &amount(15, 1)), Ordering::Equal);
    assert_eq!(compare_amounts(&amount(1, 0), &amount(2, 0)), Ordering::Less);
    assert_eq!(compare_amounts(&amount(3, 0), &amount(2, 0)), Ordering::Greater);
}

#[test]
fn global_info_test() {
    let auctions = vec![auction("A", 100_00), auction("B", 500_00)];
    let assets = vec![
        Asset::Property(property("A", "MADRID", Province::Madrid, Some(bid(300_00)))),
        Asset::Property(property("A", "ALCALA", Province::Madrid, None)),
        Asset::Property(property("B", "AVILA", Province::Avila, Some(bid(700_00)))),
        Asset::Vehicle(vehicle("AUDI", "A4")),
        Asset::Property(property("B", "MADRID", Province::Madrid, None)),
    ];
    let info = set_global_info(&auctions, &assets);
    assert_eq!(info.max_auction_value, amount(700_00, 2));
    assert_eq!(info.provinces, vec![Province::Avila, Province::Madrid]);
    assert_eq!(
        info.cities,
        vec![String::from("ALCALA"), String::from("AVILA"), String::from("MADRID")]
    );
    assert_eq!(
        info.cities_provinces,
        vec![
            (String::from("ALCALA"), Province::Madrid),
            (String::from("AVILA"), Province::Avila),
            (String::from("MADRID"), Province::Madrid),
        ]
    );
    let cheap = vec![Asset::Other(other(Some(bid(10_00))))];
    assert_eq!(set_global_info(&auctions, &cheap).max_auction_value, amount(500_00, 2));
    assert!(property_provinces(&cheap).is_empty());
    assert!(property_cities(&cheap).is_empty());
    assert!(property_places(&cheap).is_empty());
}

#[test]
fn text_order_test() {
    assert!(text_less("ALCALA", "AVILA"));
    assert!(text_less("AVILA", "AVILAS"));
    assert!(!text_less("AVILA", "AVILA"));
    assert!(text_less("Z", "Á"));
    assert!(!text_less("b", "a"));
}

#[test]
fn bidinfo_test() {
    let auctions = vec![auction("A", 100_00), auction("B", 500_00)];
    assert_eq!(find_auction(&auctions, "B"), Some(1));
    assert_eq!(find_auction(&auctions, "C"), None);
    assert_eq!(get_bidinfo(&None, &auctions, "B"), bid(500_00));
    assert_eq!(get_bidinfo(&Some(bid(7)), &auctions, "B"), bid(7));
}

#[test]
fn filters_test() {
    let p = property("A", "MADRID", Province::Madrid, None);
    assert!(property_filter(&p, Province::All, ALL_CITIES_STR));
    assert!(property_filter(&p, Province::Madrid, "MADRID"));
    assert!(!property_filter(&p, Province::Avila, ALL_CITIES_STR));
    assert!(!property_filter(&p, Province::All, "ALCALA"));
    let asset = Asset::Property(p);
    assert!(filter_asset_type(&asset, Province::All, ""));
    assert!(filter_asset_type(&asset, Province::Madrid, "MADRID"));
    assert!(!filter_asset_type(&asset, Province::Madrid, "AVILA"));
    assert!(!filter_asset_type(&Asset::Vehicle(vehicle("AUDI", "A4")), Province::All, ""));
    let v = vehicle("AUDI", "A4");
    let mut b = bid(100);
    assert!(vehicle_filter(&v, &b, ALL_BRAND_STR, ALL_MODEL_STR, true));
    assert!(vehicle_filter(&v, &b, "AUDI", "A4", false));
    assert!(!vehicle_filter(&v, &b, "SEAT", ALL_MODEL_STR, false));
    assert!(!vehicle_filter(&v, &b, "AUDI", "A3", false));
    b.bid_step = amount(30200, 2);
    assert!(!vehicle_filter(&v, &b, ALL_BRAND_STR, ALL_MODEL_STR, true));
    assert!(vehicle_filter(&v, &b, ALL_BRAND_STR, ALL_MODEL_STR, false));
}

#[test]
fn options_test() {
    let pairs = vec![
        (String::from("AUDI"), String::from("A3")),
        (String::from("SEAT"), String::from("IBIZA")),
        (String::from("AUDI"), String::from("A4")),
    ];
    assert_eq!(
        model_options(&pairs, "AUDI"),
        vec![String::from(ALL_MODEL_STR), String::from("A3"), String::from("A4")]
    );
    assert_eq!(model_options(&pairs, ALL_BRAND_STR).len(), 4);
    let places = vec![
        (String::from("ALCALA"), Province::Madrid),
        (String::from("AVILA"), Province::Avila),
    ];
    assert_eq!(
        city_options(&places, Province::Avila),
        vec![String::from(ALL_CITIES_STR), String::from("AVILA")]
    );
    assert_eq!(city_options(&places, Province::All).len(), 3);
    let options = city_options(&places, Province::Madrid);
    assert_eq!(keep_selection(&options, "ALCALA"), "ALCALA");
    assert_eq!(keep_selection(&options, "AVILA"), ALL_CITIES_STR);
}

#[test]
fn sortings_test() {
    let a = property("A", "MADRID", Province::Madrid, None);
    let b = property("A", "AVILA", Province::Avila, None);
    let (x, y) = (bid(100), bid(200));
    assert_eq!(compare_properties(PropertySorting::Unsorted, &a, &x, &b, &y), Ordering::Equal);
    assert_eq!(compare_properties(PropertySorting::ByProvince, &a, &x, &b, &y), Ordering::Greater);
    assert_eq!(
        compare_properties(PropertySorting::ByReverseProvince, &a, &x, &b, &y),
        Ordering::Less
    );
    assert_eq!(compare_properties(PropertySorting::ByValue, &a, &x, &b, &y), Ordering::Less);
    assert_eq!(
        compare_properties(PropertySorting::ByReverseValue, &a, &x, &b, &y),
        Ordering::Greater
    );
    assert_eq!(compare_by_value(VehicleSorting::ByValue, &y, &x), Ordering::Greater);
    assert_eq!(compare_by_value(VehicleSorting::Unsorted, &y, &x), Ordering::Equal);
    assert_eq!(
        other_asset_sorting(OtherAssetSorting::ByReverseValue),
        VehicleSorting::ByReverseValue
    );
}

#[test]
fn vehicles_route_lists_only_vehicles_test() {
    assert!(shylock::frontend::is_vehicle(&Asset::Vehicle(vehicle("AUDI", "A4"))));
    assert!(!shylock::frontend::is_vehicle(&Asset::Property(property(
        "A",
        "MADRID",
        Province::Madrid,
        None
    ))));
    assert!(!shylock::frontend::is_vehicle(&Asset::Other(other(None))));
}

#[test]
fn property_view_rows_test() {
    let p = property("SUB-1", "MADRID", Province::Madrid, None);
    let mut b = bid(1_234_567_89);
    b.claim_quantity = amount(500_00, 2);
    let rows = shylock::frontend::property_view_rows(&p, &b, None, false);
    assert_eq!(rows.len(), 7);
    assert_eq!(
        rows[0],
        (
            String::from("Identificador subasta: "),
            String::from("SUB-1"),
            Some(String::from("https://subastas.boe.es/detalleSubasta.php?idSub=SUB-1"))
        )
    );
    assert_eq!(rows[1], (String::from("Ciudad: "), String::from("MADRID."), None));
    assert_eq!(rows[2], (String::from("Provincia: "), String::from("Madrid."), None));
    assert_eq!(rows[3], (String::from("Descripción: "), String::from("NA."), None));
    assert_eq!(rows[4].1, "1.234.567,0 €.");
    assert_eq!(rows[5].1, "500,0 €.");
    let linked = shylock::frontend::property_view_rows(&p, &b, Some(String::from("http://c")), false);
    assert_eq!(
        linked[1],
        (String::from("Referencia catastral: "), String::from("NA"), Some(String::from("http://c")))
    );
    let plain = shylock::frontend::property_view_rows(&p, &b, None, true);
    assert_eq!(plain[1], (String::from("Referencia catastral: "), String::from("NA"), None));
    let mut q = p.clone();
    q.description = String::from("Piso.");
    let rows = shylock::frontend::property_view_rows(&q, &b, None, false);
    assert_eq!(rows[3].1, "Piso.");
}

#[test]
fn vehicle_view_rows_test() {
    let v = vehicle("AUDI", "A4");
    let mut b = bid(10_000_00);
    let rows = shylock::frontend::vehicle_view_rows(&v, &b);
    assert_eq!(rows.len(), 7);
    assert_eq!(rows[1], (String::from("Marca y modelo: "), String::from("AUDI A4."), None));
    assert_eq!(rows[3].1, "10.000,0 €.");
    assert_eq!(rows[6], (String::from("Tramos entre pujas: "), String::from("Sin tramos."), None));
    b.bid_step = amount(300_00, 2);
    let rows = shylock::frontend::vehicle_view_rows(&v, &b);
    assert_eq!(rows[6].1, "300,0 €.");
}

#[test]
fn header_click_sortings_test() {
    let start = PropertySortState {
        sorting: PropertySorting::Unsorted,
        province_order: SortingOrder::Unsorted,
        value_order: SortingOrder::Unsorted,
    };
    let once = next_property_sorting(start, PropertyColumn::Province);
    assert_eq!(
        once,
        PropertySortState {
            sorting: PropertySorting::ByProvince,
            province_order: SortingOrder::Down,
            value_order: SortingOrder::Unsorted,
        }
    );
    let twice = next_property_sorting(once, PropertyColumn::Province);
    assert_eq!(twice.sorting, PropertySorting::ByReverseProvince);
    assert_eq!(twice.province_order, SortingOrder::Up);
    let value = next_property_sorting(twice, PropertyColumn::Value);
    assert_eq!(
        value,
        PropertySortState {
            sorting: PropertySorting::ByValue,
            province_order: SortingOrder::Unsorted,
            value_order: SortingOrder::Down,
        }
    );
    assert_eq!(
        next_vehicle_sorting(SortingOrder::Down),
        (VehicleSorting::ByReverseValue, SortingOrder::Up)
    );
    assert_eq!(next_vehicle_sorting(SortingOrder::Up), (VehicleSorting::ByValue, SortingOrder::Down));
    assert_eq!(
        next_other_asset_sorting(SortingOrder::Unsorted),
        (OtherAssetSorting::ByValue, SortingOrder::Down)
    );
}
