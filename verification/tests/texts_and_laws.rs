use shylock::categories::{InvalidCategory, PropertyCategory};
use shylock::concepts::{BoeConcept, InvalidBoeConcept};
use shylock::geosolver::{
    catastro_coordinates_url, catastro_data_url, clean_address, nominatim_city_url,
    nominatim_street_url,
};
use shylock::listing;
use shylock::parser::{
    parse_data_from_catastro_dnprc_response, parse_lot_auction_page, parse_main_auction_links,
    parse_main_auction_page, try_parse_extra_pages, try_parse_lot_auction_page, try_parse_result_page,
    ParseError,
};
use shylock::provinces::{InvalidProvince, Province};
use shylock::table::ConceptTable;
use shylock::text::{decimal_text, parse_i64, parse_u32, replace, trimmed};
use shylock::types::{
    get_clean_text, get_decimal, get_vehicle_date, Amount, Asset, Auction, AuctionState,
    Management, Property,
};
use shylock::util::{
    extract_auction_id_from_link, extract_auction_lot_number_from_link, link_has_field, normalize,
};
use shylock::web::{format_valuation, summarize, Route};

#[test]
fn route_round_trip_test() {
    let routes = [
        Route::Properties,
        Route::PropertiesMap,
        Route::Vehicles,
        Route::OtherAssets,
        Route::Statistics,
        Route::Home,
    ];
    for r in routes.iter() {
        assert_eq!(Route::from_hash(r.to_url()), *r);
    }
    assert_eq!(Route::from_hash("#/nowhere"), Route::Home);
    assert_eq!(Route::Vehicles.to_url(), "#/vehicles");
}

#[test]
fn header_round_trip_test() {
    let (cat, sub) = Asset::parse_header("LOTE 7 - VEHÍCULO (TURISMOS)");
    assert_eq!((cat.as_str(), sub.as_str()), ("VEHÍCULO", "TURISMOS"));
    let (cat, sub) = Asset::parse_header("BIEN 3 - DERECHOS");
    assert_eq!((cat.as_str(), sub.as_str()), ("DERECHOS", ""));
    assert!(Asset::header_is_valid("BIEN 1 - INMUEBLE (VIVIENDA)"));
    assert!(!Asset::header_is_valid("SIN GUION"));
    assert!(!Asset::header_is_valid("BIEN 1 - INMUEBLE (VIVIENDA"));
}

#[test]
fn field_round_trip_test() {
    let link = "https://subastas.boe.es/detalleSubasta.php?idSub=SUB-JA-2020-146153&idLote=4&idBus=X";
    assert_eq!(extract_auction_id_from_link(link).unwrap(), "SUB-JA-2020-146153");
    assert_eq!(extract_auction_lot_number_from_link(link).unwrap(), "4");
    assert!(link_has_field(link, "?idSub="));
    assert!(!link_has_field("https://subastas.boe.es/detalleSubasta.php?idSub=SUB", "?idSub="));
    assert!(!link_has_field("https://subastas.boe.es/", "idLote="));
}

#[test]
fn table_insert_then_get_test() {
    let mut table = ConceptTable::new();
    assert!(!table.contains(BoeConcept::City));
    table.insert(BoeConcept::City, String::from("MURCIA"));
    table.insert(BoeConcept::Code, String::from("1"));
    table.insert(BoeConcept::City, String::from("LORCA"));
    assert_eq!(table.get(BoeConcept::City).unwrap(), "LORCA");
    assert_eq!(table.get(BoeConcept::Code).unwrap(), "1");
    assert!(table.get(BoeConcept::Fax).is_none());
    let mut other = ConceptTable::new();
    other.insert(BoeConcept::Code, String::from("1"));
    assert!(table != other);
    other.insert(BoeConcept::City, String::from("LORCA"));
    assert!(table == other);
}

#[test]
fn group_thousands_round_trip_test() {
    assert_eq!(format_valuation(&Amount { mantissa: 123456789, scale: 2 }), "1.234.567,0");
    assert_eq!(format_valuation(&Amount { mantissa: 99900, scale: 2 }), "999,0");
    assert_eq!(format_valuation(&Amount { mantissa: 0, scale: 2 }), "0,0");
    let shown = format_valuation(&Amount { mantissa: 123456700, scale: 2 });
    let whole = shown.split(',').next().unwrap();
    let mut data = ConceptTable::new();
    data.insert(BoeConcept::Appraisal, format!("{},00 €", whole));
    assert_eq!(
        get_decimal(&data, &BoeConcept::Appraisal),
        Amount { mantissa: 123456700, scale: 2 }
    );
    assert_eq!(format_valuation(&Amount { mantissa: -5, scale: 2 }), "0,0");
}

#[test]
fn normalize_test() {
    assert_eq!(normalize("Ávila y Cáceres"), "AVILA Y CACERES");
    let once = normalize("múrcia, éntre ríos");
    assert_eq!(normalize(&once), once);
    assert_eq!(normalize("ñandú"), "ÑANDU");
}

#[test]
fn summarize_test() {
    let long = "x".repeat(400);
    assert_eq!(summarize(&long).chars().count(), 150);
    assert_eq!(summarize("corto"), "corto");
    let summary = listing::summarize(&long);
    assert_eq!(summary.chars().count(), 303);
    assert!(summary.ends_with("..."));
    assert_eq!(listing::summarize("breve"), "breve");
    let exact = "ñ".repeat(300);
    assert_eq!(listing::summarize(&exact), format!("{}...", exact));
    assert_eq!(
        listing::get_external_url("SUB-1"),
        "https://subastas.boe.es/detalleSubasta.php?idSub=SUB-1"
    );
}

#[test]
fn numbers_test() {
    assert_eq!(parse_u32("1572"), Some(1572));
    assert_eq!(parse_u32("-1"), None);
    assert_eq!(parse_u32("4294967296"), None);
    assert_eq!(parse_i64("-8197157"), Some(-8197157));
    assert_eq!(parse_i64("12a"), None);
    assert_eq!(decimal_text(1500), "1500");
    assert_eq!(replace("a.b.c", ".", ""), "abc");
    assert_eq!(trimmed("  a b \n"), "a b");
}

#[test]
fn clean_text_and_dates_test() {
    let mut data = ConceptTable::new();
    data.insert(BoeConcept::Description, String::from("UNO,DOS.TRES  CUATRO "));
    assert_eq!(get_clean_text(&data, &BoeConcept::Description), "UNO, DOS. TRES CUATRO");
    assert_eq!(get_clean_text(&data, &BoeConcept::Address), "NA");
    data.insert(BoeConcept::LicensedDate, String::from("02/07/2004"));
    let d = get_vehicle_date(&data, &BoeConcept::LicensedDate);
    assert_eq!((d.year, d.month, d.day), (2004, 7, 2));
    data.insert(BoeConcept::LicensedDate, String::from("nunca"));
    let d = get_vehicle_date(&data, &BoeConcept::LicensedDate);
    assert_eq!((d.year, d.month, d.day), (2000, 1, 1));
    assert_eq!(AuctionState::from_word("Suspendida"), Some(AuctionState::Suspended));
    assert_eq!(AuctionState::from_word("Otra"), None);
}

#[test]
fn error_variants_test() {
    assert!(try_parse_lot_auction_page("<div></div>", "]]").is_none());
    assert_eq!(
        try_parse_lot_auction_page("<div></div>", "1").unwrap().unwrap_err(),
        ParseError::MissingElement
    );
    assert_eq!(
        parse_lot_auction_page("<div></div>", "1").unwrap_err(),
        ParseError::MissingElement
    );
    assert_eq!(parse_main_auction_page("<p></p>").unwrap_err(), ParseError::MissingElement);
    let no_href = r#"<ul class="navlist"><li><a>1</a></li><li><a>2</a></li><li><a>3</a></li></ul>"#;
    assert_eq!(parse_main_auction_links(no_href).unwrap_err(), ParseError::MissingAttribute);
    let unknown = r#"<div id="idBloqueDatos1"><table><tr><th>Color</th><td>rojo</td></tr></table></div>"#;
    assert_eq!(
        parse_main_auction_page(unknown).unwrap_err(),
        ParseError::InvalidConcept(InvalidBoeConcept::new("Color"))
    );
    assert_eq!(
        parse_data_from_catastro_dnprc_response("<cn>UR</cn>", "X").unwrap_err(),
        ParseError::MissingElement
    );
    assert_eq!(InvalidBoeConcept::new("x").message(), "Unkown BOE concept: x");
    assert_eq!(InvalidProvince::new("y").message(), "Unkown province: y");
    assert_eq!(InvalidCategory::new("z").message(), "Unkown category: z");
    assert_eq!("".parse::<PropertyCategory>(), Ok(PropertyCategory::Apartment));
    assert_eq!("Ourense".parse::<Province>(), Ok(Province::Orense));
    assert_eq!("Castellón".parse::<Province>(), Ok(Province::Castellon));
}

#[test]
fn partial_functions_test() {
    assert!(try_parse_extra_pages("<div class=\"paginar\"><p>sin numero</p></div>").is_none());
    let without_template = "<div class=\"paginar\"><p>Resultados 1 a 20 de 20</p></div>";
    assert_eq!(try_parse_extra_pages(without_template), Some(Vec::new()));
    let no_state = r#"<li class="resultado-busqueda"><a class="resultado-busqueda-link-otro" href="x">x</a> Estado: Raro </li>"#;
    assert!(try_parse_result_page(no_state).is_none());
    let unknown_state = r#"<li class="resultado-busqueda"><a class="resultado-busqueda-link-otro" href="x">x</a></li>"#;
    assert_eq!(
        try_parse_result_page(unknown_state),
        Some(vec![(String::from("https://subastas.boe.es/x"), AuctionState::Unknown)])
    );
    let mut data = ConceptTable::new();
    data.insert(BoeConcept::Province, String::from("Atlantis"));
    assert!(Property::try_new("A", PropertyCategory::Apartment, &data).is_none());
    data.insert(BoeConcept::Header, String::from("SIN CABECERA"));
    assert!(Asset::try_new("A", &data).is_none());
    let mut dates = ConceptTable::new();
    dates.insert(BoeConcept::StartDate, String::from("mañana"));
    let mgm = Management::new(&dates);
    assert_eq!(mgm.code, "NA");
    assert!(Auction::try_new(&dates, mgm).is_none());
}

#[test]
fn geosolver_urls_test() {
    assert_eq!(clean_address("CALLE  MAYOR \t 5"), "CALLE MAYOR 5");
    assert_eq!(
        nominatim_street_url("CALLE  MAYOR 5", "MADRID", "Madrid", "Spain", "28001"),
        "https://nominatim.openstreetmap.org/search.php?street=CALLE MAYOR 5&city=MADRID&state=Madrid&country=Spain&postalcode=28001&countrycodes=es&format=jsonv2"
    );
    assert_eq!(
        nominatim_city_url("MADRID", "Madrid", "Spain", "28001"),
        "https://nominatim.openstreetmap.org/search.php?city=MADRID&state=Madrid&country=Spain&postalcode=28001&countrycodes=es&format=jsonv2"
    );
    assert!(catastro_data_url("6344205CF7664S0001GP").ends_with("&RC=6344205CF7664S0001GP"));
    assert!(catastro_coordinates_url("6344205CF7664S0001GP").ends_with("EPSG:4326&RC=6344205CF7664S"));
}


#[test]
fn external_url_id_round_trip_test() {
    let link = format!("{}&idBus=x", listing::get_external_url("SUB-JA-2020-149625"));
    assert!(link_has_field(&link, "?idSub="));
    assert_eq!(extract_auction_id_from_link(&link), Ok("SUB-JA-2020-149625"));
}

#[test]
fn normal_form_of_ascii_test() {
    assert_eq!(normalize("calle mayor 3, bajo-1"), "CALLE MAYOR 3, BAJO-1");
    assert_eq!(normalize("éxito"), "EXITO");
}
