use geo_types::Point;
use shylock::categories::PropertyCategory;
use shylock::web::{route_fragment, Route};
use shylock::frontend::{
    compact_row, get_province, modal_update, page_window, property_details,
    AppAction, AppMessage, AppState, Menu, ModalMessage, PropertyListMessage, PropertyListState,
    NO_MODAL,
};
use shylock::parser::{parse_coordinate_texts_from_catastro_cpmrc_response, ParseError};
use shylock::provinces::Province;
use shylock::types::{Amount, BidInfo, Property};

#[test]
fn app_state_machine_test() {
    let (mut state, first) = AppState::create();
    assert_eq!(first, AppMessage::GetAssets);
    assert_eq!(state.loading_text(), Some("Cargando bienes ..."));
    assert_eq!(state.update(first), (true, AppAction::FetchAssets));
    assert_eq!(
        state.update(AppMessage::GotAssets),
        (true, AppAction::Send(AppMessage::GetAuctions))
    );
    assert_eq!(state.loading_text(), Some("Cargando subastas ..."));
    assert_eq!(state.update(AppMessage::GetAuctions), (true, AppAction::FetchAuctions));
    assert_eq!(state.update(AppMessage::GotAuctions), (true, AppAction::ComputeGlobalInfo));
    assert_eq!(state.loading_text(), None);
    assert_eq!(state.update(AppMessage::ChangeMenu(Menu::Home)), (false, AppAction::Nothing));
    assert_eq!(state.update(AppMessage::ChangeMenu(Menu::Vehicle)), (true, AppAction::Nothing));
    assert_eq!(state.selected_menu, Menu::Vehicle);
    assert_eq!(Menu::Property.name(), "inmueble");
}

#[test]
fn property_details_test() {
    let amount = |m: i64| Amount { mantissa: m, scale: 2 };
    let property = Property {
        address: String::from("CALLE MAYOR 1"),
        auction_id: String::from("SUB-1"),
        bidinfo: None,
        catastro_reference: String::from("NA"),
        category: PropertyCategory::Garage,
        charges: amount(0),
        city: String::from("LOGROÑO"),
        description: String::from("GARAJE"),
        owner_status: String::from("NA"),
        postal_code: String::from("26007"),
        primary_residence: String::from("NA"),
        province: Province::LaRioja,
        register_inscription: String::from("NA"),
        visitable: String::from("NA"),
    };
    let bid = BidInfo {
        appraisal: amount(1_510_000),
        bid_step: amount(30200),
        claim_quantity: amount(0),
        deposit: amount(75500),
        minimum_bid: amount(0),
        value: amount(1_510_000),
    };
    let (rows, link) = property_details(&property, &bid);
    assert_eq!(link, "https://subastas.boe.es/detalleSubasta.php?idSub=SUB-1");
    assert_eq!(rows.len(), 8);
    assert_eq!(rows[2], (String::from("Provincia:"), String::from("La Rioja")));
    assert_eq!(rows[5], (String::from("Valor subasta:"), String::from("15.100,0 €")));
    assert_eq!(rows[6], (String::from("Cantidad reclamada:"), String::from("0,0 €")));
}

#[test]
fn get_province_test() {
    let provinces = vec![Province::Avila, Province::Madrid];
    assert_eq!(get_province(&provinces, 0), Province::All);
    assert_eq!(get_province(&provinces, 2), Province::Madrid);
}

#[test]
fn read_catastro_cpmrc_response_test() {
    let body = r#"<consulta_coordenadas xmlns:xsd="http://www.w3.org/2001/XMLSchema" xmlns:xsi="http://www.w3.org/2001/XMLSchema-instance" xmlns="http://www.catastro.meh.es/">
        <control><cucoor>1</cucoor><cuerr>0</cuerr></control>
        <coordenadas><coord><pc><pc1>6344205</pc1><pc2>CF7664S</pc2></pc>
        <geo><xcen>1.52328890356962</xcen><ycen>41.2205317242857</ycen><srs>EPSG:4326</srs></geo>
        <ldt>CL ALT EMPORDA 41 N2-51 Km:,04 EL VENDRELL (TARRAGONA)</ldt></coord></coordenadas></consulta_coordenadas>"#;

    let (x, y) = parse_coordinate_texts_from_catastro_cpmrc_response(body).unwrap();
    let result = Some(Point::new(x.parse::<f64>().unwrap(), y.parse::<f64>().unwrap()));

    assert_eq!(
        Point::new(1.52328890356962, 41.2205317242857),
        result.unwrap()
    );
    assert_eq!(
        parse_coordinate_texts_from_catastro_cpmrc_response("<xcen>1</xcen>").unwrap_err(),
        ParseError::MissingElement
    );
}

#[test]
fn compact_row_test() {
    let amount = |m: i64| Amount { mantissa: m, scale: 2 };
    let mut property = Property {
        address: String::from("NA"),
        auction_id: String::from("SUB-1"),
        bidinfo: None,
        catastro_reference: String::from("NA"),
        category: PropertyCategory::Apartment,
        charges: amount(0),
        city: String::from("MURCIA"),
        description: String::from("PISO"),
        owner_status: String::from("NA"),
        postal_code: String::from("NA"),
        primary_residence: String::from("NA"),
        province: Province::Murcia,
        register_inscription: String::from("NA"),
        visitable: String::from("NA"),
    };
    let bid = BidInfo {
        appraisal: amount(0),
        bid_step: amount(0),
        claim_quantity: amount(0),
        deposit: amount(0),
        minimum_bid: amount(0),
        value: amount(8_197_157),
    };
    let row = compact_row(&property, &bid);
    assert_eq!(row.0, "Murcia");
    assert_eq!(row.1, "MURCIA");
    assert_eq!(row.2, "PISO");
    assert_eq!(row.3, "81.971,0 €");
    property.description = "Ñ".repeat(100);
    let row = compact_row(&property, &bid);
    assert_eq!(row.2, format!("{} ...", "Ñ".repeat(100)));
}

#[test]
fn route_fragment_test() {
    assert_eq!(route_fragment("https://shylock.es/index.html#/vehicles"), "#/vehicles");
    assert_eq!(route_fragment("https://shylock.es/"), "");
    let url = format!("https://shylock.es/{}", Route::Statistics.to_url());
    assert_eq!(Route::from_hash(&route_fragment(&url)), Route::Statistics);
}

#[test]
fn property_list_state_test() {
    let mut state = PropertyListState::create();
    assert_eq!(state.current_page, 0);
    assert_eq!(state.province, Province::All);
    assert_eq!(state.city, "");
    assert!(state.update(PropertyListMessage::PaginationChanged(3)));
    assert_eq!(state.current_page, 3);
    assert!(state.update(PropertyListMessage::SelectProvince(Province::Madrid)));
    assert_eq!(state.current_page, 0);
    assert_eq!(state.province, Province::Madrid);
    assert!(state.update(PropertyListMessage::PaginationChanged(2)));
    assert!(state.update(PropertyListMessage::SelectCity("GETAFE".to_string())));
    assert_eq!(state.current_page, 0);
    assert_eq!(state.city, "GETAFE");
    assert_eq!(state.province, Province::Madrid);
}

#[test]
fn page_window_test() {
    assert_eq!(page_window(0, 250), (0, 100));
    assert_eq!(page_window(2, 250), (200, 250));
    assert_eq!(page_window(1, 100), (100, 100));
    assert_eq!(page_window(0, 0), (0, 0));
}

#[test]
fn modal_update_test() {
    assert_eq!(modal_update(NO_MODAL, ModalMessage::OpenModal(4)), (4, Some("hidden")));
    assert_eq!(modal_update(4, ModalMessage::CloseModal), (NO_MODAL, Some("auto")));
    assert_eq!(modal_update(4, ModalMessage::CloseModalByKb(27)), (NO_MODAL, Some("auto")));
    assert_eq!(modal_update(4, ModalMessage::CloseModalByKb(13)), (4, None));
}
