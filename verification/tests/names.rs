use shylock::categories::{InvalidCategory, OtherCategory, PropertyCategory, VehicleCategory};
use shylock::concepts::{BoeConcept, InvalidBoeConcept};
use shylock::provinces::{InvalidProvince, Province};

#[test]
fn test_parse_boe_concepts() {
    let concepts: Vec<(BoeConcept, &str)> = vec![
        (BoeConcept::AcquisitionDate, "FECHA ADQUISICIÓN"),
        (BoeConcept::AdditionalInformation, "INFORMACIÓN ADICIONAL"),
        (BoeConcept::Address, "DIRECCIÓN"),
        (BoeConcept::Allotment, "PARCELA"),
        (BoeConcept::Appraisal, "TASACIÓN"),
        (BoeConcept::Area, "SUPERFICIE"),
        (BoeConcept::AuctionKind, "TIPO DE SUBASTA"),
        (BoeConcept::AuctionValue, "VALOR SUBASTA"),
        (BoeConcept::BidStep, "TRAMOS ENTRE PUJAS"),
        (BoeConcept::Brand, "MARCA"),
        (BoeConcept::Charges, "CARGAS"),
        (BoeConcept::CatastroReference, "REFERENCIA CATASTRAL"),
        (BoeConcept::City, "LOCALIDAD"),
        (BoeConcept::ClaimQuantity, "CANTIDAD RECLAMADA"),
        (BoeConcept::Code, "CÓDIGO"),
        (BoeConcept::DepositAmount, "IMPORTE DEL DEPÓSITO"),
        (BoeConcept::Description, "DESCRIPCIÓN"),
        (BoeConcept::Email, "CORREO ELECTRÓNICO"),
        (BoeConcept::EndDate, "FECHA DE CONCLUSIÓN"),
        (BoeConcept::Fax, "FAX"),
        (BoeConcept::FrameNumber, "NÚMERO DE BASTIDOR"),
        (BoeConcept::Header, "HEADER"),
        (BoeConcept::Identifier, "IDENTIFICADOR"),
        (BoeConcept::Idufir, "IDUFIR"),
        (BoeConcept::JudicialTitle, "TÍTULO JURÍDICO"),
        (BoeConcept::LicensedDate, "FECHA MATRICULACIÓN"),
        (BoeConcept::LicensePlate, "MATRÍCULA"),
        (BoeConcept::Localization, "DEPÓSITO"),
        (BoeConcept::Lots, "LOTES"),
        (BoeConcept::LotAuctionKind, "FORMA DE ADJUDICACIÓN"),
        (BoeConcept::MinimumBid, "PUJA MÍNIMA"),
        (BoeConcept::Model, "MODELO"),
        (BoeConcept::Notice, "ANUNCIO BOE"),
        (BoeConcept::OwnerStatus, "SITUACIÓN POSESORIA"),
        (BoeConcept::Place, "PARAJE"),
        (BoeConcept::PostalCode, "CÓDIGO POSTAL"),
        (BoeConcept::Province, "PROVINCIA"),
        (BoeConcept::PrimaryResidence, "VIVIENDA HABITUAL"),
        (BoeConcept::Quota, "CUOTA"),
        (BoeConcept::RegisterInscription, "INSCRIPCIÓN REGISTRAL"),
        (BoeConcept::StartDate, "FECHA DE INICIO"),
        (BoeConcept::Telephone, "TELÉFONO"),
        (BoeConcept::Visitable, "VISITABLE"),
    ];
    for &(std, name) in concepts.iter() {
        assert_eq!(name.parse::<BoeConcept>().unwrap(), std);
        assert_eq!(name.to_lowercase().parse::<BoeConcept>().unwrap(), std);
    }
}

#[test]
fn test_parse_invalid_boe_concept() {
    let invalid_concept = "non-sense";
    assert_eq!(
        invalid_concept.parse::<BoeConcept>(),
        Err(InvalidBoeConcept::new(invalid_concept))
    );
}

#[test]
fn test_parse_province() {
    let table: Vec<(Province, &str, &str)> = vec![
        (Province::ACorunia, "ACORUÑA", "A Coruña"),
        (Province::Alava, "ALAVA", "Álava"),
        (Province::Albacete, "ALBACETE", "Albacete"),
        (Province::Alicante, "ALICANTE", "Alicante"),
        (Province::Almeria, "ALMERIA", "Almería"),
        (Province::Asturias, "ASTURIAS", "Asturias"),
        (Province::Avila, "AVILA", "Ávila"),
        (Province::Badajoz, "BADAJOZ", "Badajoz"),
        (Province::Baleares, "BALEARES", "Baleares"),
        (Province::Barcelona, "BARCELONA", "Barcelona"),
        (Province::Burgos, "BURGOS", "Burgos"),
        (Province::Caceres, "CACERES", "Cáceres"),
        (Province::Cadiz, "CADIZ", "Cádiz"),
        (Province::Cantabria, "CANTABRIA", "Cantabria"),
        (Province::Castellon, "CASTELLON", "Castellón"),
        (Province::CiudadReal, "CIUDADREAL", "Ciudad Real"),
        (Province::Cordoba, "CORDOBA", "Córdoba"),
        (Province::Cuenca, "CUENCA", "Cuenca"),
        (Province::Gerona, "GERONA", "Gerona"),
        (Province::Granada, "GRANADA", "Granada"),
        (Province::Guadalajara, "GUADALAJARA", "Guadalajara"),
        (Province::Guipuzcoa, "GUIPUZCOA", "Guipúzcoa"),
        (Province::Huelva, "HUELVA", "Huelva"),
        (Province::Huesca, "HUESCA", "Huesca"),
        (Province::Jaen, "JAEN", "Jaén"),
        (Province::Leon, "LEON", "León"),
        (Province::Lerida, "LERIDA", "Lérida"),
        (Province::LaRioja, "LARIOJA", "La Rioja"),
        (Province::Lugo, "LUGO", "Lugo"),
        (Province::Madrid, "MADRID", "Madrid"),
        (Province::Malaga, "MALAGA", "Málaga"),
        (Province::Murcia, "MURCIA", "Murcia"),
        (Province::Navarra, "NAVARRA", "Navarra"),
        (Province::Orense, "ORENSE", "Orense"),
        (Province::Palencia, "PALENCIA", "Palencia"),
        (Province::LasPalmas, "LASPALMAS", "Las Palmas"),
        (Province::Pontevedra, "PONTEVEDRA", "Pontevedra"),
        (Province::Salamanca, "SALAMANCA", "Salamanca"),
        (Province::SantaCruzDeTenerife, "SANTACRUZDETENERIFE", "Santa Cruz de Tenerife"),
        (Province::Segovia, "SEGOVIA", "Segovia"),
        (Province::Sevilla, "SEVILLA", "Sevilla"),
        (Province::Soria, "SORIA", "Soria"),
        (Province::Tarragona, "TARRAGONA", "Tarragona"),
        (Province::Teruel, "TERUEL", "Teruel"),
        (Province::Toledo, "TOLEDO", "Toledo"),
        (Province::Valencia, "VALENCIA", "Valencia"),
        (Province::Valladolid, "VALLADOLID", "Valladolid"),
        (Province::Vizcaya, "VIZCAYA", "Vizcaya"),
        (Province::Zamora, "ZAMORA", "Zamora"),
        (Province::Zaragoza, "ZARAGOZA", "Zaragoza"),
        (Province::Ceuta, "CEUTA", "Ceuta"),
        (Province::Melilla, "MELILLA", "Melilla"),
        (Province::Unknown, "UNKNOWN", "Desconocido"),
        (Province::All, "ALL", "All"),
    ];
    for &(std, name, _) in table.iter() {
        assert_eq!(name.parse::<Province>().unwrap(), std);
        assert_eq!(name.to_lowercase().parse::<Province>().unwrap(), std);
    }
}

#[test]
fn test_province_name() {
    let table: Vec<(Province, &str, &str)> = vec![
        (Province::ACorunia, "ACORUÑA", "A Coruña"),
        (Province::Alava, "ALAVA", "Álava"),
        (Province::Albacete, "ALBACETE", "Albacete"),
        (Province::Alicante, "ALICANTE", "Alicante"),
        (Province::Almeria, "ALMERIA", "Almería"),
        (Province::Asturias, "ASTURIAS", "Asturias"),
        (Province::Avila, "AVILA", "Ávila"),
        (Province::Badajoz, "BADAJOZ", "Badajoz"),
        (Province::Baleares, "BALEARES", "Baleares"),
        (Province::Barcelona, "BARCELONA", "Barcelona"),
        (Province::Burgos, "BURGOS", "Burgos"),
        (Province::Caceres, "CACERES", "Cáceres"),
        (Province::Cadiz, "CADIZ", "Cádiz"),
        (Province::Cantabria, "CANTABRIA", "Cantabria"),
        (Province::Castellon, "CASTELLON", "Castellón"),
        (Province::CiudadReal, "CIUDADREAL", "Ciudad Real"),
        (Province::Cordoba, "CORDOBA", "Córdoba"),
        (Province::Cuenca, "CUENCA", "Cuenca"),
        (Province::Gerona, "GERONA", "Gerona"),
        (Province::Granada, "GRANADA", "Granada"),
        (Province::Guadalajara, "GUADALAJARA", "Guadalajara"),
        (Province::Guipuzcoa, "GUIPUZCOA", "Guipúzcoa"),
        (Province::Huelva, "HUELVA", "Huelva"),
        (Province::Huesca, "HUESCA", "Huesca"),
        (Province::Jaen, "JAEN", "Jaén"),
        (Province::Leon, "LEON", "León"),
        (Province::Lerida, "LERIDA", "Lérida"),
        (Province::LaRioja, "LARIOJA", "La Rioja"),
        (Province::Lugo, "LUGO", "Lugo"),
        (Province::Madrid, "MADRID", "Madrid"),
        (Province::Malaga, "MALAGA", "Málaga"),
        (Province::Murcia, "MURCIA", "Murcia"),
        (Province::Navarra, "NAVARRA", "Navarra"),
        (Province::Orense, "ORENSE", "Orense"),
        (Province::Palencia, "PALENCIA", "Palencia"),
        (Province::LasPalmas, "LASPALMAS", "Las Palmas"),
        (Province::Pontevedra, "PONTEVEDRA", "Pontevedra"),
        (Province::Salamanca, "SALAMANCA", "Salamanca"),
        (Province::SantaCruzDeTenerife, "SANTACRUZDETENERIFE", "Santa Cruz de Tenerife"),
        (Province::Segovia, "SEGOVIA", "Segovia"),
        (Province::Sevilla, "SEVILLA", "Sevilla"),
        (Province::Soria, "SORIA", "Soria"),
        (Province::Tarragona, "TARRAGONA", "Tarragona"),
        (Province::Teruel, "TERUEL", "Teruel"),
        (Province::Toledo, "TOLEDO", "Toledo"),
        (Province::Valencia, "VALENCIA", "Valencia"),
        (Province::Valladolid, "VALLADOLID", "Valladolid"),
        (Province::Vizcaya, "VIZCAYA", "Vizcaya"),
        (Province::Zamora, "ZAMORA", "Zamora"),
        (Province::Zaragoza, "ZARAGOZA", "Zaragoza"),
        (Province::Ceuta, "CEUTA", "Ceuta"),
        (Province::Melilla, "MELILLA", "Melilla"),
        (Province::Unknown, "UNKNOWN", "Desconocido"),
        (Province::All, "ALL", "All"),
    ];
    for &(std, _, display) in table.iter() {
        assert_eq!(std.name(), display);
    }
}

#[test]
fn test_parse_invalid_province() {
    let invalid = "non-sense";
    assert_eq!(invalid.parse::<Province>(), Err(InvalidProvince::new(invalid)));
}

#[test]
fn test_parse_property_category() {
    let table: Vec<(PropertyCategory, &str, &str)> = vec![
        (PropertyCategory::Apartment, "VIVIENDA", "Vivienda"),
        (PropertyCategory::BuildingSite, "SOLAR", "Solar"),
        (PropertyCategory::BusinessPremises, "LOCALCOMERCIAL", "Local comercial"),
        (PropertyCategory::Garage, "GARAJE", "Garaje"),
        (PropertyCategory::IndustrialState, "NAVEINDUSTRIAL", "Nave industrial"),
        (PropertyCategory::Other, "OTROS", "Otros"),
        (PropertyCategory::RusticState, "FINCARUSTICA", "Finca rústica"),
        (PropertyCategory::StorageRoom, "TRASTERO", "Trastero"),
        (PropertyCategory::Unknown, "UNKNOWN", "Desconocido"),
        (PropertyCategory::All, "ALL", "All"),
    ];
    for &(std, name, _) in table.iter() {
        assert_eq!(name.parse::<PropertyCategory>().unwrap(), std);
        assert_eq!(name.to_lowercase().parse::<PropertyCategory>().unwrap(), std);
    }
}

#[test]
fn test_property_category_name() {
    let table: Vec<(PropertyCategory, &str, &str)> = vec![
        (PropertyCategory::Apartment, "VIVIENDA", "Vivienda"),
        (PropertyCategory::BuildingSite, "SOLAR", "Solar"),
        (PropertyCategory::BusinessPremises, "LOCALCOMERCIAL", "Local comercial"),
        (PropertyCategory::Garage, "GARAJE", "Garaje"),
        (PropertyCategory::IndustrialState, "NAVEINDUSTRIAL", "Nave industrial"),
        (PropertyCategory::Other, "OTROS", "Otros"),
        (PropertyCategory::RusticState, "FINCARUSTICA", "Finca rústica"),
        (PropertyCategory::StorageRoom, "TRASTERO", "Trastero"),
        (PropertyCategory::Unknown, "UNKNOWN", "Desconocido"),
        (PropertyCategory::All, "ALL", "All"),
    ];
    for &(std, _, display) in table.iter() {
        assert_eq!(std.name(), display);
    }
}

#[test]
fn test_parse_invalid_property_category() {
    let invalid = "non-sense";
    assert_eq!(invalid.parse::<PropertyCategory>(), Err(InvalidCategory::new(invalid)));
}

#[test]
fn test_parse_vehicle_category() {
    let table: Vec<(VehicleCategory, &str, &str)> = vec![
        (VehicleCategory::Car, "TURISMOS", "Turismo"),
        (VehicleCategory::Industrial, "INDUSTRIALES", "Vehículo industrial"),
        (VehicleCategory::Other, "OTROS", "Otros"),
        (VehicleCategory::Unknown, "UNKNOWN", "Desconocido"),
        (VehicleCategory::All, "ALL", "All"),
    ];
    for &(std, name, _) in table.iter() {
        assert_eq!(name.parse::<VehicleCategory>().unwrap(), std);
        assert_eq!(name.to_lowercase().parse::<VehicleCategory>().unwrap(), std);
    }
}

#[test]
fn test_vehicle_category_name() {
    let table: Vec<(VehicleCategory, &str, &str)> = vec![
        (VehicleCategory::Car, "TURISMOS", "Turismo"),
        (VehicleCategory::Industrial, "INDUSTRIALES", "Vehículo industrial"),
        (VehicleCategory::Other, "OTROS", "Otros"),
        (VehicleCategory::Unknown, "UNKNOWN", "Desconocido"),
        (VehicleCategory::All, "ALL", "All"),
    ];
    for &(std, _, display) in table.iter() {
        assert_eq!(std.name(), display);
    }
}

#[test]
fn test_parse_invalid_vehicle_category() {
    let invalid = "non-sense";
    assert_eq!(invalid.parse::<VehicleCategory>(), Err(InvalidCategory::new(invalid)));
}

#[test]
fn test_parse_other_category() {
    let table: Vec<(OtherCategory, &str, &str)> = vec![
        (OtherCategory::Airplane, "AERONAVES", "Aeronaves"),
        (OtherCategory::Antiques, "JOYAS,OBRASDEARTEYANTIGÜEDADES", "Joyas, obras de arte y antigüedades"),
        (OtherCategory::BusinessPremises, "LOCALCOMERCIAL", "Local comercial"),
        (OtherCategory::Cars, "TURISMOS", "Turismos"),
        (OtherCategory::Commodities, "MERCADERIASYMATERIASPRIMAS", "Mercaderías y materias primas"),
        (OtherCategory::Garage, "GARAJE", "Garaje"),
        (OtherCategory::Furniture, "MOBILIARIO", "Mobiliario"),
        (OtherCategory::Housing, "VIVIENDA", "Vivienda"),
        (OtherCategory::Industrial, "INDUSTRIAL", "Industrial"),
        (OtherCategory::IndustrialRights, "DERECHOSDEPROPIEDADINDUSTRIAL", "Derechos de propiedad industrial"),
        (OtherCategory::IntellectualRights, "DERECHOSDEPROPIEDADINTELECTUAL", "Derechos de propiedad intelectual"),
        (OtherCategory::Machinery, "MAQUINARIA", "Maquinaria"),
        (OtherCategory::Other, "OTROS", "Otros"),
        (OtherCategory::OtherRights, "OTROSBIENESYDERECHOS", "Otros bienes y derechos"),
        (OtherCategory::Plant, "INSTALACIONES", "Instalación"),
        (OtherCategory::PlotOfLand, "SOLAR", "Solar"),
        (OtherCategory::RusticProperty, "FINCARUSTICA", "Finca rústica"),
        (OtherCategory::StoreRoom, "TRASTERO", "Trastero"),
        (OtherCategory::Tools, "UTENSILIOSYHERRAMIENTAS", "Utensilios y herramientas"),
        (OtherCategory::TransferRights, "DERECHOSDETRASPASO", "Derechos de traspaso"),
        (OtherCategory::TransportationCards, "TARJETASDETRANSPORTE", "Tarjetas de transporte"),
        (OtherCategory::TransportationRights, "DERECHOSDETRANSPORTE", "Derechos de transporte"),
        (OtherCategory::Tramway, "TRANVIA", "Tranvía"),
        (OtherCategory::Vessel, "BUQUES", "Buque"),
        (OtherCategory::Unknown, "UNKNOWN", "Desconocido"),
        (OtherCategory::All, "ALL", "All"),
    ];
    for &(std, name, _) in table.iter() {
        assert_eq!(name.parse::<OtherCategory>().unwrap(), std);
        assert_eq!(name.to_lowercase().parse::<OtherCategory>().unwrap(), std);
    }
}

#[test]
fn test_vehicle_other_name() {
    let table: Vec<(OtherCategory, &str, &str)> = vec![
        (OtherCategory::Airplane, "AERONAVES", "Aeronaves"),
        (OtherCategory::Antiques, "JOYAS,OBRASDEARTEYANTIGÜEDADES", "Joyas, obras de arte y antigüedades"),
        (OtherCategory::BusinessPremises, "LOCALCOMERCIAL", "Local comercial"),
        (OtherCategory::Cars, "TURISMOS", "Turismos"),
        (OtherCategory::Commodities, "MERCADERIASYMATERIASPRIMAS", "Mercaderías y materias primas"),
        (OtherCategory::Garage, "GARAJE", "Garaje"),
        (OtherCategory::Furniture, "MOBILIARIO", "Mobiliario"),
        (OtherCategory::Housing, "VIVIENDA", "Vivienda"),
        (OtherCategory::Industrial, "INDUSTRIAL", "Industrial"),
        (OtherCategory::IndustrialRights, "DERECHOSDEPROPIEDADINDUSTRIAL", "Derechos de propiedad industrial"),
        (OtherCategory::IntellectualRights, "DERECHOSDEPROPIEDADINTELECTUAL", "Derechos de propiedad intelectual"),
        (OtherCategory::Machinery, "MAQUINARIA", "Maquinaria"),
        (OtherCategory::Other, "OTROS", "Otros"),
        (OtherCategory::OtherRights, "OTROSBIENESYDERECHOS", "Otros bienes y derechos"),
        (OtherCategory::Plant, "INSTALACIONES", "Instalación"),
        (OtherCategory::PlotOfLand, "SOLAR", "Solar"),
        (OtherCategory::RusticProperty, "FINCARUSTICA", "Finca rústica"),
        (OtherCategory::StoreRoom, "TRASTERO", "Trastero"),
        (OtherCategory::Tools, "UTENSILIOSYHERRAMIENTAS", "Utensilios y herramientas"),
        (OtherCategory::TransferRights, "DERECHOSDETRASPASO", "Derechos de traspaso"),
        (OtherCategory::TransportationCards, "TARJETASDETRANSPORTE", "Tarjetas de transporte"),
        (OtherCategory::TransportationRights, "DERECHOSDETRANSPORTE", "Derechos de transporte"),
        (OtherCategory::Tramway, "TRANVIA", "Tranvía"),
        (OtherCategory::Vessel, "BUQUES", "Buque"),
        (OtherCategory::Unknown, "UNKNOWN", "Desconocido"),
        (OtherCategory::All, "ALL", "All"),
    ];
    for &(std, _, display) in table.iter() {
        assert_eq!(std.name(), display);
    }
}

#[test]
fn test_parse_invalid_other_category() {
    let invalid = "non-sense";
    assert_eq!(invalid.parse::<OtherCategory>(), Err(InvalidCategory::new(invalid)));
}


#[test]
fn province_display_name_parses_back() {
    let provinces: Vec<Province> = vec![
        Province::ACorunia,
        Province::Alava,
        Province::Albacete,
        Province::Alicante,
        Province::Almeria,
        Province::Asturias,
        Province::Avila,
        Province::Badajoz,
        Province::Baleares,
        Province::Barcelona,
        Province::Burgos,
        Province::Caceres,
        Province::Cadiz,
        Province::Cantabria,
        Province::Castellon,
        Province::CiudadReal,
        Province::Cordoba,
        Province::Cuenca,
        Province::Gerona,
        Province::Granada,
        Province::Guadalajara,
        Province::Guipuzcoa,
        Province::Huelva,
        Province::Huesca,
        Province::Jaen,
        Province::Leon,
        Province::Lerida,
        Province::LaRioja,
        Province::Lugo,
        Province::Madrid,
        Province::Malaga,
        Province::Murcia,
        Province::Navarra,
        Province::Orense,
        Province::Palencia,
        Province::LasPalmas,
        Province::Pontevedra,
        Province::Salamanca,
        Province::SantaCruzDeTenerife,
        Province::Segovia,
        Province::Sevilla,
        Province::Soria,
        Province::Tarragona,
        Province::Teruel,
        Province::Toledo,
        Province::Valencia,
        Province::Valladolid,
        Province::Vizcaya,
        Province::Zamora,
        Province::Zaragoza,
        Province::Ceuta,
        Province::Melilla,
        Province::All,
    ];
    for p in provinces.iter() {
        assert_eq!(p.name().parse::<Province>().unwrap(), *p);
    }
    assert!(Province::Unknown.name().parse::<Province>().is_err());
}
