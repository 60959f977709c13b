//! Categories of the assets auctioned: real estate, vehicles and other assets.

use vstd::prelude::*;
use crate::text::{
    lemma_plain_key, lookup_key, lookup_key_exec, owned, simple_case, simple_lookup_key, str_eq,
    string_of,
};

verus! {

/// Indicates if the category is invalid.
#[derive(Debug, PartialEq, Eq)]
pub struct InvalidCategory {
    category: String,
}

impl View for InvalidCategory {
    type V = Seq<char>;

    /// The text that named no category.
    closed spec fn view(&self) -> Seq<char> {
        self.category@
    }
}

impl InvalidCategory {
    /// An error for the text `category`.
    pub fn new(category: &str) -> (r: Self)
        ensures
            r@ == category@,
    {
        InvalidCategory { category: owned(category) }
    }

    /// The error message: `Unkown category: ` followed by the text.
    pub fn message(&self) -> (r: String)
        ensures
            r@ == "Unkown category: "@ + self@,
    {
        let mut m = owned("Unkown category: ");
        m.append(self.category.as_str());
        m
    }
}

/// Category of a real estate property
#[derive(Debug, Clone, Copy, PartialEq, Eq, Structural, Hash, PartialOrd, Ord)]
pub enum PropertyCategory {
    /// Apartment
    Apartment,
    /// Building site
    BuildingSite,
    /// Business premises
    BusinessPremises,
    /// Garage
    Garage,
    /// Industrial estate
    IndustrialState,
    /// Other
    Other,
    /// Rustica estate
    RusticState,
    /// Storage room
    StorageRoom,
    /// Unkown
    Unknown,
    /// All
    All,
}

/// The property category whose lookup key (see `lookup_key`) is `key`, if any.
pub open spec fn property_category_for_key(key: Seq<char>) -> Option<PropertyCategory> {
    if key == "VIVIENDA"@ {
        Some(PropertyCategory::Apartment)
    }
    else if key == "SOLAR"@ {
        Some(PropertyCategory::BuildingSite)
    }
    else if key == "LOCALCOMERCIAL"@ {
        Some(PropertyCategory::BusinessPremises)
    }
    else if key == "GARAJE"@ {
        Some(PropertyCategory::Garage)
    }
    else if key == "NAVEINDUSTRIAL"@ {
        Some(PropertyCategory::IndustrialState)
    }
    else if key == "OTROS"@ {
        Some(PropertyCategory::Other)
    }
    else if key == "FINCARUSTICA"@ {
        Some(PropertyCategory::RusticState)
    }
    else if key == "TRASTERO"@ {
        Some(PropertyCategory::StorageRoom)
    }
    else if key == "UNKNOWN"@ {
        Some(PropertyCategory::Unknown)
    }
    else if key == "ALL"@ {
        Some(PropertyCategory::All)
    }
    else if key == ""@ {
        Some(PropertyCategory::Apartment)
    }
    else {
        None
    }
}

/// The display name of each property category.
pub open spec fn property_category_display(x: PropertyCategory) -> Seq<char> {
    match x {
        PropertyCategory::Apartment => "Vivienda"@,
        PropertyCategory::BuildingSite => "Solar"@,
        PropertyCategory::BusinessPremises => "Local comercial"@,
        PropertyCategory::Garage => "Garaje"@,
        PropertyCategory::IndustrialState => "Nave industrial"@,
        PropertyCategory::Other => "Otros"@,
        PropertyCategory::RusticState => "Finca rústica"@,
        PropertyCategory::StorageRoom => "Trastero"@,
        PropertyCategory::Unknown => "Desconocido"@,
        PropertyCategory::All => "All"@,
    }
}

impl PropertyCategory {
    /// The property category that `s` names: compared in upper case, without spaces and
    /// without acute accents on vowels; an `InvalidCategory` holding `s` if it names none.
    pub fn from_name(s: &str) -> (r: Result<PropertyCategory, InvalidCategory>)
        ensures
            match property_category_for_key(lookup_key(s@)) {
                Some(c) => r == Ok::<PropertyCategory, InvalidCategory>(c),
                None => r matches Err(e) && e@ == s@,
            },
            simple_case(s@) ==> match property_category_for_key(simple_lookup_key(s@)) {
                Some(c) => r == Ok::<PropertyCategory, InvalidCategory>(c),
                None => r is Err,
            },
    {
        let key_chars = lookup_key_exec(s);
        let key_string = string_of(&key_chars);
        let key = key_string.as_str();
        if str_eq(key, "VIVIENDA") {
            Ok(PropertyCategory::Apartment)
        }
        else if str_eq(key, "SOLAR") {
            Ok(PropertyCategory::BuildingSite)
        }
        else if str_eq(key, "LOCALCOMERCIAL") {
            Ok(PropertyCategory::BusinessPremises)
        }
        else if str_eq(key, "GARAJE") {
            Ok(PropertyCategory::Garage)
        }
        else if str_eq(key, "NAVEINDUSTRIAL") {
            Ok(PropertyCategory::IndustrialState)
        }
        else if str_eq(key, "OTROS") {
            Ok(PropertyCategory::Other)
        }
        else if str_eq(key, "FINCARUSTICA") {
            Ok(PropertyCategory::RusticState)
        }
        else if str_eq(key, "TRASTERO") {
            Ok(PropertyCategory::StorageRoom)
        }
        else if str_eq(key, "UNKNOWN") {
            Ok(PropertyCategory::Unknown)
        }
        else if str_eq(key, "ALL") {
            Ok(PropertyCategory::All)
        }
        else if str_eq(key, "") {
            Ok(PropertyCategory::Apartment)
        }
        else {
            Err(InvalidCategory::new(s))
        }
    }

    /// Returns the string representation for this property category.
    pub fn name(&self) -> (r: &'static str)
        ensures
            r@ == property_category_display(*self),
    {
        match self {
            PropertyCategory::Apartment => "Vivienda",
            PropertyCategory::BuildingSite => "Solar",
            PropertyCategory::BusinessPremises => "Local comercial",
            PropertyCategory::Garage => "Garaje",
            PropertyCategory::IndustrialState => "Nave industrial",
            PropertyCategory::Other => "Otros",
            PropertyCategory::RusticState => "Finca rústica",
            PropertyCategory::StorageRoom => "Trastero",
            PropertyCategory::Unknown => "Desconocido",
            PropertyCategory::All => "All",
        }
    }
}

impl std::str::FromStr for PropertyCategory {
    type Err = InvalidCategory;

    /// Parses `s` as `from_name` does.
    fn from_str(s: &str) -> (r: Result<Self, Self::Err>)
        ensures
            match property_category_for_key(lookup_key(s@)) {
                Some(c) => r == Ok::<PropertyCategory, InvalidCategory>(c),
                None => r matches Err(e) && e@ == s@,
            },
            simple_case(s@) ==> match property_category_for_key(simple_lookup_key(s@)) {
                Some(c) => r == Ok::<PropertyCategory, InvalidCategory>(c),
                None => r is Err,
            },
    {
        PropertyCategory::from_name(s)
    }
}

/// The name under which the pages give each property category.
pub open spec fn property_category_name(x: PropertyCategory) -> Seq<char> {
    match x {
        PropertyCategory::Apartment => "VIVIENDA"@,
        PropertyCategory::BuildingSite => "SOLAR"@,
        PropertyCategory::BusinessPremises => "LOCALCOMERCIAL"@,
        PropertyCategory::Garage => "GARAJE"@,
        PropertyCategory::IndustrialState => "NAVEINDUSTRIAL"@,
        PropertyCategory::Other => "OTROS"@,
        PropertyCategory::RusticState => "FINCARUSTICA"@,
        PropertyCategory::StorageRoom => "TRASTERO"@,
        PropertyCategory::Unknown => "UNKNOWN"@,
        PropertyCategory::All => "ALL"@,
    }
}

/// Every property category is read back from its name: the name is its own lookup key
/// (upper case, no spaces, no acute vowels), and `property_category_for_key` maps it to
/// the property category.  With the contract of `PropertyCategory::from_name` (and
/// `lemma_lower_then_upper`), the name, in upper or lower case, parses to
/// the property category.
pub proof fn lemma_property_category_name_parses(x: PropertyCategory)
    ensures
        simple_case(property_category_name(x)),
        simple_lookup_key(property_category_name(x)) == property_category_name(x),
        property_category_for_key(property_category_name(x)) == Some(x),
{
    reveal_strlit("VIVIENDA");
    reveal_strlit("SOLAR");
    reveal_strlit("LOCALCOMERCIAL");
    reveal_strlit("GARAJE");
    reveal_strlit("NAVEINDUSTRIAL");
    reveal_strlit("OTROS");
    reveal_strlit("FINCARUSTICA");
    reveal_strlit("TRASTERO");
    reveal_strlit("UNKNOWN");
    reveal_strlit("ALL");
    reveal_strlit("");
    match x {
        PropertyCategory::Apartment => {
        },
        PropertyCategory::BuildingSite => {
        },
        PropertyCategory::BusinessPremises => {
        },
        PropertyCategory::Garage => {
        },
        PropertyCategory::IndustrialState => {
            assert("NAVEINDUSTRIAL"@[0] != "LOCALCOMERCIAL"@[0]);
        },
        PropertyCategory::Other => {
            assert("OTROS"@[0] != "SOLAR"@[0]);
        },
        PropertyCategory::RusticState => {
        },
        PropertyCategory::StorageRoom => {
            assert("TRASTERO"@[0] != "VIVIENDA"@[0]);
        },
        PropertyCategory::Unknown => {
        },
        PropertyCategory::All => {
        },
    }
    lemma_plain_key(property_category_name(x));
}

/// Category of a vehicle
#[derive(Debug, Clone, Copy, PartialEq, Eq, Structural, Hash, PartialOrd, Ord)]
pub enum VehicleCategory {
    /// Car
    Car,
    /// Industrial vehicle
    Industrial,
    /// Other
    Other,
    /// Unkown
    Unknown,
    /// All
    All,
}

/// The vehicle category whose lookup key (see `lookup_key`) is `key`, if any.
pub open spec fn vehicle_category_for_key(key: Seq<char>) -> Option<VehicleCategory> {
    if key == "TURISMOS"@ {
        Some(VehicleCategory::Car)
    }
    else if key == "INDUSTRIALES"@ {
        Some(VehicleCategory::Industrial)
    }
    else if key == "OTROS"@ {
        Some(VehicleCategory::Other)
    }
    else if key == "UNKNOWN"@ {
        Some(VehicleCategory::Unknown)
    }
    else if key == "ALL"@ {
        Some(VehicleCategory::All)
    }
    else if key == ""@ {
        Some(VehicleCategory::Car)
    }
    else {
        None
    }
}

/// The display name of each vehicle category.
pub open spec fn vehicle_category_display(x: VehicleCategory) -> Seq<char> {
    match x {
        VehicleCategory::Car => "Turismo"@,
        VehicleCategory::Industrial => "Vehículo industrial"@,
        VehicleCategory::Other => "Otros"@,
        VehicleCategory::Unknown => "Desconocido"@,
        VehicleCategory::All => "All"@,
    }
}

impl VehicleCategory {
    /// The vehicle category that `s` names: compared in upper case, without spaces and
    /// without acute accents on vowels; an `InvalidCategory` holding `s` if it names none.
    pub fn from_name(s: &str) -> (r: Result<VehicleCategory, InvalidCategory>)
        ensures
            match vehicle_category_for_key(lookup_key(s@)) {
                Some(c) => r == Ok::<VehicleCategory, InvalidCategory>(c),
                None => r matches Err(e) && e@ == s@,
            },
            simple_case(s@) ==> match vehicle_category_for_key(simple_lookup_key(s@)) {
                Some(c) => r == Ok::<VehicleCategory, InvalidCategory>(c),
                None => r is Err,
            },
    {
        let key_chars = lookup_key_exec(s);
        let key_string = string_of(&key_chars);
        let key = key_string.as_str();
        if str_eq(key, "TURISMOS") {
            Ok(VehicleCategory::Car)
        }
        else if str_eq(key, "INDUSTRIALES") {
            Ok(VehicleCategory::Industrial)
        }
        else if str_eq(key, "OTROS") {
            Ok(VehicleCategory::Other)
        }
        else if str_eq(key, "UNKNOWN") {
            Ok(VehicleCategory::Unknown)
        }
        else if str_eq(key, "ALL") {
            Ok(VehicleCategory::All)
        }
        else if str_eq(key, "") {
            Ok(VehicleCategory::Car)
        }
        else {
            Err(InvalidCategory::new(s))
        }
    }

    /// Returns the string representation for this vehicle category.
    pub fn name(&self) -> (r: &'static str)
        ensures
            r@ == vehicle_category_display(*self),
    {
        match self {
            VehicleCategory::Car => "Turismo",
            VehicleCategory::Industrial => "Vehículo industrial",
            VehicleCategory::Other => "Otros",
            VehicleCategory::Unknown => "Desconocido",
            VehicleCategory::All => "All",
        }
    }
}

impl std::str::FromStr for VehicleCategory {
    type Err = InvalidCategory;

    /// Parses `s` as `from_name` does.
    fn from_str(s: &str) -> (r: Result<Self, Self::Err>)
        ensures
            match vehicle_category_for_key(lookup_key(s@)) {
                Some(c) => r == Ok::<VehicleCategory, InvalidCategory>(c),
                None => r matches Err(e) && e@ == s@,
            },
            simple_case(s@) ==> match vehicle_category_for_key(simple_lookup_key(s@)) {
                Some(c) => r == Ok::<VehicleCategory, InvalidCategory>(c),
                None => r is Err,
            },
    {
        VehicleCategory::from_name(s)
    }
}

/// The name under which the pages give each vehicle category.
pub open spec fn vehicle_category_name(x: VehicleCategory) -> Seq<char> {
    match x {
        VehicleCategory::Car => "TURISMOS"@,
        VehicleCategory::Industrial => "INDUSTRIALES"@,
        VehicleCategory::Other => "OTROS"@,
        VehicleCategory::Unknown => "UNKNOWN"@,
        VehicleCategory::All => "ALL"@,
    }
}

/// Every vehicle category is read back from its name: the name is its own lookup key
/// (upper case, no spaces, no acute vowels), and `vehicle_category_for_key` maps it to
/// the vehicle category.  With the contract of `VehicleCategory::from_name` (and
/// `lemma_lower_then_upper`), the name, in upper or lower case, parses to
/// the vehicle category.
pub proof fn lemma_vehicle_category_name_parses(x: VehicleCategory)
    ensures
        simple_case(vehicle_category_name(x)),
        simple_lookup_key(vehicle_category_name(x)) == vehicle_category_name(x),
        vehicle_category_for_key(vehicle_category_name(x)) == Some(x),
{
    reveal_strlit("TURISMOS");
    reveal_strlit("INDUSTRIALES");
    reveal_strlit("OTROS");
    reveal_strlit("UNKNOWN");
    reveal_strlit("ALL");
    reveal_strlit("");
    match x {
        VehicleCategory::Car => {
        },
        VehicleCategory::Industrial => {
        },
        VehicleCategory::Other => {
        },
        VehicleCategory::Unknown => {
        },
        VehicleCategory::All => {
        },
    }
    lemma_plain_key(vehicle_category_name(x));
}

/// Category of an asset that is neither real estate nor a vehicle
#[derive(Debug, Clone, Copy, PartialEq, Eq, Structural, Hash, PartialOrd, Ord)]
pub enum OtherCategory {
    /// Airplane
    Airplane,
    /// Antiques
    Antiques,
    /// Business premises
    BusinessPremises,
    /// Cars
    Cars,
    /// Commodities
    Commodities,
    /// Garage
    Garage,
    /// Furniture
    Furniture,
    /// Housing
    Housing,
    /// Industrial
    Industrial,
    /// Industrial rights
    IndustrialRights,
    /// Intellectual rights
    IntellectualRights,
    /// Machinery
    Machinery,
    /// Other
    Other,
    /// Other rights
    OtherRights,
    /// Plants
    Plant,
    /// Plot of land
    PlotOfLand,
    /// Rustic property
    RusticProperty,
    /// Store room
    StoreRoom,
    /// Tools
    Tools,
    /// Transfer rights
    TransferRights,
    /// Transportation cards
    TransportationCards,
    /// Transportation rights
    TransportationRights,
    /// Tramway
    Tramway,
    /// Vessels
    Vessel,
    /// Unkown
    Unknown,
    /// All
    All,
}

/// The other category whose lookup key (see `lookup_key`) is `key`, if any.
pub open spec fn other_category_for_key(key: Seq<char>) -> Option<OtherCategory> {
    if key == "AERONAVES"@ {
        Some(OtherCategory::Airplane)
    }
    else if key == "JOYAS,OBRASDEARTEYANTIGÜEDADES"@ {
        Some(OtherCategory::Antiques)
    }
    else if key == "LOCALCOMERCIAL"@ {
        Some(OtherCategory::BusinessPremises)
    }
    else if key == "TURISMOS"@ {
        Some(OtherCategory::Cars)
    }
    else if key == "MERCADERIASYMATERIASPRIMAS"@ {
        Some(OtherCategory::Commodities)
    }
    else if key == "GARAJE"@ {
        Some(OtherCategory::Garage)
    }
    else if key == "MOBILIARIO"@ {
        Some(OtherCategory::Furniture)
    }
    else if key == "VIVIENDA"@ {
        Some(OtherCategory::Housing)
    }
    else if key == "INDUSTRIAL"@ {
        Some(OtherCategory::Industrial)
    }
    else if key == "DERECHOSDEPROPIEDADINDUSTRIAL"@ {
        Some(OtherCategory::IndustrialRights)
    }
    else if key == "DERECHOSDEPROPIEDADINTELECTUAL"@ {
        Some(OtherCategory::IntellectualRights)
    }
    else if key == "MAQUINARIA"@ {
        Some(OtherCategory::Machinery)
    }
    else if key == "OTROS"@ {
        Some(OtherCategory::Other)
    }
    else if key == "OTROSBIENESYDERECHOS"@ {
        Some(OtherCategory::OtherRights)
    }
    else if key == "INSTALACIONES"@ {
        Some(OtherCategory::Plant)
    }
    else if key == "SOLAR"@ {
        Some(OtherCategory::PlotOfLand)
    }
    else if key == "FINCARUSTICA"@ {
        Some(OtherCategory::RusticProperty)
    }
    else if key == "TRASTERO"@ {
        Some(OtherCategory::StoreRoom)
    }
    else if key == "UTENSILIOSYHERRAMIENTAS"@ {
        Some(OtherCategory::Tools)
    }
    else if key == "DERECHOSDETRASPASO"@ {
        Some(OtherCategory::TransferRights)
    }
    else if key == "TARJETASDETRANSPORTE"@ {
        Some(OtherCategory::TransportationCards)
    }
    else if key == "DERECHOSDETRANSPORTE"@ {
        Some(OtherCategory::TransportationRights)
    }
    else if key == "TRANVIA"@ {
        Some(OtherCategory::Tramway)
    }
    else if key == "BUQUES"@ {
        Some(OtherCategory::Vessel)
    }
    else if key == "UNKNOWN"@ {
        Some(OtherCategory::Unknown)
    }
    else if key == "ALL"@ {
        Some(OtherCategory::All)
    }
    else if key == ""@ {
        Some(OtherCategory::Other)
    }
    else if key == "INDUSTRIALES"@ {
        Some(OtherCategory::Industrial)
    }
    else if key == "NAVEINDUSTRIAL"@ {
        Some(OtherCategory::Industrial)
    }
    else {
        None
    }
}

/// The display name of each other category.
pub open spec fn other_category_display(x: OtherCategory) -> Seq<char> {
    match x {
        OtherCategory::Airplane => "Aeronaves"@,
        OtherCategory::Antiques => "Joyas, obras de arte y antigüedades"@,
        OtherCategory::BusinessPremises => "Local comercial"@,
        OtherCategory::Cars => "Turismos"@,
        OtherCategory::Commodities => "Mercaderías y materias primas"@,
        OtherCategory::Garage => "Garaje"@,
        OtherCategory::Furniture => "Mobiliario"@,
        OtherCategory::Housing => "Vivienda"@,
        OtherCategory::Industrial => "Industrial"@,
        OtherCategory::IndustrialRights => "Derechos de propiedad industrial"@,
        OtherCategory::IntellectualRights => "Derechos de propiedad intelectual"@,
        OtherCategory::Machinery => "Maquinaria"@,
        OtherCategory::Other => "Otros"@,
        OtherCategory::OtherRights => "Otros bienes y derechos"@,
        OtherCategory::Plant => "Instalación"@,
        OtherCategory::PlotOfLand => "Solar"@,
        OtherCategory::RusticProperty => "Finca rústica"@,
        OtherCategory::StoreRoom => "Trastero"@,
        OtherCategory::Tools => "Utensilios y herramientas"@,
        OtherCategory::TransferRights => "Derechos de traspaso"@,
        OtherCategory::TransportationCards => "Tarjetas de transporte"@,
        OtherCategory::TransportationRights => "Derechos de transporte"@,
        OtherCategory::Tramway => "Tranvía"@,
        OtherCategory::Vessel => "Buque"@,
        OtherCategory::Unknown => "Desconocido"@,
        OtherCategory::All => "All"@,
    }
}

impl OtherCategory {
    /// The other category that `s` names: compared in upper case, without spaces and
    /// without acute accents on vowels; an `InvalidCategory` holding `s` if it names none.
    pub fn from_name(s: &str) -> (r: Result<OtherCategory, InvalidCategory>)
        ensures
            match other_category_for_key(lookup_key(s@)) {
                Some(c) => r == Ok::<OtherCategory, InvalidCategory>(c),
                None => r matches Err(e) && e@ == s@,
            },
            simple_case(s@) ==> match other_category_for_key(simple_lookup_key(s@)) {
                Some(c) => r == Ok::<OtherCategory, InvalidCategory>(c),
                None => r is Err,
            },
    {
        let key_chars = lookup_key_exec(s);
        let key_string = string_of(&key_chars);
        let key = key_string.as_str();
        if str_eq(key, "AERONAVES") {
            Ok(OtherCategory::Airplane)
        }
        else if str_eq(key, "JOYAS,OBRASDEARTEYANTIGÜEDADES") {
            Ok(OtherCategory::Antiques)
        }
        else if str_eq(key, "LOCALCOMERCIAL") {
            Ok(OtherCategory::BusinessPremises)
        }
        else if str_eq(key, "TURISMOS") {
            Ok(OtherCategory::Cars)
        }
        else if str_eq(key, "MERCADERIASYMATERIASPRIMAS") {
            Ok(OtherCategory::Commodities)
        }
        else if str_eq(key, "GARAJE") {
            Ok(OtherCategory::Garage)
        }
        else if str_eq(key, "MOBILIARIO") {
            Ok(OtherCategory::Furniture)
        }
        else if str_eq(key, "VIVIENDA") {
            Ok(OtherCategory::Housing)
        }
        else if str_eq(key, "INDUSTRIAL") {
            Ok(OtherCategory::Industrial)
        }
        else if str_eq(key, "DERECHOSDEPROPIEDADINDUSTRIAL") {
            Ok(OtherCategory::IndustrialRights)
        }
        else if str_eq(key, "DERECHOSDEPROPIEDADINTELECTUAL") {
            Ok(OtherCategory::IntellectualRights)
        }
        else if str_eq(key, "MAQUINARIA") {
            Ok(OtherCategory::Machinery)
        }
        else if str_eq(key, "OTROS") {
            Ok(OtherCategory::Other)
        }
        else if str_eq(key, "OTROSBIENESYDERECHOS") {
            Ok(OtherCategory::OtherRights)
        }
        else if str_eq(key, "INSTALACIONES") {
            Ok(OtherCategory::Plant)
        }
        else if str_eq(key, "SOLAR") {
            Ok(OtherCategory::PlotOfLand)
        }
        else if str_eq(key, "FINCARUSTICA") {
            Ok(OtherCategory::RusticProperty)
        }
        else if str_eq(key, "TRASTERO") {
            Ok(OtherCategory::StoreRoom)
        }
        else if str_eq(key, "UTENSILIOSYHERRAMIENTAS") {
            Ok(OtherCategory::Tools)
        }
        else if str_eq(key, "DERECHOSDETRASPASO") {
            Ok(OtherCategory::TransferRights)
        }
        else if str_eq(key, "TARJETASDETRANSPORTE") {
            Ok(OtherCategory::TransportationCards)
        }
        else if str_eq(key, "DERECHOSDETRANSPORTE") {
            Ok(OtherCategory::TransportationRights)
        }
        else if str_eq(key, "TRANVIA") {
            Ok(OtherCategory::Tramway)
        }
        else if str_eq(key, "BUQUES") {
            Ok(OtherCategory::Vessel)
        }
        else if str_eq(key, "UNKNOWN") {
            Ok(OtherCategory::Unknown)
        }
        else if str_eq(key, "ALL") {
            Ok(OtherCategory::All)
        }
        else if str_eq(key, "") {
            Ok(OtherCategory::Other)
        }
        else if str_eq(key, "INDUSTRIALES") {
            Ok(OtherCategory::Industrial)
        }
        else if str_eq(key, "NAVEINDUSTRIAL") {
            Ok(OtherCategory::Industrial)
        }
        else {
            Err(InvalidCategory::new(s))
        }
    }

    /// Returns the string representation for this other category.
    pub fn name(&self) -> (r: &'static str)
        ensures
            r@ == other_category_display(*self),
    {
        match self {
            OtherCategory::Airplane => "Aeronaves",
            OtherCategory::Antiques => "Joyas, obras de arte y antigüedades",
            OtherCategory::BusinessPremises => "Local comercial",
            OtherCategory::Cars => "Turismos",
            OtherCategory::Commodities => "Mercaderías y materias primas",
            OtherCategory::Garage => "Garaje",
            OtherCategory::Furniture => "Mobiliario",
            OtherCategory::Housing => "Vivienda",
            OtherCategory::Industrial => "Industrial",
            OtherCategory::IndustrialRights => "Derechos de propiedad industrial",
            OtherCategory::IntellectualRights => "Derechos de propiedad intelectual",
            OtherCategory::Machinery => "Maquinaria",
            OtherCategory::Other => "Otros",
            OtherCategory::OtherRights => "Otros bienes y derechos",
            OtherCategory::Plant => "Instalación",
            OtherCategory::PlotOfLand => "Solar",
            OtherCategory::RusticProperty => "Finca rústica",
            OtherCategory::StoreRoom => "Trastero",
            OtherCategory::Tools => "Utensilios y herramientas",
            OtherCategory::TransferRights => "Derechos de traspaso",
            OtherCategory::TransportationCards => "Tarjetas de transporte",
            OtherCategory::TransportationRights => "Derechos de transporte",
            OtherCategory::Tramway => "Tranvía",
            OtherCategory::Vessel => "Buque",
            OtherCategory::Unknown => "Desconocido",
            OtherCategory::All => "All",
        }
    }
}

impl std::str::FromStr for OtherCategory {
    type Err = InvalidCategory;

    /// Parses `s` as `from_name` does.
    fn from_str(s: &str) -> (r: Result<Self, Self::Err>)
        ensures
            match other_category_for_key(lookup_key(s@)) {
                Some(c) => r == Ok::<OtherCategory, InvalidCategory>(c),
                None => r matches Err(e) && e@ == s@,
            },
            simple_case(s@) ==> match other_category_for_key(simple_lookup_key(s@)) {
                Some(c) => r == Ok::<OtherCategory, InvalidCategory>(c),
                None => r is Err,
            },
    {
        OtherCategory::from_name(s)
    }
}

/// The name under which the pages give each other category.
pub open spec fn other_category_name(x: OtherCategory) -> Seq<char> {
    match x {
        OtherCategory::Airplane => "AERONAVES"@,
        OtherCategory::Antiques => "JOYAS,OBRASDEARTEYANTIGÜEDADES"@,
        OtherCategory::BusinessPremises => "LOCALCOMERCIAL"@,
        OtherCategory::Cars => "TURISMOS"@,
        OtherCategory::Commodities => "MERCADERIASYMATERIASPRIMAS"@,
        OtherCategory::Garage => "GARAJE"@,
        OtherCategory::Furniture => "MOBILIARIO"@,
        OtherCategory::Housing => "VIVIENDA"@,
        OtherCategory::Industrial => "INDUSTRIAL"@,
        OtherCategory::IndustrialRights => "DERECHOSDEPROPIEDADINDUSTRIAL"@,
        OtherCategory::IntellectualRights => "DERECHOSDEPROPIEDADINTELECTUAL"@,
        OtherCategory::Machinery => "MAQUINARIA"@,
        OtherCategory::Other => "OTROS"@,
        OtherCategory::OtherRights => "OTROSBIENESYDERECHOS"@,
        OtherCategory::Plant => "INSTALACIONES"@,
        OtherCategory::PlotOfLand => "SOLAR"@,
        OtherCategory::RusticProperty => "FINCARUSTICA"@,
        OtherCategory::StoreRoom => "TRASTERO"@,
        OtherCategory::Tools => "UTENSILIOSYHERRAMIENTAS"@,
        OtherCategory::TransferRights => "DERECHOSDETRASPASO"@,
        OtherCategory::TransportationCards => "TARJETASDETRANSPORTE"@,
        OtherCategory::TransportationRights => "DERECHOSDETRANSPORTE"@,
        OtherCategory::Tramway => "TRANVIA"@,
        OtherCategory::Vessel => "BUQUES"@,
        OtherCategory::Unknown => "UNKNOWN"@,
        OtherCategory::All => "ALL"@,
    }
}

/// Every other category is read back from its name: the name is its own lookup key
/// (upper case, no spaces, no acute vowels), and `other_category_for_key` maps it to
/// the other category.  With the contract of `OtherCategory::from_name` (and
/// `lemma_lower_then_upper`), the name, in upper or lower case, parses to
/// the other category.
pub proof fn lemma_other_category_name_parses(x: OtherCategory)
    ensures
        simple_case(other_category_name(x)),
        simple_lookup_key(other_category_name(x)) == other_category_name(x),
        other_category_for_key(other_category_name(x)) == Some(x),
{
    reveal_strlit("AERONAVES");
    reveal_strlit("JOYAS,OBRASDEARTEYANTIGÜEDADES");
    reveal_strlit("LOCALCOMERCIAL");
    reveal_strlit("TURISMOS");
    reveal_strlit("MERCADERIASYMATERIASPRIMAS");
    reveal_strlit("GARAJE");
    reveal_strlit("MOBILIARIO");
    reveal_strlit("VIVIENDA");
    reveal_strlit("INDUSTRIAL");
    reveal_strlit("DERECHOSDEPROPIEDADINDUSTRIAL");
    reveal_strlit("DERECHOSDEPROPIEDADINTELECTUAL");
    reveal_strlit("MAQUINARIA");
    reveal_strlit("OTROS");
    reveal_strlit("OTROSBIENESYDERECHOS");
    reveal_strlit("INSTALACIONES");
    reveal_strlit("SOLAR");
    reveal_strlit("FINCARUSTICA");
    reveal_strlit("TRASTERO");
    reveal_strlit("UTENSILIOSYHERRAMIENTAS");
    reveal_strlit("DERECHOSDETRASPASO");
    reveal_strlit("TARJETASDETRANSPORTE");
    reveal_strlit("DERECHOSDETRANSPORTE");
    reveal_strlit("TRANVIA");
    reveal_strlit("BUQUES");
    reveal_strlit("UNKNOWN");
    reveal_strlit("ALL");
    reveal_strlit("");
    reveal_strlit("INDUSTRIALES");
    reveal_strlit("NAVEINDUSTRIAL");
    match x {
        OtherCategory::Airplane => {
        },
        OtherCategory::Antiques => {
        },
        OtherCategory::BusinessPremises => {
        },
        OtherCategory::Cars => {
        },
        OtherCategory::Commodities => {
        },
        OtherCategory::Garage => {
        },
        OtherCategory::Furniture => {
        },
        OtherCategory::Housing => {
            assert("VIVIENDA"@[0] != "TURISMOS"@[0]);
        },
        OtherCategory::Industrial => {
            assert("INDUSTRIAL"@[0] != "MOBILIARIO"@[0]);
        },
        OtherCategory::IndustrialRights => {
        },
        OtherCategory::IntellectualRights => {
            assert("DERECHOSDEPROPIEDADINTELECTUAL"@[0] != "JOYAS,OBRASDEARTEYANTIGÜEDADES"@[0]);
        },
        OtherCategory::Machinery => {
            assert("MAQUINARIA"@[1] != "MOBILIARIO"@[1]);
            assert("MAQUINARIA"@[0] != "INDUSTRIAL"@[0]);
        },
        OtherCategory::Other => {
        },
        OtherCategory::OtherRights => {
        },
        OtherCategory::Plant => {
        },
        OtherCategory::PlotOfLand => {
            assert("SOLAR"@[0] != "OTROS"@[0]);
        },
        OtherCategory::RusticProperty => {
        },
        OtherCategory::StoreRoom => {
            assert("TRASTERO"@[1] != "TURISMOS"@[1]);
            assert("TRASTERO"@[0] != "VIVIENDA"@[0]);
        },
        OtherCategory::Tools => {
        },
        OtherCategory::TransferRights => {
        },
        OtherCategory::TransportationCards => {
            assert("TARJETASDETRANSPORTE"@[0] != "OTROSBIENESYDERECHOS"@[0]);
        },
        OtherCategory::TransportationRights => {
            assert("DERECHOSDETRANSPORTE"@[0] != "OTROSBIENESYDERECHOS"@[0]);
            assert("DERECHOSDETRANSPORTE"@[0] != "TARJETASDETRANSPORTE"@[0]);
        },
        OtherCategory::Tramway => {
        },
        OtherCategory::Vessel => {
            assert("BUQUES"@[0] != "GARAJE"@[0]);
        },
        OtherCategory::Unknown => {
            assert("UNKNOWN"@[0] != "TRANVIA"@[0]);
        },
        OtherCategory::All => {
        },
    }
    lemma_plain_key(other_category_name(x));
}

} // verus!
