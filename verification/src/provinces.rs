//! Spanish provinces as the BOE auction pages name them.

use vstd::prelude::*;
use crate::text::{
    lemma_plain_key, lemma_simple_lookup_key_concat, lemma_space_key, lemma_word_key, lookup_key,
    lookup_key_exec, owned, simple_case, simple_lookup_key, str_eq, string_of,
};

verus! {

/// Indicates if the province is invalid.
#[derive(Debug, PartialEq, Eq)]
pub struct InvalidProvince {
    province: String,
}

impl View for InvalidProvince {
    type V = Seq<char>;

    /// The text that named no province.
    closed spec fn view(&self) -> Seq<char> {
        self.province@
    }
}

impl InvalidProvince {
    /// An error for the text `province`.
    pub fn new(province: &str) -> (r: Self)
        ensures
            r@ == province@,
    {
        InvalidProvince { province: owned(province) }
    }

    /// The error message: `Unkown province: ` followed by the text.
    pub fn message(&self) -> (r: String)
        ensures
            r@ == "Unkown province: "@ + self@,
    {
        let mut m = owned("Unkown province: ");
        m.append(self.province.as_str());
        m
    }
}

/// Type of provinces
#[derive(Debug, Clone, Copy, PartialEq, Eq, Structural, Hash, PartialOrd, Ord)]
pub enum Province {
    /// A Coruña province
    ACorunia,
    /// Alava province
    Alava,
    /// Albacete province
    Albacete,
    /// Alicante province
    Alicante,
    /// Almería province
    Almeria,
    /// Asturias
    Asturias,
    /// Ávila province
    Avila,
    /// Badajoz province
    Badajoz,
    /// Baleares province
    Baleares,
    /// Barcelona province
    Barcelona,
    /// Burgos province
    Burgos,
    /// Cáceres province
    Caceres,
    /// Cádiz province
    Cadiz,
    /// Cantabria province
    Cantabria,
    /// Castellón province
    Castellon,
    /// Ciudad Real province
    CiudadReal,
    /// Córdoba province
    Cordoba,
    /// Cuenca province
    Cuenca,
    /// Girona province
    Gerona,
    /// Granada province
    Granada,
    /// Guadalajara province
    Guadalajara,
    /// Guipúzcoa province
    Guipuzcoa,
    /// Huelva province
    Huelva,
    /// Huesca province
    Huesca,
    /// Jaén province
    Jaen,
    /// León province
    Leon,
    /// Lleida province
    Lerida,
    /// La Rioja province
    LaRioja,
    /// Lugo province
    Lugo,
    /// Madrid province
    Madrid,
    /// Málaga province
    Malaga,
    /// Murcia province
    Murcia,
    /// Navarra province
    Navarra,
    /// Ourense province
    Orense,
    /// Palencia province
    Palencia,
    /// Las Palmas province
    LasPalmas,
    /// Pontevedra province
    Pontevedra,
    /// Salamanca province
    Salamanca,
    /// Santa Cruz de Tenerife province
    SantaCruzDeTenerife,
    /// Segovia province
    Segovia,
    /// Sevilla province
    Sevilla,
    /// Soria province
    Soria,
    /// Tarragona province
    Tarragona,
    /// Teruel province
    Teruel,
    ///  Toledo province
    Toledo,
    /// Valencia province
    Valencia,
    /// Valladolid province
    Valladolid,
    /// Vizcaya province
    Vizcaya,
    /// Zamora province
    Zamora,
    /// Zaragoza province
    Zaragoza,
    /// Ceuta autonomous city
    Ceuta,
    /// Melilla autonomous city
    Melilla,
    /// Unkown
    Unknown,
    /// All
    All,
}

/// The province whose lookup key (see `lookup_key`) is `key`, if any.
pub open spec fn province_for_key(key: Seq<char>) -> Option<Province> {
    if key == "ALICANTE/ALACANT"@ {
        Some(Province::Alicante)
    }
    else if key == "ARABA/ALAVA"@ {
        Some(Province::Alava)
    }
    else if key == "BIZKAIA"@ {
        Some(Province::Vizcaya)
    }
    else if key == "CASTELLON/CASTELLO"@ {
        Some(Province::Castellon)
    }
    else if key == "GIPUZKOA"@ {
        Some(Province::Guipuzcoa)
    }
    else if key == "GIRONA"@ {
        Some(Province::Gerona)
    }
    else if key == "ILLESBALEARS"@ {
        Some(Province::Baleares)
    }
    else if key == "ILLESBALLEARS"@ {
        Some(Province::Baleares)
    }
    else if key == "LACORUÑA"@ {
        Some(Province::ACorunia)
    }
    else if key == "LLEIDA"@ {
        Some(Province::Lerida)
    }
    else if key == "OURENSE"@ {
        Some(Province::Orense)
    }
    else if key == "VALENCIA/VALÈNCIA"@ {
        Some(Province::Valencia)
    }
    else if key == "VALÈNCIA"@ {
        Some(Province::Valencia)
    }
    else if key == "ACORUÑA"@ {
        Some(Province::ACorunia)
    }
    else if key == "ALAVA"@ {
        Some(Province::Alava)
    }
    else if key == "ALBACETE"@ {
        Some(Province::Albacete)
    }
    else if key == "ALICANTE"@ {
        Some(Province::Alicante)
    }
    else if key == "ALMERIA"@ {
        Some(Province::Almeria)
    }
    else if key == "ASTURIAS"@ {
        Some(Province::Asturias)
    }
    else if key == "AVILA"@ {
        Some(Province::Avila)
    }
    else if key == "BADAJOZ"@ {
        Some(Province::Badajoz)
    }
    else if key == "BALEARES"@ {
        Some(Province::Baleares)
    }
    else if key == "BARCELONA"@ {
        Some(Province::Barcelona)
    }
    else if key == "BURGOS"@ {
        Some(Province::Burgos)
    }
    else if key == "CACERES"@ {
        Some(Province::Caceres)
    }
    else if key == "CADIZ"@ {
        Some(Province::Cadiz)
    }
    else if key == "CANTABRIA"@ {
        Some(Province::Cantabria)
    }
    else if key == "CASTELLON"@ {
        Some(Province::Castellon)
    }
    else if key == "CIUDADREAL"@ {
        Some(Province::CiudadReal)
    }
    else if key == "CORDOBA"@ {
        Some(Province::Cordoba)
    }
    else if key == "CUENCA"@ {
        Some(Province::Cuenca)
    }
    else if key == "GERONA"@ {
        Some(Province::Gerona)
    }
    else if key == "GRANADA"@ {
        Some(Province::Granada)
    }
    else if key == "GUADALAJARA"@ {
        Some(Province::Guadalajara)
    }
    else if key == "GUIPUZCOA"@ {
        Some(Province::Guipuzcoa)
    }
    else if key == "HUELVA"@ {
        Some(Province::Huelva)
    }
    else if key == "HUESCA"@ {
        Some(Province::Huesca)
    }
    else if key == "JAEN"@ {
        Some(Province::Jaen)
    }
    else if key == "LEON"@ {
        Some(Province::Leon)
    }
    else if key == "LERIDA"@ {
        Some(Province::Lerida)
    }
    else if key == "LARIOJA"@ {
        Some(Province::LaRioja)
    }
    else if key == "LUGO"@ {
        Some(Province::Lugo)
    }
    else if key == "MADRID"@ {
        Some(Province::Madrid)
    }
    else if key == "MALAGA"@ {
        Some(Province::Malaga)
    }
    else if key == "MURCIA"@ {
        Some(Province::Murcia)
    }
    else if key == "NAVARRA"@ {
        Some(Province::Navarra)
    }
    else if key == "ORENSE"@ {
        Some(Province::Orense)
    }
    else if key == "PALENCIA"@ {
        Some(Province::Palencia)
    }
    else if key == "LASPALMAS"@ {
        Some(Province::LasPalmas)
    }
    else if key == "PONTEVEDRA"@ {
        Some(Province::Pontevedra)
    }
    else if key == "SALAMANCA"@ {
        Some(Province::Salamanca)
    }
    else if key == "SANTACRUZDETENERIFE"@ {
        Some(Province::SantaCruzDeTenerife)
    }
    else if key == "SEGOVIA"@ {
        Some(Province::Segovia)
    }
    else if key == "SEVILLA"@ {
        Some(Province::Sevilla)
    }
    else if key == "SORIA"@ {
        Some(Province::Soria)
    }
    else if key == "TARRAGONA"@ {
        Some(Province::Tarragona)
    }
    else if key == "TERUEL"@ {
        Some(Province::Teruel)
    }
    else if key == "TOLEDO"@ {
        Some(Province::Toledo)
    }
    else if key == "VALENCIA"@ {
        Some(Province::Valencia)
    }
    else if key == "VALLADOLID"@ {
        Some(Province::Valladolid)
    }
    else if key == "VIZCAYA"@ {
        Some(Province::Vizcaya)
    }
    else if key == "ZAMORA"@ {
        Some(Province::Zamora)
    }
    else if key == "ZARAGOZA"@ {
        Some(Province::Zaragoza)
    }
    else if key == "CEUTA"@ {
        Some(Province::Ceuta)
    }
    else if key == "MELILLA"@ {
        Some(Province::Melilla)
    }
    else if key == "UNKNOWN"@ {
        Some(Province::Unknown)
    }
    else if key == "ALL"@ {
        Some(Province::All)
    }
    else {
        None
    }
}

/// The display name of each province.
pub open spec fn province_display(x: Province) -> Seq<char> {
    match x {
        Province::ACorunia => "A Coruña"@,
        Province::Alava => "Álava"@,
        Province::Albacete => "Albacete"@,
        Province::Alicante => "Alicante"@,
        Province::Almeria => "Almería"@,
        Province::Asturias => "Asturias"@,
        Province::Avila => "Ávila"@,
        Province::Badajoz => "Badajoz"@,
        Province::Baleares => "Baleares"@,
        Province::Barcelona => "Barcelona"@,
        Province::Burgos => "Burgos"@,
        Province::Caceres => "Cáceres"@,
        Province::Cadiz => "Cádiz"@,
        Province::Cantabria => "Cantabria"@,
        Province::Castellon => "Castellón"@,
        Province::CiudadReal => "Ciudad Real"@,
        Province::Cordoba => "Córdoba"@,
        Province::Cuenca => "Cuenca"@,
        Province::Gerona => "Gerona"@,
        Province::Granada => "Granada"@,
        Province::Guadalajara => "Guadalajara"@,
        Province::Guipuzcoa => "Guipúzcoa"@,
        Province::Huelva => "Huelva"@,
        Province::Huesca => "Huesca"@,
        Province::Jaen => "Jaén"@,
        Province::Leon => "León"@,
        Province::Lerida => "Lérida"@,
        Province::LaRioja => "La Rioja"@,
        Province::Lugo => "Lugo"@,
        Province::Madrid => "Madrid"@,
        Province::Malaga => "Málaga"@,
        Province::Murcia => "Murcia"@,
        Province::Navarra => "Navarra"@,
        Province::Orense => "Orense"@,
        Province::Palencia => "Palencia"@,
        Province::LasPalmas => "Las Palmas"@,
        Province::Pontevedra => "Pontevedra"@,
        Province::Salamanca => "Salamanca"@,
        Province::SantaCruzDeTenerife => "Santa Cruz de Tenerife"@,
        Province::Segovia => "Segovia"@,
        Province::Sevilla => "Sevilla"@,
        Province::Soria => "Soria"@,
        Province::Tarragona => "Tarragona"@,
        Province::Teruel => "Teruel"@,
        Province::Toledo => "Toledo"@,
        Province::Valencia => "Valencia"@,
        Province::Valladolid => "Valladolid"@,
        Province::Vizcaya => "Vizcaya"@,
        Province::Zamora => "Zamora"@,
        Province::Zaragoza => "Zaragoza"@,
        Province::Ceuta => "Ceuta"@,
        Province::Melilla => "Melilla"@,
        Province::Unknown => "Desconocido"@,
        Province::All => "All"@,
    }
}

impl Province {
    /// The province that `s` names: compared in upper case, without spaces and
    /// without acute accents on vowels; an `InvalidProvince` holding `s` if it names none.
    pub fn from_name(s: &str) -> (r: Result<Province, InvalidProvince>)
        ensures
            match province_for_key(lookup_key(s@)) {
                Some(c) => r == Ok::<Province, InvalidProvince>(c),
                None => r matches Err(e) && e@ == s@,
            },
            simple_case(s@) ==> match province_for_key(simple_lookup_key(s@)) {
                Some(c) => r == Ok::<Province, InvalidProvince>(c),
                None => r is Err,
            },
    {
        let key_chars = lookup_key_exec(s);
        let key_string = string_of(&key_chars);
        let key = key_string.as_str();
        if str_eq(key, "ALICANTE/ALACANT") {
            Ok(Province::Alicante)
        }
        else if str_eq(key, "ARABA/ALAVA") {
            Ok(Province::Alava)
        }
        else if str_eq(key, "BIZKAIA") {
            Ok(Province::Vizcaya)
        }
        else if str_eq(key, "CASTELLON/CASTELLO") {
            Ok(Province::Castellon)
        }
        else if str_eq(key, "GIPUZKOA") {
            Ok(Province::Guipuzcoa)
        }
        else if str_eq(key, "GIRONA") {
            Ok(Province::Gerona)
        }
        else if str_eq(key, "ILLESBALEARS") {
            Ok(Province::Baleares)
        }
        else if str_eq(key, "ILLESBALLEARS") {
            Ok(Province::Baleares)
        }
        else if str_eq(key, "LACORUÑA") {
            Ok(Province::ACorunia)
        }
        else if str_eq(key, "LLEIDA") {
            Ok(Province::Lerida)
        }
        else if str_eq(key, "OURENSE") {
            Ok(Province::Orense)
        }
        else if str_eq(key, "VALENCIA/VALÈNCIA") {
            Ok(Province::Valencia)
        }
        else if str_eq(key, "VALÈNCIA") {
            Ok(Province::Valencia)
        }
        else if str_eq(key, "ACORUÑA") {
            Ok(Province::ACorunia)
        }
        else if str_eq(key, "ALAVA") {
            Ok(Province::Alava)
        }
        else if str_eq(key, "ALBACETE") {
            Ok(Province::Albacete)
        }
        else if str_eq(key, "ALICANTE") {
            Ok(Province::Alicante)
        }
        else if str_eq(key, "ALMERIA") {
            Ok(Province::Almeria)
        }
        else if str_eq(key, "ASTURIAS") {
            Ok(Province::Asturias)
        }
        else if str_eq(key, "AVILA") {
            Ok(Province::Avila)
        }
        else if str_eq(key, "BADAJOZ") {
            Ok(Province::Badajoz)
        }
        else if str_eq(key, "BALEARES") {
            Ok(Province::Baleares)
        }
        else if str_eq(key, "BARCELONA") {
            Ok(Province::Barcelona)
        }
        else if str_eq(key, "BURGOS") {
            Ok(Province::Burgos)
        }
        else if str_eq(key, "CACERES") {
            Ok(Province::Caceres)
        }
        else if str_eq(key, "CADIZ") {
            Ok(Province::Cadiz)
        }
        else if str_eq(key, "CANTABRIA") {
            Ok(Province::Cantabria)
        }
        else if str_eq(key, "CASTELLON") {
            Ok(Province::Castellon)
        }
        else if str_eq(key, "CIUDADREAL") {
            Ok(Province::CiudadReal)
        }
        else if str_eq(key, "CORDOBA") {
            Ok(Province::Cordoba)
        }
        else if str_eq(key, "CUENCA") {
            Ok(Province::Cuenca)
        }
        else if str_eq(key, "GERONA") {
            Ok(Province::Gerona)
        }
        else if str_eq(key, "GRANADA") {
            Ok(Province::Granada)
        }
        else if str_eq(key, "GUADALAJARA") {
            Ok(Province::Guadalajara)
        }
        else if str_eq(key, "GUIPUZCOA") {
            Ok(Province::Guipuzcoa)
        }
        else if str_eq(key, "HUELVA") {
            Ok(Province::Huelva)
        }
        else if str_eq(key, "HUESCA") {
            Ok(Province::Huesca)
        }
        else if str_eq(key, "JAEN") {
            Ok(Province::Jaen)
        }
        else if str_eq(key, "LEON") {
            Ok(Province::Leon)
        }
        else if str_eq(key, "LERIDA") {
            Ok(Province::Lerida)
        }
        else if str_eq(key, "LARIOJA") {
            Ok(Province::LaRioja)
        }
        else if str_eq(key, "LUGO") {
            Ok(Province::Lugo)
        }
        else if str_eq(key, "MADRID") {
            Ok(Province::Madrid)
        }
        else if str_eq(key, "MALAGA") {
            Ok(Province::Malaga)
        }
        else if str_eq(key, "MURCIA") {
            Ok(Province::Murcia)
        }
        else if str_eq(key, "NAVARRA") {
            Ok(Province::Navarra)
        }
        else if str_eq(key, "ORENSE") {
            Ok(Province::Orense)
        }
        else if str_eq(key, "PALENCIA") {
            Ok(Province::Palencia)
        }
        else if str_eq(key, "LASPALMAS") {
            Ok(Province::LasPalmas)
        }
        else if str_eq(key, "PONTEVEDRA") {
            Ok(Province::Pontevedra)
        }
        else if str_eq(key, "SALAMANCA") {
            Ok(Province::Salamanca)
        }
        else if str_eq(key, "SANTACRUZDETENERIFE") {
            Ok(Province::SantaCruzDeTenerife)
        }
        else if str_eq(key, "SEGOVIA") {
            Ok(Province::Segovia)
        }
        else if str_eq(key, "SEVILLA") {
            Ok(Province::Sevilla)
        }
        else if str_eq(key, "SORIA") {
            Ok(Province::Soria)
        }
        else if str_eq(key, "TARRAGONA") {
            Ok(Province::Tarragona)
        }
        else if str_eq(key, "TERUEL") {
            Ok(Province::Teruel)
        }
        else if str_eq(key, "TOLEDO") {
            Ok(Province::Toledo)
        }
        else if str_eq(key, "VALENCIA") {
            Ok(Province::Valencia)
        }
        else if str_eq(key, "VALLADOLID") {
            Ok(Province::Valladolid)
        }
        else if str_eq(key, "VIZCAYA") {
            Ok(Province::Vizcaya)
        }
        else if str_eq(key, "ZAMORA") {
            Ok(Province::Zamora)
        }
        else if str_eq(key, "ZARAGOZA") {
            Ok(Province::Zaragoza)
        }
        else if str_eq(key, "CEUTA") {
            Ok(Province::Ceuta)
        }
        else if str_eq(key, "MELILLA") {
            Ok(Province::Melilla)
        }
        else if str_eq(key, "UNKNOWN") {
            Ok(Province::Unknown)
        }
        else if str_eq(key, "ALL") {
            Ok(Province::All)
        }
        else {
            Err(InvalidProvince::new(s))
        }
    }

    /// Returns the string representation for this province.
    pub fn name(&self) -> (r: &'static str)
        ensures
            r@ == province_display(*self),
    {
        match self {
            Province::ACorunia => "A Coruña",
            Province::Alava => "Álava",
            Province::Albacete => "Albacete",
            Province::Alicante => "Alicante",
            Province::Almeria => "Almería",
            Province::Asturias => "Asturias",
            Province::Avila => "Ávila",
            Province::Badajoz => "Badajoz",
            Province::Baleares => "Baleares",
            Province::Barcelona => "Barcelona",
            Province::Burgos => "Burgos",
            Province::Caceres => "Cáceres",
            Province::Cadiz => "Cádiz",
            Province::Cantabria => "Cantabria",
            Province::Castellon => "Castellón",
            Province::CiudadReal => "Ciudad Real",
            Province::Cordoba => "Córdoba",
            Province::Cuenca => "Cuenca",
            Province::Gerona => "Gerona",
            Province::Granada => "Granada",
            Province::Guadalajara => "Guadalajara",
            Province::Guipuzcoa => "Guipúzcoa",
            Province::Huelva => "Huelva",
            Province::Huesca => "Huesca",
            Province::Jaen => "Jaén",
            Province::Leon => "León",
            Province::Lerida => "Lérida",
            Province::LaRioja => "La Rioja",
            Province::Lugo => "Lugo",
            Province::Madrid => "Madrid",
            Province::Malaga => "Málaga",
            Province::Murcia => "Murcia",
            Province::Navarra => "Navarra",
            Province::Orense => "Orense",
            Province::Palencia => "Palencia",
            Province::LasPalmas => "Las Palmas",
            Province::Pontevedra => "Pontevedra",
            Province::Salamanca => "Salamanca",
            Province::SantaCruzDeTenerife => "Santa Cruz de Tenerife",
            Province::Segovia => "Segovia",
            Province::Sevilla => "Sevilla",
            Province::Soria => "Soria",
            Province::Tarragona => "Tarragona",
            Province::Teruel => "Teruel",
            Province::Toledo => "Toledo",
            Province::Valencia => "Valencia",
            Province::Valladolid => "Valladolid",
            Province::Vizcaya => "Vizcaya",
            Province::Zamora => "Zamora",
            Province::Zaragoza => "Zaragoza",
            Province::Ceuta => "Ceuta",
            Province::Melilla => "Melilla",
            Province::Unknown => "Desconocido",
            Province::All => "All",
        }
    }
}

impl std::str::FromStr for Province {
    type Err = InvalidProvince;

    /// Parses `s` as `from_name` does.
    fn from_str(s: &str) -> (r: Result<Self, Self::Err>)
        ensures
            match province_for_key(lookup_key(s@)) {
                Some(c) => r == Ok::<Province, InvalidProvince>(c),
                None => r matches Err(e) && e@ == s@,
            },
            simple_case(s@) ==> match province_for_key(simple_lookup_key(s@)) {
                Some(c) => r == Ok::<Province, InvalidProvince>(c),
                None => r is Err,
            },
    {
        Province::from_name(s)
    }
}

/// Number of provinces.
pub const PROVINCE_COUNT: u8 = 54;

/// Position of each province in the declaration order, which is the order
/// that `Ord` derives.
pub open spec fn province_position(x: Province) -> nat {
    match x {
        Province::ACorunia => 0,
        Province::Alava => 1,
        Province::Albacete => 2,
        Province::Alicante => 3,
        Province::Almeria => 4,
        Province::Asturias => 5,
        Province::Avila => 6,
        Province::Badajoz => 7,
        Province::Baleares => 8,
        Province::Barcelona => 9,
        Province::Burgos => 10,
        Province::Caceres => 11,
        Province::Cadiz => 12,
        Province::Cantabria => 13,
        Province::Castellon => 14,
        Province::CiudadReal => 15,
        Province::Cordoba => 16,
        Province::Cuenca => 17,
        Province::Gerona => 18,
        Province::Granada => 19,
        Province::Guadalajara => 20,
        Province::Guipuzcoa => 21,
        Province::Huelva => 22,
        Province::Huesca => 23,
        Province::Jaen => 24,
        Province::Leon => 25,
        Province::Lerida => 26,
        Province::LaRioja => 27,
        Province::Lugo => 28,
        Province::Madrid => 29,
        Province::Malaga => 30,
        Province::Murcia => 31,
        Province::Navarra => 32,
        Province::Orense => 33,
        Province::Palencia => 34,
        Province::LasPalmas => 35,
        Province::Pontevedra => 36,
        Province::Salamanca => 37,
        Province::SantaCruzDeTenerife => 38,
        Province::Segovia => 39,
        Province::Sevilla => 40,
        Province::Soria => 41,
        Province::Tarragona => 42,
        Province::Teruel => 43,
        Province::Toledo => 44,
        Province::Valencia => 45,
        Province::Valladolid => 46,
        Province::Vizcaya => 47,
        Province::Zamora => 48,
        Province::Zaragoza => 49,
        Province::Ceuta => 50,
        Province::Melilla => 51,
        Province::Unknown => 52,
        Province::All => 53,
    }
}

/// The province at position `i` of the declaration order.
pub open spec fn province_at(i: nat) -> Province {
    if i == 0 {
        Province::ACorunia
    }
    else if i == 1 {
        Province::Alava
    }
    else if i == 2 {
        Province::Albacete
    }
    else if i == 3 {
        Province::Alicante
    }
    else if i == 4 {
        Province::Almeria
    }
    else if i == 5 {
        Province::Asturias
    }
    else if i == 6 {
        Province::Avila
    }
    else if i == 7 {
        Province::Badajoz
    }
    else if i == 8 {
        Province::Baleares
    }
    else if i == 9 {
        Province::Barcelona
    }
    else if i == 10 {
        Province::Burgos
    }
    else if i == 11 {
        Province::Caceres
    }
    else if i == 12 {
        Province::Cadiz
    }
    else if i == 13 {
        Province::Cantabria
    }
    else if i == 14 {
        Province::Castellon
    }
    else if i == 15 {
        Province::CiudadReal
    }
    else if i == 16 {
        Province::Cordoba
    }
    else if i == 17 {
        Province::Cuenca
    }
    else if i == 18 {
        Province::Gerona
    }
    else if i == 19 {
        Province::Granada
    }
    else if i == 20 {
        Province::Guadalajara
    }
    else if i == 21 {
        Province::Guipuzcoa
    }
    else if i == 22 {
        Province::Huelva
    }
    else if i == 23 {
        Province::Huesca
    }
    else if i == 24 {
        Province::Jaen
    }
    else if i == 25 {
        Province::Leon
    }
    else if i == 26 {
        Province::Lerida
    }
    else if i == 27 {
        Province::LaRioja
    }
    else if i == 28 {
        Province::Lugo
    }
    else if i == 29 {
        Province::Madrid
    }
    else if i == 30 {
        Province::Malaga
    }
    else if i == 31 {
        Province::Murcia
    }
    else if i == 32 {
        Province::Navarra
    }
    else if i == 33 {
        Province::Orense
    }
    else if i == 34 {
        Province::Palencia
    }
    else if i == 35 {
        Province::LasPalmas
    }
    else if i == 36 {
        Province::Pontevedra
    }
    else if i == 37 {
        Province::Salamanca
    }
    else if i == 38 {
        Province::SantaCruzDeTenerife
    }
    else if i == 39 {
        Province::Segovia
    }
    else if i == 40 {
        Province::Sevilla
    }
    else if i == 41 {
        Province::Soria
    }
    else if i == 42 {
        Province::Tarragona
    }
    else if i == 43 {
        Province::Teruel
    }
    else if i == 44 {
        Province::Toledo
    }
    else if i == 45 {
        Province::Valencia
    }
    else if i == 46 {
        Province::Valladolid
    }
    else if i == 47 {
        Province::Vizcaya
    }
    else if i == 48 {
        Province::Zamora
    }
    else if i == 49 {
        Province::Zaragoza
    }
    else if i == 50 {
        Province::Ceuta
    }
    else if i == 51 {
        Province::Melilla
    }
    else if i == 52 {
        Province::Unknown
    }
    else {
        Province::All
    }
}

/// Positions and provinces correspond one to one.
pub proof fn lemma_province_position(x: Province, i: nat)
    ensures
        province_position(x) < PROVINCE_COUNT,
        province_at(province_position(x)) == x,
        i < PROVINCE_COUNT ==> province_position(province_at(i)) == i,
{
}

impl Province {
    /// Position of the province in the declaration order.
    pub fn position(&self) -> (r: u8)
        ensures
            r == province_position(*self),
    {
        match self {
            Province::ACorunia => 0,
            Province::Alava => 1,
            Province::Albacete => 2,
            Province::Alicante => 3,
            Province::Almeria => 4,
            Province::Asturias => 5,
            Province::Avila => 6,
            Province::Badajoz => 7,
            Province::Baleares => 8,
            Province::Barcelona => 9,
            Province::Burgos => 10,
            Province::Caceres => 11,
            Province::Cadiz => 12,
            Province::Cantabria => 13,
            Province::Castellon => 14,
            Province::CiudadReal => 15,
            Province::Cordoba => 16,
            Province::Cuenca => 17,
            Province::Gerona => 18,
            Province::Granada => 19,
            Province::Guadalajara => 20,
            Province::Guipuzcoa => 21,
            Province::Huelva => 22,
            Province::Huesca => 23,
            Province::Jaen => 24,
            Province::Leon => 25,
            Province::Lerida => 26,
            Province::LaRioja => 27,
            Province::Lugo => 28,
            Province::Madrid => 29,
            Province::Malaga => 30,
            Province::Murcia => 31,
            Province::Navarra => 32,
            Province::Orense => 33,
            Province::Palencia => 34,
            Province::LasPalmas => 35,
            Province::Pontevedra => 36,
            Province::Salamanca => 37,
            Province::SantaCruzDeTenerife => 38,
            Province::Segovia => 39,
            Province::Sevilla => 40,
            Province::Soria => 41,
            Province::Tarragona => 42,
            Province::Teruel => 43,
            Province::Toledo => 44,
            Province::Valencia => 45,
            Province::Valladolid => 46,
            Province::Vizcaya => 47,
            Province::Zamora => 48,
            Province::Zaragoza => 49,
            Province::Ceuta => 50,
            Province::Melilla => 51,
            Province::Unknown => 52,
            Province::All => 53,
        }
    }

    /// The province at position `i` of the declaration order.
    pub fn at_position(i: u8) -> (r: Province)
        requires
            i < PROVINCE_COUNT,
        ensures
            r == province_at(i as nat),
    {
        if i == 0 {
            Province::ACorunia
        }
        else if i == 1 {
            Province::Alava
        }
        else if i == 2 {
            Province::Albacete
        }
        else if i == 3 {
            Province::Alicante
        }
        else if i == 4 {
            Province::Almeria
        }
        else if i == 5 {
            Province::Asturias
        }
        else if i == 6 {
            Province::Avila
        }
        else if i == 7 {
            Province::Badajoz
        }
        else if i == 8 {
            Province::Baleares
        }
        else if i == 9 {
            Province::Barcelona
        }
        else if i == 10 {
            Province::Burgos
        }
        else if i == 11 {
            Province::Caceres
        }
        else if i == 12 {
            Province::Cadiz
        }
        else if i == 13 {
            Province::Cantabria
        }
        else if i == 14 {
            Province::Castellon
        }
        else if i == 15 {
            Province::CiudadReal
        }
        else if i == 16 {
            Province::Cordoba
        }
        else if i == 17 {
            Province::Cuenca
        }
        else if i == 18 {
            Province::Gerona
        }
        else if i == 19 {
            Province::Granada
        }
        else if i == 20 {
            Province::Guadalajara
        }
        else if i == 21 {
            Province::Guipuzcoa
        }
        else if i == 22 {
            Province::Huelva
        }
        else if i == 23 {
            Province::Huesca
        }
        else if i == 24 {
            Province::Jaen
        }
        else if i == 25 {
            Province::Leon
        }
        else if i == 26 {
            Province::Lerida
        }
        else if i == 27 {
            Province::LaRioja
        }
        else if i == 28 {
            Province::Lugo
        }
        else if i == 29 {
            Province::Madrid
        }
        else if i == 30 {
            Province::Malaga
        }
        else if i == 31 {
            Province::Murcia
        }
        else if i == 32 {
            Province::Navarra
        }
        else if i == 33 {
            Province::Orense
        }
        else if i == 34 {
            Province::Palencia
        }
        else if i == 35 {
            Province::LasPalmas
        }
        else if i == 36 {
            Province::Pontevedra
        }
        else if i == 37 {
            Province::Salamanca
        }
        else if i == 38 {
            Province::SantaCruzDeTenerife
        }
        else if i == 39 {
            Province::Segovia
        }
        else if i == 40 {
            Province::Sevilla
        }
        else if i == 41 {
            Province::Soria
        }
        else if i == 42 {
            Province::Tarragona
        }
        else if i == 43 {
            Province::Teruel
        }
        else if i == 44 {
            Province::Toledo
        }
        else if i == 45 {
            Province::Valencia
        }
        else if i == 46 {
            Province::Valladolid
        }
        else if i == 47 {
            Province::Vizcaya
        }
        else if i == 48 {
            Province::Zamora
        }
        else if i == 49 {
            Province::Zaragoza
        }
        else if i == 50 {
            Province::Ceuta
        }
        else if i == 51 {
            Province::Melilla
        }
        else if i == 52 {
            Province::Unknown
        }
        else {
            Province::All
        }
    }
}

/// The name under which the pages give each province.
pub open spec fn province_name(x: Province) -> Seq<char> {
    match x {
        Province::ACorunia => "ACORUÑA"@,
        Province::Alava => "ALAVA"@,
        Province::Albacete => "ALBACETE"@,
        Province::Alicante => "ALICANTE"@,
        Province::Almeria => "ALMERIA"@,
        Province::Asturias => "ASTURIAS"@,
        Province::Avila => "AVILA"@,
        Province::Badajoz => "BADAJOZ"@,
        Province::Baleares => "BALEARES"@,
        Province::Barcelona => "BARCELONA"@,
        Province::Burgos => "BURGOS"@,
        Province::Caceres => "CACERES"@,
        Province::Cadiz => "CADIZ"@,
        Province::Cantabria => "CANTABRIA"@,
        Province::Castellon => "CASTELLON"@,
        Province::CiudadReal => "CIUDADREAL"@,
        Province::Cordoba => "CORDOBA"@,
        Province::Cuenca => "CUENCA"@,
        Province::Gerona => "GERONA"@,
        Province::Granada => "GRANADA"@,
        Province::Guadalajara => "GUADALAJARA"@,
        Province::Guipuzcoa => "GUIPUZCOA"@,
        Province::Huelva => "HUELVA"@,
        Province::Huesca => "HUESCA"@,
        Province::Jaen => "JAEN"@,
        Province::Leon => "LEON"@,
        Province::Lerida => "LERIDA"@,
        Province::LaRioja => "LARIOJA"@,
        Province::Lugo => "LUGO"@,
        Province::Madrid => "MADRID"@,
        Province::Malaga => "MALAGA"@,
        Province::Murcia => "MURCIA"@,
        Province::Navarra => "NAVARRA"@,
        Province::Orense => "ORENSE"@,
        Province::Palencia => "PALENCIA"@,
        Province::LasPalmas => "LASPALMAS"@,
        Province::Pontevedra => "PONTEVEDRA"@,
        Province::Salamanca => "SALAMANCA"@,
        Province::SantaCruzDeTenerife => "SANTACRUZDETENERIFE"@,
        Province::Segovia => "SEGOVIA"@,
        Province::Sevilla => "SEVILLA"@,
        Province::Soria => "SORIA"@,
        Province::Tarragona => "TARRAGONA"@,
        Province::Teruel => "TERUEL"@,
        Province::Toledo => "TOLEDO"@,
        Province::Valencia => "VALENCIA"@,
        Province::Valladolid => "VALLADOLID"@,
        Province::Vizcaya => "VIZCAYA"@,
        Province::Zamora => "ZAMORA"@,
        Province::Zaragoza => "ZARAGOZA"@,
        Province::Ceuta => "CEUTA"@,
        Province::Melilla => "MELILLA"@,
        Province::Unknown => "UNKNOWN"@,
        Province::All => "ALL"@,
    }
}

/// Every province is read back from its name: the name is its own lookup key
/// (upper case, no spaces, no acute vowels), and `province_for_key` maps it to
/// the province.  With the contract of `Province::from_name` (and
/// `lemma_lower_then_upper`), the name, in upper or lower case, parses to
/// the province.
pub proof fn lemma_province_name_parses(x: Province)
    ensures
        simple_case(province_name(x)),
        simple_lookup_key(province_name(x)) == province_name(x),
        province_for_key(province_name(x)) == Some(x),
{
    reveal_strlit("ALICANTE/ALACANT");
    reveal_strlit("ARABA/ALAVA");
    reveal_strlit("BIZKAIA");
    reveal_strlit("CASTELLON/CASTELLO");
    reveal_strlit("GIPUZKOA");
    reveal_strlit("GIRONA");
    reveal_strlit("ILLESBALEARS");
    reveal_strlit("ILLESBALLEARS");
    reveal_strlit("LACORUÑA");
    reveal_strlit("LLEIDA");
    reveal_strlit("OURENSE");
    reveal_strlit("VALENCIA/VALÈNCIA");
    reveal_strlit("VALÈNCIA");
    reveal_strlit("ACORUÑA");
    reveal_strlit("ALAVA");
    reveal_strlit("ALBACETE");
    reveal_strlit("ALICANTE");
    reveal_strlit("ALMERIA");
    reveal_strlit("ASTURIAS");
    reveal_strlit("AVILA");
    reveal_strlit("BADAJOZ");
    reveal_strlit("BALEARES");
    reveal_strlit("BARCELONA");
    reveal_strlit("BURGOS");
    reveal_strlit("CACERES");
    reveal_strlit("CADIZ");
    reveal_strlit("CANTABRIA");
    reveal_strlit("CASTELLON");
    reveal_strlit("CIUDADREAL");
    reveal_strlit("CORDOBA");
    reveal_strlit("CUENCA");
    reveal_strlit("GERONA");
    reveal_strlit("GRANADA");
    reveal_strlit("GUADALAJARA");
    reveal_strlit("GUIPUZCOA");
    reveal_strlit("HUELVA");
    reveal_strlit("HUESCA");
    reveal_strlit("JAEN");
    reveal_strlit("LEON");
    reveal_strlit("LERIDA");
    reveal_strlit("LARIOJA");
    reveal_strlit("LUGO");
    reveal_strlit("MADRID");
    reveal_strlit("MALAGA");
    reveal_strlit("MURCIA");
    reveal_strlit("NAVARRA");
    reveal_strlit("ORENSE");
    reveal_strlit("PALENCIA");
    reveal_strlit("LASPALMAS");
    reveal_strlit("PONTEVEDRA");
    reveal_strlit("SALAMANCA");
    reveal_strlit("SANTACRUZDETENERIFE");
    reveal_strlit("SEGOVIA");
    reveal_strlit("SEVILLA");
    reveal_strlit("SORIA");
    reveal_strlit("TARRAGONA");
    reveal_strlit("TERUEL");
    reveal_strlit("TOLEDO");
    reveal_strlit("VALENCIA");
    reveal_strlit("VALLADOLID");
    reveal_strlit("VIZCAYA");
    reveal_strlit("ZAMORA");
    reveal_strlit("ZARAGOZA");
    reveal_strlit("CEUTA");
    reveal_strlit("MELILLA");
    reveal_strlit("UNKNOWN");
    reveal_strlit("ALL");
    match x {
        Province::ACorunia => {
            assert("ACORUÑA"@[0] != "BIZKAIA"@[0]);
            assert("ACORUÑA"@[0] != "OURENSE"@[0]);
        },
        Province::Alava => {
        },
        Province::Albacete => {
            assert("ALBACETE"@[0] != "GIPUZKOA"@[0]);
            assert("ALBACETE"@[0] != "LACORUÑA"@[0]);
            assert("ALBACETE"@[0] != "VALÈNCIA"@[0]);
        },
        Province::Alicante => {
            assert("ALICANTE"@[0] != "GIPUZKOA"@[0]);
            assert("ALICANTE"@[0] != "LACORUÑA"@[0]);
            assert("ALICANTE"@[0] != "VALÈNCIA"@[0]);
            assert("ALICANTE"@[2] != "ALBACETE"@[2]);
        },
        Province::Almeria => {
            assert("ALMERIA"@[0] != "BIZKAIA"@[0]);
            assert("ALMERIA"@[0] != "OURENSE"@[0]);
            assert("ALMERIA"@[1] != "ACORUÑA"@[1]);
        },
        Province::Asturias => {
            assert("ASTURIAS"@[0] != "GIPUZKOA"@[0]);
            assert("ASTURIAS"@[0] != "LACORUÑA"@[0]);
            assert("ASTURIAS"@[0] != "VALÈNCIA"@[0]);
            assert("ASTURIAS"@[1] != "ALBACETE"@[1]);
            assert("ASTURIAS"@[1] != "ALICANTE"@[1]);
        },
        Province::Avila => {
            assert("AVILA"@[1] != "ALAVA"@[1]);
        },
        Province::Badajoz => {
            assert("BADAJOZ"@[1] != "BIZKAIA"@[1]);
            assert("BADAJOZ"@[0] != "OURENSE"@[0]);
            assert("BADAJOZ"@[0] != "ACORUÑA"@[0]);
            assert("BADAJOZ"@[0] != "ALMERIA"@[0]);
        },
        Province::Baleares => {
            assert("BALEARES"@[0] != "GIPUZKOA"@[0]);
            assert("BALEARES"@[0] != "LACORUÑA"@[0]);
            assert("BALEARES"@[0] != "VALÈNCIA"@[0]);
            assert("BALEARES"@[0] != "ALBACETE"@[0]);
            assert("BALEARES"@[0] != "ALICANTE"@[0]);
            assert("BALEARES"@[0] != "ASTURIAS"@[0]);
        },
        Province::Barcelona => {
        },
        Province::Burgos => {
            assert("BURGOS"@[0] != "GIRONA"@[0]);
            assert("BURGOS"@[0] != "LLEIDA"@[0]);
        },
        Province::Caceres => {
            assert("CACERES"@[0] != "BIZKAIA"@[0]);
            assert("CACERES"@[0] != "OURENSE"@[0]);
            assert("CACERES"@[0] != "ACORUÑA"@[0]);
            assert("CACERES"@[0] != "ALMERIA"@[0]);
            assert("CACERES"@[0] != "BADAJOZ"@[0]);
        },
        Province::Cadiz => {
            assert("CADIZ"@[0] != "ALAVA"@[0]);
            assert("CADIZ"@[0] != "AVILA"@[0]);
        },
        Province::Cantabria => {
            assert("CANTABRIA"@[0] != "BARCELONA"@[0]);
        },
        Province::Castellon => {
            assert("CASTELLON"@[0] != "BARCELONA"@[0]);
            assert("CASTELLON"@[2] != "CANTABRIA"@[2]);
        },
        Province::CiudadReal => {
        },
        Province::Cordoba => {
            assert("CORDOBA"@[0] != "BIZKAIA"@[0]);
            assert("CORDOBA"@[0] != "OURENSE"@[0]);
            assert("CORDOBA"@[0] != "ACORUÑA"@[0]);
            assert("CORDOBA"@[0] != "ALMERIA"@[0]);
            assert("CORDOBA"@[0] != "BADAJOZ"@[0]);
            assert("CORDOBA"@[1] != "CACERES"@[1]);
        },
        Province::Cuenca => {
            assert("CUENCA"@[0] != "GIRONA"@[0]);
            assert("CUENCA"@[0] != "LLEIDA"@[0]);
            assert("CUENCA"@[0] != "BURGOS"@[0]);
        },
        Province::Gerona => {
            assert("GERONA"@[1] != "GIRONA"@[1]);
            assert("GERONA"@[0] != "LLEIDA"@[0]);
            assert("GERONA"@[0] != "BURGOS"@[0]);
            assert("GERONA"@[0] != "CUENCA"@[0]);
        },
        Province::Granada => {
            assert("GRANADA"@[0] != "BIZKAIA"@[0]);
            assert("GRANADA"@[0] != "OURENSE"@[0]);
            assert("GRANADA"@[0] != "ACORUÑA"@[0]);
            assert("GRANADA"@[0] != "ALMERIA"@[0]);
            assert("GRANADA"@[0] != "BADAJOZ"@[0]);
            assert("GRANADA"@[0] != "CACERES"@[0]);
            assert("GRANADA"@[0] != "CORDOBA"@[0]);
        },
        Province::Guadalajara => {
            assert("GUADALAJARA"@[0] != "ARABA/ALAVA"@[0]);
        },
        Province::Guipuzcoa => {
            assert("GUIPUZCOA"@[0] != "BARCELONA"@[0]);
            assert("GUIPUZCOA"@[0] != "CANTABRIA"@[0]);
            assert("GUIPUZCOA"@[0] != "CASTELLON"@[0]);
        },
        Province::Huelva => {
            assert("HUELVA"@[0] != "GIRONA"@[0]);
            assert("HUELVA"@[0] != "LLEIDA"@[0]);
            assert("HUELVA"@[0] != "BURGOS"@[0]);
            assert("HUELVA"@[0] != "CUENCA"@[0]);
            assert("HUELVA"@[0] != "GERONA"@[0]);
        },
        Province::Huesca => {
            assert("HUESCA"@[0] != "GIRONA"@[0]);
            assert("HUESCA"@[0] != "LLEIDA"@[0]);
            assert("HUESCA"@[0] != "BURGOS"@[0]);
            assert("HUESCA"@[0] != "CUENCA"@[0]);
            assert("HUESCA"@[0] != "GERONA"@[0]);
            assert("HUESCA"@[3] != "HUELVA"@[3]);
        },
        Province::Jaen => {
        },
        Province::Leon => {
            assert("LEON"@[0] != "JAEN"@[0]);
        },
        Province::Lerida => {
            assert("LERIDA"@[0] != "GIRONA"@[0]);
            assert("LERIDA"@[1] != "LLEIDA"@[1]);
            assert("LERIDA"@[0] != "BURGOS"@[0]);
            assert("LERIDA"@[0] != "CUENCA"@[0]);
            assert("LERIDA"@[0] != "GERONA"@[0]);
            assert("LERIDA"@[0] != "HUELVA"@[0]);
            assert("LERIDA"@[0] != "HUESCA"@[0]);
        },
        Province::LaRioja => {
            assert("LARIOJA"@[0] != "BIZKAIA"@[0]);
            assert("LARIOJA"@[0] != "OURENSE"@[0]);
            assert("LARIOJA"@[0] != "ACORUÑA"@[0]);
            assert("LARIOJA"@[0] != "ALMERIA"@[0]);
            assert("LARIOJA"@[0] != "BADAJOZ"@[0]);
            assert("LARIOJA"@[0] != "CACERES"@[0]);
            assert("LARIOJA"@[0] != "CORDOBA"@[0]);
            assert("LARIOJA"@[0] != "GRANADA"@[0]);
        },
        Province::Lugo => {
            assert("LUGO"@[0] != "JAEN"@[0]);
            assert("LUGO"@[1] != "LEON"@[1]);
        },
        Province::Madrid => {
            assert("MADRID"@[0] != "GIRONA"@[0]);
            assert("MADRID"@[0] != "LLEIDA"@[0]);
            assert("MADRID"@[0] != "BURGOS"@[0]);
            assert("MADRID"@[0] != "CUENCA"@[0]);
            assert("MADRID"@[0] != "GERONA"@[0]);
            assert("MADRID"@[0] != "HUELVA"@[0]);
            assert("MADRID"@[0] != "HUESCA"@[0]);
            assert("MADRID"@[0] != "LERIDA"@[0]);
        },
        Province::Malaga => {
            assert("MALAGA"@[0] != "GIRONA"@[0]);
            assert("MALAGA"@[0] != "LLEIDA"@[0]);
            assert("MALAGA"@[0] != "BURGOS"@[0]);
            assert("MALAGA"@[0] != "CUENCA"@[0]);
            assert("MALAGA"@[0] != "GERONA"@[0]);
            assert("MALAGA"@[0] != "HUELVA"@[0]);
            assert("MALAGA"@[0] != "HUESCA"@[0]);
            assert("MALAGA"@[0] != "LERIDA"@[0]);
            assert("MALAGA"@[2] != "MADRID"@[2]);
        },
        Province::Murcia => {
            assert("MURCIA"@[0] != "GIRONA"@[0]);
            assert("MURCIA"@[0] != "LLEIDA"@[0]);
            assert("MURCIA"@[0] != "BURGOS"@[0]);
            assert("MURCIA"@[0] != "CUENCA"@[0]);
            assert("MURCIA"@[0] != "GERONA"@[0]);
            assert("MURCIA"@[0] != "HUELVA"@[0]);
            assert("MURCIA"@[0] != "HUESCA"@[0]);
            assert("MURCIA"@[0] != "LERIDA"@[0]);
            assert("MURCIA"@[1] != "MADRID"@[1]);
            assert("MURCIA"@[1] != "MALAGA"@[1]);
        },
        Province::Navarra => {
            assert("NAVARRA"@[0] != "BIZKAIA"@[0]);
            assert("NAVARRA"@[0] != "OURENSE"@[0]);
            assert("NAVARRA"@[0] != "ACORUÑA"@[0]);
            assert("NAVARRA"@[0] != "ALMERIA"@[0]);
            assert("NAVARRA"@[0] != "BADAJOZ"@[0]);
            assert("NAVARRA"@[0] != "CACERES"@[0]);
            assert("NAVARRA"@[0] != "CORDOBA"@[0]);
            assert("NAVARRA"@[0] != "GRANADA"@[0]);
            assert("NAVARRA"@[0] != "LARIOJA"@[0]);
        },
        Province::Orense => {
            assert("ORENSE"@[0] != "GIRONA"@[0]);
            assert("ORENSE"@[0] != "LLEIDA"@[0]);
            assert("ORENSE"@[0] != "BURGOS"@[0]);
            assert("ORENSE"@[0] != "CUENCA"@[0]);
            assert("ORENSE"@[0] != "GERONA"@[0]);
            assert("ORENSE"@[0] != "HUELVA"@[0]);
            assert("ORENSE"@[0] != "HUESCA"@[0]);
            assert("ORENSE"@[0] != "LERIDA"@[0]);
            assert("ORENSE"@[0] != "MADRID"@[0]);
            assert("ORENSE"@[0] != "MALAGA"@[0]);
            assert("ORENSE"@[0] != "MURCIA"@[0]);
        },
        Province::Palencia => {
            assert("PALENCIA"@[0] != "GIPUZKOA"@[0]);
            assert("PALENCIA"@[0] != "LACORUÑA"@[0]);
            assert("PALENCIA"@[0] != "VALÈNCIA"@[0]);
            assert("PALENCIA"@[0] != "ALBACETE"@[0]);
            assert("PALENCIA"@[0] != "ALICANTE"@[0]);
            assert("PALENCIA"@[0] != "ASTURIAS"@[0]);
            assert("PALENCIA"@[0] != "BALEARES"@[0]);
        },
        Province::LasPalmas => {
            assert("LASPALMAS"@[0] != "BARCELONA"@[0]);
            assert("LASPALMAS"@[0] != "CANTABRIA"@[0]);
            assert("LASPALMAS"@[0] != "CASTELLON"@[0]);
            assert("LASPALMAS"@[0] != "GUIPUZCOA"@[0]);
        },
        Province::Pontevedra => {
            assert("PONTEVEDRA"@[0] != "CIUDADREAL"@[0]);
        },
        Province::Salamanca => {
            assert("SALAMANCA"@[0] != "BARCELONA"@[0]);
            assert("SALAMANCA"@[0] != "CANTABRIA"@[0]);
            assert("SALAMANCA"@[0] != "CASTELLON"@[0]);
            assert("SALAMANCA"@[0] != "GUIPUZCOA"@[0]);
            assert("SALAMANCA"@[0] != "LASPALMAS"@[0]);
        },
        Province::SantaCruzDeTenerife => {
        },
        Province::Segovia => {
            assert("SEGOVIA"@[0] != "BIZKAIA"@[0]);
            assert("SEGOVIA"@[0] != "OURENSE"@[0]);
            assert("SEGOVIA"@[0] != "ACORUÑA"@[0]);
            assert("SEGOVIA"@[0] != "ALMERIA"@[0]);
            assert("SEGOVIA"@[0] != "BADAJOZ"@[0]);
            assert("SEGOVIA"@[0] != "CACERES"@[0]);
            assert("SEGOVIA"@[0] != "CORDOBA"@[0]);
            assert("SEGOVIA"@[0] != "GRANADA"@[0]);
            assert("SEGOVIA"@[0] != "LARIOJA"@[0]);
            assert("SEGOVIA"@[0] != "NAVARRA"@[0]);
        },
        Province::Sevilla => {
            assert("SEVILLA"@[0] != "BIZKAIA"@[0]);
            assert("SEVILLA"@[0] != "OURENSE"@[0]);
            assert("SEVILLA"@[0] != "ACORUÑA"@[0]);
            assert("SEVILLA"@[0] != "ALMERIA"@[0]);
            assert("SEVILLA"@[0] != "BADAJOZ"@[0]);
            assert("SEVILLA"@[0] != "CACERES"@[0]);
            assert("SEVILLA"@[0] != "CORDOBA"@[0]);
            assert("SEVILLA"@[0] != "GRANADA"@[0]);
            assert("SEVILLA"@[0] != "LARIOJA"@[0]);
            assert("SEVILLA"@[0] != "NAVARRA"@[0]);
            assert("SEVILLA"@[2] != "SEGOVIA"@[2]);
        },
        Province::Soria => {
            assert("SORIA"@[0] != "ALAVA"@[0]);
            assert("SORIA"@[0] != "AVILA"@[0]);
            assert("SORIA"@[0] != "CADIZ"@[0]);
        },
        Province::Tarragona => {
            assert("TARRAGONA"@[0] != "BARCELONA"@[0]);
            assert("TARRAGONA"@[0] != "CANTABRIA"@[0]);
            assert("TARRAGONA"@[0] != "CASTELLON"@[0]);
            assert("TARRAGONA"@[0] != "GUIPUZCOA"@[0]);
            assert("TARRAGONA"@[0] != "LASPALMAS"@[0]);
            assert("TARRAGONA"@[0] != "SALAMANCA"@[0]);
        },
        Province::Teruel => {
            assert("TERUEL"@[0] != "GIRONA"@[0]);
            assert("TERUEL"@[0] != "LLEIDA"@[0]);
            assert("TERUEL"@[0] != "BURGOS"@[0]);
            assert("TERUEL"@[0] != "CUENCA"@[0]);
            assert("TERUEL"@[0] != "GERONA"@[0]);
            assert("TERUEL"@[0] != "HUELVA"@[0]);
            assert("TERUEL"@[0] != "HUESCA"@[0]);
            assert("TERUEL"@[0] != "LERIDA"@[0]);
            assert("TERUEL"@[0] != "MADRID"@[0]);
            assert("TERUEL"@[0] != "MALAGA"@[0]);
            assert("TERUEL"@[0] != "MURCIA"@[0]);
            assert("TERUEL"@[0] != "ORENSE"@[0]);
        },
        Province::Toledo => {
            assert("TOLEDO"@[0] != "GIRONA"@[0]);
            assert("TOLEDO"@[0] != "LLEIDA"@[0]);
            assert("TOLEDO"@[0] != "BURGOS"@[0]);
            assert("TOLEDO"@[0] != "CUENCA"@[0]);
            assert("TOLEDO"@[0] != "GERONA"@[0]);
            assert("TOLEDO"@[0] != "HUELVA"@[0]);
            assert("TOLEDO"@[0] != "HUESCA"@[0]);
            assert("TOLEDO"@[0] != "LERIDA"@[0]);
            assert("TOLEDO"@[0] != "MADRID"@[0]);
            assert("TOLEDO"@[0] != "MALAGA"@[0]);
            assert("TOLEDO"@[0] != "MURCIA"@[0]);
            assert("TOLEDO"@[0] != "ORENSE"@[0]);
            assert("TOLEDO"@[1] != "TERUEL"@[1]);
        },
        Province::Valencia => {
            assert("VALENCIA"@[0] != "GIPUZKOA"@[0]);
            assert("VALENCIA"@[0] != "LACORUÑA"@[0]);
            assert("VALENCIA"@[3] != "VALÈNCIA"@[3]);
            assert("VALENCIA"@[0] != "ALBACETE"@[0]);
            assert("VALENCIA"@[0] != "ALICANTE"@[0]);
            assert("VALENCIA"@[0] != "ASTURIAS"@[0]);
            assert("VALENCIA"@[0] != "BALEARES"@[0]);
            assert("VALENCIA"@[0] != "PALENCIA"@[0]);
        },
        Province::Valladolid => {
            assert("VALLADOLID"@[0] != "CIUDADREAL"@[0]);
            assert("VALLADOLID"@[0] != "PONTEVEDRA"@[0]);
        },
        Province::Vizcaya => {
            assert("VIZCAYA"@[0] != "BIZKAIA"@[0]);
            assert("VIZCAYA"@[0] != "OURENSE"@[0]);
            assert("VIZCAYA"@[0] != "ACORUÑA"@[0]);
            assert("VIZCAYA"@[0] != "ALMERIA"@[0]);
            assert("VIZCAYA"@[0] != "BADAJOZ"@[0]);
            assert("VIZCAYA"@[0] != "CACERES"@[0]);
            assert("VIZCAYA"@[0] != "CORDOBA"@[0]);
            assert("VIZCAYA"@[0] != "GRANADA"@[0]);
            assert("VIZCAYA"@[0] != "LARIOJA"@[0]);
            assert("VIZCAYA"@[0] != "NAVARRA"@[0]);
            assert("VIZCAYA"@[0] != "SEGOVIA"@[0]);
            assert("VIZCAYA"@[0] != "SEVILLA"@[0]);
        },
        Province::Zamora => {
            assert("ZAMORA"@[0] != "GIRONA"@[0]);
            assert("ZAMORA"@[0] != "LLEIDA"@[0]);
            assert("ZAMORA"@[0] != "BURGOS"@[0]);
            assert("ZAMORA"@[0] != "CUENCA"@[0]);
            assert("ZAMORA"@[0] != "GERONA"@[0]);
            assert("ZAMORA"@[0] != "HUELVA"@[0]);
            assert("ZAMORA"@[0] != "HUESCA"@[0]);
            assert("ZAMORA"@[0] != "LERIDA"@[0]);
            assert("ZAMORA"@[0] != "MADRID"@[0]);
            assert("ZAMORA"@[0] != "MALAGA"@[0]);
            assert("ZAMORA"@[0] != "MURCIA"@[0]);
            assert("ZAMORA"@[0] != "ORENSE"@[0]);
            assert("ZAMORA"@[0] != "TERUEL"@[0]);
            assert("ZAMORA"@[0] != "TOLEDO"@[0]);
        },
        Province::Zaragoza => {
            assert("ZARAGOZA"@[0] != "GIPUZKOA"@[0]);
            assert("ZARAGOZA"@[0] != "LACORUÑA"@[0]);
            assert("ZARAGOZA"@[0] != "VALÈNCIA"@[0]);
            assert("ZARAGOZA"@[0] != "ALBACETE"@[0]);
            assert("ZARAGOZA"@[0] != "ALICANTE"@[0]);
            assert("ZARAGOZA"@[0] != "ASTURIAS"@[0]);
            assert("ZARAGOZA"@[0] != "BALEARES"@[0]);
            assert("ZARAGOZA"@[0] != "PALENCIA"@[0]);
            assert("ZARAGOZA"@[0] != "VALENCIA"@[0]);
        },
        Province::Ceuta => {
            assert("CEUTA"@[0] != "ALAVA"@[0]);
            assert("CEUTA"@[0] != "AVILA"@[0]);
            assert("CEUTA"@[1] != "CADIZ"@[1]);
            assert("CEUTA"@[0] != "SORIA"@[0]);
        },
        Province::Melilla => {
            assert("MELILLA"@[0] != "BIZKAIA"@[0]);
            assert("MELILLA"@[0] != "OURENSE"@[0]);
            assert("MELILLA"@[0] != "ACORUÑA"@[0]);
            assert("MELILLA"@[0] != "ALMERIA"@[0]);
            assert("MELILLA"@[0] != "BADAJOZ"@[0]);
            assert("MELILLA"@[0] != "CACERES"@[0]);
            assert("MELILLA"@[0] != "CORDOBA"@[0]);
            assert("MELILLA"@[0] != "GRANADA"@[0]);
            assert("MELILLA"@[0] != "LARIOJA"@[0]);
            assert("MELILLA"@[0] != "NAVARRA"@[0]);
            assert("MELILLA"@[0] != "SEGOVIA"@[0]);
            assert("MELILLA"@[0] != "SEVILLA"@[0]);
            assert("MELILLA"@[0] != "VIZCAYA"@[0]);
        },
        Province::Unknown => {
            assert("UNKNOWN"@[0] != "BIZKAIA"@[0]);
            assert("UNKNOWN"@[0] != "OURENSE"@[0]);
            assert("UNKNOWN"@[0] != "ACORUÑA"@[0]);
            assert("UNKNOWN"@[0] != "ALMERIA"@[0]);
            assert("UNKNOWN"@[0] != "BADAJOZ"@[0]);
            assert("UNKNOWN"@[0] != "CACERES"@[0]);
            assert("UNKNOWN"@[0] != "CORDOBA"@[0]);
            assert("UNKNOWN"@[0] != "GRANADA"@[0]);
            assert("UNKNOWN"@[0] != "LARIOJA"@[0]);
            assert("UNKNOWN"@[0] != "NAVARRA"@[0]);
            assert("UNKNOWN"@[0] != "SEGOVIA"@[0]);
            assert("UNKNOWN"@[0] != "SEVILLA"@[0]);
            assert("UNKNOWN"@[0] != "VIZCAYA"@[0]);
            assert("UNKNOWN"@[0] != "MELILLA"@[0]);
        },
        Province::All => {
        },
    }
    lemma_plain_key(province_name(x));
}

/// Every province but `Unknown` is read back from its display name (the
/// text that `Province::name` gives): the display name is `simple_case`
/// and its lookup key is the province's name, which `province_for_key`
/// maps to the province (see `lemma_province_name_parses`).  `Unknown`
/// displays as `Desconocido`, which names no province.
pub proof fn lemma_province_display_parses(x: Province)
    requires
        x != Province::Unknown,
    ensures
        simple_case(province_display(x)),
        simple_lookup_key(province_display(x)) == province_name(x),
{
    reveal_strlit(" ");
    assert(" "@ =~= seq![' ']);
    match x {
        Province::ACorunia => {
            reveal_strlit("A");
            reveal_strlit("A Coruña");
            reveal_strlit("ACORUÑA");
            reveal_strlit("CORUÑA");
            reveal_strlit("Coruña");
            assert("A Coruña"@ =~= "A"@ + " "@ + "Coruña"@);
            lemma_word_key("A"@, "A"@);
            lemma_word_key("Coruña"@, "CORUÑA"@);
            lemma_space_key();
            lemma_simple_lookup_key_concat("A"@, " "@);
            lemma_simple_lookup_key_concat("A"@ + " "@, "Coruña"@);
            assert("ACORUÑA"@ =~= "A"@ + "CORUÑA"@);
        },
        Province::Alava => {
            reveal_strlit("ALAVA");
            reveal_strlit("Álava");
            lemma_word_key("Álava"@, "ALAVA"@);
        },
        Province::Albacete => {
            reveal_strlit("ALBACETE");
            reveal_strlit("Albacete");
            lemma_word_key("Albacete"@, "ALBACETE"@);
        },
        Province::Alicante => {
            reveal_strlit("ALICANTE");
            reveal_strlit("Alicante");
            lemma_word_key("Alicante"@, "ALICANTE"@);
        },
        Province::Almeria => {
            reveal_strlit("ALMERIA");
            reveal_strlit("Almería");
            lemma_word_key("Almería"@, "ALMERIA"@);
        },
        Province::Asturias => {
            reveal_strlit("ASTURIAS");
            reveal_strlit("Asturias");
            lemma_word_key("Asturias"@, "ASTURIAS"@);
        },
        Province::Avila => {
            reveal_strlit("AVILA");
            reveal_strlit("Ávila");
            lemma_word_key("Ávila"@, "AVILA"@);
        },
        Province::Badajoz => {
            reveal_strlit("BADAJOZ");
            reveal_strlit("Badajoz");
            lemma_word_key("Badajoz"@, "BADAJOZ"@);
        },
        Province::Baleares => {
            reveal_strlit("BALEARES");
            reveal_strlit("Baleares");
            lemma_word_key("Baleares"@, "BALEARES"@);
        },
        Province::Barcelona => {
            reveal_strlit("BARCELONA");
            reveal_strlit("Barcelona");
            lemma_word_key("Barcelona"@, "BARCELONA"@);
        },
        Province::Burgos => {
            reveal_strlit("BURGOS");
            reveal_strlit("Burgos");
            lemma_word_key("Burgos"@, "BURGOS"@);
        },
        Province::Caceres => {
            reveal_strlit("CACERES");
            reveal_strlit("Cáceres");
            lemma_word_key("Cáceres"@, "CACERES"@);
        },
        Province::Cadiz => {
            reveal_strlit("CADIZ");
            reveal_strlit("Cádiz");
            lemma_word_key("Cádiz"@, "CADIZ"@);
        },
        Province::Cantabria => {
            reveal_strlit("CANTABRIA");
            reveal_strlit("Cantabria");
            lemma_word_key("Cantabria"@, "CANTABRIA"@);
        },
        Province::Castellon => {
            reveal_strlit("CASTELLON");
            reveal_strlit("Castellón");
            lemma_word_key("Castellón"@, "CASTELLON"@);
        },
        Province::CiudadReal => {
            reveal_strlit("CIUDAD");
            reveal_strlit("CIUDADREAL");
            reveal_strlit("Ciudad");
            reveal_strlit("Ciudad Real");
            reveal_strlit("REAL");
            reveal_strlit("Real");
            assert("Ciudad Real"@ =~= "Ciudad"@ + " "@ + "Real"@);
            lemma_word_key("Ciudad"@, "CIUDAD"@);
            lemma_word_key("Real"@, "REAL"@);
            lemma_space_key();
            lemma_simple_lookup_key_concat("Ciudad"@, " "@);
            lemma_simple_lookup_key_concat("Ciudad"@ + " "@, "Real"@);
            assert("CIUDADREAL"@ =~= "CIUDAD"@ + "REAL"@);
        },
        Province::Cordoba => {
            reveal_strlit("CORDOBA");
            reveal_strlit("Córdoba");
            lemma_word_key("Córdoba"@, "CORDOBA"@);
        },
        Province::Cuenca => {
            reveal_strlit("CUENCA");
            reveal_strlit("Cuenca");
            lemma_word_key("Cuenca"@, "CUENCA"@);
        },
        Province::Gerona => {
            reveal_strlit("GERONA");
            reveal_strlit("Gerona");
            lemma_word_key("Gerona"@, "GERONA"@);
        },
        Province::Granada => {
            reveal_strlit("GRANADA");
            reveal_strlit("Granada");
            lemma_word_key("Granada"@, "GRANADA"@);
        },
        Province::Guadalajara => {
            reveal_strlit("GUADALAJARA");
            reveal_strlit("Guadalajara");
            lemma_word_key("Guadalajara"@, "GUADALAJARA"@);
        },
        Province::Guipuzcoa => {
            reveal_strlit("GUIPUZCOA");
            reveal_strlit("Guipúzcoa");
            lemma_word_key("Guipúzcoa"@, "GUIPUZCOA"@);
        },
        Province::Huelva => {
            reveal_strlit("HUELVA");
            reveal_strlit("Huelva");
            lemma_word_key("Huelva"@, "HUELVA"@);
        },
        Province::Huesca => {
            reveal_strlit("HUESCA");
            reveal_strlit("Huesca");
            lemma_word_key("Huesca"@, "HUESCA"@);
        },
        Province::Jaen => {
            reveal_strlit("JAEN");
            reveal_strlit("Jaén");
            lemma_word_key("Jaén"@, "JAEN"@);
        },
        Province::Leon => {
            reveal_strlit("LEON");
            reveal_strlit("León");
            lemma_word_key("León"@, "LEON"@);
        },
        Province::Lerida => {
            reveal_strlit("LERIDA");
            reveal_strlit("Lérida");
            lemma_word_key("Lérida"@, "LERIDA"@);
        },
        Province::LaRioja => {
            reveal_strlit("LA");
            reveal_strlit("LARIOJA");
            reveal_strlit("La");
            reveal_strlit("La Rioja");
            reveal_strlit("RIOJA");
            reveal_strlit("Rioja");
            assert("La Rioja"@ =~= "La"@ + " "@ + "Rioja"@);
            lemma_word_key("La"@, "LA"@);
            lemma_word_key("Rioja"@, "RIOJA"@);
            lemma_space_key();
            lemma_simple_lookup_key_concat("La"@, " "@);
            lemma_simple_lookup_key_concat("La"@ + " "@, "Rioja"@);
            assert("LARIOJA"@ =~= "LA"@ + "RIOJA"@);
        },
        Province::Lugo => {
            reveal_strlit("LUGO");
            reveal_strlit("Lugo");
            lemma_word_key("Lugo"@, "LUGO"@);
        },
        Province::Madrid => {
            reveal_strlit("MADRID");
            reveal_strlit("Madrid");
            lemma_word_key("Madrid"@, "MADRID"@);
        },
        Province::Malaga => {
            reveal_strlit("MALAGA");
            reveal_strlit("Málaga");
            lemma_word_key("Málaga"@, "MALAGA"@);
        },
        Province::Murcia => {
            reveal_strlit("MURCIA");
            reveal_strlit("Murcia");
            lemma_word_key("Murcia"@, "MURCIA"@);
        },
        Province::Navarra => {
            reveal_strlit("NAVARRA");
            reveal_strlit("Navarra");
            lemma_word_key("Navarra"@, "NAVARRA"@);
        },
        Province::Orense => {
            reveal_strlit("ORENSE");
            reveal_strlit("Orense");
            lemma_word_key("Orense"@, "ORENSE"@);
        },
        Province::Palencia => {
            reveal_strlit("PALENCIA");
            reveal_strlit("Palencia");
            lemma_word_key("Palencia"@, "PALENCIA"@);
        },
        Province::LasPalmas => {
            reveal_strlit("LAS");
            reveal_strlit("LASPALMAS");
            reveal_strlit("Las");
            reveal_strlit("Las Palmas");
            reveal_strlit("PALMAS");
            reveal_strlit("Palmas");
            assert("Las Palmas"@ =~= "Las"@ + " "@ + "Palmas"@);
            lemma_word_key("Las"@, "LAS"@);
            lemma_word_key("Palmas"@, "PALMAS"@);
            lemma_space_key();
            lemma_simple_lookup_key_concat("Las"@, " "@);
            lemma_simple_lookup_key_concat("Las"@ + " "@, "Palmas"@);
            assert("LASPALMAS"@ =~= "LAS"@ + "PALMAS"@);
        },
        Province::Pontevedra => {
            reveal_strlit("PONTEVEDRA");
            reveal_strlit("Pontevedra");
            lemma_word_key("Pontevedra"@, "PONTEVEDRA"@);
        },
        Province::Salamanca => {
            reveal_strlit("SALAMANCA");
            reveal_strlit("Salamanca");
            lemma_word_key("Salamanca"@, "SALAMANCA"@);
        },
        Province::SantaCruzDeTenerife => {
            reveal_strlit("CRUZ");
            reveal_strlit("Cruz");
            reveal_strlit("DE");
            reveal_strlit("SANTA");
            reveal_strlit("SANTACRUZDETENERIFE");
            reveal_strlit("Santa");
            reveal_strlit("Santa Cruz de Tenerife");
            reveal_strlit("TENERIFE");
            reveal_strlit("Tenerife");
            reveal_strlit("de");
            assert("Santa Cruz de Tenerife"@ =~= "Santa"@ + " "@ + "Cruz"@ + " "@ + "de"@ + " "@ + "Tenerife"@);
            lemma_word_key("Santa"@, "SANTA"@);
            lemma_word_key("Cruz"@, "CRUZ"@);
            lemma_word_key("de"@, "DE"@);
            lemma_word_key("Tenerife"@, "TENERIFE"@);
            lemma_space_key();
            lemma_simple_lookup_key_concat("Santa"@, " "@);
            lemma_simple_lookup_key_concat("Santa"@ + " "@, "Cruz"@);
            lemma_simple_lookup_key_concat("Santa"@ + " "@ + "Cruz"@, " "@);
            lemma_simple_lookup_key_concat("Santa"@ + " "@ + "Cruz"@ + " "@, "de"@);
            lemma_simple_lookup_key_concat("Santa"@ + " "@ + "Cruz"@ + " "@ + "de"@, " "@);
            lemma_simple_lookup_key_concat("Santa"@ + " "@ + "Cruz"@ + " "@ + "de"@ + " "@, "Tenerife"@);
            assert("SANTACRUZDETENERIFE"@ =~= "SANTA"@ + "CRUZ"@ + "DE"@ + "TENERIFE"@);
        },
        Province::Segovia => {
            reveal_strlit("SEGOVIA");
            reveal_strlit("Segovia");
            lemma_word_key("Segovia"@, "SEGOVIA"@);
        },
        Province::Sevilla => {
            reveal_strlit("SEVILLA");
            reveal_strlit("Sevilla");
            lemma_word_key("Sevilla"@, "SEVILLA"@);
        },
        Province::Soria => {
            reveal_strlit("SORIA");
            reveal_strlit("Soria");
            lemma_word_key("Soria"@, "SORIA"@);
        },
        Province::Tarragona => {
            reveal_strlit("TARRAGONA");
            reveal_strlit("Tarragona");
            lemma_word_key("Tarragona"@, "TARRAGONA"@);
        },
        Province::Teruel => {
            reveal_strlit("TERUEL");
            reveal_strlit("Teruel");
            lemma_word_key("Teruel"@, "TERUEL"@);
        },
        Province::Toledo => {
            reveal_strlit("TOLEDO");
            reveal_strlit("Toledo");
            lemma_word_key("Toledo"@, "TOLEDO"@);
        },
        Province::Valencia => {
            reveal_strlit("VALENCIA");
            reveal_strlit("Valencia");
            lemma_word_key("Valencia"@, "VALENCIA"@);
        },
        Province::Valladolid => {
            reveal_strlit("VALLADOLID");
            reveal_strlit("Valladolid");
            lemma_word_key("Valladolid"@, "VALLADOLID"@);
        },
        Province::Vizcaya => {
            reveal_strlit("VIZCAYA");
            reveal_strlit("Vizcaya");
            lemma_word_key("Vizcaya"@, "VIZCAYA"@);
        },
        Province::Zamora => {
            reveal_strlit("ZAMORA");
            reveal_strlit("Zamora");
            lemma_word_key("Zamora"@, "ZAMORA"@);
        },
        Province::Zaragoza => {
            reveal_strlit("ZARAGOZA");
            reveal_strlit("Zaragoza");
            lemma_word_key("Zaragoza"@, "ZARAGOZA"@);
        },
        Province::Ceuta => {
            reveal_strlit("CEUTA");
            reveal_strlit("Ceuta");
            lemma_word_key("Ceuta"@, "CEUTA"@);
        },
        Province::Melilla => {
            reveal_strlit("MELILLA");
            reveal_strlit("Melilla");
            lemma_word_key("Melilla"@, "MELILLA"@);
        },
        Province::Unknown => {},
        Province::All => {
            reveal_strlit("ALL");
            reveal_strlit("All");
            lemma_word_key("All"@, "ALL"@);
        },
    }
}

} // verus!
