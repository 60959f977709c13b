//! The decisions of the web front end that lists the catalog: how it loads
//! the catalog, which menu is selected, what it shows while loading, the
//! rows of a property's detail page, the pages of the properties route, the
//! detail windows of the asset cards and the expanded rows of the property
//! and vehicle tables.

use vstd::prelude::*;
use crate::listing::get_external_url;
use crate::provinces::{province_display, Province};
use crate::text::{chars_of, owned};
use crate::types::{Amount, Asset, BidInfo, Property, Vehicle};
use crate::web::{format_valuation, group_thousands, summarize, unsigned_whole_units, DESCRIPTION_TEXT_LIMIT};
use vstd::string::StringSliceAdditionalSpecFns;

verus! {

/// Where the front end fetches the assets.
pub const ASSETS_URL: &'static str = "tmp/assets.min.json";

/// Where the front end fetches the auctions.
pub const AUCTIONS_URL: &'static str = "tmp/auctions.min.json";

/// The menus of the front end.
#[derive(Debug, Clone, Copy, PartialEq, Eq, Structural)]
pub enum Menu {
    /// Home page.
    Home,
    /// Real estate.
    Property,
    /// Vehicles.
    Vehicle,
    /// Other assets.
    Other,
}

impl Menu {
    /// The name of the menu.
    pub fn name(self) -> (r: &'static str)
        ensures
            r@ == match self {
                Menu::Home => "inicio"@,
                Menu::Property => "inmueble"@,
                Menu::Vehicle => "vehiculo"@,
                Menu::Other => "otro"@,
            },
    {
        match self {
            Menu::Home => "inicio",
            Menu::Property => "inmueble",
            Menu::Vehicle => "vehiculo",
            Menu::Other => "otro",
        }
    }
}

/// What the front end knows of its own progress.
#[derive(Debug, Clone, Copy, PartialEq, Eq, Structural)]
pub struct AppState {
    /// The assets have arrived.
    pub assets_loaded: bool,
    /// The auctions have arrived.
    pub auctions_loaded: bool,
    /// The menu selected.
    pub selected_menu: Menu,
}

/// What happens to the front end.
#[derive(Debug, Clone, Copy, PartialEq, Eq, Structural)]
pub enum AppMessage {
    /// The assets are to be requested.
    GetAssets,
    /// The assets have arrived (and were stored).
    GotAssets,
    /// The auctions are to be requested.
    GetAuctions,
    /// The auctions have arrived (and were stored).
    GotAuctions,
    /// A menu was chosen.
    ChangeMenu(Menu),
}

/// What the front end has to do next.
#[derive(Debug, Clone, Copy, PartialEq, Eq, Structural)]
pub enum AppAction {
    /// Nothing.
    Nothing,
    /// Request the assets from `ASSETS_URL`, then report `GotAssets`.
    FetchAssets,
    /// Request the auctions from `AUCTIONS_URL`, then report `GotAuctions`.
    FetchAuctions,
    /// Handle this message next.
    Send(AppMessage),
    /// Compute the catalog's global information.
    ComputeGlobalInfo,
}

impl AppState {
    /// The state at start: nothing loaded, the home menu selected; the
    /// first message requests the assets.
    pub fn create() -> (r: (AppState, AppMessage))
        ensures
            r.0 == (AppState {
                assets_loaded: false,
                auctions_loaded: false,
                selected_menu: Menu::Home,
            }),
            r.1 == AppMessage::GetAssets,
    {
        (
            AppState { assets_loaded: false, auctions_loaded: false, selected_menu: Menu::Home },
            AppMessage::GetAssets,
        )
    }

    /// Handles `message`: gives whether to render again and what to do next.
    /// The assets are requested first, then the auctions, and once both have
    /// arrived the global information is computed; choosing the menu already
    /// selected changes nothing.
    pub fn update(&mut self, message: AppMessage) -> (r: (bool, AppAction))
        ensures
            match message {
                AppMessage::GetAssets => *final(self) == *old(self) && r == (true, AppAction::FetchAssets),
                AppMessage::GotAssets => *final(self) == (AppState { assets_loaded: true, ..*old(self) })
                    && r == (true, AppAction::Send(AppMessage::GetAuctions)),
                AppMessage::GetAuctions => *final(self) == *old(self) && r == (true, AppAction::FetchAuctions),
                AppMessage::GotAuctions => *final(self) == (AppState { auctions_loaded: true, ..*old(self) })
                    && r == (true, AppAction::ComputeGlobalInfo),
                AppMessage::ChangeMenu(m) => if old(self).selected_menu == m {
                    *final(self) == *old(self) && r == (false, AppAction::Nothing)
                } else {
                    *final(self) == (AppState { selected_menu: m, ..*old(self) }) && r == (true, AppAction::Nothing)
                },
            },
    {
        match message {
            AppMessage::GetAssets => (true, AppAction::FetchAssets),
            AppMessage::GotAssets => {
                self.assets_loaded = true;
                (true, AppAction::Send(AppMessage::GetAuctions))
            },
            AppMessage::GetAuctions => (true, AppAction::FetchAuctions),
            AppMessage::GotAuctions => {
                self.auctions_loaded = true;
                (true, AppAction::ComputeGlobalInfo)
            },
            AppMessage::ChangeMenu(m) => {
                if self.selected_menu == m {
                    (false, AppAction::Nothing)
                } else {
                    self.selected_menu = m;
                    (true, AppAction::Nothing)
                }
            },
        }
    }

    /// What the page shows while loading; `None` once both the assets and
    /// the auctions have arrived, when it shows the catalog.
    pub fn loading_text(&self) -> (r: Option<&'static str>)
        ensures
            self.assets_loaded && self.auctions_loaded ==> r is None,
            !(self.assets_loaded && self.auctions_loaded) ==> (r matches Some(t) && t@ == (
            if self.assets_loaded {
                "Cargando subastas ..."@
            } else if self.auctions_loaded {
                "Terminado"@
            } else {
                "Cargando bienes ..."@
            })),
    {
        if self.assets_loaded && self.auctions_loaded {
            None
        } else if self.assets_loaded {
            Some("Cargando subastas ...")
        } else if self.auctions_loaded {
            Some("Terminado")
        } else {
            Some("Cargando bienes ...")
        }
    }
}

/// An amount as the detail page shows it, see `format_valuation`.
pub open spec fn shown_amount(a: Amount) -> Seq<char> {
    group_thousands(crate::text::decimal(unsigned_whole_units(a))) + ","@ + crate::text::decimal(0)
        + " €"@
}

/// The rows of the detail page of a property: a label and its text each.
/// The first row's text is the auction identifier, shown as a link to
/// `get_external_url` of it.
pub open spec fn detail_rows(property: Property, bidinfo: BidInfo) -> Seq<(Seq<char>, Seq<char>)> {
    seq![
        ("Id subasta:"@, property.auction_id@),
        ("Ciudad:"@, property.city@),
        ("Provincia:"@, province_display(property.province)),
        ("Dirección:"@, property.address@),
        ("Descripción:"@, property.description@),
        ("Valor subasta:"@, shown_amount(bidinfo.value)),
        ("Cantidad reclamada:"@, shown_amount(bidinfo.claim_quantity)),
        ("Valor tasación:"@, shown_amount(bidinfo.appraisal)),
    ]
}

/// An amount followed by ` €`.
fn amount_text(a: &Amount) -> (r: String)
    ensures
        r@ == shown_amount(*a),
{
    let mut t = format_valuation(a);
    t.append(" €");
    t
}

/// A row of the detail page.
fn row(label: &str, text: String) -> (r: (String, String))
    ensures
        r.0@ == label@,
        r.1@ == text@,
{
    (owned(label), text)
}

/// The rows of the detail page of a property (see `detail_rows`), with the
/// bid information shown for it (see `get_bidinfo`), and the address its
/// auction identifier links to.
pub fn property_details(property: &Property, bidinfo: &BidInfo) -> (r: (Vec<(String, String)>, String))
    ensures
        r.0@.map_values(|x: (String, String)| (x.0@, x.1@)) == detail_rows(*property, *bidinfo),
        r.1@ == crate::listing::SUBASTAS_BOE_URI@ + property.auction_id@,
{
    let mut rows: Vec<(String, String)> = Vec::new();
    rows.push(row("Id subasta:", owned(property.auction_id.as_str())));
    rows.push(row("Ciudad:", owned(property.city.as_str())));
    rows.push(row("Provincia:", owned(property.province.name())));
    rows.push(row("Dirección:", owned(property.address.as_str())));
    rows.push(row("Descripción:", owned(property.description.as_str())));
    rows.push(row("Valor subasta:", amount_text(&bidinfo.value)));
    rows.push(row("Cantidad reclamada:", amount_text(&bidinfo.claim_quantity)));
    rows.push(row("Valor tasación:", amount_text(&bidinfo.appraisal)));
    assert(rows@.map_values(|x: (String, String)| (x.0@, x.1@)) =~= detail_rows(
        *property,
        *bidinfo,
    ));
    (rows, get_external_url(property.auction_id.as_str()))
}

/// The description as a row of the properties table shows it: its first
/// `DESCRIPTION_TEXT_LIMIT` characters, and ` ...` where its UTF-8 encoding
/// is longer than that many bytes.
pub open spec fn short_description(d: Seq<char>) -> Seq<char> {
    d.subrange(0, if d.len() < DESCRIPTION_TEXT_LIMIT { d.len() as int } else { DESCRIPTION_TEXT_LIMIT as int })
        + if (vstd::utf8::encode_utf8(d).len() as usize) > DESCRIPTION_TEXT_LIMIT { " ..."@ } else { ""@ }
}

/// The texts of a property's row in the properties table: its province, its
/// city, its description shortened (see `short_description`) and its value
/// (see `shown_amount`).
pub fn compact_row(property: &Property, bidinfo: &BidInfo) -> (r: (String, String, String, String))
    ensures
        r.0@ == province_display(property.province),
        r.1@ == property.city@,
        r.2@ == short_description(property.description@),
        r.3@ == shown_amount(bidinfo.value),
{
    let d = property.description.as_str();
    let mut description = owned(summarize(d));
    if d.len() > DESCRIPTION_TEXT_LIMIT {
        description.append(" ...");
    } else {
        description.append("");
    }
    (
        owned(property.province.name()),
        owned(property.city.as_str()),
        description,
        amount_text(&bidinfo.value),
    )
}

/// The province chosen in the province selector of the properties page:
/// `All` for the first option, else the province at that position (after
/// the first) of `provinces`.
pub fn get_province(provinces: &Vec<Province>, selected_index: usize) -> (r: Province)
    requires
        selected_index <= provinces@.len(),
    ensures
        selected_index == 0 ==> r == Province::All,
        selected_index > 0 ==> r == provinces@[selected_index - 1],
{
    if selected_index == 0 {
        Province::All
    } else {
        provinces[selected_index - 1]
    }
}

// ---------------------------------------------------------------------------
// The properties route
// ---------------------------------------------------------------------------

/// Number of assets listed per page.
pub const ITEMS_PER_PAGE: usize = 100;

/// What the properties route keeps: the page shown and the province and
/// city selected (the empty option selects every city).
#[derive(Debug, Clone, PartialEq, Eq)]
pub struct PropertyListState {
    /// The page shown, from 0.
    pub current_page: usize,
    /// The province selected.
    pub province: Province,
    /// The city selected.
    pub city: String,
}

/// What happens on the properties route.
#[derive(Debug, Clone, PartialEq, Eq)]
pub enum PropertyListMessage {
    /// A province was selected.
    SelectProvince(Province),
    /// A city was selected.
    SelectCity(String),
    /// Another page was chosen.
    PaginationChanged(usize),
}

impl PropertyListState {
    /// The state at start: the first page, every province and every city.
    pub fn create() -> (r: PropertyListState)
        ensures
            r.current_page == 0,
            r.province == Province::All,
            r.city@ == crate::catalog::BLANK_OPTION@,
    {
        PropertyListState {
            current_page: 0,
            province: Province::All,
            city: owned(crate::catalog::BLANK_OPTION),
        }
    }

    /// Handles `message`: a new province or city selection goes back to the
    /// first page; the route renders again in every case.
    pub fn update(&mut self, message: PropertyListMessage) -> (r: bool)
        ensures
            r,
            match message {
                PropertyListMessage::SelectProvince(p) => final(self).province == p
                    && final(self).current_page == 0 && final(self).city@ == old(self).city@,
                PropertyListMessage::SelectCity(c) => final(self).city@ == c@
                    && final(self).current_page == 0 && final(self).province == old(self).province,
                PropertyListMessage::PaginationChanged(n) => final(self).current_page == n
                    && final(self).province == old(self).province && final(self).city@ == old(
                    self,
                ).city@,
            },
    {
        match message {
            PropertyListMessage::SelectProvince(p) => {
                self.province = p;
                self.current_page = 0;
            },
            PropertyListMessage::SelectCity(c) => {
                self.city = c;
                self.current_page = 0;
            },
            PropertyListMessage::PaginationChanged(n) => {
                self.current_page = n;
            },
        }
        true
    }
}

/// The positions, among the `items_count` assets listed, of those shown on
/// page `current_page`: from `current_page * ITEMS_PER_PAGE` up to
/// `ITEMS_PER_PAGE` more, and no further than the last.
pub fn page_window(current_page: usize, items_count: usize) -> (r: (usize, usize))
    requires
        current_page * ITEMS_PER_PAGE + ITEMS_PER_PAGE <= usize::MAX,
    ensures
        r.0 == current_page * ITEMS_PER_PAGE,
        r.1 == if r.0 + ITEMS_PER_PAGE < items_count {
            r.0 + ITEMS_PER_PAGE
        } else {
            items_count as int
        },
{
    let first = current_page * ITEMS_PER_PAGE;
    let last = if first + ITEMS_PER_PAGE < items_count {
        first + ITEMS_PER_PAGE
    } else {
        items_count
    };
    (first, last)
}

/// Whether an asset is listed on the vehicles route: only vehicles are.
pub fn is_vehicle(asset: &Asset) -> (r: bool)
    ensures
        r == asset is Vehicle,
{
    match asset {
        Asset::Property(_) => false,
        Asset::Vehicle(_) => true,
        Asset::Other(_) => false,
    }
}

// ---------------------------------------------------------------------------
// The asset cards
// ---------------------------------------------------------------------------

/// The key code of the escape key.
pub const ESCAPE_KEY_CODE: u32 = 27;

/// No detail window open.
pub const NO_MODAL: usize = usize::MAX;

/// What happens to an asset card's detail window.
#[derive(Debug, Clone, Copy, PartialEq, Eq, Structural)]
pub enum ModalMessage {
    /// The close button was pressed.
    CloseModal,
    /// A key with this code was pressed.
    CloseModalByKb(u32),
    /// The detail window of the card at this position was asked for.
    OpenModal(usize),
}

/// Handles `message` on the detail window open (`NO_MODAL` for none):
/// gives the window open afterwards and the page's `overflow` style to
/// set, if any (`auto` on closing, `hidden` on opening); a key other than
/// escape changes nothing.
pub fn modal_update(current: usize, message: ModalMessage) -> (r: (usize, Option<&'static str>))
    ensures
        match message {
            ModalMessage::CloseModal => r.0 == NO_MODAL && (r.1 matches Some(s) && s@ == "auto"@),
            ModalMessage::CloseModalByKb(k) => if k == ESCAPE_KEY_CODE {
                r.0 == NO_MODAL && (r.1 matches Some(s) && s@ == "auto"@)
            } else {
                r.0 == current && r.1 is None
            },
            ModalMessage::OpenModal(i) => r.0 == i && (r.1 matches Some(s) && s@ == "hidden"@),
        },
{
    match message {
        ModalMessage::CloseModal => (NO_MODAL, Some("auto")),
        ModalMessage::CloseModalByKb(k) => {
            if k == ESCAPE_KEY_CODE {
                (NO_MODAL, Some("auto"))
            } else {
                (current, None)
            }
        },
        ModalMessage::OpenModal(i) => (i, Some("hidden")),
    }
}

// ---------------------------------------------------------------------------
// The expanded rows of the asset tables
// ---------------------------------------------------------------------------

/// A text that ends with a full stop: `d` where it already does, else `d`
/// followed by one.
pub open spec fn full_stop(d: Seq<char>) -> Seq<char> {
    if d.len() > 0 && d.last() == '.' {
        d
    } else {
        d + "."@
    }
}

/// An amount as an expanded row shows it: as the detail page shows it,
/// then a full stop.
pub open spec fn row_amount(a: Amount) -> Seq<char> {
    shown_amount(a) + "."@
}

/// An expanded row through its views: label, text and, where the text is a
/// link, its address.
pub open spec fn item_view(x: (String, String, Option<String>)) -> (Seq<char>, Seq<char>, Option<Seq<char>>) {
    (
        x.0@,
        x.1@,
        match x.2 {
            Some(l) => Some(l@),
            None => None,
        },
    )
}

/// The items of the expanded row of a property in the properties table:
/// the auction identifier linking to the BOE; the cadastre reference,
/// linking to `catastro_link` where there is one, or as plain text where
/// the reference is valid (`reference_valid`), else left out; then city,
/// province, description (ended by a full stop) and the three amounts.
pub open spec fn property_view_items(
    property: Property,
    bidinfo: BidInfo,
    catastro_link: Option<Seq<char>>,
    reference_valid: bool,
) -> Seq<(Seq<char>, Seq<char>, Option<Seq<char>>)> {
    seq![(
        "Identificador subasta: "@,
        property.auction_id@,
        Some(crate::listing::SUBASTAS_BOE_URI@ + property.auction_id@),
    )] + match catastro_link {
        Some(l) => seq![("Referencia catastral: "@, property.catastro_reference@, Some(l))],
        None => if reference_valid {
            seq![("Referencia catastral: "@, property.catastro_reference@, None::<Seq<char>>)]
        } else {
            Seq::empty()
        },
    } + seq![
        ("Ciudad: "@, property.city@ + "."@, None::<Seq<char>>),
        ("Provincia: "@, province_display(property.province) + "."@, None::<Seq<char>>),
        ("Descripción: "@, full_stop(property.description@), None::<Seq<char>>),
        ("Valor subasta: "@, row_amount(bidinfo.value), None::<Seq<char>>),
        ("Cantidad reclamada: "@, row_amount(bidinfo.claim_quantity), None::<Seq<char>>),
        ("Valor tasación: "@, row_amount(bidinfo.appraisal), None::<Seq<char>>),
    ]
}

/// The bid step as an expanded row shows it: the amount where it is
/// positive, else `Sin tramos`; then a full stop.
pub open spec fn bid_step_text(a: Amount) -> Seq<char> {
    if a.mantissa > 0 {
        row_amount(a)
    } else {
        "Sin tramos."@
    }
}

/// The items of the expanded row of a vehicle in the vehicles table: the
/// auction identifier linking to the BOE; brand and model; description
/// (ended by a full stop); the three amounts and the bid step.
pub open spec fn vehicle_view_items(vehicle: Vehicle, bidinfo: BidInfo) -> Seq<
    (Seq<char>, Seq<char>, Option<Seq<char>>),
> {
    seq![
        (
            "Identificador subasta: "@,
            vehicle.auction_id@,
            Some(crate::listing::SUBASTAS_BOE_URI@ + vehicle.auction_id@),
        ),
        ("Marca y modelo: "@, vehicle.brand@ + " "@ + vehicle.model@ + "."@, None::<Seq<char>>),
        ("Descripción: "@, full_stop(vehicle.description@), None::<Seq<char>>),
        ("Valor subasta: "@, row_amount(bidinfo.value), None::<Seq<char>>),
        ("Cantidad reclamada: "@, row_amount(bidinfo.claim_quantity), None::<Seq<char>>),
        ("Valor tasación: "@, row_amount(bidinfo.appraisal), None::<Seq<char>>),
        ("Tramos entre pujas: "@, bid_step_text(bidinfo.bid_step), None::<Seq<char>>),
    ]
}

/// `d` ended by a full stop, see `full_stop`.
fn with_full_stop(d: &str) -> (r: String)
    ensures
        r@ == full_stop(d@),
{
    let chars = chars_of(d);
    let mut t = owned(d);
    if chars.len() > 0 && chars[chars.len() - 1] == '.' {
        t
    } else {
        t.append(".");
        t
    }
}

/// `d` followed by a full stop.
fn stopped(d: &str) -> (r: String)
    ensures
        r@ == d@ + "."@,
{
    let mut t = owned(d);
    t.append(".");
    t
}

/// An amount as an expanded row shows it, see `row_amount`.
fn row_amount_text(a: &Amount) -> (r: String)
    ensures
        r@ == row_amount(*a),
{
    let mut t = amount_text(a);
    t.append(".");
    t
}

/// An expanded row item.
fn item(label: &str, text: String, link: Option<String>) -> (r: (String, String, Option<String>))
    ensures
        item_view(r) == (label@, text@, match link {
            Some(l) => Some(l@),
            None => None::<Seq<char>>,
        }),
{
    (owned(label), text, link)
}

/// The items of the expanded row of a property, see `property_view_items`:
/// `catastro_link` is the cadastre's page of its reference, where one was
/// found, and `reference_valid` whether its reference is a valid cadastre
/// reference.
pub fn property_view_rows(
    property: &Property,
    bidinfo: &BidInfo,
    catastro_link: Option<String>,
    reference_valid: bool,
) -> (r: Vec<(String, String, Option<String>)>)
    ensures
        r@.map_values(|x: (String, String, Option<String>)| item_view(x)) == property_view_items(
            *property,
            *bidinfo,
            match catastro_link {
                Some(l) => Some(l@),
                None => None,
            },
            reference_valid,
        ),
{
    let ghost link_view = match &catastro_link {
        Some(l) => Some(l@),
        None => None::<Seq<char>>,
    };
    let mut rows: Vec<(String, String, Option<String>)> = Vec::new();
    rows.push(
        item(
            "Identificador subasta: ",
            owned(property.auction_id.as_str()),
            Some(get_external_url(property.auction_id.as_str())),
        ),
    );
    match catastro_link {
        Some(l) => {
            rows.push(
                item("Referencia catastral: ", owned(property.catastro_reference.as_str()), Some(l)),
            );
        },
        None => {
            if reference_valid {
                rows.push(
                    item("Referencia catastral: ", owned(property.catastro_reference.as_str()), None),
                );
            }
        },
    }
    rows.push(item("Ciudad: ", stopped(property.city.as_str()), None));
    rows.push(item("Provincia: ", stopped(property.province.name()), None));
    rows.push(item("Descripción: ", with_full_stop(property.description.as_str()), None));
    rows.push(item("Valor subasta: ", row_amount_text(&bidinfo.value), None));
    rows.push(item("Cantidad reclamada: ", row_amount_text(&bidinfo.claim_quantity), None));
    rows.push(item("Valor tasación: ", row_amount_text(&bidinfo.appraisal), None));
    assert(rows@.map_values(|x: (String, String, Option<String>)| item_view(x)) =~= property_view_items(
        *property,
        *bidinfo,
        link_view,
        reference_valid,
    ));
    rows
}

/// The items of the expanded row of a vehicle, see `vehicle_view_items`.
pub fn vehicle_view_rows(vehicle: &Vehicle, bidinfo: &BidInfo) -> (r: Vec<(String, String, Option<String>)>)
    ensures
        r@.map_values(|x: (String, String, Option<String>)| item_view(x)) == vehicle_view_items(
            *vehicle,
            *bidinfo,
        ),
{
    let mut rows: Vec<(String, String, Option<String>)> = Vec::new();
    rows.push(
        item(
            "Identificador subasta: ",
            owned(vehicle.auction_id.as_str()),
            Some(get_external_url(vehicle.auction_id.as_str())),
        ),
    );
    let mut brand_model = owned(vehicle.brand.as_str());
    brand_model.append(" ");
    brand_model.append(vehicle.model.as_str());
    brand_model.append(".");
    rows.push(item("Marca y modelo: ", brand_model, None));
    rows.push(item("Descripción: ", with_full_stop(vehicle.description.as_str()), None));
    rows.push(item("Valor subasta: ", row_amount_text(&bidinfo.value), None));
    rows.push(item("Cantidad reclamada: ", row_amount_text(&bidinfo.claim_quantity), None));
    rows.push(item("Valor tasación: ", row_amount_text(&bidinfo.appraisal), None));
    let step = if bidinfo.bid_step.mantissa > 0 {
        row_amount_text(&bidinfo.bid_step)
    } else {
        owned("Sin tramos.")
    };
    rows.push(item("Tramos entre pujas: ", step, None));
    assert(rows@.map_values(|x: (String, String, Option<String>)| item_view(x)) =~= vehicle_view_items(
        *vehicle,
        *bidinfo,
    ));
    rows
}

// ---------------------------------------------------------------------------
// Which amount each row shows
// ---------------------------------------------------------------------------

/// Whether the rows `r` show, at positions `iv`, `ic` and `ia`, the auction
/// value, the claimed quantity and the appraisal of `b`, each under its own
/// label, as `row_amount` writes an amount.
pub open spec fn amount_rows_of<T>(
    r: Seq<(Seq<char>, Seq<char>, T)>,
    b: BidInfo,
    iv: int,
    ic: int,
    ia: int,
) -> bool {
    &&& 0 <= iv < r.len() && 0 <= ic < r.len() && 0 <= ia < r.len()
    &&& r[iv].0 == "Valor subasta: "@ && r[iv].1 == row_amount(b.value)
    &&& r[ic].0 == "Cantidad reclamada: "@ && r[ic].1 == row_amount(b.claim_quantity)
    &&& r[ia].0 == "Valor tasación: "@ && r[ia].1 == row_amount(b.appraisal)
}

/// Each amount row of a property's detail page shows its own field of the
/// bid information: the row `Valor subasta:` the auction value, `Cantidad
/// reclamada:` the claimed quantity and `Valor tasación:` the appraisal.
/// Changing one of those amounts changes no other amount row, and the
/// appraisal row shows the appraisal as the value row would show it.
pub proof fn lemma_detail_amount_rows(property: Property, b: BidInfo, v: Amount)
    ensures
        detail_rows(property, b)[5] == ("Valor subasta:"@, shown_amount(b.value)),
        detail_rows(property, b)[6] == ("Cantidad reclamada:"@, shown_amount(b.claim_quantity)),
        detail_rows(property, b)[7] == ("Valor tasación:"@, shown_amount(b.appraisal)),
        detail_rows(property, BidInfo { value: v, ..b })[6] == detail_rows(property, b)[6],
        detail_rows(property, BidInfo { value: v, ..b })[7] == detail_rows(property, b)[7],
        detail_rows(property, BidInfo { claim_quantity: v, ..b })[5] == detail_rows(property, b)[5],
        detail_rows(property, BidInfo { claim_quantity: v, ..b })[7] == detail_rows(property, b)[7],
        detail_rows(property, BidInfo { appraisal: v, ..b })[5] == detail_rows(property, b)[5],
        detail_rows(property, BidInfo { appraisal: v, ..b })[6] == detail_rows(property, b)[6],
        detail_rows(property, b)[7].1 == detail_rows(property, BidInfo { value: b.appraisal, ..b })[5].1,
        detail_rows(property, b)[6].1 == detail_rows(property, BidInfo { value: b.claim_quantity, ..b })[5].1,
{
}

/// Each amount of a property's expanded row shows its own field of the bid
/// information, under its own label, after the identifier, the cadastre
/// reference (where shown), city, province and description; changing one
/// amount changes no other row.
pub proof fn lemma_property_view_amounts(
    property: Property,
    b: BidInfo,
    link: Option<Seq<char>>,
    valid: bool,
    v: Amount,
)
    ensures
        ({
            let r = property_view_items(property, b, link, valid);
            let c: int = if link is Some || valid { 1 } else { 0 };
            &&& r.len() == 7 + c
            &&& amount_rows_of(r, b, 4 + c, 5 + c, 6 + c)
            &&& forall|i: int| 0 <= i < r.len() && i != 4 + c ==> #[trigger] property_view_items(
                property,
                BidInfo { value: v, ..b },
                link,
                valid,
            )[i] == r[i]
            &&& forall|i: int| 0 <= i < r.len() && i != 6 + c ==> #[trigger] property_view_items(
                property,
                BidInfo { appraisal: v, ..b },
                link,
                valid,
            )[i] == r[i]
            &&& forall|i: int| 0 <= i < r.len() && i != 5 + c ==> #[trigger] property_view_items(
                property,
                BidInfo { claim_quantity: v, ..b },
                link,
                valid,
            )[i] == r[i]
        }),
{
}

/// Each amount of a vehicle's expanded row shows its own field of the bid
/// information, under its own label, and the last row its bid step;
/// changing one amount changes no other row.
pub proof fn lemma_vehicle_view_amounts(vehicle: Vehicle, b: BidInfo, v: Amount)
    ensures
        ({
            let r = vehicle_view_items(vehicle, b);
            &&& r.len() == 7
            &&& amount_rows_of(r, b, 3, 4, 5)
            &&& r[6] == ("Tramos entre pujas: "@, bid_step_text(b.bid_step), None::<Seq<char>>)
            &&& forall|i: int| 0 <= i < 7 && i != 3 ==> #[trigger] vehicle_view_items(
                vehicle,
                BidInfo { value: v, ..b },
            )[i] == r[i]
            &&& forall|i: int| 0 <= i < 7 && i != 5 ==> #[trigger] vehicle_view_items(
                vehicle,
                BidInfo { appraisal: v, ..b },
            )[i] == r[i]
            &&& forall|i: int| 0 <= i < 7 && i != 4 ==> #[trigger] vehicle_view_items(
                vehicle,
                BidInfo { claim_quantity: v, ..b },
            )[i] == r[i]
            &&& forall|i: int| 0 <= i < 6 ==> #[trigger] vehicle_view_items(
                vehicle,
                BidInfo { bid_step: v, ..b },
            )[i] == r[i]
        }),
{
}

} // verus!
