//! The auction, management and asset records built from the concept tables
//! of the BOE pages.

use vstd::prelude::*;
use crate::categories::{
    other_category_for_key, property_category_for_key, vehicle_category_for_key, OtherCategory,
    PropertyCategory, VehicleCategory,
};
use crate::concepts::BoeConcept;
use crate::dates::{default_date, default_date_exec, parse_date, parsed_date, Date};
use crate::provinces::{province_for_key, Province};
use crate::table::ConceptTable;
use crate::text::{
    chars_of, find, find_from_exec, lemma_find_from, owned, parse_i64, parse_i64_spec, replace,
    replace_all, str_eq, string_of, string_of_range, trim, trimmed, lookup_key, parse_u32,
    parse_u32_spec, find_char_from, find_from, occurs_at, lemma_find_char_at, lemma_find_char_none,
};

verus! {

/// Number of decimals of every amount read from a page.
pub const DEFAULT_DECIMALS: u32 = 2;

/// Text of a field that the page does not give.
pub const NOT_APPLICABLE: &'static str = "NA";

/// A fixed-point amount: `mantissa` divided by ten to the power `scale`.
#[derive(Debug, Clone, Copy, PartialEq, Eq, Structural, Hash)]
pub struct Amount {
    /// The digits of the amount.
    pub mantissa: i64,
    /// Number of decimal digits.
    pub scale: u32,
}

// ---------------------------------------------------------------------------
// Reading one field
// ---------------------------------------------------------------------------

/// The text of `field`, or `default` where the table has none.
pub open spec fn text_or(data: Map<BoeConcept, Seq<char>>, field: BoeConcept, default: Seq<char>) -> Seq<
    char,
> {
    if data.contains_key(field) {
        data[field]
    } else {
        default
    }
}

/// The text of `field`, or `default` where the table has none.
pub fn get_text_or(data: &ConceptTable, field: BoeConcept, default: &str) -> (r: String)
    ensures
        r@ == text_or(data@, field, default@),
{
    match data.get(field) {
        Some(s) => s.clone(),
        None => owned(default),
    }
}

/// The part of `t` before its first space, or all of `t` without one.
pub open spec fn before_space(t: Seq<char>) -> Seq<char> {
    match find(t, " "@) {
        Some(i) => t.subrange(0, i),
        None => t,
    }
}

/// `before_space` of `t`.
fn before_space_exec(t: &str) -> (r: String)
    ensures
        r@ == before_space(t@),
{
    let v = chars_of(t);
    let sp = chars_of(" ");
    match find_from_exec(&v, &sp, 0) {
        Some(i) => {
            proof {
                lemma_find_from(v@, sp@, 0);
            }
            string_of_range(&v, 0, i)
        },
        None => string_of(&v),
    }
}

/// Text of a description: a space after every comma and period, double
/// spaces made single, and no surrounding whitespace.
pub open spec fn clean_text(t: Seq<char>) -> Seq<char> {
    trim(replace_all(replace_all(replace_all(t, ","@, ", "@), "."@, ". "@), "  "@, " "@))
}

/// The cleaned text of `field` (see `clean_text`), or `NA`.
pub open spec fn clean_text_or_na(data: Map<BoeConcept, Seq<char>>, field: BoeConcept) -> Seq<
    char,
> {
    if data.contains_key(field) {
        clean_text(data[field])
    } else {
        NOT_APPLICABLE@
    }
}

/// The cleaned text of `field`, or `NA` where the table has none.
pub fn get_clean_text(data: &ConceptTable, field: &BoeConcept) -> (r: String)
    ensures
        r@ == clean_text_or_na(data@, *field),
{
    match data.get(*field) {
        Some(s) => {
            proof {
                reveal_strlit(",");
                reveal_strlit(".");
                reveal_strlit("  ");
            }
            let a = replace(s.as_str(), ",", ", ");
            let b = replace(a.as_str(), ".", ". ");
            let c = replace(b.as_str(), "  ", " ");
            trimmed(c.as_str())
        },
        None => owned(NOT_APPLICABLE),
    }
}

/// The date that the text `t` of a start or end date gives: its part before
/// the first space read as `day-month-year`.
pub open spec fn auction_date_of_text(t: Seq<char>) -> Option<Date> {
    parsed_date(before_space(t), "%d-%m-%Y"@)
}

/// Whether `field` is absent or holds a text that reads as a date.
pub open spec fn auction_date_readable(data: Map<BoeConcept, Seq<char>>, field: BoeConcept) -> bool {
    data.contains_key(field) ==> auction_date_of_text(data[field]) is Some
}

/// The date of `field`, or 2000-01-01 where the table has none.
pub open spec fn auction_date(data: Map<BoeConcept, Seq<char>>, field: BoeConcept) -> Date {
    if data.contains_key(field) {
        auction_date_of_text(data[field])->0
    } else {
        default_date()
    }
}

/// The date of a start or end field, read as `day-month-year` from the text
/// before its first space; 2000-01-01 where the table has no such field.
pub fn get_date(data: &ConceptTable, field: &BoeConcept) -> (r: Date)
    requires
        auction_date_readable(data@, *field),
    ensures
        r == auction_date(data@, *field),
{
    match data.get(*field) {
        Some(s) => {
            let prefix = before_space_exec(s.as_str());
            match parse_date(prefix.as_str(), "%d-%m-%Y") {
                Some(d) => d,
                None => default_date_exec(),
            }
        },
        None => default_date_exec(),
    }
}

/// The date that the text `t` of a vehicle's licensed date gives: with `/`
/// read as `-`, first as `year-month-day`, then as `day-month-year`, and
/// 2000-01-01 where neither reads.
pub open spec fn vehicle_date_of_text(t: Seq<char>) -> Date {
    let u = replace_all(t, "/"@, "-"@);
    match parsed_date(u, "%Y-%m-%d"@) {
        Some(d) => d,
        None => match parsed_date(u, "%d-%m-%Y"@) {
            Some(d) => d,
            None => default_date(),
        },
    }
}

/// The vehicle date of `field`, or 2000-01-01.
pub open spec fn vehicle_date(data: Map<BoeConcept, Seq<char>>, field: BoeConcept) -> Date {
    if data.contains_key(field) {
        vehicle_date_of_text(data[field])
    } else {
        default_date()
    }
}

/// The date of a vehicle field, see `vehicle_date_of_text`.
pub fn get_vehicle_date(data: &ConceptTable, field: &BoeConcept) -> (r: Date)
    ensures
        r == vehicle_date(data@, *field),
{
    match data.get(*field) {
        Some(s) => {
            proof {
                reveal_strlit("/");
            }
            let u = replace(s.as_str(), "/", "-");
            match parse_date(u.as_str(), "%Y-%m-%d") {
                Some(d) => d,
                None => match parse_date(u.as_str(), "%d-%m-%Y") {
                    Some(d) => d,
                    None => default_date_exec(),
                },
            }
        },
        None => default_date_exec(),
    }
}

/// The digits of an amount text `t`: its part before the first space,
/// without `.` and `,`.
pub open spec fn amount_digits(t: Seq<char>) -> Seq<char> {
    replace_all(replace_all(before_space(t), "."@, ""@), ","@, ""@)
}

/// The amount that the text `t` gives: its digits (see `amount_digits`)
/// read as an integer number of hundredths, 0 where they do not read as an
/// `i64`.
pub open spec fn amount_of_text(t: Seq<char>) -> Amount {
    Amount {
        mantissa: match parse_i64_spec(amount_digits(t)) {
            Some(n) => n,
            None => 0,
        },
        scale: DEFAULT_DECIMALS,
    }
}

/// The amount of `field`, or zero.
pub open spec fn amount(data: Map<BoeConcept, Seq<char>>, field: BoeConcept) -> Amount {
    if data.contains_key(field) {
        amount_of_text(data[field])
    } else {
        Amount { mantissa: 0, scale: DEFAULT_DECIMALS }
    }
}

/// The amount of `field`, see `amount_of_text`; zero where the table has
/// none.
pub fn get_decimal(data: &ConceptTable, field: &BoeConcept) -> (r: Amount)
    ensures
        r == amount(data@, *field),
{
    match data.get(*field) {
        Some(s) => {
            proof {
                reveal_strlit(".");
                reveal_strlit(",");
            }
            let prefix = before_space_exec(s.as_str());
            let a = replace(prefix.as_str(), ".", "");
            let b = replace(a.as_str(), ",", "");
            let mantissa = match parse_i64(b.as_str()) {
                Some(n) => n,
                None => 0,
            };
            Amount { mantissa, scale: DEFAULT_DECIMALS }
        },
        None => Amount { mantissa: 0, scale: DEFAULT_DECIMALS },
    }
}

// ---------------------------------------------------------------------------
// Kinds and states
// ---------------------------------------------------------------------------

/// All posible kind of auctions.
#[derive(Debug, Clone, Copy, PartialEq, Eq, Structural, Hash)]
pub enum AuctionKind {
    /// Tax agency auction
    TaxAgency,
    /// Tax collection auction
    TaxCollection,
    /// Notary voluntary
    NotaryVoluntary,
    /// Judicial voluntary
    JudicialVoluntary,
    /// Judicial under pressure
    JudicialUnderPressure,
    /// Bankruptcy
    Bankruptcy,
    /// Notary extra judicial sell
    NotaryExtraJudicial,
    /// Unkown
    Unkown,
}

/// The kind of auction that the text `t` names.
pub open spec fn auction_kind_of_text(t: Seq<char>) -> AuctionKind {
    if t == "AGENCIA TRIBUTARIA"@ {
        AuctionKind::TaxAgency
    } else if t == "RECAUDACIÓN TRIBUTARIA"@ {
        AuctionKind::TaxCollection
    } else if t == "NOTARIAL VOLUNTARIA"@ {
        AuctionKind::NotaryVoluntary
    } else if t == "JUDICIAL VOLUNTARIA"@ {
        AuctionKind::JudicialVoluntary
    } else if t == "JUDICIAL EN VIA DE APREMIO"@ {
        AuctionKind::JudicialUnderPressure
    } else if t == "JUDICIAL CONCURSAL"@ {
        AuctionKind::Bankruptcy
    } else if t == "NOTARIAL EN VENTA EXTRAJUDICIAL"@ {
        AuctionKind::NotaryExtraJudicial
    } else {
        AuctionKind::Unkown
    }
}

/// The kind of auction of a page's table.
pub open spec fn auction_kind(data: Map<BoeConcept, Seq<char>>) -> AuctionKind {
    if data.contains_key(BoeConcept::AuctionKind) {
        auction_kind_of_text(data[BoeConcept::AuctionKind])
    } else {
        AuctionKind::Unkown
    }
}

/// The kind of auction that the table names, `Unkown` where none.
pub fn get_auction_kind(data: &ConceptTable) -> (r: AuctionKind)
    ensures
        r == auction_kind(data@),
{
    match data.get(BoeConcept::AuctionKind) {
        Some(s) => {
            let t = s.as_str();
            if str_eq(t, "AGENCIA TRIBUTARIA") {
                AuctionKind::TaxAgency
            } else if str_eq(t, "RECAUDACIÓN TRIBUTARIA") {
                AuctionKind::TaxCollection
            } else if str_eq(t, "NOTARIAL VOLUNTARIA") {
                AuctionKind::NotaryVoluntary
            } else if str_eq(t, "JUDICIAL VOLUNTARIA") {
                AuctionKind::JudicialVoluntary
            } else if str_eq(t, "JUDICIAL EN VIA DE APREMIO") {
                AuctionKind::JudicialUnderPressure
            } else if str_eq(t, "JUDICIAL CONCURSAL") {
                AuctionKind::Bankruptcy
            } else if str_eq(t, "NOTARIAL EN VENTA EXTRAJUDICIAL") {
                AuctionKind::NotaryExtraJudicial
            } else {
                AuctionKind::Unkown
            }
        },
        None => AuctionKind::Unkown,
    }
}

/// Type of auction kind when it contains lots
#[derive(Debug, Clone, Copy, PartialEq, Eq, Structural, Hash)]
pub enum LotAuctionKind {
    /// Auction without lots
    NotApplicable,
    /// Joined lots in auction
    Joined,
    /// Splitted lots in auction
    Splitted,
}

/// The lot kind of a page's table.
pub open spec fn lot_auction_kind(data: Map<BoeConcept, Seq<char>>) -> LotAuctionKind {
    if data.contains_key(BoeConcept::LotAuctionKind) {
        let t = data[BoeConcept::LotAuctionKind];
        if t == "CONJUNTA PARA TODOS LOS LOTES"@ {
            LotAuctionKind::Joined
        } else if t == "SEPARADA PARA CADA LOTE"@ {
            LotAuctionKind::Splitted
        } else {
            LotAuctionKind::NotApplicable
        }
    } else {
        LotAuctionKind::NotApplicable
    }
}

/// How the lots of the auction are awarded, `NotApplicable` where the table
/// does not say.
pub fn get_lot_auction_kind(data: &ConceptTable) -> (r: LotAuctionKind)
    ensures
        r == lot_auction_kind(data@),
{
    match data.get(BoeConcept::LotAuctionKind) {
        Some(s) => {
            let t = s.as_str();
            if str_eq(t, "CONJUNTA PARA TODOS LOS LOTES") {
                LotAuctionKind::Joined
            } else if str_eq(t, "SEPARADA PARA CADA LOTE") {
                LotAuctionKind::Splitted
            } else {
                LotAuctionKind::NotApplicable
            }
        },
        None => LotAuctionKind::NotApplicable,
    }
}

/// The text under which the BOE names each kind of auction; `Unkown` is
/// named by none.
pub open spec fn auction_kind_name(k: AuctionKind) -> Option<Seq<char>> {
    match k {
        AuctionKind::TaxAgency => Some("AGENCIA TRIBUTARIA"@),
        AuctionKind::TaxCollection => Some("RECAUDACIÓN TRIBUTARIA"@),
        AuctionKind::NotaryVoluntary => Some("NOTARIAL VOLUNTARIA"@),
        AuctionKind::JudicialVoluntary => Some("JUDICIAL VOLUNTARIA"@),
        AuctionKind::JudicialUnderPressure => Some("JUDICIAL EN VIA DE APREMIO"@),
        AuctionKind::Bankruptcy => Some("JUDICIAL CONCURSAL"@),
        AuctionKind::NotaryExtraJudicial => Some("NOTARIAL EN VENTA EXTRAJUDICIAL"@),
        AuctionKind::Unkown => None,
    }
}

/// Each kind of auction is read back from its BOE text: a table whose
/// auction kind is the text naming `k` gives `k`; distinct kinds have
/// distinct texts; and a table gives `Unkown` only where its auction kind is
/// missing or names no kind.
pub proof fn lemma_auction_kind_names(k: AuctionKind, j: AuctionKind, data: Map<BoeConcept, Seq<char>>)
    ensures
        auction_kind_name(k) matches Some(t) ==> (data.contains_key(BoeConcept::AuctionKind)
            && data[BoeConcept::AuctionKind] == t ==> auction_kind(data) == k),
        k != j && auction_kind_name(k) is Some ==> auction_kind_name(j) != auction_kind_name(k),
        auction_kind(data) == AuctionKind::Unkown ==> !data.contains_key(BoeConcept::AuctionKind)
            || auction_kind_name(k) != Some(data[BoeConcept::AuctionKind]),
{
    reveal_strlit("AGENCIA TRIBUTARIA");
    reveal_strlit("RECAUDACIÓN TRIBUTARIA");
    reveal_strlit("NOTARIAL VOLUNTARIA");
    reveal_strlit("JUDICIAL VOLUNTARIA");
    reveal_strlit("JUDICIAL EN VIA DE APREMIO");
    reveal_strlit("JUDICIAL CONCURSAL");
    reveal_strlit("NOTARIAL EN VENTA EXTRAJUDICIAL");
    assert("AGENCIA TRIBUTARIA"@.len() == 18);
    assert("RECAUDACIÓN TRIBUTARIA"@.len() == 22);
    assert("NOTARIAL VOLUNTARIA"@.len() == 19);
    assert("JUDICIAL VOLUNTARIA"@.len() == 19);
    assert("JUDICIAL EN VIA DE APREMIO"@.len() == 26);
    assert("JUDICIAL CONCURSAL"@.len() == 18);
    assert("NOTARIAL EN VENTA EXTRAJUDICIAL"@.len() == 31);
    assert("AGENCIA TRIBUTARIA"@[0] != "JUDICIAL CONCURSAL"@[0]);
    assert("NOTARIAL VOLUNTARIA"@[0] != "JUDICIAL VOLUNTARIA"@[0]);
}

/// The text under which the BOE names each way of awarding lots;
/// `NotApplicable` is named by none.
pub open spec fn lot_auction_kind_name(k: LotAuctionKind) -> Option<Seq<char>> {
    match k {
        LotAuctionKind::Joined => Some("CONJUNTA PARA TODOS LOS LOTES"@),
        LotAuctionKind::Splitted => Some("SEPARADA PARA CADA LOTE"@),
        LotAuctionKind::NotApplicable => None,
    }
}

/// Each way of awarding lots is read back from its BOE text: a table whose
/// lot kind is the text naming `k` gives `k`; the two texts differ; and a
/// table gives `NotApplicable` only where its lot kind is missing or names
/// no way of awarding lots.
pub proof fn lemma_lot_auction_kind_names(
    k: LotAuctionKind,
    j: LotAuctionKind,
    data: Map<BoeConcept, Seq<char>>,
)
    ensures
        lot_auction_kind_name(k) matches Some(t) ==> (data.contains_key(BoeConcept::LotAuctionKind)
            && data[BoeConcept::LotAuctionKind] == t ==> lot_auction_kind(data) == k),
        k != j && lot_auction_kind_name(k) is Some ==> lot_auction_kind_name(j) != lot_auction_kind_name(k),
        lot_auction_kind(data) == LotAuctionKind::NotApplicable ==> !data.contains_key(
            BoeConcept::LotAuctionKind,
        ) || lot_auction_kind_name(k) != Some(data[BoeConcept::LotAuctionKind]),
{
    reveal_strlit("CONJUNTA PARA TODOS LOS LOTES");
    reveal_strlit("SEPARADA PARA CADA LOTE");
    assert("CONJUNTA PARA TODOS LOS LOTES"@.len() == 29);
    assert("SEPARADA PARA CADA LOTE"@.len() == 23);
}

/// State of an auction as the result pages give it.
#[derive(Debug, Clone, Copy, PartialEq, Eq, Structural, Hash, PartialOrd, Ord)]
pub enum AuctionState {
    /// Open for bids.
    Ongoing,
    /// To be opened.
    ToBeOpened,
    /// Suspended.
    Suspended,
    /// Cancelled.
    Cancelled,
    /// Concluded.
    Finished,
    /// Not stated on the page.
    Unknown,
}

/// The state that the first word `w` after `Estado: ` names.
pub open spec fn auction_state_of_word(w: Seq<char>) -> Option<AuctionState> {
    if w == "Celebrándose"@ {
        Some(AuctionState::Ongoing)
    } else if w == "Próxima"@ {
        Some(AuctionState::ToBeOpened)
    } else if w == "Suspendida"@ {
        Some(AuctionState::Suspended)
    } else if w == "Cancelada"@ {
        Some(AuctionState::Cancelled)
    } else if w == "Concluida"@ {
        Some(AuctionState::Finished)
    } else {
        None
    }
}

impl AuctionState {
    /// The state that the word `w` names, `None` for any other word.
    pub fn from_word(w: &str) -> (r: Option<AuctionState>)
        ensures
            r == auction_state_of_word(w@),
    {
        if str_eq(w, "Celebrándose") {
            Some(AuctionState::Ongoing)
        } else if str_eq(w, "Próxima") {
            Some(AuctionState::ToBeOpened)
        } else if str_eq(w, "Suspendida") {
            Some(AuctionState::Suspended)
        } else if str_eq(w, "Cancelada") {
            Some(AuctionState::Cancelled)
        } else if str_eq(w, "Concluida") {
            Some(AuctionState::Finished)
        } else {
            None
        }
    }
}

/// The word under which the result pages name each state after `Estado: `;
/// `Unknown` is named by none.
pub open spec fn auction_state_name(st: AuctionState) -> Option<Seq<char>> {
    match st {
        AuctionState::Ongoing => Some("Celebrándose"@),
        AuctionState::ToBeOpened => Some("Próxima"@),
        AuctionState::Suspended => Some("Suspendida"@),
        AuctionState::Cancelled => Some("Cancelada"@),
        AuctionState::Finished => Some("Concluida"@),
        AuctionState::Unknown => None,
    }
}

/// Each state is read back from its word, distinct states have distinct
/// words, and a word that names no state gives none.
pub proof fn lemma_auction_state_names(st: AuctionState, other: AuctionState, w: Seq<char>)
    ensures
        auction_state_name(st) matches Some(n) ==> auction_state_of_word(n) == Some(st),
        st != other && auction_state_name(st) is Some ==> auction_state_name(other) != auction_state_name(st),
        auction_state_of_word(w) is None ==> auction_state_name(st) != Some(w),
        auction_state_of_word(w) matches Some(x) ==> auction_state_name(x) == Some(w),
{
    reveal_strlit("Celebrándose");
    reveal_strlit("Próxima");
    reveal_strlit("Suspendida");
    reveal_strlit("Cancelada");
    reveal_strlit("Concluida");
    assert("Celebrándose"@.len() == 12);
    assert("Próxima"@.len() == 7);
    assert("Suspendida"@.len() == 10);
    assert("Cancelada"@.len() == 9);
    assert("Concluida"@.len() == 9);
    assert("Cancelada"@[1] != "Concluida"@[1]);
}

// ---------------------------------------------------------------------------
// Records
// ---------------------------------------------------------------------------

/// Manager information to contact for information about the auction.
#[derive(Debug, Clone, PartialEq, Eq)]
pub struct Management {
    /// Management code
    pub code: String,
    /// Description
    pub description: String,
    /// Contact address
    pub address: String,
    /// Contact telephone
    pub telephone: String,
    /// Conctact fax
    pub fax: String,
    /// Contact email
    pub email: String,
}

/// Whether `m` is the management that a page's table gives: each field the
/// text of its concept, `NA` where the table has none, and the description
/// cleaned.
pub open spec fn is_management_of(m: Management, data: Map<BoeConcept, Seq<char>>) -> bool {
    &&& m.code@ == text_or(data, BoeConcept::Code, NOT_APPLICABLE@)
    &&& m.description@ == clean_text_or_na(data, BoeConcept::Description)
    &&& m.address@ == text_or(data, BoeConcept::Address, NOT_APPLICABLE@)
    &&& m.telephone@ == text_or(data, BoeConcept::Telephone, NOT_APPLICABLE@)
    &&& m.fax@ == text_or(data, BoeConcept::Fax, NOT_APPLICABLE@)
    &&& m.email@ == text_or(data, BoeConcept::Email, NOT_APPLICABLE@)
}

/// Each contact field of a management is the table's text under its own
/// concept, `NA` where the table has none.
pub proof fn lemma_management_fields(m: Management, data: Map<BoeConcept, Seq<char>>)
    requires
        is_management_of(m, data),
    ensures
        data.contains_key(BoeConcept::Code) ==> m.code@ == data[BoeConcept::Code],
        !data.contains_key(BoeConcept::Code) ==> m.code@ == NOT_APPLICABLE@,
        data.contains_key(BoeConcept::Address) ==> m.address@ == data[BoeConcept::Address],
        !data.contains_key(BoeConcept::Address) ==> m.address@ == NOT_APPLICABLE@,
        data.contains_key(BoeConcept::Telephone) ==> m.telephone@ == data[BoeConcept::Telephone],
        !data.contains_key(BoeConcept::Telephone) ==> m.telephone@ == NOT_APPLICABLE@,
        data.contains_key(BoeConcept::Fax) ==> m.fax@ == data[BoeConcept::Fax],
        !data.contains_key(BoeConcept::Fax) ==> m.fax@ == NOT_APPLICABLE@,
        data.contains_key(BoeConcept::Email) ==> m.email@ == data[BoeConcept::Email],
        !data.contains_key(BoeConcept::Email) ==> m.email@ == NOT_APPLICABLE@,
{
}

impl Management {
    /// Create a new Management: each field is the text of its concept, `NA`
    /// where the table has none, and the description is cleaned.
    pub fn new(data: &ConceptTable) -> (r: Management)
        ensures
            is_management_of(r, data@),
    {
        Management {
            code: get_text_or(data, BoeConcept::Code, NOT_APPLICABLE),
            description: get_clean_text(data, &BoeConcept::Description),
            address: get_text_or(data, BoeConcept::Address, NOT_APPLICABLE),
            telephone: get_text_or(data, BoeConcept::Telephone, NOT_APPLICABLE),
            fax: get_text_or(data, BoeConcept::Fax, NOT_APPLICABLE),
            email: get_text_or(data, BoeConcept::Email, NOT_APPLICABLE),
        }
    }
}

/// Bid information struct
#[derive(Debug, Clone, Copy, PartialEq, Eq, Structural)]
pub struct BidInfo {
    /// Valuation of the assets.
    pub appraisal: Amount,
    /// Steps for each bid
    pub bid_step: Amount,
    /// Claim quantity
    pub claim_quantity: Amount,
    /// Deposit if someone wants to participate in the auction
    pub deposit: Amount,
    /// Minimum bid for the auction.
    pub minimum_bid: Amount,
    /// Auction value.
    pub value: Amount,
}

/// The bid information that a page's table gives.
pub open spec fn bid_info(data: Map<BoeConcept, Seq<char>>) -> BidInfo {
    BidInfo {
        appraisal: amount(data, BoeConcept::Appraisal),
        bid_step: amount(data, BoeConcept::BidStep),
        claim_quantity: amount(data, BoeConcept::ClaimQuantity),
        deposit: amount(data, BoeConcept::DepositAmount),
        minimum_bid: amount(data, BoeConcept::MinimumBid),
        value: amount(data, BoeConcept::AuctionValue),
    }
}

/// Each amount of the bid information is read from its own concept, and
/// all in the same way: an amount of `bid_info` changes only where the
/// table's text for its concept changes, and a text gives the same amount
/// whichever concept it stands under.
pub proof fn lemma_bid_info_fields(data: Map<BoeConcept, Seq<char>>, t: Seq<char>)
    ensures
        ({
            let b = bid_info(data);
            let by_value = bid_info(data.insert(BoeConcept::AuctionValue, t)).value;
            &&& bid_info(data.insert(BoeConcept::Appraisal, t)).appraisal == by_value
            &&& bid_info(data.insert(BoeConcept::BidStep, t)).bid_step == by_value
            &&& bid_info(data.insert(BoeConcept::ClaimQuantity, t)).claim_quantity == by_value
            &&& bid_info(data.insert(BoeConcept::DepositAmount, t)).deposit == by_value
            &&& bid_info(data.insert(BoeConcept::MinimumBid, t)).minimum_bid == by_value
            &&& bid_info(data.insert(BoeConcept::AuctionValue, t)) == BidInfo { value: by_value, ..b }
            &&& bid_info(data.insert(BoeConcept::Appraisal, t)) == BidInfo { appraisal: by_value, ..b }
            &&& bid_info(data.insert(BoeConcept::BidStep, t)) == BidInfo { bid_step: by_value, ..b }
            &&& bid_info(data.insert(BoeConcept::ClaimQuantity, t)) == BidInfo {
                claim_quantity: by_value,
                ..b
            }
            &&& bid_info(data.insert(BoeConcept::DepositAmount, t)) == BidInfo { deposit: by_value, ..b }
            &&& bid_info(data.insert(BoeConcept::MinimumBid, t)) == BidInfo {
                minimum_bid: by_value,
                ..b
            }
            &&& bid_info(data.insert(BoeConcept::Description, t)) == b
        }),
{
}

/// The bid information of an asset: present where the table gives an
/// auction value.
pub open spec fn asset_bid_info(data: Map<BoeConcept, Seq<char>>) -> Option<BidInfo> {
    if data.contains_key(BoeConcept::AuctionValue) {
        Some(bid_info(data))
    } else {
        None
    }
}

impl BidInfo {
    /// Create a new bid information: each amount read from its concept.
    pub fn new(data: &ConceptTable) -> (r: BidInfo)
        ensures
            r == bid_info(data@),
    {
        BidInfo {
            appraisal: get_decimal(data, &BoeConcept::Appraisal),
            bid_step: get_decimal(data, &BoeConcept::BidStep),
            claim_quantity: get_decimal(data, &BoeConcept::ClaimQuantity),
            deposit: get_decimal(data, &BoeConcept::DepositAmount),
            minimum_bid: get_decimal(data, &BoeConcept::MinimumBid),
            value: get_decimal(data, &BoeConcept::AuctionValue),
        }
    }
}

/// The bid information of an asset, see `asset_bid_info`.
fn get_asset_bid_info(data: &ConceptTable) -> (r: Option<BidInfo>)
    ensures
        r == asset_bid_info(data@),
{
    if data.contains(BoeConcept::AuctionValue) {
        Some(BidInfo::new(data))
    } else {
        None
    }
}

/// Auction struct
#[derive(Debug, Clone, PartialEq, Eq)]
pub struct Auction {
    /// Auction unique identifier.
    pub id: String,
    /// Type of auction classified by entity.
    pub kind: AuctionKind,
    /// Quantity that is claimed by creditors.
    pub claim_quantity: Amount,
    /// Number of lots.
    pub lots: u32,
    /// Kind of lots (splitted or joined).
    pub lot_kind: LotAuctionKind,
    /// Auction management.
    pub management: Management,
    /// BidInfo.
    pub bidinfo: BidInfo,
    /// When the auction starts.
    pub start_date: Date,
    /// End date for auction.
    pub end_date: Date,
    /// Notice in official bulletin
    pub notice: String,
}

/// The number of lots that a table gives: its `Lots` text read as a `u32`,
/// 0 where it is missing or does not read.
pub open spec fn lot_count(data: Map<BoeConcept, Seq<char>>) -> u32 {
    match parse_u32_spec(text_or(data, BoeConcept::Lots, "0"@)) {
        Some(n) => n,
        None => 0,
    }
}

/// Whether the start and end dates of a table can be read.
pub open spec fn auction_dates_readable(data: Map<BoeConcept, Seq<char>>) -> bool {
    &&& auction_date_readable(data, BoeConcept::StartDate)
    &&& auction_date_readable(data, BoeConcept::EndDate)
}

/// Whether `a` is the auction that `data` and `management` give.
pub open spec fn is_auction_of(a: Auction, data: Map<BoeConcept, Seq<char>>, management: Management) -> bool {
    &&& a.id@ == text_or(data, BoeConcept::Identifier, NOT_APPLICABLE@)
    &&& a.kind == auction_kind(data)
    &&& a.claim_quantity == amount(data, BoeConcept::ClaimQuantity)
    &&& a.lots == lot_count(data)
    &&& a.lot_kind == lot_auction_kind(data)
    &&& a.management == management
    &&& a.bidinfo == bid_info(data)
    &&& a.start_date == auction_date(data, BoeConcept::StartDate)
    &&& a.end_date == auction_date(data, BoeConcept::EndDate)
    &&& a.notice@ == text_or(data, BoeConcept::Notice, "BOE"@)
}

/// An auction's dates come each from its own field and its claimed
/// quantity is that of its bid information: the auction read from a table
/// with the start and end texts swapped has its start and end dates
/// swapped, and the two tables give the same kind, lots and bid
/// information.
pub proof fn lemma_auction_fields(
    a: Auction,
    data: Map<BoeConcept, Seq<char>>,
    management: Management,
    b: Auction,
)
    requires
        is_auction_of(a, data, management),
        data.contains_key(BoeConcept::StartDate),
        data.contains_key(BoeConcept::EndDate),
        is_auction_of(
            b,
            data.insert(BoeConcept::StartDate, data[BoeConcept::EndDate]).insert(
                BoeConcept::EndDate,
                data[BoeConcept::StartDate],
            ),
            management,
        ),
    ensures
        a.claim_quantity == a.bidinfo.claim_quantity,
        b.start_date == a.end_date,
        b.end_date == a.start_date,
        b.kind == a.kind,
        b.lot_kind == a.lot_kind,
        b.bidinfo == a.bidinfo,
        b.claim_quantity == a.claim_quantity,
{
    let swapped = data.insert(BoeConcept::StartDate, data[BoeConcept::EndDate]).insert(
        BoeConcept::EndDate,
        data[BoeConcept::StartDate],
    );
    assert(bid_info(swapped) == bid_info(data));
    assert(swapped[BoeConcept::AuctionKind] == data[BoeConcept::AuctionKind] || !data.contains_key(
        BoeConcept::AuctionKind,
    ));
}

/// Whether the table holds a text for `field` that does not read as a date.
fn date_unreadable(data: &ConceptTable, field: BoeConcept) -> (r: bool)
    ensures
        r == !auction_date_readable(data@, field),
{
    match data.get(field) {
        Some(s) => {
            let prefix = before_space_exec(s.as_str());
            parse_date(prefix.as_str(), "%d-%m-%Y").is_none()
        },
        None => false,
    }
}

impl Auction {
    /// Create a new Auction from the table of its main page and its
    /// management.
    pub fn new(data: &ConceptTable, management: Management) -> (r: Auction)
        requires
            auction_dates_readable(data@),
        ensures
            is_auction_of(r, data@, management),
    {
        let lots_text = get_text_or(data, BoeConcept::Lots, "0");
        let lots = match parse_u32(lots_text.as_str()) {
            Some(n) => n,
            None => 0,
        };
        Auction {
            id: get_text_or(data, BoeConcept::Identifier, NOT_APPLICABLE),
            kind: get_auction_kind(data),
            claim_quantity: get_decimal(data, &BoeConcept::ClaimQuantity),
            lots,
            lot_kind: get_lot_auction_kind(data),
            management,
            bidinfo: BidInfo::new(data),
            start_date: get_date(data, &BoeConcept::StartDate),
            end_date: get_date(data, &BoeConcept::EndDate),
            notice: get_text_or(data, BoeConcept::Notice, "BOE"),
        }
    }

    /// The auction that `new` builds, or `None` where a start or end date
    /// of the table does not read as a date.
    pub fn try_new(data: &ConceptTable, management: Management) -> (r: Option<Auction>)
        ensures
            r is Some == auction_dates_readable(data@),
            r matches Some(a) ==> is_auction_of(a, data@, management),
    {
        if date_unreadable(data, BoeConcept::StartDate) || date_unreadable(data, BoeConcept::EndDate) {
            None
        } else {
            Some(Auction::new(data, management))
        }
    }
}

/// Property can be any real state property: apartment, garage lot, industrial ...
#[derive(Debug, Clone, PartialEq, Eq)]
pub struct Property {
    /// Address location.
    pub address: String,
    /// Unique identifier is linked to.
    pub auction_id: String,
    /// Bid info
    pub bidinfo: Option<BidInfo>,
    /// Catastro reference.
    pub catastro_reference: String,
    /// category, usually: industrial, garage or apartment.
    pub category: PropertyCategory,
    /// If the property has any previous charges.
    pub charges: Amount,
    /// City the asset is in.
    pub city: String,
    /// Description.
    pub description: String,
    /// Owner staus.
    pub owner_status: String,
    /// Postal code.
    pub postal_code: String,
    /// Indicates if it is primary residence.
    pub primary_residence: String,
    /// Province.
    pub province: Province,
    /// Register inscription.
    pub register_inscription: String,
    /// If someone can visit the property or not.
    pub visitable: String,
}

/// Whether the table's province, if any, names a province.
pub open spec fn province_readable(data: Map<BoeConcept, Seq<char>>) -> bool {
    data.contains_key(BoeConcept::Province) ==> province_for_key(
        lookup_key(data[BoeConcept::Province]),
    ) is Some
}

/// The province of a table, `Unknown` where it gives none.
pub open spec fn property_province(data: Map<BoeConcept, Seq<char>>) -> Province {
    if data.contains_key(BoeConcept::Province) {
        province_for_key(lookup_key(data[BoeConcept::Province]))->0
    } else {
        Province::Unknown
    }
}

/// Whether `p` is the property that `auction`, `category` and `data` give.
pub open spec fn is_property_of(
    p: Property,
    auction: Seq<char>,
    category: PropertyCategory,
    data: Map<BoeConcept, Seq<char>>,
) -> bool {
    &&& p.address@ == text_or(data, BoeConcept::Address, NOT_APPLICABLE@)
    &&& p.auction_id@ == auction
    &&& p.bidinfo == asset_bid_info(data)
    &&& p.catastro_reference@ == text_or(data, BoeConcept::CatastroReference, NOT_APPLICABLE@)
    &&& p.category == category
    &&& p.charges == amount(data, BoeConcept::Charges)
    &&& p.city@ == text_or(data, BoeConcept::City, NOT_APPLICABLE@)
    &&& p.description@ == clean_text_or_na(data, BoeConcept::Description)
    &&& p.owner_status@ == text_or(data, BoeConcept::OwnerStatus, NOT_APPLICABLE@)
    &&& p.postal_code@ == text_or(data, BoeConcept::PostalCode, NOT_APPLICABLE@)
    &&& p.primary_residence@ == text_or(data, BoeConcept::PrimaryResidence, NOT_APPLICABLE@)
    &&& p.province == property_province(data)
    &&& p.register_inscription@ == text_or(data, BoeConcept::RegisterInscription, NOT_APPLICABLE@)
    &&& p.visitable@ == text_or(data, BoeConcept::Visitable, NOT_APPLICABLE@)
}

/// Each text field of a property is the table's text under its own concept,
/// `NA` where the table has none; its auction is the one given.
pub proof fn lemma_property_fields(p: Property, auction: Seq<char>, category: PropertyCategory, data: Map<BoeConcept, Seq<char>>)
    requires
        is_property_of(p, auction, category, data),
    ensures
        p.auction_id@ == auction,
        data.contains_key(BoeConcept::Charges) ==> p.charges == bid_info(
            data.insert(BoeConcept::AuctionValue, data[BoeConcept::Charges]),
        ).value,
        data.contains_key(BoeConcept::Description) ==> p.description@ == clean_text(
            data[BoeConcept::Description],
        ),
        p.category == category,
        data.contains_key(BoeConcept::Address) ==> p.address@ == data[BoeConcept::Address],
        !data.contains_key(BoeConcept::Address) ==> p.address@ == NOT_APPLICABLE@,
        data.contains_key(BoeConcept::CatastroReference) ==> p.catastro_reference@ == data[BoeConcept::CatastroReference],
        !data.contains_key(BoeConcept::CatastroReference) ==> p.catastro_reference@ == NOT_APPLICABLE@,
        data.contains_key(BoeConcept::City) ==> p.city@ == data[BoeConcept::City],
        !data.contains_key(BoeConcept::City) ==> p.city@ == NOT_APPLICABLE@,
        data.contains_key(BoeConcept::OwnerStatus) ==> p.owner_status@ == data[BoeConcept::OwnerStatus],
        !data.contains_key(BoeConcept::OwnerStatus) ==> p.owner_status@ == NOT_APPLICABLE@,
        data.contains_key(BoeConcept::PostalCode) ==> p.postal_code@ == data[BoeConcept::PostalCode],
        !data.contains_key(BoeConcept::PostalCode) ==> p.postal_code@ == NOT_APPLICABLE@,
        data.contains_key(BoeConcept::PrimaryResidence) ==> p.primary_residence@ == data[BoeConcept::PrimaryResidence],
        !data.contains_key(BoeConcept::PrimaryResidence) ==> p.primary_residence@ == NOT_APPLICABLE@,
        data.contains_key(BoeConcept::RegisterInscription) ==> p.register_inscription@ == data[BoeConcept::RegisterInscription],
        !data.contains_key(BoeConcept::RegisterInscription) ==> p.register_inscription@ == NOT_APPLICABLE@,
        data.contains_key(BoeConcept::Visitable) ==> p.visitable@ == data[BoeConcept::Visitable],
        !data.contains_key(BoeConcept::Visitable) ==> p.visitable@ == NOT_APPLICABLE@,
{
}

/// Whether the table's province text fails to name a province.
fn province_unreadable(data: &ConceptTable) -> (r: bool)
    ensures
        r == !province_readable(data@),
{
    match data.get(BoeConcept::Province) {
        Some(s) => Province::from_name(s.as_str()).is_err(),
        None => false,
    }
}

impl Property {
    /// Create a new property asset.
    pub fn new(auction: &str, category: PropertyCategory, data: &ConceptTable) -> (r: Property)
        requires
            province_readable(data@),
        ensures
            is_property_of(r, auction@, category, data@),
    {
        let city = get_text_or(data, BoeConcept::City, NOT_APPLICABLE);
        let province = match data.get(BoeConcept::Province) {
            Some(s) => match Province::from_name(s.as_str()) {
                Ok(p) => p,
                Err(_) => Province::Unknown,
            },
            None => Province::Unknown,
        };
        let postal_code = get_text_or(data, BoeConcept::PostalCode, NOT_APPLICABLE);
        let bidinfo = get_asset_bid_info(data);
        Property {
            address: get_text_or(data, BoeConcept::Address, NOT_APPLICABLE),
            auction_id: owned(auction),
            bidinfo,
            catastro_reference: get_text_or(data, BoeConcept::CatastroReference, NOT_APPLICABLE),
            category,
            charges: get_decimal(data, &BoeConcept::Charges),
            city,
            description: get_clean_text(data, &BoeConcept::Description),
            owner_status: get_text_or(data, BoeConcept::OwnerStatus, NOT_APPLICABLE),
            postal_code,
            primary_residence: get_text_or(data, BoeConcept::PrimaryResidence, NOT_APPLICABLE),
            province,
            register_inscription: get_text_or(data, BoeConcept::RegisterInscription, NOT_APPLICABLE),
            visitable: get_text_or(data, BoeConcept::Visitable, NOT_APPLICABLE),
        }
    }

    /// The property that `new` builds, or `None` where the table's province
    /// names no province.
    pub fn try_new(auction: &str, category: PropertyCategory, data: &ConceptTable) -> (r: Option<
        Property,
    >)
        ensures
            r is Some == province_readable(data@),
            r matches Some(p) ==> is_property_of(p, auction@, category, data@),
    {
        if province_unreadable(data) {
            None
        } else {
            Some(Property::new(auction, category, data))
        }
    }
}

/// Any kind of vehicle
#[derive(Debug, Clone, PartialEq, Eq)]
pub struct Vehicle {
    /// Auction identifier is linked to.
    pub auction_id: String,
    /// Bid info
    pub bidinfo: Option<BidInfo>,
    /// Vehicle brand.
    pub brand: String,
    /// If vehicle has previous charges.
    pub charges: Amount,
    /// Description.
    pub description: String,
    /// Frame number.
    pub frame_number: String,
    /// Licensed date.
    pub licensed_date: Date,
    /// License plate number.
    pub license_plate: String,
    /// Localization.
    pub localization: String,
    /// Model.
    pub model: String,
    /// Subcategory, usually: car, motorbike or industrial.
    pub subcategory: String,
    /// Indicates if someone can inspect the vehicle.
    pub visitable: String,
}

/// Whether `v` is the vehicle that `auction`, `subcategory` and `data` give.
pub open spec fn is_vehicle_of(
    v: Vehicle,
    auction: Seq<char>,
    subcategory: Seq<char>,
    data: Map<BoeConcept, Seq<char>>,
) -> bool {
    &&& v.auction_id@ == auction
    &&& v.bidinfo == asset_bid_info(data)
    &&& v.brand@ == text_or(data, BoeConcept::Brand, NOT_APPLICABLE@)
    &&& v.charges == amount(data, BoeConcept::Charges)
    &&& v.description@ == clean_text_or_na(data, BoeConcept::Description)
    &&& v.frame_number@ == text_or(data, BoeConcept::FrameNumber, NOT_APPLICABLE@)
    &&& v.licensed_date == vehicle_date(data, BoeConcept::LicensedDate)
    &&& v.license_plate@ == text_or(data, BoeConcept::LicensePlate, NOT_APPLICABLE@)
    &&& v.localization@ == text_or(data, BoeConcept::Localization, NOT_APPLICABLE@)
    &&& v.model@ == text_or(data, BoeConcept::Model, NOT_APPLICABLE@)
    &&& v.subcategory@ == subcategory
    &&& v.visitable@ == text_or(data, BoeConcept::Visitable, NOT_APPLICABLE@)
}

/// Each text field of a vehicle is the table's text under its own concept,
/// `NA` where the table has none; its auction is the one given.
pub proof fn lemma_vehicle_fields(v: Vehicle, auction: Seq<char>, subcategory: Seq<char>, data: Map<BoeConcept, Seq<char>>)
    requires
        is_vehicle_of(v, auction, subcategory, data),
    ensures
        v.auction_id@ == auction,
        v.subcategory@ == subcategory,
        data.contains_key(BoeConcept::Charges) ==> v.charges == bid_info(
            data.insert(BoeConcept::AuctionValue, data[BoeConcept::Charges]),
        ).value,
        data.contains_key(BoeConcept::Description) ==> v.description@ == clean_text(
            data[BoeConcept::Description],
        ),
        data.contains_key(BoeConcept::Brand) ==> v.brand@ == data[BoeConcept::Brand],
        !data.contains_key(BoeConcept::Brand) ==> v.brand@ == NOT_APPLICABLE@,
        data.contains_key(BoeConcept::FrameNumber) ==> v.frame_number@ == data[BoeConcept::FrameNumber],
        !data.contains_key(BoeConcept::FrameNumber) ==> v.frame_number@ == NOT_APPLICABLE@,
        data.contains_key(BoeConcept::LicensePlate) ==> v.license_plate@ == data[BoeConcept::LicensePlate],
        !data.contains_key(BoeConcept::LicensePlate) ==> v.license_plate@ == NOT_APPLICABLE@,
        data.contains_key(BoeConcept::Localization) ==> v.localization@ == data[BoeConcept::Localization],
        !data.contains_key(BoeConcept::Localization) ==> v.localization@ == NOT_APPLICABLE@,
        data.contains_key(BoeConcept::Model) ==> v.model@ == data[BoeConcept::Model],
        !data.contains_key(BoeConcept::Model) ==> v.model@ == NOT_APPLICABLE@,
        data.contains_key(BoeConcept::Visitable) ==> v.visitable@ == data[BoeConcept::Visitable],
        !data.contains_key(BoeConcept::Visitable) ==> v.visitable@ == NOT_APPLICABLE@,
{
}

impl Vehicle {
    /// Create a new vehicle asset.
    pub fn new(auction: &str, subcategory: &str, data: &ConceptTable) -> (r: Vehicle)
        ensures
            is_vehicle_of(r, auction@, subcategory@, data@),
    {
        let bidinfo = get_asset_bid_info(data);
        Vehicle {
            auction_id: owned(auction),
            bidinfo,
            brand: get_text_or(data, BoeConcept::Brand, NOT_APPLICABLE),
            charges: get_decimal(data, &BoeConcept::Charges),
            description: get_clean_text(data, &BoeConcept::Description),
            frame_number: get_text_or(data, BoeConcept::FrameNumber, NOT_APPLICABLE),
            licensed_date: get_vehicle_date(data, &BoeConcept::LicensedDate),
            license_plate: get_text_or(data, BoeConcept::LicensePlate, NOT_APPLICABLE),
            localization: get_text_or(data, BoeConcept::Localization, NOT_APPLICABLE),
            model: get_text_or(data, BoeConcept::Model, NOT_APPLICABLE),
            subcategory: owned(subcategory),
            visitable: get_text_or(data, BoeConcept::Visitable, NOT_APPLICABLE),
        }
    }
}

/// Any asset that is not a vehicle or a property.
#[derive(Debug, Clone, PartialEq, Eq)]
pub struct Other {
    /// Any asset additional information.
    pub additional_information: String,
    /// Auction is linked to.
    pub auction_id: String,
    /// Bid info
    pub bidinfo: Option<BidInfo>,
    /// If the asset has any previous charges.
    pub charges: Amount,
    /// Description.
    pub description: String,
    /// Type of judicial title if applies.
    pub judicial_title: String,
    /// Subcategory.
    pub subcategory: String,
    /// If someone can visit the asset if applies.
    pub visitable: String,
}

/// Whether `o` is the asset that `auction`, `subcategory` and `data` give.
pub open spec fn is_other_of(
    o: Other,
    auction: Seq<char>,
    subcategory: Seq<char>,
    data: Map<BoeConcept, Seq<char>>,
) -> bool {
    &&& o.additional_information@ == text_or(data, BoeConcept::AdditionalInformation, NOT_APPLICABLE@)
    &&& o.auction_id@ == auction
    &&& o.bidinfo == asset_bid_info(data)
    &&& o.charges == amount(data, BoeConcept::Charges)
    &&& o.description@ == clean_text_or_na(data, BoeConcept::Description)
    &&& o.judicial_title@ == text_or(data, BoeConcept::JudicialTitle, NOT_APPLICABLE@)
    &&& o.subcategory@ == subcategory
    &&& o.visitable@ == text_or(data, BoeConcept::Visitable, NOT_APPLICABLE@)
}

/// Each text field of another asset is the table's text under its own
/// concept, `NA` where the table has none.
pub proof fn lemma_other_fields(o: Other, auction: Seq<char>, subcategory: Seq<char>, data: Map<BoeConcept, Seq<char>>)
    requires
        is_other_of(o, auction, subcategory, data),
    ensures
        o.auction_id@ == auction,
        o.subcategory@ == subcategory,
        data.contains_key(BoeConcept::Charges) ==> o.charges == bid_info(
            data.insert(BoeConcept::AuctionValue, data[BoeConcept::Charges]),
        ).value,
        data.contains_key(BoeConcept::Description) ==> o.description@ == clean_text(
            data[BoeConcept::Description],
        ),
        data.contains_key(BoeConcept::AdditionalInformation) ==> o.additional_information@ == data[BoeConcept::AdditionalInformation],
        !data.contains_key(BoeConcept::AdditionalInformation) ==> o.additional_information@ == NOT_APPLICABLE@,
        data.contains_key(BoeConcept::JudicialTitle) ==> o.judicial_title@ == data[BoeConcept::JudicialTitle],
        !data.contains_key(BoeConcept::JudicialTitle) ==> o.judicial_title@ == NOT_APPLICABLE@,
        data.contains_key(BoeConcept::Visitable) ==> o.visitable@ == data[BoeConcept::Visitable],
        !data.contains_key(BoeConcept::Visitable) ==> o.visitable@ == NOT_APPLICABLE@,
{
}

impl Other {
    /// Create an asset that is not a vehicle or real state property.
    pub fn new(auction: &str, subcategory: &str, data: &ConceptTable) -> (r: Other)
        ensures
            is_other_of(r, auction@, subcategory@, data@),
    {
        let bidinfo = get_asset_bid_info(data);
        Other {
            additional_information: get_text_or(data, BoeConcept::AdditionalInformation, NOT_APPLICABLE),
            auction_id: owned(auction),
            bidinfo,
            charges: get_decimal(data, &BoeConcept::Charges),
            description: get_clean_text(data, &BoeConcept::Description),
            judicial_title: get_text_or(data, BoeConcept::JudicialTitle, NOT_APPLICABLE),
            subcategory: owned(subcategory),
            visitable: get_text_or(data, BoeConcept::Visitable, NOT_APPLICABLE),
        }
    }
}

// ---------------------------------------------------------------------------
// Assets
// ---------------------------------------------------------------------------

/// Type of assets
#[derive(Debug, Clone, PartialEq, Eq)]
pub enum Asset {
    /// All except vehicle or property
    Other(Other),
    /// Any kind of real state property
    Property(Property),
    /// Any kind of vehicle
    Vehicle(Vehicle),
}

/// Whether an asset header such as `BIEN 1 - INMUEBLE (VIVIENDA)` can be
/// split: it has a `-` followed by an ASCII character; where it has a `(`,
/// that is preceded by an ASCII character, comes at least two characters
/// after the `-`, and a `)` follows it.
pub open spec fn header_ok(h: Seq<char>) -> bool {
    match find(h, seq!['-']) {
        None => false,
        Some(d) => {
            &&& d + 1 < h.len()
            &&& h[d + 1] < '\u{80}'
            &&& match find(h, seq!['(']) {
                None => true,
                Some(p) => {
                    &&& 1 <= p
                    &&& h[p - 1] < '\u{80}'
                    &&& d + 2 <= p - 1
                    &&& match find(h, seq![')']) {
                        None => false,
                        Some(q) => p + 1 <= q,
                    }
                },
            }
        },
    }
}

/// Category and subcategory of an asset header: the category runs from the
/// second character after the first `-` to the character before the first
/// `(`, the subcategory from after the `(` to the first `)`; without a `(`
/// the category runs to the end and the subcategory is empty.
pub open spec fn header_parts(h: Seq<char>) -> (Seq<char>, Seq<char>) {
    let d = find(h, seq!['-'])->0;
    match find(h, seq!['(']) {
        None => (h.subrange(d + 2, h.len() as int), Seq::empty()),
        Some(p) => (h.subrange(d + 2, p - 1), h.subrange(p + 1, find(h, seq![')'])->0)),
    }
}

/// Whether no character of `s` is `c`.
pub open spec fn lacks(s: Seq<char>, c: char) -> bool {
    forall|i: int| 0 <= i < s.len() ==> s[i] != c
}

/// The header `<prefix>- <category> (<subcategory>)`.
pub open spec fn header_text(prefix: Seq<char>, category: Seq<char>, subcategory: Seq<char>) -> Seq<
    char,
> {
    prefix + seq!['-', ' '] + category + seq![' ', '('] + subcategory + seq![')']
}

/// A header written as `<prefix>- <category> (<subcategory>)<tail>` splits
/// back into its category and subcategory, where the prefix holds no `-`,
/// `(` or `)`, the category no `(` or `)`, and the subcategory no `)`;
/// whatever follows the `)` does not matter.
pub proof fn lemma_header_round_trip(
    prefix: Seq<char>,
    category: Seq<char>,
    subcategory: Seq<char>,
    tail: Seq<char>,
)
    requires
        lacks(prefix, '-'),
        lacks(prefix, '('),
        lacks(prefix, ')'),
        lacks(category, '('),
        lacks(category, ')'),
        lacks(subcategory, ')'),
    ensures
        header_ok(header_text(prefix, category, subcategory) + tail),
        header_parts(header_text(prefix, category, subcategory) + tail) == (category, subcategory),
{
    let h = header_text(prefix, category, subcategory) + tail;
    let d = prefix.len() as int;
    let p = d + 2 + category.len() + 1;
    let q = p + 1 + subcategory.len();
    assert(h.len() == q + 1 + tail.len());
    assert(h[d] == '-');
    assert(h[d + 1] == ' ');
    assert(h[p - 1] == ' ');
    assert(h[p] == '(');
    assert(h[q] == ')');
    assert forall|k: int| 0 <= k < d implies h[k] != '-' by {
        assert(h[k] == prefix[k]);
    }
    lemma_find_char_at(h, '-', 0, d);
    assert forall|k: int| 0 <= k < p implies h[k] != '(' by {
        if k < d {
            assert(h[k] == prefix[k]);
        } else if d + 2 <= k < p - 1 {
            assert(h[k] == category[k - d - 2]);
        }
    }
    lemma_find_char_at(h, '(', 0, p);
    assert forall|k: int| 0 <= k < q implies h[k] != ')' by {
        if k < d {
            assert(h[k] == prefix[k]);
        } else if d + 2 <= k < p - 1 {
            assert(h[k] == category[k - d - 2]);
        } else if p + 1 <= k < q {
            assert(h[k] == subcategory[k - p - 1]);
        }
    }
    lemma_find_char_at(h, ')', 0, q);
    assert(h.subrange(d + 2, p - 1) =~= category);
    assert(h.subrange(p + 1, q) =~= subcategory);
}

/// A header written as `<prefix>- <category>`, with no `-` or `(` in the
/// prefix and no `(` in the category, splits into the category and an empty
/// subcategory.
pub proof fn lemma_header_without_subcategory(prefix: Seq<char>, category: Seq<char>)
    requires
        lacks(prefix, '-'),
        lacks(prefix, '('),
        lacks(category, '('),
    ensures
        header_ok(prefix + seq!['-', ' '] + category),
        header_parts(prefix + seq!['-', ' '] + category) == (category, Seq::<char>::empty()),
{
    let h = prefix + seq!['-', ' '] + category;
    let d = prefix.len() as int;
    assert(h[d] == '-');
    assert(h[d + 1] == ' ');
    assert forall|k: int| 0 <= k < d implies h[k] != '-' by {
        assert(h[k] == prefix[k]);
    }
    lemma_find_char_at(h, '-', 0, d);
    assert forall|k: int| 0 <= k < h.len() implies h[k] != '(' by {
        if k < d {
            assert(h[k] == prefix[k]);
        } else if d + 2 <= k {
            assert(h[k] == category[k - d - 2]);
        }
    }
    lemma_find_char_none(h, '(', 0);
    assert(h.subrange(d + 2, h.len() as int) =~= category);
}

/// The property category that the subcategory `sub` names, `Apartment`
/// where it names none.
pub open spec fn property_category_of(sub: Seq<char>) -> PropertyCategory {
    match property_category_for_key(lookup_key(sub)) {
        Some(c) => c,
        None => PropertyCategory::Apartment,
    }
}

/// Whether an asset can be built from `data`: it has a header that splits,
/// and a real estate asset's province text, if any, names a province.
pub open spec fn asset_readable(data: Map<BoeConcept, Seq<char>>) -> bool {
    &&& data.contains_key(BoeConcept::Header)
    &&& header_ok(data[BoeConcept::Header])
    &&& header_parts(data[BoeConcept::Header]).0 == "INMUEBLE"@ ==> province_readable(data)
}

/// Whether `a` is the asset that `auction` and `data` give: a property for
/// category `INMUEBLE`, a vehicle for `VEHÍCULO`, any other asset otherwise.
pub open spec fn is_asset_of(a: Asset, auction: Seq<char>, data: Map<BoeConcept, Seq<char>>) -> bool {
    let (cat, sub) = header_parts(data[BoeConcept::Header]);
    if cat == "INMUEBLE"@ {
        a matches Asset::Property(p) && is_property_of(p, auction, property_category_of(sub), data)
    } else if cat == "VEHÍCULO"@ {
        a matches Asset::Vehicle(v) && is_vehicle_of(v, auction, sub, data)
    } else {
        a matches Asset::Other(o) && is_other_of(o, auction, sub, data)
    }
}

/// The kind of asset follows the category of the block's header: a header
/// `<prefix>- INMUEBLE (<sub>)...` gives a property whose category is the
/// one `sub` names, `<prefix>- VEHÍCULO (<sub>)...` a vehicle of subcategory
/// `sub`, and any other category another asset of subcategory `sub`; the
/// asset belongs to the auction given.
pub proof fn lemma_asset_kind_of_header(
    a: Asset,
    auction: Seq<char>,
    data: Map<BoeConcept, Seq<char>>,
    prefix: Seq<char>,
    category: Seq<char>,
    sub: Seq<char>,
    tail: Seq<char>,
)
    requires
        lacks(prefix, '-'),
        lacks(prefix, '('),
        lacks(prefix, ')'),
        lacks(category, '('),
        lacks(category, ')'),
        lacks(sub, ')'),
        data.contains_key(BoeConcept::Header),
        data[BoeConcept::Header] == header_text(prefix, category, sub) + tail,
        is_asset_of(a, auction, data),
    ensures
        category == "INMUEBLE"@ ==> (a matches Asset::Property(p) && p.category
            == property_category_of(sub) && p.auction_id@ == auction),
        category == "VEHÍCULO"@ ==> (a matches Asset::Vehicle(v) && v.subcategory@ == sub
            && v.auction_id@ == auction),
        category != "INMUEBLE"@ && category != "VEHÍCULO"@ ==> (a matches Asset::Other(o)
            && o.subcategory@ == sub && o.auction_id@ == auction),
{
    lemma_header_round_trip(prefix, category, sub, tail);
    reveal_strlit("INMUEBLE");
    reveal_strlit("VEHÍCULO");
    assert("INMUEBLE"@[0] != "VEHÍCULO"@[0]);
}

impl Asset {
    /// Whether `header` can be split, see `header_ok`.
    pub fn header_is_valid(header: &str) -> (r: bool)
        ensures
            r == header_ok(header@),
    {
        let v = chars_of(header);
        let n = v.len();
        proof {
            lemma_find_from(v@, seq!['-'], 0);
            lemma_find_from(v@, seq!['('], 0);
            lemma_find_from(v@, seq![')'], 0);
        }
        match find_char_from(&v, '-', 0) {
            None => false,
            Some(d) => {
                if d + 1 >= v.len() || v[d + 1] >= '\u{80}' {
                    return false;
                }
                match find_char_from(&v, '(', 0) {
                    None => true,
                    Some(p) => {
                        if p < 1 || v[p - 1] >= '\u{80}' || d + 2 > p - 1 {
                            return false;
                        }
                        match find_char_from(&v, ')', 0) {
                            None => false,
                            Some(q) => p + 1 <= q,
                        }
                    },
                }
            },
        }
    }

    /// Category and subcategory of an asset header, see `header_parts`.
    pub fn parse_header(header: &str) -> (r: (String, String))
        requires
            header_ok(header@),
        ensures
            (r.0@, r.1@) == header_parts(header@),
    {
        let v = chars_of(header);
        let n = v.len();
        proof {
            lemma_find_from(v@, seq!['-'], 0);
            lemma_find_from(v@, seq!['('], 0);
            lemma_find_from(v@, seq![')'], 0);
        }
        let d = match find_char_from(&v, '-', 0) {
            Some(d) => d,
            None => 0,
        };
        assert(d + 1 < v@.len());
        let begin_cat = d + 2;
        match find_char_from(&v, '(', 0) {
            Some(separator) => {
                let end_cat = separator - 1;
                let begin_subcat = separator + 1;
                let end_subcat = match find_char_from(&v, ')', 0) {
                    Some(q) => q,
                    None => begin_subcat,
                };
                (
                    string_of_range(&v, begin_cat, end_cat),
                    string_of_range(&v, begin_subcat, end_subcat),
                )
            },
            None => (string_of_range(&v, begin_cat, v.len()), String::new()),
        }
    }

    /// Create a new Asset of the auction `auction` from its table.
    pub fn new(auction: &str, data: &ConceptTable) -> (r: Asset)
        requires
            asset_readable(data@),
        ensures
            is_asset_of(r, auction@, data@),
    {
        let header = match data.get(BoeConcept::Header) {
            Some(h) => h.clone(),
            None => String::new(),
        };
        let (category, subcategory) = Asset::parse_header(header.as_str());
        if str_eq(category.as_str(), "INMUEBLE") {
            let property_category = match PropertyCategory::from_name(subcategory.as_str()) {
                Ok(cat) => cat,
                Err(_) => PropertyCategory::Apartment,
            };
            Asset::Property(Property::new(auction, property_category, data))
        } else if str_eq(category.as_str(), "VEHÍCULO") {
            Asset::Vehicle(Vehicle::new(auction, subcategory.as_str(), data))
        } else {
            Asset::Other(Other::new(auction, subcategory.as_str(), data))
        }
    }

    /// The asset that `new` builds, or `None` where the table has no header
    /// that splits or a property's province text names no province.
    pub fn try_new(auction: &str, data: &ConceptTable) -> (r: Option<Asset>)
        ensures
            r is Some == asset_readable(data@),
            r matches Some(a) ==> is_asset_of(a, auction@, data@),
    {
        match data.get(BoeConcept::Header) {
            None => None,
            Some(h) => {
                if !Asset::header_is_valid(h.as_str()) {
                    return None;
                }
                let (category, _) = Asset::parse_header(h.as_str());
                if str_eq(category.as_str(), "INMUEBLE") && province_unreadable(data) {
                    None
                } else {
                    Some(Asset::new(auction, data))
                }
            },
        }
    }
}

} // verus!
