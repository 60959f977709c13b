//! The concepts (row headings) that the BOE auction pages use, and the table
//! that maps each concept found on a page to its text.

use vstd::prelude::*;
use crate::text::{uppercase, to_uppercase, str_eq, owned, simple_case, simple_upper};

verus! {

/// Number of distinct BOE concepts.
pub const CONCEPT_COUNT: usize = 43;

/// Type of BOE concepts
#[derive(Debug, Clone, Copy, PartialEq, Eq, Structural, Hash)]
pub enum BoeConcept {
    /// Acquisition date
    AcquisitionDate,
    /// Additional information
    AdditionalInformation,
    /// Specify physical address of the resource.
    Address,
    /// Allotment
    Allotment,
    /// Value of the asset according to official authorities.
    Appraisal,
    /// Area of a property asset
    Area,
    /// Specify the kind of auction, so far:
    /// * AGENCIA TRIBUTARIA
    /// * RECAUDACIÓN TRIBUTARIA
    /// * NOTARIAL VOLUNTARIA
    /// * JUDICIAL VOLUNTARIA
    /// * JUDICIAL EN VIA DE APREMIO
    /// * JUDICIAL CONCURSAL
    /// * NOTARIAL EN VENTA EXTRAJUDICIAL
    /// * Desconocida,
    AuctionKind,
    /// Auction value
    AuctionValue,
    /// Steps between bids
    BidStep,
    /// Vehicle brand
    Brand,
    /// Charges
    Charges,
    /// Catastro reference, we can go to the official catastro webpage to see
    /// everything related with the Residence.
    CatastroReference,
    /// City
    City,
    /// The quantity of the claim by the creditors.
    ClaimQuantity,
    /// Code of the auction
    Code,
    /// Deposit amount to be able to make bids in the auction.
    DepositAmount,
    /// Description of the concept.
    Description,
    /// Email.
    Email,
    /// End date of the auction.
    EndDate,
    /// Fax.
    Fax,
    /// Frame number.
    FrameNumber,
    /// Header concept.
    Header,
    /// Identifier of the concept.
    Identifier,
    /// IDUFIR (Identificador único de finca registral)
    Idufir,
    /// Judicial title.
    JudicialTitle,
    /// Licensed date.
    LicensedDate,
    /// License plate.
    LicensePlate,
    /// Asset localization.
    Localization,
    /// It specifies in this concept contains lots or not.
    Lots,
    /// Specify if the lots are joined or splitted.
    LotAuctionKind,
    /// Minimum bid to be able to access the auction.
    MinimumBid,
    /// Vehicle model.
    Model,
    /// BOE Notice.
    Notice,
    /// Owner status of the asset.
    OwnerStatus,
    /// Place
    Place,
    /// Postal code.
    PostalCode,
    /// Province.
    Province,
    /// Primary residence.
    PrimaryResidence,
    /// Quota
    Quota,
    /// Register inscription.
    RegisterInscription,
    /// Start date of the auction.
    StartDate,
    /// Telephone.
    Telephone,
    /// If the asset can be viewed or not.
    Visitable,
}

impl BoeConcept {
    /// Position of the concept in the declaration order.
    pub open spec fn index_spec(self) -> nat {
        match self {
            BoeConcept::AcquisitionDate => 0,
            BoeConcept::AdditionalInformation => 1,
            BoeConcept::Address => 2,
            BoeConcept::Allotment => 3,
            BoeConcept::Appraisal => 4,
            BoeConcept::Area => 5,
            BoeConcept::AuctionKind => 6,
            BoeConcept::AuctionValue => 7,
            BoeConcept::BidStep => 8,
            BoeConcept::Brand => 9,
            BoeConcept::Charges => 10,
            BoeConcept::CatastroReference => 11,
            BoeConcept::City => 12,
            BoeConcept::ClaimQuantity => 13,
            BoeConcept::Code => 14,
            BoeConcept::DepositAmount => 15,
            BoeConcept::Description => 16,
            BoeConcept::Email => 17,
            BoeConcept::EndDate => 18,
            BoeConcept::Fax => 19,
            BoeConcept::FrameNumber => 20,
            BoeConcept::Header => 21,
            BoeConcept::Identifier => 22,
            BoeConcept::Idufir => 23,
            BoeConcept::JudicialTitle => 24,
            BoeConcept::LicensedDate => 25,
            BoeConcept::LicensePlate => 26,
            BoeConcept::Localization => 27,
            BoeConcept::Lots => 28,
            BoeConcept::LotAuctionKind => 29,
            BoeConcept::MinimumBid => 30,
            BoeConcept::Model => 31,
            BoeConcept::Notice => 32,
            BoeConcept::OwnerStatus => 33,
            BoeConcept::Place => 34,
            BoeConcept::PostalCode => 35,
            BoeConcept::Province => 36,
            BoeConcept::PrimaryResidence => 37,
            BoeConcept::Quota => 38,
            BoeConcept::RegisterInscription => 39,
            BoeConcept::StartDate => 40,
            BoeConcept::Telephone => 41,
            BoeConcept::Visitable => 42,
        }
    }

    /// The concept at position `i` of the declaration order.
    pub open spec fn at_index(i: nat) -> BoeConcept {
        if i == 0 {
            BoeConcept::AcquisitionDate
        }
        else if i == 1 {
            BoeConcept::AdditionalInformation
        }
        else if i == 2 {
            BoeConcept::Address
        }
        else if i == 3 {
            BoeConcept::Allotment
        }
        else if i == 4 {
            BoeConcept::Appraisal
        }
        else if i == 5 {
            BoeConcept::Area
        }
        else if i == 6 {
            BoeConcept::AuctionKind
        }
        else if i == 7 {
            BoeConcept::AuctionValue
        }
        else if i == 8 {
            BoeConcept::BidStep
        }
        else if i == 9 {
            BoeConcept::Brand
        }
        else if i == 10 {
            BoeConcept::Charges
        }
        else if i == 11 {
            BoeConcept::CatastroReference
        }
        else if i == 12 {
            BoeConcept::City
        }
        else if i == 13 {
            BoeConcept::ClaimQuantity
        }
        else if i == 14 {
            BoeConcept::Code
        }
        else if i == 15 {
            BoeConcept::DepositAmount
        }
        else if i == 16 {
            BoeConcept::Description
        }
        else if i == 17 {
            BoeConcept::Email
        }
        else if i == 18 {
            BoeConcept::EndDate
        }
        else if i == 19 {
            BoeConcept::Fax
        }
        else if i == 20 {
            BoeConcept::FrameNumber
        }
        else if i == 21 {
            BoeConcept::Header
        }
        else if i == 22 {
            BoeConcept::Identifier
        }
        else if i == 23 {
            BoeConcept::Idufir
        }
        else if i == 24 {
            BoeConcept::JudicialTitle
        }
        else if i == 25 {
            BoeConcept::LicensedDate
        }
        else if i == 26 {
            BoeConcept::LicensePlate
        }
        else if i == 27 {
            BoeConcept::Localization
        }
        else if i == 28 {
            BoeConcept::Lots
        }
        else if i == 29 {
            BoeConcept::LotAuctionKind
        }
        else if i == 30 {
            BoeConcept::MinimumBid
        }
        else if i == 31 {
            BoeConcept::Model
        }
        else if i == 32 {
            BoeConcept::Notice
        }
        else if i == 33 {
            BoeConcept::OwnerStatus
        }
        else if i == 34 {
            BoeConcept::Place
        }
        else if i == 35 {
            BoeConcept::PostalCode
        }
        else if i == 36 {
            BoeConcept::Province
        }
        else if i == 37 {
            BoeConcept::PrimaryResidence
        }
        else if i == 38 {
            BoeConcept::Quota
        }
        else if i == 39 {
            BoeConcept::RegisterInscription
        }
        else if i == 40 {
            BoeConcept::StartDate
        }
        else if i == 41 {
            BoeConcept::Telephone
        }
        else {
            BoeConcept::Visitable
        }
    }

    /// Position of the concept in the declaration order.
    pub fn index(&self) -> (r: usize)
        ensures
            r == self.index_spec(),
            r < CONCEPT_COUNT,
    {
        match self {
            BoeConcept::AcquisitionDate => 0,
            BoeConcept::AdditionalInformation => 1,
            BoeConcept::Address => 2,
            BoeConcept::Allotment => 3,
            BoeConcept::Appraisal => 4,
            BoeConcept::Area => 5,
            BoeConcept::AuctionKind => 6,
            BoeConcept::AuctionValue => 7,
            BoeConcept::BidStep => 8,
            BoeConcept::Brand => 9,
            BoeConcept::Charges => 10,
            BoeConcept::CatastroReference => 11,
            BoeConcept::City => 12,
            BoeConcept::ClaimQuantity => 13,
            BoeConcept::Code => 14,
            BoeConcept::DepositAmount => 15,
            BoeConcept::Description => 16,
            BoeConcept::Email => 17,
            BoeConcept::EndDate => 18,
            BoeConcept::Fax => 19,
            BoeConcept::FrameNumber => 20,
            BoeConcept::Header => 21,
            BoeConcept::Identifier => 22,
            BoeConcept::Idufir => 23,
            BoeConcept::JudicialTitle => 24,
            BoeConcept::LicensedDate => 25,
            BoeConcept::LicensePlate => 26,
            BoeConcept::Localization => 27,
            BoeConcept::Lots => 28,
            BoeConcept::LotAuctionKind => 29,
            BoeConcept::MinimumBid => 30,
            BoeConcept::Model => 31,
            BoeConcept::Notice => 32,
            BoeConcept::OwnerStatus => 33,
            BoeConcept::Place => 34,
            BoeConcept::PostalCode => 35,
            BoeConcept::Province => 36,
            BoeConcept::PrimaryResidence => 37,
            BoeConcept::Quota => 38,
            BoeConcept::RegisterInscription => 39,
            BoeConcept::StartDate => 40,
            BoeConcept::Telephone => 41,
            BoeConcept::Visitable => 42,
        }
    }

    /// Positions identify concepts.
    pub proof fn lemma_index(self)
        ensures
            self.index_spec() < CONCEPT_COUNT,
            BoeConcept::at_index(self.index_spec()) == self,
    {
    }

    /// Every position below `CONCEPT_COUNT` is the position of a concept.
    pub proof fn lemma_at_index(i: nat)
        requires
            i < CONCEPT_COUNT,
        ensures
            BoeConcept::at_index(i).index_spec() == i,
    {
    }
}

/// The concept whose (upper-case) heading is `key`, if any.
pub open spec fn concept_for_key(key: Seq<char>) -> Option<BoeConcept> {
    if key == "FECHA ADQUISICIÓN"@ {
        Some(BoeConcept::AcquisitionDate)
    }
    else if key == "INFORMACIÓN ADICIONAL"@ {
        Some(BoeConcept::AdditionalInformation)
    }
    else if key == "DIRECCIÓN"@ {
        Some(BoeConcept::Address)
    }
    else if key == "PARCELA"@ {
        Some(BoeConcept::Allotment)
    }
    else if key == "TASACIÓN"@ {
        Some(BoeConcept::Appraisal)
    }
    else if key == "SUPERFICIE"@ {
        Some(BoeConcept::Area)
    }
    else if key == "TIPO DE SUBASTA"@ {
        Some(BoeConcept::AuctionKind)
    }
    else if key == "VALOR SUBASTA"@ {
        Some(BoeConcept::AuctionValue)
    }
    else if key == "TRAMOS ENTRE PUJAS"@ {
        Some(BoeConcept::BidStep)
    }
    else if key == "MARCA"@ {
        Some(BoeConcept::Brand)
    }
    else if key == "CARGAS"@ {
        Some(BoeConcept::Charges)
    }
    else if key == "REFERENCIA CATASTRAL"@ {
        Some(BoeConcept::CatastroReference)
    }
    else if key == "LOCALIDAD"@ {
        Some(BoeConcept::City)
    }
    else if key == "CANTIDAD RECLAMADA"@ {
        Some(BoeConcept::ClaimQuantity)
    }
    else if key == "CÓDIGO"@ {
        Some(BoeConcept::Code)
    }
    else if key == "IMPORTE DEL DEPÓSITO"@ {
        Some(BoeConcept::DepositAmount)
    }
    else if key == "DESCRIPCIÓN"@ {
        Some(BoeConcept::Description)
    }
    else if key == "CORREO ELECTRÓNICO"@ {
        Some(BoeConcept::Email)
    }
    else if key == "FECHA DE CONCLUSIÓN"@ {
        Some(BoeConcept::EndDate)
    }
    else if key == "FAX"@ {
        Some(BoeConcept::Fax)
    }
    else if key == "NÚMERO DE BASTIDOR"@ {
        Some(BoeConcept::FrameNumber)
    }
    else if key == "HEADER"@ {
        Some(BoeConcept::Header)
    }
    else if key == "IDENTIFICADOR"@ {
        Some(BoeConcept::Identifier)
    }
    else if key == "IDUFIR"@ {
        Some(BoeConcept::Idufir)
    }
    else if key == "TÍTULO JURÍDICO"@ {
        Some(BoeConcept::JudicialTitle)
    }
    else if key == "FECHA MATRICULACIÓN"@ {
        Some(BoeConcept::LicensedDate)
    }
    else if key == "MATRÍCULA"@ {
        Some(BoeConcept::LicensePlate)
    }
    else if key == "DEPÓSITO"@ {
        Some(BoeConcept::Localization)
    }
    else if key == "LOTES"@ {
        Some(BoeConcept::Lots)
    }
    else if key == "FORMA DE ADJUDICACIÓN"@ {
        Some(BoeConcept::LotAuctionKind)
    }
    else if key == "PUJA MÍNIMA"@ {
        Some(BoeConcept::MinimumBid)
    }
    else if key == "MODELO"@ {
        Some(BoeConcept::Model)
    }
    else if key == "ANUNCIO BOE"@ {
        Some(BoeConcept::Notice)
    }
    else if key == "SITUACIÓN POSESORIA"@ {
        Some(BoeConcept::OwnerStatus)
    }
    else if key == "PARAJE"@ {
        Some(BoeConcept::Place)
    }
    else if key == "CÓDIGO POSTAL"@ {
        Some(BoeConcept::PostalCode)
    }
    else if key == "PROVINCIA"@ {
        Some(BoeConcept::Province)
    }
    else if key == "VIVIENDA HABITUAL"@ {
        Some(BoeConcept::PrimaryResidence)
    }
    else if key == "CUOTA"@ {
        Some(BoeConcept::Quota)
    }
    else if key == "INSCRIPCIÓN REGISTRAL"@ {
        Some(BoeConcept::RegisterInscription)
    }
    else if key == "FECHA DE INICIO"@ {
        Some(BoeConcept::StartDate)
    }
    else if key == "TELÉFONO"@ {
        Some(BoeConcept::Telephone)
    }
    else if key == "VISITABLE"@ {
        Some(BoeConcept::Visitable)
    }
    else if key == "FORMA ADJUDICACIÓN"@ {
        Some(BoeConcept::LotAuctionKind)
    }
    else if key == "VALOR DE TASACIÓN"@ {
        Some(BoeConcept::Appraisal)
    }
    else if key == "FECHA DE ADQUISICIÓN"@ {
        Some(BoeConcept::AcquisitionDate)
    }
    else if key == "FECHA DE MATRICULACIÓN"@ {
        Some(BoeConcept::LicensedDate)
    }
    else if key == "REFERENCIA REGISTRAL"@ {
        Some(BoeConcept::RegisterInscription)
    }
    else if key == "NOMBRE PARAJE"@ {
        Some(BoeConcept::Place)
    }
    else {
        None
    }
}

/// Indicates if the concept is invalid.
#[derive(Debug, PartialEq, Eq)]
pub struct InvalidBoeConcept {
    concept: String,
}

impl View for InvalidBoeConcept {
    type V = Seq<char>;

    /// The text that named no concept.
    closed spec fn view(&self) -> Seq<char> {
        self.concept@
    }
}

impl InvalidBoeConcept {
    /// An error for the text `concept`.
    pub fn new(concept: &str) -> (r: Self)
        ensures
            r@ == concept@,
    {
        InvalidBoeConcept { concept: owned(concept) }
    }

    /// The text that named no concept.
    pub fn concept(&self) -> (r: &str)
        ensures
            r@ == self@,
    {
        self.concept.as_str()
    }

    /// The error message: `Unkown BOE concept: ` followed by the text.
    pub fn message(&self) -> (r: String)
        ensures
            r@ == "Unkown BOE concept: "@ + self@,
    {
        let mut m = owned("Unkown BOE concept: ");
        m.append(self.concept.as_str());
        m
    }
}

impl BoeConcept {
    /// The concept that `s` names, compared in upper case; an
    /// `InvalidBoeConcept` holding `s` if it names none.
    pub fn from_name(s: &str) -> (r: Result<BoeConcept, InvalidBoeConcept>)
        ensures
            match concept_for_key(uppercase(s@)) {
                Some(c) => r == Ok::<BoeConcept, InvalidBoeConcept>(c),
                None => r matches Err(e) && e@ == s@,
            },
            simple_case(s@) ==> match concept_for_key(s@.map_values(|ch: char| simple_upper(ch))) {
                Some(c) => r == Ok::<BoeConcept, InvalidBoeConcept>(c),
                None => r is Err,
            },
    {
        let up = to_uppercase(s);
        let key = up.as_str();
        if str_eq(key, "FECHA ADQUISICIÓN") {
            Ok(BoeConcept::AcquisitionDate)
        }
        else if str_eq(key, "INFORMACIÓN ADICIONAL") {
            Ok(BoeConcept::AdditionalInformation)
        }
        else if str_eq(key, "DIRECCIÓN") {
            Ok(BoeConcept::Address)
        }
        else if str_eq(key, "PARCELA") {
            Ok(BoeConcept::Allotment)
        }
        else if str_eq(key, "TASACIÓN") {
            Ok(BoeConcept::Appraisal)
        }
        else if str_eq(key, "SUPERFICIE") {
            Ok(BoeConcept::Area)
        }
        else if str_eq(key, "TIPO DE SUBASTA") {
            Ok(BoeConcept::AuctionKind)
        }
        else if str_eq(key, "VALOR SUBASTA") {
            Ok(BoeConcept::AuctionValue)
        }
        else if str_eq(key, "TRAMOS ENTRE PUJAS") {
            Ok(BoeConcept::BidStep)
        }
        else if str_eq(key, "MARCA") {
            Ok(BoeConcept::Brand)
        }
        else if str_eq(key, "CARGAS") {
            Ok(BoeConcept::Charges)
        }
        else if str_eq(key, "REFERENCIA CATASTRAL") {
            Ok(BoeConcept::CatastroReference)
        }
        else if str_eq(key, "LOCALIDAD") {
            Ok(BoeConcept::City)
        }
        else if str_eq(key, "CANTIDAD RECLAMADA") {
            Ok(BoeConcept::ClaimQuantity)
        }
        else if str_eq(key, "CÓDIGO") {
            Ok(BoeConcept::Code)
        }
        else if str_eq(key, "IMPORTE DEL DEPÓSITO") {
            Ok(BoeConcept::DepositAmount)
        }
        else if str_eq(key, "DESCRIPCIÓN") {
            Ok(BoeConcept::Description)
        }
        else if str_eq(key, "CORREO ELECTRÓNICO") {
            Ok(BoeConcept::Email)
        }
        else if str_eq(key, "FECHA DE CONCLUSIÓN") {
            Ok(BoeConcept::EndDate)
        }
        else if str_eq(key, "FAX") {
            Ok(BoeConcept::Fax)
        }
        else if str_eq(key, "NÚMERO DE BASTIDOR") {
            Ok(BoeConcept::FrameNumber)
        }
        else if str_eq(key, "HEADER") {
            Ok(BoeConcept::Header)
        }
        else if str_eq(key, "IDENTIFICADOR") {
            Ok(BoeConcept::Identifier)
        }
        else if str_eq(key, "IDUFIR") {
            Ok(BoeConcept::Idufir)
        }
        else if str_eq(key, "TÍTULO JURÍDICO") {
            Ok(BoeConcept::JudicialTitle)
        }
        else if str_eq(key, "FECHA MATRICULACIÓN") {
            Ok(BoeConcept::LicensedDate)
        }
        else if str_eq(key, "MATRÍCULA") {
            Ok(BoeConcept::LicensePlate)
        }
        else if str_eq(key, "DEPÓSITO") {
            Ok(BoeConcept::Localization)
        }
        else if str_eq(key, "LOTES") {
            Ok(BoeConcept::Lots)
        }
        else if str_eq(key, "FORMA DE ADJUDICACIÓN") {
            Ok(BoeConcept::LotAuctionKind)
        }
        else if str_eq(key, "PUJA MÍNIMA") {
            Ok(BoeConcept::MinimumBid)
        }
        else if str_eq(key, "MODELO") {
            Ok(BoeConcept::Model)
        }
        else if str_eq(key, "ANUNCIO BOE") {
            Ok(BoeConcept::Notice)
        }
        else if str_eq(key, "SITUACIÓN POSESORIA") {
            Ok(BoeConcept::OwnerStatus)
        }
        else if str_eq(key, "PARAJE") {
            Ok(BoeConcept::Place)
        }
        else if str_eq(key, "CÓDIGO POSTAL") {
            Ok(BoeConcept::PostalCode)
        }
        else if str_eq(key, "PROVINCIA") {
            Ok(BoeConcept::Province)
        }
        else if str_eq(key, "VIVIENDA HABITUAL") {
            Ok(BoeConcept::PrimaryResidence)
        }
        else if str_eq(key, "CUOTA") {
            Ok(BoeConcept::Quota)
        }
        else if str_eq(key, "INSCRIPCIÓN REGISTRAL") {
            Ok(BoeConcept::RegisterInscription)
        }
        else if str_eq(key, "FECHA DE INICIO") {
            Ok(BoeConcept::StartDate)
        }
        else if str_eq(key, "TELÉFONO") {
            Ok(BoeConcept::Telephone)
        }
        else if str_eq(key, "VISITABLE") {
            Ok(BoeConcept::Visitable)
        }
        else if str_eq(key, "FORMA ADJUDICACIÓN") {
            Ok(BoeConcept::LotAuctionKind)
        }
        else if str_eq(key, "VALOR DE TASACIÓN") {
            Ok(BoeConcept::Appraisal)
        }
        else if str_eq(key, "FECHA DE ADQUISICIÓN") {
            Ok(BoeConcept::AcquisitionDate)
        }
        else if str_eq(key, "FECHA DE MATRICULACIÓN") {
            Ok(BoeConcept::LicensedDate)
        }
        else if str_eq(key, "REFERENCIA REGISTRAL") {
            Ok(BoeConcept::RegisterInscription)
        }
        else if str_eq(key, "NOMBRE PARAJE") {
            Ok(BoeConcept::Place)
        }
        else {
            Err(InvalidBoeConcept::new(s))
        }
    }
}

impl std::str::FromStr for BoeConcept {
    type Err = InvalidBoeConcept;

    /// Parses `s` as `from_name` does.
    fn from_str(s: &str) -> (r: Result<Self, Self::Err>)
        ensures
            match concept_for_key(uppercase(s@)) {
                Some(c) => r == Ok::<BoeConcept, InvalidBoeConcept>(c),
                None => r matches Err(e) && e@ == s@,
            },
            simple_case(s@) ==> match concept_for_key(s@.map_values(|ch: char| simple_upper(ch))) {
                Some(c) => r == Ok::<BoeConcept, InvalidBoeConcept>(c),
                None => r is Err,
            },
    {
        BoeConcept::from_name(s)
    }
}


/// The heading under which the pages name each concept.
pub open spec fn concept_name(c: BoeConcept) -> Seq<char> {
    match c {
        BoeConcept::AcquisitionDate => "FECHA ADQUISICIÓN"@,
        BoeConcept::AdditionalInformation => "INFORMACIÓN ADICIONAL"@,
        BoeConcept::Address => "DIRECCIÓN"@,
        BoeConcept::Allotment => "PARCELA"@,
        BoeConcept::Appraisal => "TASACIÓN"@,
        BoeConcept::Area => "SUPERFICIE"@,
        BoeConcept::AuctionKind => "TIPO DE SUBASTA"@,
        BoeConcept::AuctionValue => "VALOR SUBASTA"@,
        BoeConcept::BidStep => "TRAMOS ENTRE PUJAS"@,
        BoeConcept::Brand => "MARCA"@,
        BoeConcept::Charges => "CARGAS"@,
        BoeConcept::CatastroReference => "REFERENCIA CATASTRAL"@,
        BoeConcept::City => "LOCALIDAD"@,
        BoeConcept::ClaimQuantity => "CANTIDAD RECLAMADA"@,
        BoeConcept::Code => "CÓDIGO"@,
        BoeConcept::DepositAmount => "IMPORTE DEL DEPÓSITO"@,
        BoeConcept::Description => "DESCRIPCIÓN"@,
        BoeConcept::Email => "CORREO ELECTRÓNICO"@,
        BoeConcept::EndDate => "FECHA DE CONCLUSIÓN"@,
        BoeConcept::Fax => "FAX"@,
        BoeConcept::FrameNumber => "NÚMERO DE BASTIDOR"@,
        BoeConcept::Header => "HEADER"@,
        BoeConcept::Identifier => "IDENTIFICADOR"@,
        BoeConcept::Idufir => "IDUFIR"@,
        BoeConcept::JudicialTitle => "TÍTULO JURÍDICO"@,
        BoeConcept::LicensedDate => "FECHA MATRICULACIÓN"@,
        BoeConcept::LicensePlate => "MATRÍCULA"@,
        BoeConcept::Localization => "DEPÓSITO"@,
        BoeConcept::Lots => "LOTES"@,
        BoeConcept::LotAuctionKind => "FORMA DE ADJUDICACIÓN"@,
        BoeConcept::MinimumBid => "PUJA MÍNIMA"@,
        BoeConcept::Model => "MODELO"@,
        BoeConcept::Notice => "ANUNCIO BOE"@,
        BoeConcept::OwnerStatus => "SITUACIÓN POSESORIA"@,
        BoeConcept::Place => "PARAJE"@,
        BoeConcept::PostalCode => "CÓDIGO POSTAL"@,
        BoeConcept::Province => "PROVINCIA"@,
        BoeConcept::PrimaryResidence => "VIVIENDA HABITUAL"@,
        BoeConcept::Quota => "CUOTA"@,
        BoeConcept::RegisterInscription => "INSCRIPCIÓN REGISTRAL"@,
        BoeConcept::StartDate => "FECHA DE INICIO"@,
        BoeConcept::Telephone => "TELÉFONO"@,
        BoeConcept::Visitable => "VISITABLE"@,
    }
}

/// Every concept is read back from its heading: the heading is its own
/// upper case, and `concept_for_key` maps it to the concept.  With the
/// contract of `BoeConcept::from_name` (and `lemma_lower_then_upper`), the
/// heading, in upper or lower case, parses to the concept.
pub proof fn lemma_concept_name_parses(c: BoeConcept)
    ensures
        simple_case(concept_name(c)),
        concept_name(c).map_values(|ch: char| simple_upper(ch)) == concept_name(c),
        concept_for_key(concept_name(c)) == Some(c),
{
    reveal_strlit("FECHA ADQUISICIÓN");
    reveal_strlit("INFORMACIÓN ADICIONAL");
    reveal_strlit("DIRECCIÓN");
    reveal_strlit("PARCELA");
    reveal_strlit("TASACIÓN");
    reveal_strlit("SUPERFICIE");
    reveal_strlit("TIPO DE SUBASTA");
    reveal_strlit("VALOR SUBASTA");
    reveal_strlit("TRAMOS ENTRE PUJAS");
    reveal_strlit("MARCA");
    reveal_strlit("CARGAS");
    reveal_strlit("REFERENCIA CATASTRAL");
    reveal_strlit("LOCALIDAD");
    reveal_strlit("CANTIDAD RECLAMADA");
    reveal_strlit("CÓDIGO");
    reveal_strlit("IMPORTE DEL DEPÓSITO");
    reveal_strlit("DESCRIPCIÓN");
    reveal_strlit("CORREO ELECTRÓNICO");
    reveal_strlit("FECHA DE CONCLUSIÓN");
    reveal_strlit("FAX");
    reveal_strlit("NÚMERO DE BASTIDOR");
    reveal_strlit("HEADER");
    reveal_strlit("IDENTIFICADOR");
    reveal_strlit("IDUFIR");
    reveal_strlit("TÍTULO JURÍDICO");
    reveal_strlit("FECHA MATRICULACIÓN");
    reveal_strlit("MATRÍCULA");
    reveal_strlit("DEPÓSITO");
    reveal_strlit("LOTES");
    reveal_strlit("FORMA DE ADJUDICACIÓN");
    reveal_strlit("PUJA MÍNIMA");
    reveal_strlit("MODELO");
    reveal_strlit("ANUNCIO BOE");
    reveal_strlit("SITUACIÓN POSESORIA");
    reveal_strlit("PARAJE");
    reveal_strlit("CÓDIGO POSTAL");
    reveal_strlit("PROVINCIA");
    reveal_strlit("VIVIENDA HABITUAL");
    reveal_strlit("CUOTA");
    reveal_strlit("INSCRIPCIÓN REGISTRAL");
    reveal_strlit("FECHA DE INICIO");
    reveal_strlit("TELÉFONO");
    reveal_strlit("VISITABLE");
    reveal_strlit("FORMA ADJUDICACIÓN");
    reveal_strlit("VALOR DE TASACIÓN");
    reveal_strlit("FECHA DE ADQUISICIÓN");
    reveal_strlit("FECHA DE MATRICULACIÓN");
    reveal_strlit("REFERENCIA REGISTRAL");
    reveal_strlit("NOMBRE PARAJE");
    match c {
        BoeConcept::AcquisitionDate => {
        },
        BoeConcept::AdditionalInformation => {
        },
        BoeConcept::Address => {
        },
        BoeConcept::Allotment => {
        },
        BoeConcept::Appraisal => {
        },
        BoeConcept::Area => {
        },
        BoeConcept::AuctionKind => {
        },
        BoeConcept::AuctionValue => {
        },
        BoeConcept::BidStep => {
        },
        BoeConcept::Brand => {
        },
        BoeConcept::Charges => {
        },
        BoeConcept::CatastroReference => {
        },
        BoeConcept::City => {
            assert("LOCALIDAD"@[0] != "DIRECCIÓN"@[0]);
        },
        BoeConcept::ClaimQuantity => {
            assert("CANTIDAD RECLAMADA"@[0] != "TRAMOS ENTRE PUJAS"@[0]);
        },
        BoeConcept::Code => {
            assert("CÓDIGO"@[1] != "CARGAS"@[1]);
        },
        BoeConcept::DepositAmount => {
            assert("IMPORTE DEL DEPÓSITO"@[0] != "REFERENCIA CATASTRAL"@[0]);
        },
        BoeConcept::Description => {
        },
        BoeConcept::Email => {
            assert("CORREO ELECTRÓNICO"@[0] != "TRAMOS ENTRE PUJAS"@[0]);
            assert("CORREO ELECTRÓNICO"@[1] != "CANTIDAD RECLAMADA"@[1]);
        },
        BoeConcept::EndDate => {
        },
        BoeConcept::Fax => {
        },
        BoeConcept::FrameNumber => {
            assert("NÚMERO DE BASTIDOR"@[0] != "TRAMOS ENTRE PUJAS"@[0]);
            assert("NÚMERO DE BASTIDOR"@[0] != "CANTIDAD RECLAMADA"@[0]);
            assert("NÚMERO DE BASTIDOR"@[0] != "CORREO ELECTRÓNICO"@[0]);
        },
        BoeConcept::Header => {
            assert("HEADER"@[0] != "CARGAS"@[0]);
            assert("HEADER"@[0] != "CÓDIGO"@[0]);
        },
        BoeConcept::Identifier => {
            assert("IDENTIFICADOR"@[0] != "VALOR SUBASTA"@[0]);
        },
        BoeConcept::Idufir => {
            assert("IDUFIR"@[0] != "CARGAS"@[0]);
            assert("IDUFIR"@[0] != "CÓDIGO"@[0]);
            assert("IDUFIR"@[0] != "HEADER"@[0]);
        },
        BoeConcept::JudicialTitle => {
            assert("TÍTULO JURÍDICO"@[1] != "TIPO DE SUBASTA"@[1]);
        },
        BoeConcept::LicensedDate => {
            assert("FECHA MATRICULACIÓN"@[6] != "FECHA DE CONCLUSIÓN"@[6]);
        },
        BoeConcept::LicensePlate => {
            assert("MATRÍCULA"@[0] != "DIRECCIÓN"@[0]);
            assert("MATRÍCULA"@[0] != "LOCALIDAD"@[0]);
        },
        BoeConcept::Localization => {
            assert("DEPÓSITO"@[0] != "TASACIÓN"@[0]);
        },
        BoeConcept::Lots => {
            assert("LOTES"@[0] != "MARCA"@[0]);
        },
        BoeConcept::LotAuctionKind => {
            assert("FORMA DE ADJUDICACIÓN"@[0] != "INFORMACIÓN ADICIONAL"@[0]);
        },
        BoeConcept::MinimumBid => {
            assert("PUJA MÍNIMA"@[0] != "DESCRIPCIÓN"@[0]);
        },
        BoeConcept::Model => {
            assert("MODELO"@[0] != "CARGAS"@[0]);
            assert("MODELO"@[0] != "CÓDIGO"@[0]);
            assert("MODELO"@[0] != "HEADER"@[0]);
            assert("MODELO"@[0] != "IDUFIR"@[0]);
        },
        BoeConcept::Notice => {
            assert("ANUNCIO BOE"@[0] != "DESCRIPCIÓN"@[0]);
            assert("ANUNCIO BOE"@[0] != "PUJA MÍNIMA"@[0]);
        },
        BoeConcept::OwnerStatus => {
            assert("SITUACIÓN POSESORIA"@[0] != "FECHA DE CONCLUSIÓN"@[0]);
            assert("SITUACIÓN POSESORIA"@[0] != "FECHA MATRICULACIÓN"@[0]);
        },
        BoeConcept::Place => {
            assert("PARAJE"@[0] != "CARGAS"@[0]);
            assert("PARAJE"@[0] != "CÓDIGO"@[0]);
            assert("PARAJE"@[0] != "HEADER"@[0]);
            assert("PARAJE"@[0] != "IDUFIR"@[0]);
            assert("PARAJE"@[0] != "MODELO"@[0]);
        },
        BoeConcept::PostalCode => {
            assert("CÓDIGO POSTAL"@[0] != "VALOR SUBASTA"@[0]);
            assert("CÓDIGO POSTAL"@[0] != "IDENTIFICADOR"@[0]);
        },
        BoeConcept::Province => {
            assert("PROVINCIA"@[0] != "DIRECCIÓN"@[0]);
            assert("PROVINCIA"@[0] != "LOCALIDAD"@[0]);
            assert("PROVINCIA"@[0] != "MATRÍCULA"@[0]);
        },
        BoeConcept::PrimaryResidence => {
            assert("VIVIENDA HABITUAL"@[0] != "FECHA ADQUISICIÓN"@[0]);
        },
        BoeConcept::Quota => {
            assert("CUOTA"@[0] != "MARCA"@[0]);
            assert("CUOTA"@[0] != "LOTES"@[0]);
        },
        BoeConcept::RegisterInscription => {
            assert("INSCRIPCIÓN REGISTRAL"@[2] != "INFORMACIÓN ADICIONAL"@[2]);
            assert("INSCRIPCIÓN REGISTRAL"@[0] != "FORMA DE ADJUDICACIÓN"@[0]);
        },
        BoeConcept::StartDate => {
            assert("FECHA DE INICIO"@[0] != "TIPO DE SUBASTA"@[0]);
            assert("FECHA DE INICIO"@[0] != "TÍTULO JURÍDICO"@[0]);
        },
        BoeConcept::Telephone => {
            assert("TELÉFONO"@[1] != "TASACIÓN"@[1]);
            assert("TELÉFONO"@[0] != "DEPÓSITO"@[0]);
        },
        BoeConcept::Visitable => {
            assert("VISITABLE"@[0] != "DIRECCIÓN"@[0]);
            assert("VISITABLE"@[0] != "LOCALIDAD"@[0]);
            assert("VISITABLE"@[0] != "MATRÍCULA"@[0]);
            assert("VISITABLE"@[0] != "PROVINCIA"@[0]);
        },
    }
    assert(concept_name(c).map_values(|ch: char| simple_upper(ch)) =~= concept_name(c));
}
} // verus!
