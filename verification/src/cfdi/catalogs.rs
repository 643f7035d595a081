//! SAT catalogs: each value maps to the code string the SAT publishes for it, and any
//! other code is kept as it was read.
use vstd::prelude::*;

use crate::text::str_eq;

verus! {

/// c_TipoDeComprobante — CFDI document type
#[derive(Debug, Clone, PartialEq, Eq)]
pub enum DocumentType {
    Income,
    Expense,
    Transfer,
    Payment,
    Payroll,
    Unknown(String),
}

impl DocumentType {
    /// The value that a catalog code names, when the code is one of this catalog's.
    pub open spec fn named(code: Seq<char>) -> Option<DocumentType> {
        if code == "I"@ {
            Some(DocumentType::Income)
        } else if code == "E"@ {
            Some(DocumentType::Expense)
        } else if code == "T"@ {
            Some(DocumentType::Transfer)
        } else if code == "P"@ {
            Some(DocumentType::Payment)
        } else if code == "N"@ {
            Some(DocumentType::Payroll)
        } else {
            None
        }
    }

    /// The catalog code of this value.
    pub open spec fn code_of(self) -> Seq<char> {
        match self {
            DocumentType::Income => "I"@,
            DocumentType::Expense => "E"@,
            DocumentType::Transfer => "T"@,
            DocumentType::Payment => "P"@,
            DocumentType::Payroll => "N"@,
            DocumentType::Unknown(s) => s@,
        }
    }

    /// Reads a catalog code; a code the catalog does not list is kept as `Unknown`.
    pub fn from_code(code: &str) -> (r: DocumentType)
        ensures
            DocumentType::named(code@) matches Some(v) ==> r == v,
            DocumentType::named(code@) is None ==> (r matches DocumentType::Unknown(s) && s@ == code@),
    {
        if str_eq(code, "I") {
            DocumentType::Income
        } else if str_eq(code, "E") {
            DocumentType::Expense
        } else if str_eq(code, "T") {
            DocumentType::Transfer
        } else if str_eq(code, "P") {
            DocumentType::Payment
        } else if str_eq(code, "N") {
            DocumentType::Payroll
        } else {
            DocumentType::Unknown(code.to_owned())
        }
    }

    /// The catalog code of this value, as the SAT writes it.
    pub fn code(&self) -> (r: String)
        ensures
            r@ == self.code_of(),
    {
        match self {
            DocumentType::Income => "I".to_owned(),
            DocumentType::Expense => "E".to_owned(),
            DocumentType::Transfer => "T".to_owned(),
            DocumentType::Payment => "P".to_owned(),
            DocumentType::Payroll => "N".to_owned(),
            DocumentType::Unknown(s) => s.clone(),
        }
    }
}

/// Every listed DocumentType reads back from its own code.
pub proof fn lemma_document_type_code_round_trip(v: DocumentType)
    requires
        v !is Unknown,
    ensures
        DocumentType::named(v.code_of()) == Some(v),
{
    reveal_strlit("I");
    assert("I"@.len() == 1 && "I"@[0] == 'I');
    reveal_strlit("E");
    assert("E"@.len() == 1 && "E"@[0] == 'E');
    reveal_strlit("T");
    assert("T"@.len() == 1 && "T"@[0] == 'T');
    reveal_strlit("P");
    assert("P"@.len() == 1 && "P"@[0] == 'P');
    reveal_strlit("N");
    assert("N"@.len() == 1 && "N"@[0] == 'N');
}

/// A code that names a DocumentType is that value's code, so writing a value read from a code gives
/// the code back.
pub proof fn lemma_document_type_named_code(code: Seq<char>)
    ensures
        DocumentType::named(code) matches Some(v) ==> v.code_of() == code,
{
}

/// c_RegimenFiscal — fiscal regime codes
#[derive(Debug, Clone, PartialEq, Eq)]
pub enum FiscalRegime {
    GeneralLegalEntities,
    LegalEntitiesNonProfit,
    SalariedPersons,
    RealEstateLeasing,
    AlienationOrAcquisition,
    OtherIncome,
    Consolidation,
    ForeignResidents,
    DividendIncome,
    BusinessAndProfessional,
    InterestIncome,
    PrizesIncome,
    NoFiscalObligations,
    CooperativeSocieties,
    FiscalIncorporation,
    AgriculturalActivities,
    OptionalGroupsOfCompanies,
    Coordinated,
    DigitalPlatformIncome,
    SimplifiedTrustRegime,
    Unknown(String),
}

impl FiscalRegime {
    /// The value that a catalog code names, when the code is one of this catalog's.
    pub open spec fn named(code: Seq<char>) -> Option<FiscalRegime> {
        if code == "601"@ {
            Some(FiscalRegime::GeneralLegalEntities)
        } else if code == "603"@ {
            Some(FiscalRegime::LegalEntitiesNonProfit)
        } else if code == "605"@ {
            Some(FiscalRegime::SalariedPersons)
        } else if code == "606"@ {
            Some(FiscalRegime::RealEstateLeasing)
        } else if code == "607"@ {
            Some(FiscalRegime::AlienationOrAcquisition)
        } else if code == "608"@ {
            Some(FiscalRegime::OtherIncome)
        } else if code == "609"@ {
            Some(FiscalRegime::Consolidation)
        } else if code == "610"@ {
            Some(FiscalRegime::ForeignResidents)
        } else if code == "611"@ {
            Some(FiscalRegime::DividendIncome)
        } else if code == "612"@ {
            Some(FiscalRegime::BusinessAndProfessional)
        } else if code == "614"@ {
            Some(FiscalRegime::InterestIncome)
        } else if code == "615"@ {
            Some(FiscalRegime::PrizesIncome)
        } else if code == "616"@ {
            Some(FiscalRegime::NoFiscalObligations)
        } else if code == "620"@ {
            Some(FiscalRegime::CooperativeSocieties)
        } else if code == "621"@ {
            Some(FiscalRegime::FiscalIncorporation)
        } else if code == "622"@ {
            Some(FiscalRegime::AgriculturalActivities)
        } else if code == "623"@ {
            Some(FiscalRegime::OptionalGroupsOfCompanies)
        } else if code == "624"@ {
            Some(FiscalRegime::Coordinated)
        } else if code == "625"@ {
            Some(FiscalRegime::DigitalPlatformIncome)
        } else if code == "626"@ {
            Some(FiscalRegime::SimplifiedTrustRegime)
        } else {
            None
        }
    }

    /// The catalog code of this value.
    pub open spec fn code_of(self) -> Seq<char> {
        match self {
            FiscalRegime::GeneralLegalEntities => "601"@,
            FiscalRegime::LegalEntitiesNonProfit => "603"@,
            FiscalRegime::SalariedPersons => "605"@,
            FiscalRegime::RealEstateLeasing => "606"@,
            FiscalRegime::AlienationOrAcquisition => "607"@,
            FiscalRegime::OtherIncome => "608"@,
            FiscalRegime::Consolidation => "609"@,
            FiscalRegime::ForeignResidents => "610"@,
            FiscalRegime::DividendIncome => "611"@,
            FiscalRegime::BusinessAndProfessional => "612"@,
            FiscalRegime::InterestIncome => "614"@,
            FiscalRegime::PrizesIncome => "615"@,
            FiscalRegime::NoFiscalObligations => "616"@,
            FiscalRegime::CooperativeSocieties => "620"@,
            FiscalRegime::FiscalIncorporation => "621"@,
            FiscalRegime::AgriculturalActivities => "622"@,
            FiscalRegime::OptionalGroupsOfCompanies => "623"@,
            FiscalRegime::Coordinated => "624"@,
            FiscalRegime::DigitalPlatformIncome => "625"@,
            FiscalRegime::SimplifiedTrustRegime => "626"@,
            FiscalRegime::Unknown(s) => s@,
        }
    }

    /// Reads a catalog code; a code the catalog does not list is kept as `Unknown`.
    pub fn from_code(code: &str) -> (r: FiscalRegime)
        ensures
            FiscalRegime::named(code@) matches Some(v) ==> r == v,
            FiscalRegime::named(code@) is None ==> (r matches FiscalRegime::Unknown(s) && s@ == code@),
    {
        if str_eq(code, "601") {
            FiscalRegime::GeneralLegalEntities
        } else if str_eq(code, "603") {
            FiscalRegime::LegalEntitiesNonProfit
        } else if str_eq(code, "605") {
            FiscalRegime::SalariedPersons
        } else if str_eq(code, "606") {
            FiscalRegime::RealEstateLeasing
        } else if str_eq(code, "607") {
            FiscalRegime::AlienationOrAcquisition
        } else if str_eq(code, "608") {
            FiscalRegime::OtherIncome
        } else if str_eq(code, "609") {
            FiscalRegime::Consolidation
        } else if str_eq(code, "610") {
            FiscalRegime::ForeignResidents
        } else if str_eq(code, "611") {
            FiscalRegime::DividendIncome
        } else if str_eq(code, "612") {
            FiscalRegime::BusinessAndProfessional
        } else if str_eq(code, "614") {
            FiscalRegime::InterestIncome
        } else if str_eq(code, "615") {
            FiscalRegime::PrizesIncome
        } else if str_eq(code, "616") {
            FiscalRegime::NoFiscalObligations
        } else if str_eq(code, "620") {
            FiscalRegime::CooperativeSocieties
        } else if str_eq(code, "621") {
            FiscalRegime::FiscalIncorporation
        } else if str_eq(code, "622") {
            FiscalRegime::AgriculturalActivities
        } else if str_eq(code, "623") {
            FiscalRegime::OptionalGroupsOfCompanies
        } else if str_eq(code, "624") {
            FiscalRegime::Coordinated
        } else if str_eq(code, "625") {
            FiscalRegime::DigitalPlatformIncome
        } else if str_eq(code, "626") {
            FiscalRegime::SimplifiedTrustRegime
        } else {
            FiscalRegime::Unknown(code.to_owned())
        }
    }

    /// The catalog code of this value, as the SAT writes it.
    pub fn code(&self) -> (r: String)
        ensures
            r@ == self.code_of(),
    {
        match self {
            FiscalRegime::GeneralLegalEntities => "601".to_owned(),
            FiscalRegime::LegalEntitiesNonProfit => "603".to_owned(),
            FiscalRegime::SalariedPersons => "605".to_owned(),
            FiscalRegime::RealEstateLeasing => "606".to_owned(),
            FiscalRegime::AlienationOrAcquisition => "607".to_owned(),
            FiscalRegime::OtherIncome => "608".to_owned(),
            FiscalRegime::Consolidation => "609".to_owned(),
            FiscalRegime::ForeignResidents => "610".to_owned(),
            FiscalRegime::DividendIncome => "611".to_owned(),
            FiscalRegime::BusinessAndProfessional => "612".to_owned(),
            FiscalRegime::InterestIncome => "614".to_owned(),
            FiscalRegime::PrizesIncome => "615".to_owned(),
            FiscalRegime::NoFiscalObligations => "616".to_owned(),
            FiscalRegime::CooperativeSocieties => "620".to_owned(),
            FiscalRegime::FiscalIncorporation => "621".to_owned(),
            FiscalRegime::AgriculturalActivities => "622".to_owned(),
            FiscalRegime::OptionalGroupsOfCompanies => "623".to_owned(),
            FiscalRegime::Coordinated => "624".to_owned(),
            FiscalRegime::DigitalPlatformIncome => "625".to_owned(),
            FiscalRegime::SimplifiedTrustRegime => "626".to_owned(),
            FiscalRegime::Unknown(s) => s.clone(),
        }
    }
}

/// Every listed FiscalRegime reads back from its own code.
pub proof fn lemma_fiscal_regime_code_round_trip(v: FiscalRegime)
    requires
        v !is Unknown,
    ensures
        FiscalRegime::named(v.code_of()) == Some(v),
{
    reveal_strlit("601");
    assert("601"@.len() == 3 && "601"@[0] == '6' && "601"@[1] == '0' && "601"@[2] == '1');
    reveal_strlit("603");
    assert("603"@.len() == 3 && "603"@[0] == '6' && "603"@[1] == '0' && "603"@[2] == '3');
    reveal_strlit("605");
    assert("605"@.len() == 3 && "605"@[0] == '6' && "605"@[1] == '0' && "605"@[2] == '5');
    reveal_strlit("606");
    assert("606"@.len() == 3 && "606"@[0] == '6' && "606"@[1] == '0' && "606"@[2] == '6');
    reveal_strlit("607");
    assert("607"@.len() == 3 && "607"@[0] == '6' && "607"@[1] == '0' && "607"@[2] == '7');
    reveal_strlit("608");
    assert("608"@.len() == 3 && "608"@[0] == '6' && "608"@[1] == '0' && "608"@[2] == '8');
    reveal_strlit("609");
    assert("609"@.len() == 3 && "609"@[0] == '6' && "609"@[1] == '0' && "609"@[2] == '9');
    reveal_strlit("610");
    assert("610"@.len() == 3 && "610"@[0] == '6' && "610"@[1] == '1' && "610"@[2] == '0');
    reveal_strlit("611");
    assert("611"@.len() == 3 && "611"@[0] == '6' && "611"@[1] == '1' && "611"@[2] == '1');
    reveal_strlit("612");
    assert("612"@.len() == 3 && "612"@[0] == '6' && "612"@[1] == '1' && "612"@[2] == '2');
    reveal_strlit("614");
    assert("614"@.len() == 3 && "614"@[0] == '6' && "614"@[1] == '1' && "614"@[2] == '4');
    reveal_strlit("615");
    assert("615"@.len() == 3 && "615"@[0] == '6' && "615"@[1] == '1' && "615"@[2] == '5');
    reveal_strlit("616");
    assert("616"@.len() == 3 && "616"@[0] == '6' && "616"@[1] == '1' && "616"@[2] == '6');
    reveal_strlit("620");
    assert("620"@.len() == 3 && "620"@[0] == '6' && "620"@[1] == '2' && "620"@[2] == '0');
    reveal_strlit("621");
    assert("621"@.len() == 3 && "621"@[0] == '6' && "621"@[1] == '2' && "621"@[2] == '1');
    reveal_strlit("622");
    assert("622"@.len() == 3 && "622"@[0] == '6' && "622"@[1] == '2' && "622"@[2] == '2');
    reveal_strlit("623");
    assert("623"@.len() == 3 && "623"@[0] == '6' && "623"@[1] == '2' && "623"@[2] == '3');
    reveal_strlit("624");
    assert("624"@.len() == 3 && "624"@[0] == '6' && "624"@[1] == '2' && "624"@[2] == '4');
    reveal_strlit("625");
    assert("625"@.len() == 3 && "625"@[0] == '6' && "625"@[1] == '2' && "625"@[2] == '5');
    reveal_strlit("626");
    assert("626"@.len() == 3 && "626"@[0] == '6' && "626"@[1] == '2' && "626"@[2] == '6');
}

/// A code that names a FiscalRegime is that value's code, so writing a value read from a code gives
/// the code back.
pub proof fn lemma_fiscal_regime_named_code(code: Seq<char>)
    ensures
        FiscalRegime::named(code) matches Some(v) ==> v.code_of() == code,
{
}

/// c_UsoCFDI — CFDI usage purpose codes
#[derive(Debug, Clone, PartialEq, Eq)]
pub enum CfdiUse {
    AcquisitionOfGoods,
    ReturnsDiscountsBonuses,
    GeneralExpenses,
    Construction,
    TransportationEquipment,
    OfficeEquipment,
    ComputingEquipment,
    CommunicationsEquipment,
    ElectricalGenerationEquipment,
    OtherInvestmentConcepts,
    RelatedInvestmentEquipment,
    MedicalExpenses,
    FuneralExpenses,
    Donations,
    MortgageInterest,
    RetirementContributions,
    MedicalInsurance,
    EducationExpenses,
    Housing,
    UnionContributions,
    DependentCareContributions,
    NoFiscalEffects,
    Payments,
    Payroll,
    Unknown(String),
}

impl CfdiUse {
    /// The value that a catalog code names, when the code is one of this catalog's.
    pub open spec fn named(code: Seq<char>) -> Option<CfdiUse> {
        if code == "G01"@ {
            Some(CfdiUse::AcquisitionOfGoods)
        } else if code == "G02"@ {
            Some(CfdiUse::ReturnsDiscountsBonuses)
        } else if code == "G03"@ {
            Some(CfdiUse::GeneralExpenses)
        } else if code == "I01"@ {
            Some(CfdiUse::Construction)
        } else if code == "I02"@ {
            Some(CfdiUse::TransportationEquipment)
        } else if code == "I03"@ {
            Some(CfdiUse::OfficeEquipment)
        } else if code == "I04"@ {
            Some(CfdiUse::ComputingEquipment)
        } else if code == "I05"@ {
            Some(CfdiUse::CommunicationsEquipment)
        } else if code == "I06"@ {
            Some(CfdiUse::ElectricalGenerationEquipment)
        } else if code == "I07"@ {
            Some(CfdiUse::OtherInvestmentConcepts)
        } else if code == "I08"@ {
            Some(CfdiUse::RelatedInvestmentEquipment)
        } else if code == "D01"@ {
            Some(CfdiUse::MedicalExpenses)
        } else if code == "D02"@ {
            Some(CfdiUse::FuneralExpenses)
        } else if code == "D03"@ {
            Some(CfdiUse::Donations)
        } else if code == "D04"@ {
            Some(CfdiUse::MortgageInterest)
        } else if code == "D05"@ {
            Some(CfdiUse::RetirementContributions)
        } else if code == "D06"@ {
            Some(CfdiUse::MedicalInsurance)
        } else if code == "D07"@ {
            Some(CfdiUse::EducationExpenses)
        } else if code == "D08"@ {
            Some(CfdiUse::Housing)
        } else if code == "D09"@ {
            Some(CfdiUse::UnionContributions)
        } else if code == "D10"@ {
            Some(CfdiUse::DependentCareContributions)
        } else if code == "S01"@ {
            Some(CfdiUse::NoFiscalEffects)
        } else if code == "CP01"@ {
            Some(CfdiUse::Payments)
        } else if code == "CN01"@ {
            Some(CfdiUse::Payroll)
        } else {
            None
        }
    }

    /// The catalog code of this value.
    pub open spec fn code_of(self) -> Seq<char> {
        match self {
            CfdiUse::AcquisitionOfGoods => "G01"@,
            CfdiUse::ReturnsDiscountsBonuses => "G02"@,
            CfdiUse::GeneralExpenses => "G03"@,
            CfdiUse::Construction => "I01"@,
            CfdiUse::TransportationEquipment => "I02"@,
            CfdiUse::OfficeEquipment => "I03"@,
            CfdiUse::ComputingEquipment => "I04"@,
            CfdiUse::CommunicationsEquipment => "I05"@,
            CfdiUse::ElectricalGenerationEquipment => "I06"@,
            CfdiUse::OtherInvestmentConcepts => "I07"@,
            CfdiUse::RelatedInvestmentEquipment => "I08"@,
            CfdiUse::MedicalExpenses => "D01"@,
            CfdiUse::FuneralExpenses => "D02"@,
            CfdiUse::Donations => "D03"@,
            CfdiUse::MortgageInterest => "D04"@,
            CfdiUse::RetirementContributions => "D05"@,
            CfdiUse::MedicalInsurance => "D06"@,
            CfdiUse::EducationExpenses => "D07"@,
            CfdiUse::Housing => "D08"@,
            CfdiUse::UnionContributions => "D09"@,
            CfdiUse::DependentCareContributions => "D10"@,
            CfdiUse::NoFiscalEffects => "S01"@,
            CfdiUse::Payments => "CP01"@,
            CfdiUse::Payroll => "CN01"@,
            CfdiUse::Unknown(s) => s@,
        }
    }

    /// Reads a catalog code; a code the catalog does not list is kept as `Unknown`.
    pub fn from_code(code: &str) -> (r: CfdiUse)
        ensures
            CfdiUse::named(code@) matches Some(v) ==> r == v,
            CfdiUse::named(code@) is None ==> (r matches CfdiUse::Unknown(s) && s@ == code@),
    {
        if str_eq(code, "G01") {
            CfdiUse::AcquisitionOfGoods
        } else if str_eq(code, "G02") {
            CfdiUse::ReturnsDiscountsBonuses
        } else if str_eq(code, "G03") {
            CfdiUse::GeneralExpenses
        } else if str_eq(code, "I01") {
            CfdiUse::Construction
        } else if str_eq(code, "I02") {
            CfdiUse::TransportationEquipment
        } else if str_eq(code, "I03") {
            CfdiUse::OfficeEquipment
        } else if str_eq(code, "I04") {
            CfdiUse::ComputingEquipment
        } else if str_eq(code, "I05") {
            CfdiUse::CommunicationsEquipment
        } else if str_eq(code, "I06") {
            CfdiUse::ElectricalGenerationEquipment
        } else if str_eq(code, "I07") {
            CfdiUse::OtherInvestmentConcepts
        } else if str_eq(code, "I08") {
            CfdiUse::RelatedInvestmentEquipment
        } else if str_eq(code, "D01") {
            CfdiUse::MedicalExpenses
        } else if str_eq(code, "D02") {
            CfdiUse::FuneralExpenses
        } else if str_eq(code, "D03") {
            CfdiUse::Donations
        } else if str_eq(code, "D04") {
            CfdiUse::MortgageInterest
        } else if str_eq(code, "D05") {
            CfdiUse::RetirementContributions
        } else if str_eq(code, "D06") {
            CfdiUse::MedicalInsurance
        } else if str_eq(code, "D07") {
            CfdiUse::EducationExpenses
        } else if str_eq(code, "D08") {
            CfdiUse::Housing
        } else if str_eq(code, "D09") {
            CfdiUse::UnionContributions
        } else if str_eq(code, "D10") {
            CfdiUse::DependentCareContributions
        } else if str_eq(code, "S01") {
            CfdiUse::NoFiscalEffects
        } else if str_eq(code, "CP01") {
            CfdiUse::Payments
        } else if str_eq(code, "CN01") {
            CfdiUse::Payroll
        } else {
            CfdiUse::Unknown(code.to_owned())
        }
    }

    /// The catalog code of this value, as the SAT writes it.
    pub fn code(&self) -> (r: String)
        ensures
            r@ == self.code_of(),
    {
        match self {
            CfdiUse::AcquisitionOfGoods => "G01".to_owned(),
            CfdiUse::ReturnsDiscountsBonuses => "G02".to_owned(),
            CfdiUse::GeneralExpenses => "G03".to_owned(),
            CfdiUse::Construction => "I01".to_owned(),
            CfdiUse::TransportationEquipment => "I02".to_owned(),
            CfdiUse::OfficeEquipment => "I03".to_owned(),
            CfdiUse::ComputingEquipment => "I04".to_owned(),
            CfdiUse::CommunicationsEquipment => "I05".to_owned(),
            CfdiUse::ElectricalGenerationEquipment => "I06".to_owned(),
            CfdiUse::OtherInvestmentConcepts => "I07".to_owned(),
            CfdiUse::RelatedInvestmentEquipment => "I08".to_owned(),
            CfdiUse::MedicalExpenses => "D01".to_owned(),
            CfdiUse::FuneralExpenses => "D02".to_owned(),
            CfdiUse::Donations => "D03".to_owned(),
            CfdiUse::MortgageInterest => "D04".to_owned(),
            CfdiUse::RetirementContributions => "D05".to_owned(),
            CfdiUse::MedicalInsurance => "D06".to_owned(),
            CfdiUse::EducationExpenses => "D07".to_owned(),
            CfdiUse::Housing => "D08".to_owned(),
            CfdiUse::UnionContributions => "D09".to_owned(),
            CfdiUse::DependentCareContributions => "D10".to_owned(),
            CfdiUse::NoFiscalEffects => "S01".to_owned(),
            CfdiUse::Payments => "CP01".to_owned(),
            CfdiUse::Payroll => "CN01".to_owned(),
            CfdiUse::Unknown(s) => s.clone(),
        }
    }
}

/// Every listed CfdiUse reads back from its own code.
pub proof fn lemma_cfdi_use_code_round_trip(v: CfdiUse)
    requires
        v !is Unknown,
    ensures
        CfdiUse::named(v.code_of()) == Some(v),
{
    reveal_strlit("G01");
    assert("G01"@.len() == 3 && "G01"@[0] == 'G' && "G01"@[1] == '0' && "G01"@[2] == '1');
    reveal_strlit("G02");
    assert("G02"@.len() == 3 && "G02"@[0] == 'G' && "G02"@[1] == '0' && "G02"@[2] == '2');
    reveal_strlit("G03");
    assert("G03"@.len() == 3 && "G03"@[0] == 'G' && "G03"@[1] == '0' && "G03"@[2] == '3');
    reveal_strlit("I01");
    assert("I01"@.len() == 3 && "I01"@[0] == 'I' && "I01"@[1] == '0' && "I01"@[2] == '1');
    reveal_strlit("I02");
    assert("I02"@.len() == 3 && "I02"@[0] == 'I' && "I02"@[1] == '0' && "I02"@[2] == '2');
    reveal_strlit("I03");
    assert("I03"@.len() == 3 && "I03"@[0] == 'I' && "I03"@[1] == '0' && "I03"@[2] == '3');
    reveal_strlit("I04");
    assert("I04"@.len() == 3 && "I04"@[0] == 'I' && "I04"@[1] == '0' && "I04"@[2] == '4');
    reveal_strlit("I05");
    assert("I05"@.len() == 3 && "I05"@[0] == 'I' && "I05"@[1] == '0' && "I05"@[2] == '5');
    reveal_strlit("I06");
    assert("I06"@.len() == 3 && "I06"@[0] == 'I' && "I06"@[1] == '0' && "I06"@[2] == '6');
    reveal_strlit("I07");
    assert("I07"@.len() == 3 && "I07"@[0] == 'I' && "I07"@[1] == '0' && "I07"@[2] == '7');
    reveal_strlit("I08");
    assert("I08"@.len() == 3 && "I08"@[0] == 'I' && "I08"@[1] == '0' && "I08"@[2] == '8');
    reveal_strlit("D01");
    assert("D01"@.len() == 3 && "D01"@[0] == 'D' && "D01"@[1] == '0' && "D01"@[2] == '1');
    reveal_strlit("D02");
    assert("D02"@.len() == 3 && "D02"@[0] == 'D' && "D02"@[1] == '0' && "D02"@[2] == '2');
    reveal_strlit("D03");
    assert("D03"@.len() == 3 && "D03"@[0] == 'D' && "D03"@[1] == '0' && "D03"@[2] == '3');
    reveal_strlit("D04");
    assert("D04"@.len() == 3 && "D04"@[0] == 'D' && "D04"@[1] == '0' && "D04"@[2] == '4');
    reveal_strlit("D05");
    assert("D05"@.len() == 3 && "D05"@[0] == 'D' && "D05"@[1] == '0' && "D05"@[2] == '5');
    reveal_strlit("D06");
    assert("D06"@.len() == 3 && "D06"@[0] == 'D' && "D06"@[1] == '0' && "D06"@[2] == '6');
    reveal_strlit("D07");
    assert("D07"@.len() == 3 && "D07"@[0] == 'D' && "D07"@[1] == '0' && "D07"@[2] == '7');
    reveal_strlit("D08");
    assert("D08"@.len() == 3 && "D08"@[0] == 'D' && "D08"@[1] == '0' && "D08"@[2] == '8');
    reveal_strlit("D09");
    assert("D09"@.len() == 3 && "D09"@[0] == 'D' && "D09"@[1] == '0' && "D09"@[2] == '9');
    reveal_strlit("D10");
    assert("D10"@.len() == 3 && "D10"@[0] == 'D' && "D10"@[1] == '1' && "D10"@[2] == '0');
    reveal_strlit("S01");
    assert("S01"@.len() == 3 && "S01"@[0] == 'S' && "S01"@[1] == '0' && "S01"@[2] == '1');
    reveal_strlit("CP01");
    assert("CP01"@.len() == 4 && "CP01"@[0] == 'C' && "CP01"@[1] == 'P' && "CP01"@[2] == '0' && "CP01"@[3] == '1');
    reveal_strlit("CN01");
    assert("CN01"@.len() == 4 && "CN01"@[0] == 'C' && "CN01"@[1] == 'N' && "CN01"@[2] == '0' && "CN01"@[3] == '1');
}

/// A code that names a CfdiUse is that value's code, so writing a value read from a code gives
/// the code back.
pub proof fn lemma_cfdi_use_named_code(code: Seq<char>)
    ensures
        CfdiUse::named(code) matches Some(v) ==> v.code_of() == code,
{
}

/// c_FormaPago — payment form codes
#[derive(Debug, Clone, PartialEq, Eq)]
pub enum PaymentForm {
    Cash,
    NominativeCheck,
    ElectronicTransfer,
    CreditCard,
    ElectronicWallet,
    EMoney,
    FoodVouchers,
    PaymentByAssetDelivery,
    PaymentBySubrogation,
    PaymentByConsignment,
    Remission,
    Compensation,
    Novation,
    Confusion,
    DebtRemission,
    Prescription,
    ToCreditorSatisfaction,
    DebitCard,
    ServiceCard,
    AdvanceApplication,
    PaymentIntermediary,
    Cryptocurrency,
    ToBeDefined,
    Unknown(String),
}

impl PaymentForm {
    /// The value that a catalog code names, when the code is one of this catalog's.
    pub open spec fn named(code: Seq<char>) -> Option<PaymentForm> {
        if code == "01"@ {
            Some(PaymentForm::Cash)
        } else if code == "02"@ {
            Some(PaymentForm::NominativeCheck)
        } else if code == "03"@ {
            Some(PaymentForm::ElectronicTransfer)
        } else if code == "04"@ {
            Some(PaymentForm::CreditCard)
        } else if code == "05"@ {
            Some(PaymentForm::ElectronicWallet)
        } else if code == "06"@ {
            Some(PaymentForm::EMoney)
        } else if code == "08"@ {
            Some(PaymentForm::FoodVouchers)
        } else if code == "12"@ {
            Some(PaymentForm::PaymentByAssetDelivery)
        } else if code == "13"@ {
            Some(PaymentForm::PaymentBySubrogation)
        } else if code == "14"@ {
            Some(PaymentForm::PaymentByConsignment)
        } else if code == "15"@ {
            Some(PaymentForm::Remission)
        } else if code == "17"@ {
            Some(PaymentForm::Compensation)
        } else if code == "23"@ {
            Some(PaymentForm::Novation)
        } else if code == "24"@ {
            Some(PaymentForm::Confusion)
        } else if code == "25"@ {
            Some(PaymentForm::DebtRemission)
        } else if code == "26"@ {
            Some(PaymentForm::Prescription)
        } else if code == "27"@ {
            Some(PaymentForm::ToCreditorSatisfaction)
        } else if code == "28"@ {
            Some(PaymentForm::DebitCard)
        } else if code == "29"@ {
            Some(PaymentForm::ServiceCard)
        } else if code == "30"@ {
            Some(PaymentForm::AdvanceApplication)
        } else if code == "31"@ {
            Some(PaymentForm::PaymentIntermediary)
        } else if code == "32"@ {
            Some(PaymentForm::Cryptocurrency)
        } else if code == "99"@ {
            Some(PaymentForm::ToBeDefined)
        } else {
            None
        }
    }

    /// The catalog code of this value.
    pub open spec fn code_of(self) -> Seq<char> {
        match self {
            PaymentForm::Cash => "01"@,
            PaymentForm::NominativeCheck => "02"@,
            PaymentForm::ElectronicTransfer => "03"@,
            PaymentForm::CreditCard => "04"@,
            PaymentForm::ElectronicWallet => "05"@,
            PaymentForm::EMoney => "06"@,
            PaymentForm::FoodVouchers => "08"@,
            PaymentForm::PaymentByAssetDelivery => "12"@,
            PaymentForm::PaymentBySubrogation => "13"@,
            PaymentForm::PaymentByConsignment => "14"@,
            PaymentForm::Remission => "15"@,
            PaymentForm::Compensation => "17"@,
            PaymentForm::Novation => "23"@,
            PaymentForm::Confusion => "24"@,
            PaymentForm::DebtRemission => "25"@,
            PaymentForm::Prescription => "26"@,
            PaymentForm::ToCreditorSatisfaction => "27"@,
            PaymentForm::DebitCard => "28"@,
            PaymentForm::ServiceCard => "29"@,
            PaymentForm::AdvanceApplication => "30"@,
            PaymentForm::PaymentIntermediary => "31"@,
            PaymentForm::Cryptocurrency => "32"@,
            PaymentForm::ToBeDefined => "99"@,
            PaymentForm::Unknown(s) => s@,
        }
    }

    /// Reads a catalog code; a code the catalog does not list is kept as `Unknown`.
    pub fn from_code(code: &str) -> (r: PaymentForm)
        ensures
            PaymentForm::named(code@) matches Some(v) ==> r == v,
            PaymentForm::named(code@) is None ==> (r matches PaymentForm::Unknown(s) && s@ == code@),
    {
        if str_eq(code, "01") {
            PaymentForm::Cash
        } else if str_eq(code, "02") {
            PaymentForm::NominativeCheck
        } else if str_eq(code, "03") {
            PaymentForm::ElectronicTransfer
        } else if str_eq(code, "04") {
            PaymentForm::CreditCard
        } else if str_eq(code, "05") {
            PaymentForm::ElectronicWallet
        } else if str_eq(code, "06") {
            PaymentForm::EMoney
        } else if str_eq(code, "08") {
            PaymentForm::FoodVouchers
        } else if str_eq(code, "12") {
            PaymentForm::PaymentByAssetDelivery
        } else if str_eq(code, "13") {
            PaymentForm::PaymentBySubrogation
        } else if str_eq(code, "14") {
            PaymentForm::PaymentByConsignment
        } else if str_eq(code, "15") {
            PaymentForm::Remission
        } else if str_eq(code, "17") {
            PaymentForm::Compensation
        } else if str_eq(code, "23") {
            PaymentForm::Novation
        } else if str_eq(code, "24") {
            PaymentForm::Confusion
        } else if str_eq(code, "25") {
            PaymentForm::DebtRemission
        } else if str_eq(code, "26") {
            PaymentForm::Prescription
        } else if str_eq(code, "27") {
            PaymentForm::ToCreditorSatisfaction
        } else if str_eq(code, "28") {
            PaymentForm::DebitCard
        } else if str_eq(code, "29") {
            PaymentForm::ServiceCard
        } else if str_eq(code, "30") {
            PaymentForm::AdvanceApplication
        } else if str_eq(code, "31") {
            PaymentForm::PaymentIntermediary
        } else if str_eq(code, "32") {
            PaymentForm::Cryptocurrency
        } else if str_eq(code, "99") {
            PaymentForm::ToBeDefined
        } else {
            PaymentForm::Unknown(code.to_owned())
        }
    }

    /// The catalog code of this value, as the SAT writes it.
    pub fn code(&self) -> (r: String)
        ensures
            r@ == self.code_of(),
    {
        match self {
            PaymentForm::Cash => "01".to_owned(),
            PaymentForm::NominativeCheck => "02".to_owned(),
            PaymentForm::ElectronicTransfer => "03".to_owned(),
            PaymentForm::CreditCard => "04".to_owned(),
            PaymentForm::ElectronicWallet => "05".to_owned(),
            PaymentForm::EMoney => "06".to_owned(),
            PaymentForm::FoodVouchers => "08".to_owned(),
            PaymentForm::PaymentByAssetDelivery => "12".to_owned(),
            PaymentForm::PaymentBySubrogation => "13".to_owned(),
            PaymentForm::PaymentByConsignment => "14".to_owned(),
            PaymentForm::Remission => "15".to_owned(),
            PaymentForm::Compensation => "17".to_owned(),
            PaymentForm::Novation => "23".to_owned(),
            PaymentForm::Confusion => "24".to_owned(),
            PaymentForm::DebtRemission => "25".to_owned(),
            PaymentForm::Prescription => "26".to_owned(),
            PaymentForm::ToCreditorSatisfaction => "27".to_owned(),
            PaymentForm::DebitCard => "28".to_owned(),
            PaymentForm::ServiceCard => "29".to_owned(),
            PaymentForm::AdvanceApplication => "30".to_owned(),
            PaymentForm::PaymentIntermediary => "31".to_owned(),
            PaymentForm::Cryptocurrency => "32".to_owned(),
            PaymentForm::ToBeDefined => "99".to_owned(),
            PaymentForm::Unknown(s) => s.clone(),
        }
    }
}

/// Every listed PaymentForm reads back from its own code.
pub proof fn lemma_payment_form_code_round_trip(v: PaymentForm)
    requires
        v !is Unknown,
    ensures
        PaymentForm::named(v.code_of()) == Some(v),
{
    reveal_strlit("01");
    assert("01"@.len() == 2 && "01"@[0] == '0' && "01"@[1] == '1');
    reveal_strlit("02");
    assert("02"@.len() == 2 && "02"@[0] == '0' && "02"@[1] == '2');
    reveal_strlit("03");
    assert("03"@.len() == 2 && "03"@[0] == '0' && "03"@[1] == '3');
    reveal_strlit("04");
    assert("04"@.len() == 2 && "04"@[0] == '0' && "04"@[1] == '4');
    reveal_strlit("05");
    assert("05"@.len() == 2 && "05"@[0] == '0' && "05"@[1] == '5');
    reveal_strlit("06");
    assert("06"@.len() == 2 && "06"@[0] == '0' && "06"@[1] == '6');
    reveal_strlit("08");
    assert("08"@.len() == 2 && "08"@[0] == '0' && "08"@[1] == '8');
    reveal_strlit("12");
    assert("12"@.len() == 2 && "12"@[0] == '1' && "12"@[1] == '2');
    reveal_strlit("13");
    assert("13"@.len() == 2 && "13"@[0] == '1' && "13"@[1] == '3');
    reveal_strlit("14");
    assert("14"@.len() == 2 && "14"@[0] == '1' && "14"@[1] == '4');
    reveal_strlit("15");
    assert("15"@.len() == 2 && "15"@[0] == '1' && "15"@[1] == '5');
    reveal_strlit("17");
    assert("17"@.len() == 2 && "17"@[0] == '1' && "17"@[1] == '7');
    reveal_strlit("23");
    assert("23"@.len() == 2 && "23"@[0] == '2' && "23"@[1] == '3');
    reveal_strlit("24");
    assert("24"@.len() == 2 && "24"@[0] == '2' && "24"@[1] == '4');
    reveal_strlit("25");
    assert("25"@.len() == 2 && "25"@[0] == '2' && "25"@[1] == '5');
    reveal_strlit("26");
    assert("26"@.len() == 2 && "26"@[0] == '2' && "26"@[1] == '6');
    reveal_strlit("27");
    assert("27"@.len() == 2 && "27"@[0] == '2' && "27"@[1] == '7');
    reveal_strlit("28");
    assert("28"@.len() == 2 && "28"@[0] == '2' && "28"@[1] == '8');
    reveal_strlit("29");
    assert("29"@.len() == 2 && "29"@[0] == '2' && "29"@[1] == '9');
    reveal_strlit("30");
    assert("30"@.len() == 2 && "30"@[0] == '3' && "30"@[1] == '0');
    reveal_strlit("31");
    assert("31"@.len() == 2 && "31"@[0] == '3' && "31"@[1] == '1');
    reveal_strlit("32");
    assert("32"@.len() == 2 && "32"@[0] == '3' && "32"@[1] == '2');
    reveal_strlit("99");
    assert("99"@.len() == 2 && "99"@[0] == '9' && "99"@[1] == '9');
}

/// A code that names a PaymentForm is that value's code, so writing a value read from a code gives
/// the code back.
pub proof fn lemma_payment_form_named_code(code: Seq<char>)
    ensures
        PaymentForm::named(code) matches Some(v) ==> v.code_of() == code,
{
}

/// c_MetodoPago — payment method codes
#[derive(Debug, Clone, PartialEq, Eq)]
pub enum PaymentMethod {
    SinglePayment,
    Installments,
    Unknown(String),
}

impl PaymentMethod {
    /// The value that a catalog code names, when the code is one of this catalog's.
    pub open spec fn named(code: Seq<char>) -> Option<PaymentMethod> {
        if code == "PUE"@ {
            Some(PaymentMethod::SinglePayment)
        } else if code == "PPD"@ {
            Some(PaymentMethod::Installments)
        } else {
            None
        }
    }

    /// The catalog code of this value.
    pub open spec fn code_of(self) -> Seq<char> {
        match self {
            PaymentMethod::SinglePayment => "PUE"@,
            PaymentMethod::Installments => "PPD"@,
            PaymentMethod::Unknown(s) => s@,
        }
    }

    /// Reads a catalog code; a code the catalog does not list is kept as `Unknown`.
    pub fn from_code(code: &str) -> (r: PaymentMethod)
        ensures
            PaymentMethod::named(code@) matches Some(v) ==> r == v,
            PaymentMethod::named(code@) is None ==> (r matches PaymentMethod::Unknown(s) && s@ == code@),
    {
        if str_eq(code, "PUE") {
            PaymentMethod::SinglePayment
        } else if str_eq(code, "PPD") {
            PaymentMethod::Installments
        } else {
            PaymentMethod::Unknown(code.to_owned())
        }
    }

    /// The catalog code of this value, as the SAT writes it.
    pub fn code(&self) -> (r: String)
        ensures
            r@ == self.code_of(),
    {
        match self {
            PaymentMethod::SinglePayment => "PUE".to_owned(),
            PaymentMethod::Installments => "PPD".to_owned(),
            PaymentMethod::Unknown(s) => s.clone(),
        }
    }
}

/// Every listed PaymentMethod reads back from its own code.
pub proof fn lemma_payment_method_code_round_trip(v: PaymentMethod)
    requires
        v !is Unknown,
    ensures
        PaymentMethod::named(v.code_of()) == Some(v),
{
    reveal_strlit("PUE");
    assert("PUE"@.len() == 3 && "PUE"@[0] == 'P' && "PUE"@[1] == 'U' && "PUE"@[2] == 'E');
    reveal_strlit("PPD");
    assert("PPD"@.len() == 3 && "PPD"@[0] == 'P' && "PPD"@[1] == 'P' && "PPD"@[2] == 'D');
}

/// A code that names a PaymentMethod is that value's code, so writing a value read from a code gives
/// the code back.
pub proof fn lemma_payment_method_named_code(code: Seq<char>)
    ensures
        PaymentMethod::named(code) matches Some(v) ==> v.code_of() == code,
{
}

/// c_Impuesto — tax type codes
#[derive(Debug, Clone, PartialEq, Eq)]
pub enum TaxType {
    Isr,
    Iva,
    Ieps,
    Unknown(String),
}

impl TaxType {
    /// The value that a catalog code names, when the code is one of this catalog's.
    pub open spec fn named(code: Seq<char>) -> Option<TaxType> {
        if code == "001"@ {
            Some(TaxType::Isr)
        } else if code == "002"@ {
            Some(TaxType::Iva)
        } else if code == "003"@ {
            Some(TaxType::Ieps)
        } else {
            None
        }
    }

    /// The catalog code of this value.
    pub open spec fn code_of(self) -> Seq<char> {
        match self {
            TaxType::Isr => "001"@,
            TaxType::Iva => "002"@,
            TaxType::Ieps => "003"@,
            TaxType::Unknown(s) => s@,
        }
    }

    /// Reads a catalog code; a code the catalog does not list is kept as `Unknown`.
    pub fn from_code(code: &str) -> (r: TaxType)
        ensures
            TaxType::named(code@) matches Some(v) ==> r == v,
            TaxType::named(code@) is None ==> (r matches TaxType::Unknown(s) && s@ == code@),
    {
        if str_eq(code, "001") {
            TaxType::Isr
        } else if str_eq(code, "002") {
            TaxType::Iva
        } else if str_eq(code, "003") {
            TaxType::Ieps
        } else {
            TaxType::Unknown(code.to_owned())
        }
    }

    /// The catalog code of this value, as the SAT writes it.
    pub fn code(&self) -> (r: String)
        ensures
            r@ == self.code_of(),
    {
        match self {
            TaxType::Isr => "001".to_owned(),
            TaxType::Iva => "002".to_owned(),
            TaxType::Ieps => "003".to_owned(),
            TaxType::Unknown(s) => s.clone(),
        }
    }
}

/// Every listed TaxType reads back from its own code.
pub proof fn lemma_tax_type_code_round_trip(v: TaxType)
    requires
        v !is Unknown,
    ensures
        TaxType::named(v.code_of()) == Some(v),
{
    reveal_strlit("001");
    assert("001"@.len() == 3 && "001"@[0] == '0' && "001"@[1] == '0' && "001"@[2] == '1');
    reveal_strlit("002");
    assert("002"@.len() == 3 && "002"@[0] == '0' && "002"@[1] == '0' && "002"@[2] == '2');
    reveal_strlit("003");
    assert("003"@.len() == 3 && "003"@[0] == '0' && "003"@[1] == '0' && "003"@[2] == '3');
}

/// A code that names a TaxType is that value's code, so writing a value read from a code gives
/// the code back.
pub proof fn lemma_tax_type_named_code(code: Seq<char>)
    ensures
        TaxType::named(code) matches Some(v) ==> v.code_of() == code,
{
}

/// c_TipoFactor — tax calculation factor type
#[derive(Debug, Clone, PartialEq, Eq)]
pub enum TaxFactor {
    Rate,
    Amount,
    Exempt,
    Unknown(String),
}

impl TaxFactor {
    /// The value that a catalog code names, when the code is one of this catalog's.
    pub open spec fn named(code: Seq<char>) -> Option<TaxFactor> {
        if code == "Tasa"@ {
            Some(TaxFactor::Rate)
        } else if code == "Cuota"@ {
            Some(TaxFactor::Amount)
        } else if code == "Exento"@ {
            Some(TaxFactor::Exempt)
        } else {
            None
        }
    }

    /// The catalog code of this value.
    pub open spec fn code_of(self) -> Seq<char> {
        match self {
            TaxFactor::Rate => "Tasa"@,
            TaxFactor::Amount => "Cuota"@,
            TaxFactor::Exempt => "Exento"@,
            TaxFactor::Unknown(s) => s@,
        }
    }

    /// Reads a catalog code; a code the catalog does not list is kept as `Unknown`.
    pub fn from_code(code: &str) -> (r: TaxFactor)
        ensures
            TaxFactor::named(code@) matches Some(v) ==> r == v,
            TaxFactor::named(code@) is None ==> (r matches TaxFactor::Unknown(s) && s@ == code@),
    {
        if str_eq(code, "Tasa") {
            TaxFactor::Rate
        } else if str_eq(code, "Cuota") {
            TaxFactor::Amount
        } else if str_eq(code, "Exento") {
            TaxFactor::Exempt
        } else {
            TaxFactor::Unknown(code.to_owned())
        }
    }

    /// The catalog code of this value, as the SAT writes it.
    pub fn code(&self) -> (r: String)
        ensures
            r@ == self.code_of(),
    {
        match self {
            TaxFactor::Rate => "Tasa".to_owned(),
            TaxFactor::Amount => "Cuota".to_owned(),
            TaxFactor::Exempt => "Exento".to_owned(),
            TaxFactor::Unknown(s) => s.clone(),
        }
    }
}

/// Every listed TaxFactor reads back from its own code.
pub proof fn lemma_tax_factor_code_round_trip(v: TaxFactor)
    requires
        v !is Unknown,
    ensures
        TaxFactor::named(v.code_of()) == Some(v),
{
    reveal_strlit("Tasa");
    assert("Tasa"@.len() == 4 && "Tasa"@[0] == 'T' && "Tasa"@[1] == 'a' && "Tasa"@[2] == 's' && "Tasa"@[3] == 'a');
    reveal_strlit("Cuota");
    assert("Cuota"@.len() == 5 && "Cuota"@[0] == 'C' && "Cuota"@[1] == 'u' && "Cuota"@[2] == 'o' && "Cuota"@[3] == 't' && "Cuota"@[4] == 'a');
    reveal_strlit("Exento");
    assert("Exento"@.len() == 6 && "Exento"@[0] == 'E' && "Exento"@[1] == 'x' && "Exento"@[2] == 'e' && "Exento"@[3] == 'n' && "Exento"@[4] == 't' && "Exento"@[5] == 'o');
}

/// A code that names a TaxFactor is that value's code, so writing a value read from a code gives
/// the code back.
pub proof fn lemma_tax_factor_named_code(code: Seq<char>)
    ensures
        TaxFactor::named(code) matches Some(v) ==> v.code_of() == code,
{
}

/// c_ObjetoImp — tax object classification
#[derive(Debug, Clone, PartialEq, Eq)]
pub enum TaxObject {
    NotSubject,
    Subject,
    SubjectNoBreakdown,
    SubjectNoTax,
    SubjectPartial,
    SubjectNoVatTransfer,
    Unknown(String),
}

impl TaxObject {
    /// The value that a catalog code names, when the code is one of this catalog's.
    pub open spec fn named(code: Seq<char>) -> Option<TaxObject> {
        if code == "01"@ {
            Some(TaxObject::NotSubject)
        } else if code == "02"@ {
            Some(TaxObject::Subject)
        } else if code == "03"@ {
            Some(TaxObject::SubjectNoBreakdown)
        } else if code == "04"@ {
            Some(TaxObject::SubjectNoTax)
        } else if code == "05"@ {
            Some(TaxObject::SubjectPartial)
        } else if code == "06"@ {
            Some(TaxObject::SubjectNoVatTransfer)
        } else {
            None
        }
    }

    /// The catalog code of this value.
    pub open spec fn code_of(self) -> Seq<char> {
        match self {
            TaxObject::NotSubject => "01"@,
            TaxObject::Subject => "02"@,
            TaxObject::SubjectNoBreakdown => "03"@,
            TaxObject::SubjectNoTax => "04"@,
            TaxObject::SubjectPartial => "05"@,
            TaxObject::SubjectNoVatTransfer => "06"@,
            TaxObject::Unknown(s) => s@,
        }
    }

    /// Reads a catalog code; a code the catalog does not list is kept as `Unknown`.
    pub fn from_code(code: &str) -> (r: TaxObject)
        ensures
            TaxObject::named(code@) matches Some(v) ==> r == v,
            TaxObject::named(code@) is None ==> (r matches TaxObject::Unknown(s) && s@ == code@),
    {
        if str_eq(code, "01") {
            TaxObject::NotSubject
        } else if str_eq(code, "02") {
            TaxObject::Subject
        } else if str_eq(code, "03") {
            TaxObject::SubjectNoBreakdown
        } else if str_eq(code, "04") {
            TaxObject::SubjectNoTax
        } else if str_eq(code, "05") {
            TaxObject::SubjectPartial
        } else if str_eq(code, "06") {
            TaxObject::SubjectNoVatTransfer
        } else {
            TaxObject::Unknown(code.to_owned())
        }
    }

    /// The catalog code of this value, as the SAT writes it.
    pub fn code(&self) -> (r: String)
        ensures
            r@ == self.code_of(),
    {
        match self {
            TaxObject::NotSubject => "01".to_owned(),
            TaxObject::Subject => "02".to_owned(),
            TaxObject::SubjectNoBreakdown => "03".to_owned(),
            TaxObject::SubjectNoTax => "04".to_owned(),
            TaxObject::SubjectPartial => "05".to_owned(),
            TaxObject::SubjectNoVatTransfer => "06".to_owned(),
            TaxObject::Unknown(s) => s.clone(),
        }
    }
}

/// Every listed TaxObject reads back from its own code.
pub proof fn lemma_tax_object_code_round_trip(v: TaxObject)
    requires
        v !is Unknown,
    ensures
        TaxObject::named(v.code_of()) == Some(v),
{
    reveal_strlit("01");
    assert("01"@.len() == 2 && "01"@[0] == '0' && "01"@[1] == '1');
    reveal_strlit("02");
    assert("02"@.len() == 2 && "02"@[0] == '0' && "02"@[1] == '2');
    reveal_strlit("03");
    assert("03"@.len() == 2 && "03"@[0] == '0' && "03"@[1] == '3');
    reveal_strlit("04");
    assert("04"@.len() == 2 && "04"@[0] == '0' && "04"@[1] == '4');
    reveal_strlit("05");
    assert("05"@.len() == 2 && "05"@[0] == '0' && "05"@[1] == '5');
    reveal_strlit("06");
    assert("06"@.len() == 2 && "06"@[0] == '0' && "06"@[1] == '6');
}

/// A code that names a TaxObject is that value's code, so writing a value read from a code gives
/// the code back.
pub proof fn lemma_tax_object_named_code(code: Seq<char>)
    ensures
        TaxObject::named(code) matches Some(v) ==> v.code_of() == code,
{
}

/// c_Exportacion — export type
#[derive(Debug, Clone, PartialEq, Eq)]
pub enum ExportType {
    NotApplicable,
    Definitive,
    Temporary,
    DefinitiveOther,
    Unknown(String),
}

impl ExportType {
    /// The value that a catalog code names, when the code is one of this catalog's.
    pub open spec fn named(code: Seq<char>) -> Option<ExportType> {
        if code == "01"@ {
            Some(ExportType::NotApplicable)
        } else if code == "02"@ {
            Some(ExportType::Definitive)
        } else if code == "03"@ {
            Some(ExportType::Temporary)
        } else if code == "04"@ {
            Some(ExportType::DefinitiveOther)
        } else {
            None
        }
    }

    /// The catalog code of this value.
    pub open spec fn code_of(self) -> Seq<char> {
        match self {
            ExportType::NotApplicable => "01"@,
            ExportType::Definitive => "02"@,
            ExportType::Temporary => "03"@,
            ExportType::DefinitiveOther => "04"@,
            ExportType::Unknown(s) => s@,
        }
    }

    /// Reads a catalog code; a code the catalog does not list is kept as `Unknown`.
    pub fn from_code(code: &str) -> (r: ExportType)
        ensures
            ExportType::named(code@) matches Some(v) ==> r == v,
            ExportType::named(code@) is None ==> (r matches ExportType::Unknown(s) && s@ == code@),
    {
        if str_eq(code, "01") {
            ExportType::NotApplicable
        } else if str_eq(code, "02") {
            ExportType::Definitive
        } else if str_eq(code, "03") {
            ExportType::Temporary
        } else if str_eq(code, "04") {
            ExportType::DefinitiveOther
        } else {
            ExportType::Unknown(code.to_owned())
        }
    }

    /// The catalog code of this value, as the SAT writes it.
    pub fn code(&self) -> (r: String)
        ensures
            r@ == self.code_of(),
    {
        match self {
            ExportType::NotApplicable => "01".to_owned(),
            ExportType::Definitive => "02".to_owned(),
            ExportType::Temporary => "03".to_owned(),
            ExportType::DefinitiveOther => "04".to_owned(),
            ExportType::Unknown(s) => s.clone(),
        }
    }
}

/// Every listed ExportType reads back from its own code.
pub proof fn lemma_export_type_code_round_trip(v: ExportType)
    requires
        v !is Unknown,
    ensures
        ExportType::named(v.code_of()) == Some(v),
{
    reveal_strlit("01");
    assert("01"@.len() == 2 && "01"@[0] == '0' && "01"@[1] == '1');
    reveal_strlit("02");
    assert("02"@.len() == 2 && "02"@[0] == '0' && "02"@[1] == '2');
    reveal_strlit("03");
    assert("03"@.len() == 2 && "03"@[0] == '0' && "03"@[1] == '3');
    reveal_strlit("04");
    assert("04"@.len() == 2 && "04"@[0] == '0' && "04"@[1] == '4');
}

/// A code that names a ExportType is that value's code, so writing a value read from a code gives
/// the code back.
pub proof fn lemma_export_type_named_code(code: Seq<char>)
    ensures
        ExportType::named(code) matches Some(v) ==> v.code_of() == code,
{
}

/// c_TipoRelacion — CFDI relationship type between linked documents
#[derive(Debug, Clone, PartialEq, Eq)]
pub enum RelationType {
    CreditNote,
    DebitNote,
    MerchandiseReturn,
    Substitution,
    TransferOfPreviousGoods,
    InvoiceFromTransfer,
    AdvanceApplication,
    Unknown(String),
}

impl RelationType {
    /// The value that a catalog code names, when the code is one of this catalog's.
    pub open spec fn named(code: Seq<char>) -> Option<RelationType> {
        if code == "01"@ {
            Some(RelationType::CreditNote)
        } else if code == "02"@ {
            Some(RelationType::DebitNote)
        } else if code == "03"@ {
            Some(RelationType::MerchandiseReturn)
        } else if code == "04"@ {
            Some(RelationType::Substitution)
        } else if code == "05"@ {
            Some(RelationType::TransferOfPreviousGoods)
        } else if code == "06"@ {
            Some(RelationType::InvoiceFromTransfer)
        } else if code == "07"@ {
            Some(RelationType::AdvanceApplication)
        } else {
            None
        }
    }

    /// The catalog code of this value.
    pub open spec fn code_of(self) -> Seq<char> {
        match self {
            RelationType::CreditNote => "01"@,
            RelationType::DebitNote => "02"@,
            RelationType::MerchandiseReturn => "03"@,
            RelationType::Substitution => "04"@,
            RelationType::TransferOfPreviousGoods => "05"@,
            RelationType::InvoiceFromTransfer => "06"@,
            RelationType::AdvanceApplication => "07"@,
            RelationType::Unknown(s) => s@,
        }
    }

    /// Reads a catalog code; a code the catalog does not list is kept as `Unknown`.
    pub fn from_code(code: &str) -> (r: RelationType)
        ensures
            RelationType::named(code@) matches Some(v) ==> r == v,
            RelationType::named(code@) is None ==> (r matches RelationType::Unknown(s) && s@ == code@),
    {
        if str_eq(code, "01") {
            RelationType::CreditNote
        } else if str_eq(code, "02") {
            RelationType::DebitNote
        } else if str_eq(code, "03") {
            RelationType::MerchandiseReturn
        } else if str_eq(code, "04") {
            RelationType::Substitution
        } else if str_eq(code, "05") {
            RelationType::TransferOfPreviousGoods
        } else if str_eq(code, "06") {
            RelationType::InvoiceFromTransfer
        } else if str_eq(code, "07") {
            RelationType::AdvanceApplication
        } else {
            RelationType::Unknown(code.to_owned())
        }
    }

    /// The catalog code of this value, as the SAT writes it.
    pub fn code(&self) -> (r: String)
        ensures
            r@ == self.code_of(),
    {
        match self {
            RelationType::CreditNote => "01".to_owned(),
            RelationType::DebitNote => "02".to_owned(),
            RelationType::MerchandiseReturn => "03".to_owned(),
            RelationType::Substitution => "04".to_owned(),
            RelationType::TransferOfPreviousGoods => "05".to_owned(),
            RelationType::InvoiceFromTransfer => "06".to_owned(),
            RelationType::AdvanceApplication => "07".to_owned(),
            RelationType::Unknown(s) => s.clone(),
        }
    }
}

/// Every listed RelationType reads back from its own code.
pub proof fn lemma_relation_type_code_round_trip(v: RelationType)
    requires
        v !is Unknown,
    ensures
        RelationType::named(v.code_of()) == Some(v),
{
    reveal_strlit("01");
    assert("01"@.len() == 2 && "01"@[0] == '0' && "01"@[1] == '1');
    reveal_strlit("02");
    assert("02"@.len() == 2 && "02"@[0] == '0' && "02"@[1] == '2');
    reveal_strlit("03");
    assert("03"@.len() == 2 && "03"@[0] == '0' && "03"@[1] == '3');
    reveal_strlit("04");
    assert("04"@.len() == 2 && "04"@[0] == '0' && "04"@[1] == '4');
    reveal_strlit("05");
    assert("05"@.len() == 2 && "05"@[0] == '0' && "05"@[1] == '5');
    reveal_strlit("06");
    assert("06"@.len() == 2 && "06"@[0] == '0' && "06"@[1] == '6');
    reveal_strlit("07");
    assert("07"@.len() == 2 && "07"@[0] == '0' && "07"@[1] == '7');
}

/// A code that names a RelationType is that value's code, so writing a value read from a code gives
/// the code back.
pub proof fn lemma_relation_type_named_code(code: Seq<char>)
    ensures
        RelationType::named(code) matches Some(v) ==> v.code_of() == code,
{
}

/// c_Moneda — currency codes (ISO 4217 subset used by SAT + common ones)
#[derive(Debug, Clone, PartialEq, Eq)]
pub enum Currency {
    Mxn,
    Usd,
    Eur,
    Cad,
    Gbp,
    Jpy,
    Chf,
    Aud,
    Cny,
    Brl,
    Cop,
    Ars,
    Clp,
    Pen,
    Xxx,
    Unknown(String),
}

impl Currency {
    /// The value that a catalog code names, when the code is one of this catalog's.
    pub open spec fn named(code: Seq<char>) -> Option<Currency> {
        if code == "MXN"@ {
            Some(Currency::Mxn)
        } else if code == "USD"@ {
            Some(Currency::Usd)
        } else if code == "EUR"@ {
            Some(Currency::Eur)
        } else if code == "CAD"@ {
            Some(Currency::Cad)
        } else if code == "GBP"@ {
            Some(Currency::Gbp)
        } else if code == "JPY"@ {
            Some(Currency::Jpy)
        } else if code == "CHF"@ {
            Some(Currency::Chf)
        } else if code == "AUD"@ {
            Some(Currency::Aud)
        } else if code == "CNY"@ {
            Some(Currency::Cny)
        } else if code == "BRL"@ {
            Some(Currency::Brl)
        } else if code == "COP"@ {
            Some(Currency::Cop)
        } else if code == "ARS"@ {
            Some(Currency::Ars)
        } else if code == "CLP"@ {
            Some(Currency::Clp)
        } else if code == "PEN"@ {
            Some(Currency::Pen)
        } else if code == "XXX"@ {
            Some(Currency::Xxx)
        } else {
            None
        }
    }

    /// The catalog code of this value.
    pub open spec fn code_of(self) -> Seq<char> {
        match self {
            Currency::Mxn => "MXN"@,
            Currency::Usd => "USD"@,
            Currency::Eur => "EUR"@,
            Currency::Cad => "CAD"@,
            Currency::Gbp => "GBP"@,
            Currency::Jpy => "JPY"@,
            Currency::Chf => "CHF"@,
            Currency::Aud => "AUD"@,
            Currency::Cny => "CNY"@,
            Currency::Brl => "BRL"@,
            Currency::Cop => "COP"@,
            Currency::Ars => "ARS"@,
            Currency::Clp => "CLP"@,
            Currency::Pen => "PEN"@,
            Currency::Xxx => "XXX"@,
            Currency::Unknown(s) => s@,
        }
    }

    /// Reads a catalog code; a code the catalog does not list is kept as `Unknown`.
    pub fn from_code(code: &str) -> (r: Currency)
        ensures
            Currency::named(code@) matches Some(v) ==> r == v,
            Currency::named(code@) is None ==> (r matches Currency::Unknown(s) && s@ == code@),
    {
        if str_eq(code, "MXN") {
            Currency::Mxn
        } else if str_eq(code, "USD") {
            Currency::Usd
        } else if str_eq(code, "EUR") {
            Currency::Eur
        } else if str_eq(code, "CAD") {
            Currency::Cad
        } else if str_eq(code, "GBP") {
            Currency::Gbp
        } else if str_eq(code, "JPY") {
            Currency::Jpy
        } else if str_eq(code, "CHF") {
            Currency::Chf
        } else if str_eq(code, "AUD") {
            Currency::Aud
        } else if str_eq(code, "CNY") {
            Currency::Cny
        } else if str_eq(code, "BRL") {
            Currency::Brl
        } else if str_eq(code, "COP") {
            Currency::Cop
        } else if str_eq(code, "ARS") {
            Currency::Ars
        } else if str_eq(code, "CLP") {
            Currency::Clp
        } else if str_eq(code, "PEN") {
            Currency::Pen
        } else if str_eq(code, "XXX") {
            Currency::Xxx
        } else {
            Currency::Unknown(code.to_owned())
        }
    }

    /// The catalog code of this value, as the SAT writes it.
    pub fn code(&self) -> (r: String)
        ensures
            r@ == self.code_of(),
    {
        match self {
            Currency::Mxn => "MXN".to_owned(),
            Currency::Usd => "USD".to_owned(),
            Currency::Eur => "EUR".to_owned(),
            Currency::Cad => "CAD".to_owned(),
            Currency::Gbp => "GBP".to_owned(),
            Currency::Jpy => "JPY".to_owned(),
            Currency::Chf => "CHF".to_owned(),
            Currency::Aud => "AUD".to_owned(),
            Currency::Cny => "CNY".to_owned(),
            Currency::Brl => "BRL".to_owned(),
            Currency::Cop => "COP".to_owned(),
            Currency::Ars => "ARS".to_owned(),
            Currency::Clp => "CLP".to_owned(),
            Currency::Pen => "PEN".to_owned(),
            Currency::Xxx => "XXX".to_owned(),
            Currency::Unknown(s) => s.clone(),
        }
    }
}

/// Every listed Currency reads back from its own code.
pub proof fn lemma_currency_code_round_trip(v: Currency)
    requires
        v !is Unknown,
    ensures
        Currency::named(v.code_of()) == Some(v),
{
    reveal_strlit("MXN");
    assert("MXN"@.len() == 3 && "MXN"@[0] == 'M' && "MXN"@[1] == 'X' && "MXN"@[2] == 'N');
    reveal_strlit("USD");
    assert("USD"@.len() == 3 && "USD"@[0] == 'U' && "USD"@[1] == 'S' && "USD"@[2] == 'D');
    reveal_strlit("EUR");
    assert("EUR"@.len() == 3 && "EUR"@[0] == 'E' && "EUR"@[1] == 'U' && "EUR"@[2] == 'R');
    reveal_strlit("CAD");
    assert("CAD"@.len() == 3 && "CAD"@[0] == 'C' && "CAD"@[1] == 'A' && "CAD"@[2] == 'D');
    reveal_strlit("GBP");
    assert("GBP"@.len() == 3 && "GBP"@[0] == 'G' && "GBP"@[1] == 'B' && "GBP"@[2] == 'P');
    reveal_strlit("JPY");
    assert("JPY"@.len() == 3 && "JPY"@[0] == 'J' && "JPY"@[1] == 'P' && "JPY"@[2] == 'Y');
    reveal_strlit("CHF");
    assert("CHF"@.len() == 3 && "CHF"@[0] == 'C' && "CHF"@[1] == 'H' && "CHF"@[2] == 'F');
    reveal_strlit("AUD");
    assert("AUD"@.len() == 3 && "AUD"@[0] == 'A' && "AUD"@[1] == 'U' && "AUD"@[2] == 'D');
    reveal_strlit("CNY");
    assert("CNY"@.len() == 3 && "CNY"@[0] == 'C' && "CNY"@[1] == 'N' && "CNY"@[2] == 'Y');
    reveal_strlit("BRL");
    assert("BRL"@.len() == 3 && "BRL"@[0] == 'B' && "BRL"@[1] == 'R' && "BRL"@[2] == 'L');
    reveal_strlit("COP");
    assert("COP"@.len() == 3 && "COP"@[0] == 'C' && "COP"@[1] == 'O' && "COP"@[2] == 'P');
    reveal_strlit("ARS");
    assert("ARS"@.len() == 3 && "ARS"@[0] == 'A' && "ARS"@[1] == 'R' && "ARS"@[2] == 'S');
    reveal_strlit("CLP");
    assert("CLP"@.len() == 3 && "CLP"@[0] == 'C' && "CLP"@[1] == 'L' && "CLP"@[2] == 'P');
    reveal_strlit("PEN");
    assert("PEN"@.len() == 3 && "PEN"@[0] == 'P' && "PEN"@[1] == 'E' && "PEN"@[2] == 'N');
    reveal_strlit("XXX");
    assert("XXX"@.len() == 3 && "XXX"@[0] == 'X' && "XXX"@[1] == 'X' && "XXX"@[2] == 'X');
}

/// A code that names a Currency is that value's code, so writing a value read from a code gives
/// the code back.
pub proof fn lemma_currency_named_code(code: Seq<char>)
    ensures
        Currency::named(code) matches Some(v) ==> v.code_of() == code,
{
}

/// c_PeriodicidadPago (nomina) — payroll payment periodicity
#[derive(Debug, Clone, PartialEq, Eq)]
pub enum PayrollPeriodicity {
    Daily,
    Weekly,
    Biweekly,
    Monthly,
    Bimonthly,
    Semiannual,
    ByUnitWork,
    ByCommission,
    FixedPrice,
    TenDay,
    Other,
    Unknown(String),
}

impl PayrollPeriodicity {
    /// The value that a catalog code names, when the code is one of this catalog's.
    pub open spec fn named(code: Seq<char>) -> Option<PayrollPeriodicity> {
        if code == "01"@ {
            Some(PayrollPeriodicity::Daily)
        } else if code == "02"@ {
            Some(PayrollPeriodicity::Weekly)
        } else if code == "03"@ {
            Some(PayrollPeriodicity::Biweekly)
        } else if code == "04"@ {
            Some(PayrollPeriodicity::Monthly)
        } else if code == "05"@ {
            Some(PayrollPeriodicity::Bimonthly)
        } else if code == "06"@ {
            Some(PayrollPeriodicity::Semiannual)
        } else if code == "07"@ {
            Some(PayrollPeriodicity::ByUnitWork)
        } else if code == "08"@ {
            Some(PayrollPeriodicity::ByCommission)
        } else if code == "09"@ {
            Some(PayrollPeriodicity::FixedPrice)
        } else if code == "10"@ {
            Some(PayrollPeriodicity::TenDay)
        } else if code == "99"@ {
            Some(PayrollPeriodicity::Other)
        } else {
            None
        }
    }

    /// The catalog code of this value.
    pub open spec fn code_of(self) -> Seq<char> {
        match self {
            PayrollPeriodicity::Daily => "01"@,
            PayrollPeriodicity::Weekly => "02"@,
            PayrollPeriodicity::Biweekly => "03"@,
            PayrollPeriodicity::Monthly => "04"@,
            PayrollPeriodicity::Bimonthly => "05"@,
            PayrollPeriodicity::Semiannual => "06"@,
            PayrollPeriodicity::ByUnitWork => "07"@,
            PayrollPeriodicity::ByCommission => "08"@,
            PayrollPeriodicity::FixedPrice => "09"@,
            PayrollPeriodicity::TenDay => "10"@,
            PayrollPeriodicity::Other => "99"@,
            PayrollPeriodicity::Unknown(s) => s@,
        }
    }

    /// Reads a catalog code; a code the catalog does not list is kept as `Unknown`.
    pub fn from_code(code: &str) -> (r: PayrollPeriodicity)
        ensures
            PayrollPeriodicity::named(code@) matches Some(v) ==> r == v,
            PayrollPeriodicity::named(code@) is None ==> (r matches PayrollPeriodicity::Unknown(s) && s@ == code@),
    {
        if str_eq(code, "01") {
            PayrollPeriodicity::Daily
        } else if str_eq(code, "02") {
            PayrollPeriodicity::Weekly
        } else if str_eq(code, "03") {
            PayrollPeriodicity::Biweekly
        } else if str_eq(code, "04") {
            PayrollPeriodicity::Monthly
        } else if str_eq(code, "05") {
            PayrollPeriodicity::Bimonthly
        } else if str_eq(code, "06") {
            PayrollPeriodicity::Semiannual
        } else if str_eq(code, "07") {
            PayrollPeriodicity::ByUnitWork
        } else if str_eq(code, "08") {
            PayrollPeriodicity::ByCommission
        } else if str_eq(code, "09") {
            PayrollPeriodicity::FixedPrice
        } else if str_eq(code, "10") {
            PayrollPeriodicity::TenDay
        } else if str_eq(code, "99") {
            PayrollPeriodicity::Other
        } else {
            PayrollPeriodicity::Unknown(code.to_owned())
        }
    }

    /// The catalog code of this value, as the SAT writes it.
    pub fn code(&self) -> (r: String)
        ensures
            r@ == self.code_of(),
    {
        match self {
            PayrollPeriodicity::Daily => "01".to_owned(),
            PayrollPeriodicity::Weekly => "02".to_owned(),
            PayrollPeriodicity::Biweekly => "03".to_owned(),
            PayrollPeriodicity::Monthly => "04".to_owned(),
            PayrollPeriodicity::Bimonthly => "05".to_owned(),
            PayrollPeriodicity::Semiannual => "06".to_owned(),
            PayrollPeriodicity::ByUnitWork => "07".to_owned(),
            PayrollPeriodicity::ByCommission => "08".to_owned(),
            PayrollPeriodicity::FixedPrice => "09".to_owned(),
            PayrollPeriodicity::TenDay => "10".to_owned(),
            PayrollPeriodicity::Other => "99".to_owned(),
            PayrollPeriodicity::Unknown(s) => s.clone(),
        }
    }
}

/// Every listed PayrollPeriodicity reads back from its own code.
pub proof fn lemma_payroll_periodicity_code_round_trip(v: PayrollPeriodicity)
    requires
        v !is Unknown,
    ensures
        PayrollPeriodicity::named(v.code_of()) == Some(v),
{
    reveal_strlit("01");
    assert("01"@.len() == 2 && "01"@[0] == '0' && "01"@[1] == '1');
    reveal_strlit("02");
    assert("02"@.len() == 2 && "02"@[0] == '0' && "02"@[1] == '2');
    reveal_strlit("03");
    assert("03"@.len() == 2 && "03"@[0] == '0' && "03"@[1] == '3');
    reveal_strlit("04");
    assert("04"@.len() == 2 && "04"@[0] == '0' && "04"@[1] == '4');
    reveal_strlit("05");
    assert("05"@.len() == 2 && "05"@[0] == '0' && "05"@[1] == '5');
    reveal_strlit("06");
    assert("06"@.len() == 2 && "06"@[0] == '0' && "06"@[1] == '6');
    reveal_strlit("07");
    assert("07"@.len() == 2 && "07"@[0] == '0' && "07"@[1] == '7');
    reveal_strlit("08");
    assert("08"@.len() == 2 && "08"@[0] == '0' && "08"@[1] == '8');
    reveal_strlit("09");
    assert("09"@.len() == 2 && "09"@[0] == '0' && "09"@[1] == '9');
    reveal_strlit("10");
    assert("10"@.len() == 2 && "10"@[0] == '1' && "10"@[1] == '0');
    reveal_strlit("99");
    assert("99"@.len() == 2 && "99"@[0] == '9' && "99"@[1] == '9');
}

/// A code that names a PayrollPeriodicity is that value's code, so writing a value read from a code gives
/// the code back.
pub proof fn lemma_payroll_periodicity_named_code(code: Seq<char>)
    ensures
        PayrollPeriodicity::named(code) matches Some(v) ==> v.code_of() == code,
{
}

/// c_TipoContrato — employment contract type
#[derive(Debug, Clone, PartialEq, Eq)]
pub enum ContractType {
    Indefinite,
    SpecificWork,
    FixedTerm,
    Seasonal,
    TrialPeriod,
    InitialTraining,
    HourlyPayment,
    CommissionBased,
    Unknown(String),
}

impl ContractType {
    /// The value that a catalog code names, when the code is one of this catalog's.
    pub open spec fn named(code: Seq<char>) -> Option<ContractType> {
        if code == "01"@ {
            Some(ContractType::Indefinite)
        } else if code == "02"@ {
            Some(ContractType::SpecificWork)
        } else if code == "03"@ {
            Some(ContractType::FixedTerm)
        } else if code == "04"@ {
            Some(ContractType::Seasonal)
        } else if code == "05"@ {
            Some(ContractType::TrialPeriod)
        } else if code == "06"@ {
            Some(ContractType::InitialTraining)
        } else if code == "07"@ {
            Some(ContractType::HourlyPayment)
        } else if code == "08"@ {
            Some(ContractType::CommissionBased)
        } else {
            None
        }
    }

    /// The catalog code of this value.
    pub open spec fn code_of(self) -> Seq<char> {
        match self {
            ContractType::Indefinite => "01"@,
            ContractType::SpecificWork => "02"@,
            ContractType::FixedTerm => "03"@,
            ContractType::Seasonal => "04"@,
            ContractType::TrialPeriod => "05"@,
            ContractType::InitialTraining => "06"@,
            ContractType::HourlyPayment => "07"@,
            ContractType::CommissionBased => "08"@,
            ContractType::Unknown(s) => s@,
        }
    }

    /// Reads a catalog code; a code the catalog does not list is kept as `Unknown`.
    pub fn from_code(code: &str) -> (r: ContractType)
        ensures
            ContractType::named(code@) matches Some(v) ==> r == v,
            ContractType::named(code@) is None ==> (r matches ContractType::Unknown(s) && s@ == code@),
    {
        if str_eq(code, "01") {
            ContractType::Indefinite
        } else if str_eq(code, "02") {
            ContractType::SpecificWork
        } else if str_eq(code, "03") {
            ContractType::FixedTerm
        } else if str_eq(code, "04") {
            ContractType::Seasonal
        } else if str_eq(code, "05") {
            ContractType::TrialPeriod
        } else if str_eq(code, "06") {
            ContractType::InitialTraining
        } else if str_eq(code, "07") {
            ContractType::HourlyPayment
        } else if str_eq(code, "08") {
            ContractType::CommissionBased
        } else {
            ContractType::Unknown(code.to_owned())
        }
    }

    /// The catalog code of this value, as the SAT writes it.
    pub fn code(&self) -> (r: String)
        ensures
            r@ == self.code_of(),
    {
        match self {
            ContractType::Indefinite => "01".to_owned(),
            ContractType::SpecificWork => "02".to_owned(),
            ContractType::FixedTerm => "03".to_owned(),
            ContractType::Seasonal => "04".to_owned(),
            ContractType::TrialPeriod => "05".to_owned(),
            ContractType::InitialTraining => "06".to_owned(),
            ContractType::HourlyPayment => "07".to_owned(),
            ContractType::CommissionBased => "08".to_owned(),
            ContractType::Unknown(s) => s.clone(),
        }
    }
}

/// Every listed ContractType reads back from its own code.
pub proof fn lemma_contract_type_code_round_trip(v: ContractType)
    requires
        v !is Unknown,
    ensures
        ContractType::named(v.code_of()) == Some(v),
{
    reveal_strlit("01");
    assert("01"@.len() == 2 && "01"@[0] == '0' && "01"@[1] == '1');
    reveal_strlit("02");
    assert("02"@.len() == 2 && "02"@[0] == '0' && "02"@[1] == '2');
    reveal_strlit("03");
    assert("03"@.len() == 2 && "03"@[0] == '0' && "03"@[1] == '3');
    reveal_strlit("04");
    assert("04"@.len() == 2 && "04"@[0] == '0' && "04"@[1] == '4');
    reveal_strlit("05");
    assert("05"@.len() == 2 && "05"@[0] == '0' && "05"@[1] == '5');
    reveal_strlit("06");
    assert("06"@.len() == 2 && "06"@[0] == '0' && "06"@[1] == '6');
    reveal_strlit("07");
    assert("07"@.len() == 2 && "07"@[0] == '0' && "07"@[1] == '7');
    reveal_strlit("08");
    assert("08"@.len() == 2 && "08"@[0] == '0' && "08"@[1] == '8');
}

/// A code that names a ContractType is that value's code, so writing a value read from a code gives
/// the code back.
pub proof fn lemma_contract_type_named_code(code: Seq<char>)
    ensures
        ContractType::named(code) matches Some(v) ==> v.code_of() == code,
{
}

/// c_TipoRegimen (nomina) — payroll regime type
#[derive(Debug, Clone, PartialEq, Eq)]
pub enum PaymentRegime {
    SalariesAndWages,
    Retirees,
    Pensioners,
    CooperativeMembers,
    CivilAssociationMembers,
    Commissioners,
    BoardMembers,
    ProfessionalServices,
    ArbitratorsNotariesMediators,
    ConstructionContractors,
    SeveranceIndemnification,
    Unknown(String),
}

impl PaymentRegime {
    /// The value that a catalog code names, when the code is one of this catalog's.
    pub open spec fn named(code: Seq<char>) -> Option<PaymentRegime> {
        if code == "02"@ {
            Some(PaymentRegime::SalariesAndWages)
        } else if code == "03"@ {
            Some(PaymentRegime::Retirees)
        } else if code == "04"@ {
            Some(PaymentRegime::Pensioners)
        } else if code == "05"@ {
            Some(PaymentRegime::CooperativeMembers)
        } else if code == "06"@ {
            Some(PaymentRegime::CivilAssociationMembers)
        } else if code == "07"@ {
            Some(PaymentRegime::Commissioners)
        } else if code == "08"@ {
            Some(PaymentRegime::BoardMembers)
        } else if code == "09"@ {
            Some(PaymentRegime::ProfessionalServices)
        } else if code == "10"@ {
            Some(PaymentRegime::ArbitratorsNotariesMediators)
        } else if code == "11"@ {
            Some(PaymentRegime::ConstructionContractors)
        } else if code == "13"@ {
            Some(PaymentRegime::SeveranceIndemnification)
        } else {
            None
        }
    }

    /// The catalog code of this value.
    pub open spec fn code_of(self) -> Seq<char> {
        match self {
            PaymentRegime::SalariesAndWages => "02"@,
            PaymentRegime::Retirees => "03"@,
            PaymentRegime::Pensioners => "04"@,
            PaymentRegime::CooperativeMembers => "05"@,
            PaymentRegime::CivilAssociationMembers => "06"@,
            PaymentRegime::Commissioners => "07"@,
            PaymentRegime::BoardMembers => "08"@,
            PaymentRegime::ProfessionalServices => "09"@,
            PaymentRegime::ArbitratorsNotariesMediators => "10"@,
            PaymentRegime::ConstructionContractors => "11"@,
            PaymentRegime::SeveranceIndemnification => "13"@,
            PaymentRegime::Unknown(s) => s@,
        }
    }

    /// Reads a catalog code; a code the catalog does not list is kept as `Unknown`.
    pub fn from_code(code: &str) -> (r: PaymentRegime)
        ensures
            PaymentRegime::named(code@) matches Some(v) ==> r == v,
            PaymentRegime::named(code@) is None ==> (r matches PaymentRegime::Unknown(s) && s@ == code@),
    {
        if str_eq(code, "02") {
            PaymentRegime::SalariesAndWages
        } else if str_eq(code, "03") {
            PaymentRegime::Retirees
        } else if str_eq(code, "04") {
            PaymentRegime::Pensioners
        } else if str_eq(code, "05") {
            PaymentRegime::CooperativeMembers
        } else if str_eq(code, "06") {
            PaymentRegime::CivilAssociationMembers
        } else if str_eq(code, "07") {
            PaymentRegime::Commissioners
        } else if str_eq(code, "08") {
            PaymentRegime::BoardMembers
        } else if str_eq(code, "09") {
            PaymentRegime::ProfessionalServices
        } else if str_eq(code, "10") {
            PaymentRegime::ArbitratorsNotariesMediators
        } else if str_eq(code, "11") {
            PaymentRegime::ConstructionContractors
        } else if str_eq(code, "13") {
            PaymentRegime::SeveranceIndemnification
        } else {
            PaymentRegime::Unknown(code.to_owned())
        }
    }

    /// The catalog code of this value, as the SAT writes it.
    pub fn code(&self) -> (r: String)
        ensures
            r@ == self.code_of(),
    {
        match self {
            PaymentRegime::SalariesAndWages => "02".to_owned(),
            PaymentRegime::Retirees => "03".to_owned(),
            PaymentRegime::Pensioners => "04".to_owned(),
            PaymentRegime::CooperativeMembers => "05".to_owned(),
            PaymentRegime::CivilAssociationMembers => "06".to_owned(),
            PaymentRegime::Commissioners => "07".to_owned(),
            PaymentRegime::BoardMembers => "08".to_owned(),
            PaymentRegime::ProfessionalServices => "09".to_owned(),
            PaymentRegime::ArbitratorsNotariesMediators => "10".to_owned(),
            PaymentRegime::ConstructionContractors => "11".to_owned(),
            PaymentRegime::SeveranceIndemnification => "13".to_owned(),
            PaymentRegime::Unknown(s) => s.clone(),
        }
    }
}

/// Every listed PaymentRegime reads back from its own code.
pub proof fn lemma_payment_regime_code_round_trip(v: PaymentRegime)
    requires
        v !is Unknown,
    ensures
        PaymentRegime::named(v.code_of()) == Some(v),
{
    reveal_strlit("02");
    assert("02"@.len() == 2 && "02"@[0] == '0' && "02"@[1] == '2');
    reveal_strlit("03");
    assert("03"@.len() == 2 && "03"@[0] == '0' && "03"@[1] == '3');
    reveal_strlit("04");
    assert("04"@.len() == 2 && "04"@[0] == '0' && "04"@[1] == '4');
    reveal_strlit("05");
    assert("05"@.len() == 2 && "05"@[0] == '0' && "05"@[1] == '5');
    reveal_strlit("06");
    assert("06"@.len() == 2 && "06"@[0] == '0' && "06"@[1] == '6');
    reveal_strlit("07");
    assert("07"@.len() == 2 && "07"@[0] == '0' && "07"@[1] == '7');
    reveal_strlit("08");
    assert("08"@.len() == 2 && "08"@[0] == '0' && "08"@[1] == '8');
    reveal_strlit("09");
    assert("09"@.len() == 2 && "09"@[0] == '0' && "09"@[1] == '9');
    reveal_strlit("10");
    assert("10"@.len() == 2 && "10"@[0] == '1' && "10"@[1] == '0');
    reveal_strlit("11");
    assert("11"@.len() == 2 && "11"@[0] == '1' && "11"@[1] == '1');
    reveal_strlit("13");
    assert("13"@.len() == 2 && "13"@[0] == '1' && "13"@[1] == '3');
}

/// A code that names a PaymentRegime is that value's code, so writing a value read from a code gives
/// the code back.
pub proof fn lemma_payment_regime_named_code(code: Seq<char>)
    ensures
        PaymentRegime::named(code) matches Some(v) ==> v.code_of() == code,
{
}

/// c_Periodicidad — global invoice periodicity
#[derive(Debug, Clone, PartialEq, Eq)]
pub enum InvoicePeriodicity {
    Daily,
    Weekly,
    Biweekly,
    Monthly,
    Bimonthly,
    Unknown(String),
}

impl InvoicePeriodicity {
    /// The value that a catalog code names, when the code is one of this catalog's.
    pub open spec fn named(code: Seq<char>) -> Option<InvoicePeriodicity> {
        if code == "01"@ {
            Some(InvoicePeriodicity::Daily)
        } else if code == "02"@ {
            Some(InvoicePeriodicity::Weekly)
        } else if code == "03"@ {
            Some(InvoicePeriodicity::Biweekly)
        } else if code == "04"@ {
            Some(InvoicePeriodicity::Monthly)
        } else if code == "05"@ {
            Some(InvoicePeriodicity::Bimonthly)
        } else {
            None
        }
    }

    /// The catalog code of this value.
    pub open spec fn code_of(self) -> Seq<char> {
        match self {
            InvoicePeriodicity::Daily => "01"@,
            InvoicePeriodicity::Weekly => "02"@,
            InvoicePeriodicity::Biweekly => "03"@,
            InvoicePeriodicity::Monthly => "04"@,
            InvoicePeriodicity::Bimonthly => "05"@,
            InvoicePeriodicity::Unknown(s) => s@,
        }
    }

    /// Reads a catalog code; a code the catalog does not list is kept as `Unknown`.
    pub fn from_code(code: &str) -> (r: InvoicePeriodicity)
        ensures
            InvoicePeriodicity::named(code@) matches Some(v) ==> r == v,
            InvoicePeriodicity::named(code@) is None ==> (r matches InvoicePeriodicity::Unknown(s) && s@ == code@),
    {
        if str_eq(code, "01") {
            InvoicePeriodicity::Daily
        } else if str_eq(code, "02") {
            InvoicePeriodicity::Weekly
        } else if str_eq(code, "03") {
            InvoicePeriodicity::Biweekly
        } else if str_eq(code, "04") {
            InvoicePeriodicity::Monthly
        } else if str_eq(code, "05") {
            InvoicePeriodicity::Bimonthly
        } else {
            InvoicePeriodicity::Unknown(code.to_owned())
        }
    }

    /// The catalog code of this value, as the SAT writes it.
    pub fn code(&self) -> (r: String)
        ensures
            r@ == self.code_of(),
    {
        match self {
            InvoicePeriodicity::Daily => "01".to_owned(),
            InvoicePeriodicity::Weekly => "02".to_owned(),
            InvoicePeriodicity::Biweekly => "03".to_owned(),
            InvoicePeriodicity::Monthly => "04".to_owned(),
            InvoicePeriodicity::Bimonthly => "05".to_owned(),
            InvoicePeriodicity::Unknown(s) => s.clone(),
        }
    }
}

/// Every listed InvoicePeriodicity reads back from its own code.
pub proof fn lemma_invoice_periodicity_code_round_trip(v: InvoicePeriodicity)
    requires
        v !is Unknown,
    ensures
        InvoicePeriodicity::named(v.code_of()) == Some(v),
{
    reveal_strlit("01");
    assert("01"@.len() == 2 && "01"@[0] == '0' && "01"@[1] == '1');
    reveal_strlit("02");
    assert("02"@.len() == 2 && "02"@[0] == '0' && "02"@[1] == '2');
    reveal_strlit("03");
    assert("03"@.len() == 2 && "03"@[0] == '0' && "03"@[1] == '3');
    reveal_strlit("04");
    assert("04"@.len() == 2 && "04"@[0] == '0' && "04"@[1] == '4');
    reveal_strlit("05");
    assert("05"@.len() == 2 && "05"@[0] == '0' && "05"@[1] == '5');
}

/// A code that names a InvoicePeriodicity is that value's code, so writing a value read from a code gives
/// the code back.
pub proof fn lemma_invoice_periodicity_named_code(code: Seq<char>)
    ensures
        InvoicePeriodicity::named(code) matches Some(v) ==> v.code_of() == code,
{
}

} // verus!
