use satcli::cfdi::catalogs::{DocumentType, FiscalRegime, CfdiUse, PaymentForm, PaymentMethod, TaxType, TaxFactor, TaxObject, ExportType, RelationType, Currency, PayrollPeriodicity, ContractType, PaymentRegime, InvoicePeriodicity};

#[test]
fn document_type_codes_round_trip() {
    assert_eq!(DocumentType::from_code("I"), DocumentType::Income);
    assert_eq!(DocumentType::Income.code(), "I");
    assert_eq!(DocumentType::from_code("E"), DocumentType::Expense);
    assert_eq!(DocumentType::Expense.code(), "E");
    assert_eq!(DocumentType::from_code("T"), DocumentType::Transfer);
    assert_eq!(DocumentType::Transfer.code(), "T");
    assert_eq!(DocumentType::from_code("P"), DocumentType::Payment);
    assert_eq!(DocumentType::Payment.code(), "P");
    assert_eq!(DocumentType::from_code("N"), DocumentType::Payroll);
    assert_eq!(DocumentType::Payroll.code(), "N");
    assert_eq!(DocumentType::from_code("not-a-code"), DocumentType::Unknown("not-a-code".to_string()));
    assert_eq!(DocumentType::Unknown("x".to_string()).code(), "x");
}

#[test]
fn fiscal_regime_codes_round_trip() {
    assert_eq!(FiscalRegime::from_code("601"), FiscalRegime::GeneralLegalEntities);
    assert_eq!(FiscalRegime::GeneralLegalEntities.code(), "601");
    assert_eq!(FiscalRegime::from_code("603"), FiscalRegime::LegalEntitiesNonProfit);
    assert_eq!(FiscalRegime::LegalEntitiesNonProfit.code(), "603");
    assert_eq!(FiscalRegime::from_code("605"), FiscalRegime::SalariedPersons);
    assert_eq!(FiscalRegime::SalariedPersons.code(), "605");
    assert_eq!(FiscalRegime::from_code("606"), FiscalRegime::RealEstateLeasing);
    assert_eq!(FiscalRegime::RealEstateLeasing.code(), "606");
    assert_eq!(FiscalRegime::from_code("607"), FiscalRegime::AlienationOrAcquisition);
    assert_eq!(FiscalRegime::AlienationOrAcquisition.code(), "607");
    assert_eq!(FiscalRegime::from_code("608"), FiscalRegime::OtherIncome);
    assert_eq!(FiscalRegime::OtherIncome.code(), "608");
    assert_eq!(FiscalRegime::from_code("609"), FiscalRegime::Consolidation);
    assert_eq!(FiscalRegime::Consolidation.code(), "609");
    assert_eq!(FiscalRegime::from_code("610"), FiscalRegime::ForeignResidents);
    assert_eq!(FiscalRegime::ForeignResidents.code(), "610");
    assert_eq!(FiscalRegime::from_code("611"), FiscalRegime::DividendIncome);
    assert_eq!(FiscalRegime::DividendIncome.code(), "611");
    assert_eq!(FiscalRegime::from_code("612"), FiscalRegime::BusinessAndProfessional);
    assert_eq!(FiscalRegime::BusinessAndProfessional.code(), "612");
    assert_eq!(FiscalRegime::from_code("614"), FiscalRegime::InterestIncome);
    assert_eq!(FiscalRegime::InterestIncome.code(), "614");
    assert_eq!(FiscalRegime::from_code("615"), FiscalRegime::PrizesIncome);
    assert_eq!(FiscalRegime::PrizesIncome.code(), "615");
    assert_eq!(FiscalRegime::from_code("616"), FiscalRegime::NoFiscalObligations);
    assert_eq!(FiscalRegime::NoFiscalObligations.code(), "616");
    assert_eq!(FiscalRegime::from_code("620"), FiscalRegime::CooperativeSocieties);
    assert_eq!(FiscalRegime::CooperativeSocieties.code(), "620");
    assert_eq!(FiscalRegime::from_code("621"), FiscalRegime::FiscalIncorporation);
    assert_eq!(FiscalRegime::FiscalIncorporation.code(), "621");
    assert_eq!(FiscalRegime::from_code("622"), FiscalRegime::AgriculturalActivities);
    assert_eq!(FiscalRegime::AgriculturalActivities.code(), "622");
    assert_eq!(FiscalRegime::from_code("623"), FiscalRegime::OptionalGroupsOfCompanies);
    assert_eq!(FiscalRegime::OptionalGroupsOfCompanies.code(), "623");
    assert_eq!(FiscalRegime::from_code("624"), FiscalRegime::Coordinated);
    assert_eq!(FiscalRegime::Coordinated.code(), "624");
    assert_eq!(FiscalRegime::from_code("625"), FiscalRegime::DigitalPlatformIncome);
    assert_eq!(FiscalRegime::DigitalPlatformIncome.code(), "625");
    assert_eq!(FiscalRegime::from_code("626"), FiscalRegime::SimplifiedTrustRegime);
    assert_eq!(FiscalRegime::SimplifiedTrustRegime.code(), "626");
    assert_eq!(FiscalRegime::from_code("not-a-code"), FiscalRegime::Unknown("not-a-code".to_string()));
    assert_eq!(FiscalRegime::Unknown("x".to_string()).code(), "x");
}

#[test]
fn cfdi_use_codes_round_trip() {
    assert_eq!(CfdiUse::from_code("G01"), CfdiUse::AcquisitionOfGoods);
    assert_eq!(CfdiUse::AcquisitionOfGoods.code(), "G01");
    assert_eq!(CfdiUse::from_code("G02"), CfdiUse::ReturnsDiscountsBonuses);
    assert_eq!(CfdiUse::ReturnsDiscountsBonuses.code(), "G02");
    assert_eq!(CfdiUse::from_code("G03"), CfdiUse::GeneralExpenses);
    assert_eq!(CfdiUse::GeneralExpenses.code(), "G03");
    assert_eq!(CfdiUse::from_code("I01"), CfdiUse::Construction);
    assert_eq!(CfdiUse::Construction.code(), "I01");
    assert_eq!(CfdiUse::from_code("I02"), CfdiUse::TransportationEquipment);
    assert_eq!(CfdiUse::TransportationEquipment.code(), "I02");
    assert_eq!(CfdiUse::from_code("I03"), CfdiUse::OfficeEquipment);
    assert_eq!(CfdiUse::OfficeEquipment.code(), "I03");
    assert_eq!(CfdiUse::from_code("I04"), CfdiUse::ComputingEquipment);
    assert_eq!(CfdiUse::ComputingEquipment.code(), "I04");
    assert_eq!(CfdiUse::from_code("I05"), CfdiUse::CommunicationsEquipment);
    assert_eq!(CfdiUse::CommunicationsEquipment.code(), "I05");
    assert_eq!(CfdiUse::from_code("I06"), CfdiUse::ElectricalGenerationEquipment);
    assert_eq!(CfdiUse::ElectricalGenerationEquipment.code(), "I06");
    assert_eq!(CfdiUse::from_code("I07"), CfdiUse::OtherInvestmentConcepts);
    assert_eq!(CfdiUse::OtherInvestmentConcepts.code(), "I07");
    assert_eq!(CfdiUse::from_code("I08"), CfdiUse::RelatedInvestmentEquipment);
    assert_eq!(CfdiUse::RelatedInvestmentEquipment.code(), "I08");
    assert_eq!(CfdiUse::from_code("D01"), CfdiUse::MedicalExpenses);
    assert_eq!(CfdiUse::MedicalExpenses.code(), "D01");
    assert_eq!(CfdiUse::from_code("D02"), CfdiUse::FuneralExpenses);
    assert_eq!(CfdiUse::FuneralExpenses.code(), "D02");
    assert_eq!(CfdiUse::from_code("D03"), CfdiUse::Donations);
    assert_eq!(CfdiUse::Donations.code(), "D03");
    assert_eq!(CfdiUse::from_code("D04"), CfdiUse::MortgageInterest);
    assert_eq!(CfdiUse::MortgageInterest.code(), "D04");
    assert_eq!(CfdiUse::from_code("D05"), CfdiUse::RetirementContributions);
    assert_eq!(CfdiUse::RetirementContributions.code(), "D05");
    assert_eq!(CfdiUse::from_code("D06"), CfdiUse::MedicalInsurance);
    assert_eq!(CfdiUse::MedicalInsurance.code(), "D06");
    assert_eq!(CfdiUse::from_code("D07"), CfdiUse::EducationExpenses);
    assert_eq!(CfdiUse::EducationExpenses.code(), "D07");
    assert_eq!(CfdiUse::from_code("D08"), CfdiUse::Housing);
    assert_eq!(CfdiUse::Housing.code(), "D08");
    assert_eq!(CfdiUse::from_code("D09"), CfdiUse::UnionContributions);
    assert_eq!(CfdiUse::UnionContributions.code(), "D09");
    assert_eq!(CfdiUse::from_code("D10"), CfdiUse::DependentCareContributions);
    assert_eq!(CfdiUse::DependentCareContributions.code(), "D10");
    assert_eq!(CfdiUse::from_code("S01"), CfdiUse::NoFiscalEffects);
    assert_eq!(CfdiUse::NoFiscalEffects.code(), "S01");
    assert_eq!(CfdiUse::from_code("CP01"), CfdiUse::Payments);
    assert_eq!(CfdiUse::Payments.code(), "CP01");
    assert_eq!(CfdiUse::from_code("CN01"), CfdiUse::Payroll);
    assert_eq!(CfdiUse::Payroll.code(), "CN01");
    assert_eq!(CfdiUse::from_code("not-a-code"), CfdiUse::Unknown("not-a-code".to_string()));
    assert_eq!(CfdiUse::Unknown("x".to_string()).code(), "x");
}

#[test]
fn payment_form_codes_round_trip() {
    assert_eq!(PaymentForm::from_code("01"), PaymentForm::Cash);
    assert_eq!(PaymentForm::Cash.code(), "01");
    assert_eq!(PaymentForm::from_code("02"), PaymentForm::NominativeCheck);
    assert_eq!(PaymentForm::NominativeCheck.code(), "02");
    assert_eq!(PaymentForm::from_code("03"), PaymentForm::ElectronicTransfer);
    assert_eq!(PaymentForm::ElectronicTransfer.code(), "03");
    assert_eq!(PaymentForm::from_code("04"), PaymentForm::CreditCard);
    assert_eq!(PaymentForm::CreditCard.code(), "04");
    assert_eq!(PaymentForm::from_code("05"), PaymentForm::ElectronicWallet);
    assert_eq!(PaymentForm::ElectronicWallet.code(), "05");
    assert_eq!(PaymentForm::from_code("06"), PaymentForm::EMoney);
    assert_eq!(PaymentForm::EMoney.code(), "06");
    assert_eq!(PaymentForm::from_code("08"), PaymentForm::FoodVouchers);
    assert_eq!(PaymentForm::FoodVouchers.code(), "08");
    assert_eq!(PaymentForm::from_code("12"), PaymentForm::PaymentByAssetDelivery);
    assert_eq!(PaymentForm::PaymentByAssetDelivery.code(), "12");
    assert_eq!(PaymentForm::from_code("13"), PaymentForm::PaymentBySubrogation);
    assert_eq!(PaymentForm::PaymentBySubrogation.code(), "13");
    assert_eq!(PaymentForm::from_code("14"), PaymentForm::PaymentByConsignment);
    assert_eq!(PaymentForm::PaymentByConsignment.code(), "14");
    assert_eq!(PaymentForm::from_code("15"), PaymentForm::Remission);
    assert_eq!(PaymentForm::Remission.code(), "15");
    assert_eq!(PaymentForm::from_code("17"), PaymentForm::Compensation);
    assert_eq!(PaymentForm::Compensation.code(), "17");
    assert_eq!(PaymentForm::from_code("23"), PaymentForm::Novation);
    assert_eq!(PaymentForm::Novation.code(), "23");
    assert_eq!(PaymentForm::from_code("24"), PaymentForm::Confusion);
    assert_eq!(PaymentForm::Confusion.code(), "24");
    assert_eq!(PaymentForm::from_code("25"), PaymentForm::DebtRemission);
    assert_eq!(PaymentForm::DebtRemission.code(), "25");
    assert_eq!(PaymentForm::from_code("26"), PaymentForm::Prescription);
    assert_eq!(PaymentForm::Prescription.code(), "26");
    assert_eq!(PaymentForm::from_code("27"), PaymentForm::ToCreditorSatisfaction);
    assert_eq!(PaymentForm::ToCreditorSatisfaction.code(), "27");
    assert_eq!(PaymentForm::from_code("28"), PaymentForm::DebitCard);
    assert_eq!(PaymentForm::DebitCard.code(), "28");
    assert_eq!(PaymentForm::from_code("29"), PaymentForm::ServiceCard);
    assert_eq!(PaymentForm::ServiceCard.code(), "29");
    assert_eq!(PaymentForm::from_code("30"), PaymentForm::AdvanceApplication);
    assert_eq!(PaymentForm::AdvanceApplication.code(), "30");
    assert_eq!(PaymentForm::from_code("31"), PaymentForm::PaymentIntermediary);
    assert_eq!(PaymentForm::PaymentIntermediary.code(), "31");
    assert_eq!(PaymentForm::from_code("32"), PaymentForm::Cryptocurrency);
    assert_eq!(PaymentForm::Cryptocurrency.code(), "32");
    assert_eq!(PaymentForm::from_code("99"), PaymentForm::ToBeDefined);
    assert_eq!(PaymentForm::ToBeDefined.code(), "99");
    assert_eq!(PaymentForm::from_code("not-a-code"), PaymentForm::Unknown("not-a-code".to_string()));
    assert_eq!(PaymentForm::Unknown("x".to_string()).code(), "x");
}

#[test]
fn payment_method_codes_round_trip() {
    assert_eq!(PaymentMethod::from_code("PUE"), PaymentMethod::SinglePayment);
    assert_eq!(PaymentMethod::SinglePayment.code(), "PUE");
    assert_eq!(PaymentMethod::from_code("PPD"), PaymentMethod::Installments);
    assert_eq!(PaymentMethod::Installments.code(), "PPD");
    assert_eq!(PaymentMethod::from_code("not-a-code"), PaymentMethod::Unknown("not-a-code".to_string()));
    assert_eq!(PaymentMethod::Unknown("x".to_string()).code(), "x");
}

#[test]
fn tax_type_codes_round_trip() {
    assert_eq!(TaxType::from_code("001"), TaxType::Isr);
    assert_eq!(TaxType::Isr.code(), "001");
    assert_eq!(TaxType::from_code("002"), TaxType::Iva);
    assert_eq!(TaxType::Iva.code(), "002");
    assert_eq!(TaxType::from_code("003"), TaxType::Ieps);
    assert_eq!(TaxType::Ieps.code(), "003");
    assert_eq!(TaxType::from_code("not-a-code"), TaxType::Unknown("not-a-code".to_string()));
    assert_eq!(TaxType::Unknown("x".to_string()).code(), "x");
}

#[test]
fn tax_factor_codes_round_trip() {
    assert_eq!(TaxFactor::from_code("Tasa"), TaxFactor::Rate);
    assert_eq!(TaxFactor::Rate.code(), "Tasa");
    assert_eq!(TaxFactor::from_code("Cuota"), TaxFactor::Amount);
    assert_eq!(TaxFactor::Amount.code(), "Cuota");
    assert_eq!(TaxFactor::from_code("Exento"), TaxFactor::Exempt);
    assert_eq!(TaxFactor::Exempt.code(), "Exento");
    assert_eq!(TaxFactor::from_code("not-a-code"), TaxFactor::Unknown("not-a-code".to_string()));
    assert_eq!(TaxFactor::Unknown("x".to_string()).code(), "x");
}

#[test]
fn tax_object_codes_round_trip() {
    assert_eq!(TaxObject::from_code("01"), TaxObject::NotSubject);
    assert_eq!(TaxObject::NotSubject.code(), "01");
    assert_eq!(TaxObject::from_code("02"), TaxObject::Subject);
    assert_eq!(TaxObject::Subject.code(), "02");
    assert_eq!(TaxObject::from_code("03"), TaxObject::SubjectNoBreakdown);
    assert_eq!(TaxObject::SubjectNoBreakdown.code(), "03");
    assert_eq!(TaxObject::from_code("04"), TaxObject::SubjectNoTax);
    assert_eq!(TaxObject::SubjectNoTax.code(), "04");
    assert_eq!(TaxObject::from_code("05"), TaxObject::SubjectPartial);
    assert_eq!(TaxObject::SubjectPartial.code(), "05");
    assert_eq!(TaxObject::from_code("06"), TaxObject::SubjectNoVatTransfer);
    assert_eq!(TaxObject::SubjectNoVatTransfer.code(), "06");
    assert_eq!(TaxObject::from_code("not-a-code"), TaxObject::Unknown("not-a-code".to_string()));
    assert_eq!(TaxObject::Unknown("x".to_string()).code(), "x");
}

#[test]
fn export_type_codes_round_trip() {
    assert_eq!(ExportType::from_code("01"), ExportType::NotApplicable);
    assert_eq!(ExportType::NotApplicable.code(), "01");
    assert_eq!(ExportType::from_code("02"), ExportType::Definitive);
    assert_eq!(ExportType::Definitive.code(), "02");
    assert_eq!(ExportType::from_code("03"), ExportType::Temporary);
    assert_eq!(ExportType::Temporary.code(), "03");
    assert_eq!(ExportType::from_code("04"), ExportType::DefinitiveOther);
    assert_eq!(ExportType::DefinitiveOther.code(), "04");
    assert_eq!(ExportType::from_code("not-a-code"), ExportType::Unknown("not-a-code".to_string()));
    assert_eq!(ExportType::Unknown("x".to_string()).code(), "x");
}

#[test]
fn relation_type_codes_round_trip() {
    assert_eq!(RelationType::from_code("01"), RelationType::CreditNote);
    assert_eq!(RelationType::CreditNote.code(), "01");
    assert_eq!(RelationType::from_code("02"), RelationType::DebitNote);
    assert_eq!(RelationType::DebitNote.code(), "02");
    assert_eq!(RelationType::from_code("03"), RelationType::MerchandiseReturn);
    assert_eq!(RelationType::MerchandiseReturn.code(), "03");
    assert_eq!(RelationType::from_code("04"), RelationType::Substitution);
    assert_eq!(RelationType::Substitution.code(), "04");
    assert_eq!(RelationType::from_code("05"), RelationType::TransferOfPreviousGoods);
    assert_eq!(RelationType::TransferOfPreviousGoods.code(), "05");
    assert_eq!(RelationType::from_code("06"), RelationType::InvoiceFromTransfer);
    assert_eq!(RelationType::InvoiceFromTransfer.code(), "06");
    assert_eq!(RelationType::from_code("07"), RelationType::AdvanceApplication);
    assert_eq!(RelationType::AdvanceApplication.code(), "07");
    assert_eq!(RelationType::from_code("not-a-code"), RelationType::Unknown("not-a-code".to_string()));
    assert_eq!(RelationType::Unknown("x".to_string()).code(), "x");
}

#[test]
fn currency_codes_round_trip() {
    assert_eq!(Currency::from_code("MXN"), Currency::Mxn);
    assert_eq!(Currency::Mxn.code(), "MXN");
    assert_eq!(Currency::from_code("USD"), Currency::Usd);
    assert_eq!(Currency::Usd.code(), "USD");
    assert_eq!(Currency::from_code("EUR"), Currency::Eur);
    assert_eq!(Currency::Eur.code(), "EUR");
    assert_eq!(Currency::from_code("CAD"), Currency::Cad);
    assert_eq!(Currency::Cad.code(), "CAD");
    assert_eq!(Currency::from_code("GBP"), Currency::Gbp);
    assert_eq!(Currency::Gbp.code(), "GBP");
    assert_eq!(Currency::from_code("JPY"), Currency::Jpy);
    assert_eq!(Currency::Jpy.code(), "JPY");
    assert_eq!(Currency::from_code("CHF"), Currency::Chf);
    assert_eq!(Currency::Chf.code(), "CHF");
    assert_eq!(Currency::from_code("AUD"), Currency::Aud);
    assert_eq!(Currency::Aud.code(), "AUD");
    assert_eq!(Currency::from_code("CNY"), Currency::Cny);
    assert_eq!(Currency::Cny.code(), "CNY");
    assert_eq!(Currency::from_code("BRL"), Currency::Brl);
    assert_eq!(Currency::Brl.code(), "BRL");
    assert_eq!(Currency::from_code("COP"), Currency::Cop);
    assert_eq!(Currency::Cop.code(), "COP");
    assert_eq!(Currency::from_code("ARS"), Currency::Ars);
    assert_eq!(Currency::Ars.code(), "ARS");
    assert_eq!(Currency::from_code("CLP"), Currency::Clp);
    assert_eq!(Currency::Clp.code(), "CLP");
    assert_eq!(Currency::from_code("PEN"), Currency::Pen);
    assert_eq!(Currency::Pen.code(), "PEN");
    assert_eq!(Currency::from_code("XXX"), Currency::Xxx);
    assert_eq!(Currency::Xxx.code(), "XXX");
    assert_eq!(Currency::from_code("not-a-code"), Currency::Unknown("not-a-code".to_string()));
    assert_eq!(Currency::Unknown("x".to_string()).code(), "x");
}

#[test]
fn payroll_periodicity_codes_round_trip() {
    assert_eq!(PayrollPeriodicity::from_code("01"), PayrollPeriodicity::Daily);
    assert_eq!(PayrollPeriodicity::Daily.code(), "01");
    assert_eq!(PayrollPeriodicity::from_code("02"), PayrollPeriodicity::Weekly);
    assert_eq!(PayrollPeriodicity::Weekly.code(), "02");
    assert_eq!(PayrollPeriodicity::from_code("03"), PayrollPeriodicity::Biweekly);
    assert_eq!(PayrollPeriodicity::Biweekly.code(), "03");
    assert_eq!(PayrollPeriodicity::from_code("04"), PayrollPeriodicity::Monthly);
    assert_eq!(PayrollPeriodicity::Monthly.code(), "04");
    assert_eq!(PayrollPeriodicity::from_code("05"), PayrollPeriodicity::Bimonthly);
    assert_eq!(PayrollPeriodicity::Bimonthly.code(), "05");
    assert_eq!(PayrollPeriodicity::from_code("06"), PayrollPeriodicity::Semiannual);
    assert_eq!(PayrollPeriodicity::Semiannual.code(), "06");
    assert_eq!(PayrollPeriodicity::from_code("07"), PayrollPeriodicity::ByUnitWork);
    assert_eq!(PayrollPeriodicity::ByUnitWork.code(), "07");
    assert_eq!(PayrollPeriodicity::from_code("08"), PayrollPeriodicity::ByCommission);
    assert_eq!(PayrollPeriodicity::ByCommission.code(), "08");
    assert_eq!(PayrollPeriodicity::from_code("09"), PayrollPeriodicity::FixedPrice);
    assert_eq!(PayrollPeriodicity::FixedPrice.code(), "09");
    assert_eq!(PayrollPeriodicity::from_code("10"), PayrollPeriodicity::TenDay);
    assert_eq!(PayrollPeriodicity::TenDay.code(), "10");
    assert_eq!(PayrollPeriodicity::from_code("99"), PayrollPeriodicity::Other);
    assert_eq!(PayrollPeriodicity::Other.code(), "99");
    assert_eq!(PayrollPeriodicity::from_code("not-a-code"), PayrollPeriodicity::Unknown("not-a-code".to_string()));
    assert_eq!(PayrollPeriodicity::Unknown("x".to_string()).code(), "x");
}

#[test]
fn contract_type_codes_round_trip() {
    assert_eq!(ContractType::from_code("01"), ContractType::Indefinite);
    assert_eq!(ContractType::Indefinite.code(), "01");
    assert_eq!(ContractType::from_code("02"), ContractType::SpecificWork);
    assert_eq!(ContractType::SpecificWork.code(), "02");
    assert_eq!(ContractType::from_code("03"), ContractType::FixedTerm);
    assert_eq!(ContractType::FixedTerm.code(), "03");
    assert_eq!(ContractType::from_code("04"), ContractType::Seasonal);
    assert_eq!(ContractType::Seasonal.code(), "04");
    assert_eq!(ContractType::from_code("05"), ContractType::TrialPeriod);
    assert_eq!(ContractType::TrialPeriod.code(), "05");
    assert_eq!(ContractType::from_code("06"), ContractType::InitialTraining);
    assert_eq!(ContractType::InitialTraining.code(), "06");
    assert_eq!(ContractType::from_code("07"), ContractType::HourlyPayment);
    assert_eq!(ContractType::HourlyPayment.code(), "07");
    assert_eq!(ContractType::from_code("08"), ContractType::CommissionBased);
    assert_eq!(ContractType::CommissionBased.code(), "08");
    assert_eq!(ContractType::from_code("not-a-code"), ContractType::Unknown("not-a-code".to_string()));
    assert_eq!(ContractType::Unknown("x".to_string()).code(), "x");
}

#[test]
fn payment_regime_codes_round_trip() {
    assert_eq!(PaymentRegime::from_code("02"), PaymentRegime::SalariesAndWages);
    assert_eq!(PaymentRegime::SalariesAndWages.code(), "02");
    assert_eq!(PaymentRegime::from_code("03"), PaymentRegime::Retirees);
    assert_eq!(PaymentRegime::Retirees.code(), "03");
    assert_eq!(PaymentRegime::from_code("04"), PaymentRegime::Pensioners);
    assert_eq!(PaymentRegime::Pensioners.code(), "04");
    assert_eq!(PaymentRegime::from_code("05"), PaymentRegime::CooperativeMembers);
    assert_eq!(PaymentRegime::CooperativeMembers.code(), "05");
    assert_eq!(PaymentRegime::from_code("06"), PaymentRegime::CivilAssociationMembers);
    assert_eq!(PaymentRegime::CivilAssociationMembers.code(), "06");
    assert_eq!(PaymentRegime::from_code("07"), PaymentRegime::Commissioners);
    assert_eq!(PaymentRegime::Commissioners.code(), "07");
    assert_eq!(PaymentRegime::from_code("08"), PaymentRegime::BoardMembers);
    assert_eq!(PaymentRegime::BoardMembers.code(), "08");
    assert_eq!(PaymentRegime::from_code("09"), PaymentRegime::ProfessionalServices);
    assert_eq!(PaymentRegime::ProfessionalServices.code(), "09");
    assert_eq!(PaymentRegime::from_code("10"), PaymentRegime::ArbitratorsNotariesMediators);
    assert_eq!(PaymentRegime::ArbitratorsNotariesMediators.code(), "10");
    assert_eq!(PaymentRegime::from_code("11"), PaymentRegime::ConstructionContractors);
    assert_eq!(PaymentRegime::ConstructionContractors.code(), "11");
    assert_eq!(PaymentRegime::from_code("13"), PaymentRegime::SeveranceIndemnification);
    assert_eq!(PaymentRegime::SeveranceIndemnification.code(), "13");
    assert_eq!(PaymentRegime::from_code("not-a-code"), PaymentRegime::Unknown("not-a-code".to_string()));
    assert_eq!(PaymentRegime::Unknown("x".to_string()).code(), "x");
}

#[test]
fn invoice_periodicity_codes_round_trip() {
    assert_eq!(InvoicePeriodicity::from_code("01"), InvoicePeriodicity::Daily);
    assert_eq!(InvoicePeriodicity::Daily.code(), "01");
    assert_eq!(InvoicePeriodicity::from_code("02"), InvoicePeriodicity::Weekly);
    assert_eq!(InvoicePeriodicity::Weekly.code(), "02");
    assert_eq!(InvoicePeriodicity::from_code("03"), InvoicePeriodicity::Biweekly);
    assert_eq!(InvoicePeriodicity::Biweekly.code(), "03");
    assert_eq!(InvoicePeriodicity::from_code("04"), InvoicePeriodicity::Monthly);
    assert_eq!(InvoicePeriodicity::Monthly.code(), "04");
    assert_eq!(InvoicePeriodicity::from_code("05"), InvoicePeriodicity::Bimonthly);
    assert_eq!(InvoicePeriodicity::Bimonthly.code(), "05");
    assert_eq!(InvoicePeriodicity::from_code("not-a-code"), InvoicePeriodicity::Unknown("not-a-code".to_string()));
    assert_eq!(InvoicePeriodicity::Unknown("x".to_string()).code(), "x");
}
