//! The payroll complement (`nomina12:Nomina`).
use vstd::prelude::*;

use crate::cfdi::catalogs::{ContractType, PaymentRegime, PayrollPeriodicity};

verus! {

#[derive(Debug, Clone)]
pub struct PayrollComplement {
    /// XML attribute `Version`.
    pub version: String,
    /// XML attribute `TipoNomina`.
    pub payroll_type: String,
    /// XML attribute `FechaPago`.
    pub payment_date: String,
    /// XML attribute `FechaInicialPago`.
    pub period_start: String,
    /// XML attribute `FechaFinalPago`.
    pub period_end: String,
    /// XML attribute `NumDiasPagados`.
    pub days_paid: String,
    /// XML attribute `TotalPercepciones`.
    pub total_earnings: Option<String>,
    /// XML attribute `TotalDeducciones`.
    pub total_deductions: Option<String>,
    /// XML attribute `TotalOtrosPagos`.
    pub total_other_payments: Option<String>,
    /// XML element `Emisor`.
    pub employer: Option<PayrollEmployer>,
    /// XML element `Receptor`.
    pub employee: PayrollEmployee,
    /// XML element `Percepciones`.
    pub earnings: Option<Earnings>,
    /// XML element `Deducciones`.
    pub deductions: Option<Deductions>,
    /// XML element `OtrosPagos`.
    pub other_payments: Option<OtherPayments>,
    /// XML element `Incapacidades`.
    pub disabilities: Option<Disabilities>,
}

#[derive(Debug, Clone)]
pub struct PayrollEmployer {
    /// XML attribute `Curp`.
    pub curp: Option<String>,
    /// XML attribute `RegistroPatronal`.
    pub employer_registration: Option<String>,
    /// XML attribute `RfcPatronOrigen`.
    pub origin_employer_tax_id: Option<String>,
    /// XML element `EntidadSNCF`.
    pub snfc_entity: Option<SncfEntity>,
}

#[derive(Debug, Clone)]
pub struct SncfEntity {
    /// XML attribute `OrigenRecurso`.
    pub resource_origin: String,
    /// XML attribute `MontoRecursoPropio`.
    pub own_resource_amount: Option<String>,
}

#[derive(Debug, Clone)]
pub struct PayrollEmployee {
    /// XML attribute `Curp`.
    pub curp: String,
    /// XML attribute `NumSeguridadSocial`.
    pub social_security_number: Option<String>,
    /// XML attribute `FechaInicioRelLaboral`.
    pub employment_start_date: Option<String>,
    /// XML attribute `Antigüedad`.
    pub seniority: Option<String>,
    /// XML attribute `TipoContrato`.
    pub contract_type: ContractType,
    /// XML attribute `Sindicalizado`.
    pub unionized: Option<bool>,
    /// XML attribute `TipoJornada`.
    pub workday_type: Option<String>,
    /// XML attribute `TipoRegimen`.
    pub payment_regime: PaymentRegime,
    /// XML attribute `NumEmpleado`.
    pub employee_number: String,
    /// XML attribute `Departamento`.
    pub department: Option<String>,
    /// XML attribute `Puesto`.
    pub position: Option<String>,
    /// XML attribute `RiesgoPuesto`.
    pub job_risk: Option<String>,
    /// XML attribute `PeriodicidadPago`.
    pub payment_periodicity: PayrollPeriodicity,
    /// XML attribute `Banco`.
    pub bank: Option<String>,
    /// XML attribute `CuentaBancaria`.
    pub bank_account: Option<String>,
    /// XML attribute `SalarioBaseCotApor`.
    pub base_salary: Option<String>,
    /// XML attribute `SalarioDiarioIntegrado`.
    pub integrated_daily_salary: Option<String>,
    /// XML attribute `ClaveEntFed`.
    pub state_key: String,
    /// XML element `SubContratacion`.
    pub subcontracting: Vec<Subcontracting>,
}

#[derive(Debug, Clone)]
pub struct Subcontracting {
    /// XML attribute `RfcLabora`.
    pub employer_tax_id: String,
    /// XML attribute `PorcentajeTiempo`.
    pub time_percentage: String,
}

#[derive(Debug, Clone)]
pub struct Earnings {
    /// XML attribute `TotalSueldos`.
    pub total_salaries: Option<String>,
    /// XML attribute `TotalSeparacionIndemnizacion`.
    pub total_separation: Option<String>,
    /// XML attribute `TotalJubilacionPensionRetiro`.
    pub total_retirement: Option<String>,
    /// XML attribute `TotalGravado`.
    pub total_taxable: String,
    /// XML attribute `TotalExento`.
    pub total_exempt: String,
    /// XML element `Percepcion`.
    pub items: Vec<Earning>,
    /// XML element `JubilacionPensionRetiro`.
    pub retirement_payment: Option<RetirementPayment>,
    /// XML element `SeparacionIndemnizacion`.
    pub separation_payment: Option<SeparationPayment>,
}

#[derive(Debug, Clone)]
pub struct Earning {
    /// XML attribute `TipoPercepcion`.
    pub earning_type: String,
    /// XML attribute `Clave`.
    pub code: String,
    /// XML attribute `Concepto`.
    pub concept: String,
    /// XML attribute `ImporteGravado`.
    pub taxable_amount: String,
    /// XML attribute `ImporteExento`.
    pub exempt_amount: String,
    /// XML element `AccionesOTitulos`.
    pub stock_options: Option<StockOptions>,
    /// XML element `HorasExtra`.
    pub overtime: Vec<Overtime>,
}

#[derive(Debug, Clone)]
pub struct StockOptions {
    /// XML attribute `ValorMercado`.
    pub market_value: String,
    /// XML attribute `PrecioAlOtorgarse`.
    pub grant_price: String,
}

#[derive(Debug, Clone)]
pub struct Overtime {
    /// XML attribute `Dias`.
    pub days: String,
    /// XML attribute `TipoHoras`.
    pub hours_type: String,
    /// XML attribute `HorasExtra`.
    pub extra_hours: String,
    /// XML attribute `ImportePagado`.
    pub paid_amount: String,
}

#[derive(Debug, Clone)]
pub struct RetirementPayment {
    /// XML attribute `TotalUnaExhibicion`.
    pub total_lump_sum: Option<String>,
    /// XML attribute `TotalParcialidad`.
    pub total_installment: Option<String>,
    /// XML attribute `MontoDiario`.
    pub daily_amount: Option<String>,
    /// XML attribute `IngresoAcumulable`.
    pub cumulative_income: String,
    /// XML attribute `IngresoNoAcumulable`.
    pub non_cumulative_income: String,
}

#[derive(Debug, Clone)]
pub struct SeparationPayment {
    /// XML attribute `TotalPagado`.
    pub total_paid: String,
    /// XML attribute `NumAñosServicio`.
    pub years_of_service: String,
    /// XML attribute `UltimoSueldoMensOrd`.
    pub last_ordinary_monthly_salary: String,
    /// XML attribute `IngresoAcumulable`.
    pub cumulative_income: String,
    /// XML attribute `IngresoNoAcumulable`.
    pub non_cumulative_income: String,
}

#[derive(Debug, Clone)]
pub struct Deductions {
    /// XML attribute `TotalOtrasDeducciones`.
    pub total_other_deductions: Option<String>,
    /// XML attribute `TotalImpuestosRetenidos`.
    pub total_taxes_withheld: Option<String>,
    /// XML element `Deduccion`.
    pub items: Vec<Deduction>,
}

#[derive(Debug, Clone)]
pub struct Deduction {
    /// XML attribute `TipoDeduccion`.
    pub deduction_type: String,
    /// XML attribute `Clave`.
    pub code: String,
    /// XML attribute `Concepto`.
    pub concept: String,
    /// XML attribute `Importe`.
    pub amount: String,
}

#[derive(Debug, Clone)]
pub struct OtherPayments {
    /// XML element `OtroPago`.
    pub items: Vec<OtherPayment>,
}

#[derive(Debug, Clone)]
pub struct OtherPayment {
    /// XML attribute `TipoOtroPago`.
    pub payment_type: String,
    /// XML attribute `Clave`.
    pub code: String,
    /// XML attribute `Concepto`.
    pub concept: String,
    /// XML attribute `Importe`.
    pub amount: String,
    /// XML element `SubsidioAlEmpleo`.
    pub employment_subsidy: Option<EmploymentSubsidy>,
    /// XML element `CompensacionSaldosAFavor`.
    pub balance_compensation: Option<BalanceCompensation>,
}

#[derive(Debug, Clone)]
pub struct EmploymentSubsidy {
    /// XML attribute `SubsidioCausado`.
    pub subsidy_caused: String,
}

#[derive(Debug, Clone)]
pub struct BalanceCompensation {
    /// XML attribute `SaldoAFavor`.
    pub balance_in_favor: String,
    /// XML attribute `Año`.
    pub year: String,
    /// XML attribute `RemanenteSalFav`.
    pub remaining_balance: String,
}

#[derive(Debug, Clone)]
pub struct Disabilities {
    /// XML element `Incapacidad`.
    pub items: Vec<Disability>,
}

#[derive(Debug, Clone)]
pub struct Disability {
    /// XML attribute `DiasIncapacidad`.
    pub days: String,
    /// XML attribute `TipoIncapacidad`.
    pub disability_type: String,
    /// XML attribute `ImporteMonetario`.
    pub monetary_amount: Option<String>,
}


} // verus!
