//! The payments complement (`pago20:Pagos`).
use vstd::prelude::*;

use crate::cfdi::catalogs::{Currency, PaymentForm, TaxFactor, TaxObject, TaxType};

verus! {

#[derive(Debug, Clone)]
pub struct PaymentsComplement {
    /// XML attribute `Version`.
    pub version: String,
    /// XML element `Totales`.
    pub totals: PaymentTotals,
    /// XML element `Pago`.
    pub payments: Vec<Payment>,
}

#[derive(Debug, Clone)]
pub struct PaymentTotals {
    /// XML attribute `TotalRetencionesIVA`.
    pub total_iva_withheld: Option<String>,
    /// XML attribute `TotalRetencionesISR`.
    pub total_isr_withheld: Option<String>,
    /// XML attribute `TotalRetencionesIEPS`.
    pub total_ieps_withheld: Option<String>,
    /// XML attribute `TotalTrasladosBaseIVA16`.
    pub total_transferred_iva_base_16: Option<String>,
    /// XML attribute `TotalTrasladosImpuestoIVA16`.
    pub total_transferred_iva_tax_16: Option<String>,
    /// XML attribute `TotalTrasladosBaseIVA8`.
    pub total_transferred_iva_base_8: Option<String>,
    /// XML attribute `TotalTrasladosImpuestoIVA8`.
    pub total_transferred_iva_tax_8: Option<String>,
    /// XML attribute `TotalTrasladosBaseIVA0`.
    pub total_transferred_iva_base_0: Option<String>,
    /// XML attribute `TotalTrasladosImpuestoIVA0`.
    pub total_transferred_iva_tax_0: Option<String>,
    /// XML attribute `TotalTrasladosBaseIVAExento`.
    pub total_transferred_iva_base_exempt: Option<String>,
    /// XML attribute `MontoTotalPagos`.
    pub total_payments_amount: String,
}

#[derive(Debug, Clone)]
pub struct Payment {
    /// XML attribute `FechaPago`.
    pub payment_date: String,
    /// XML attribute `FormaDePagoP`.
    pub payment_form: PaymentForm,
    /// XML attribute `MonedaP`.
    pub currency: Currency,
    /// XML attribute `TipoCambioP`.
    pub exchange_rate: Option<String>,
    /// XML attribute `Monto`.
    pub amount: String,
    /// XML attribute `NumOperacion`.
    pub operation_number: Option<String>,
    /// XML attribute `RfcEmisorCtaOrd`.
    pub ordering_account_issuer_tax_id: Option<String>,
    /// XML attribute `NomBancoOrdExt`.
    pub bank_name: Option<String>,
    /// XML attribute `CtaOrdenante`.
    pub ordering_account: Option<String>,
    /// XML attribute `RfcEmisorCtaBen`.
    pub beneficiary_account_issuer_tax_id: Option<String>,
    /// XML attribute `CtaBeneficiario`.
    pub beneficiary_account: Option<String>,
    /// XML attribute `TipoCadPago`.
    pub payment_chain_type: Option<String>,
    /// XML attribute `CertPago`.
    pub payment_certificate: Option<String>,
    /// XML attribute `CadPago`.
    pub payment_chain: Option<String>,
    /// XML attribute `SelloPago`.
    pub payment_seal: Option<String>,
    /// XML element `DoctoRelacionado`.
    pub related_documents: Vec<RelatedDocument>,
    /// XML element `ImpuestosP`.
    pub taxes: Option<PaymentTaxes>,
}

#[derive(Debug, Clone)]
pub struct RelatedDocument {
    /// XML attribute `IdDocumento`.
    pub document_id: String,
    /// XML attribute `Serie`.
    pub series: Option<String>,
    /// XML attribute `Folio`.
    pub fiscal_id: Option<String>,
    /// XML attribute `MonedaDR`.
    pub document_currency: Currency,
    /// XML attribute `EquivalenciaDR`.
    pub exchange_equivalence: Option<String>,
    /// XML attribute `NumParcialidad`.
    pub installment_number: String,
    /// XML attribute `ImpSaldoAnt`.
    pub previous_balance: String,
    /// XML attribute `ImpPagado`.
    pub paid_amount: String,
    /// XML attribute `ImpSaldoInsoluto`.
    pub outstanding_balance: String,
    /// XML attribute `ObjetoImpDR`.
    pub tax_object: TaxObject,
    /// XML element `ImpuestosDR`.
    pub taxes: Option<RelatedDocumentTaxes>,
}

#[derive(Debug, Clone)]
pub struct RelatedDocumentTaxes {
    /// XML element `RetencionesDR`.
    pub withholdings: Option<RelatedDocumentWithholdingList>,
    /// XML element `TrasladosDR`.
    pub transfers: Option<RelatedDocumentTransferList>,
}

#[derive(Debug, Clone)]
pub struct RelatedDocumentWithholdingList {
    /// XML element `RetencionDR`.
    pub items: Vec<RelatedDocumentWithholding>,
}

#[derive(Debug, Clone)]
pub struct RelatedDocumentTransferList {
    /// XML element `TrasladoDR`.
    pub items: Vec<RelatedDocumentTransfer>,
}

#[derive(Debug, Clone)]
pub struct RelatedDocumentWithholding {
    /// XML attribute `BaseDR`.
    pub base: String,
    /// XML attribute `ImpuestoDR`.
    pub tax: TaxType,
    /// XML attribute `TipoFactorDR`.
    pub factor_type: TaxFactor,
    /// XML attribute `TasaOCuotaDR`.
    pub rate_or_amount: String,
    /// XML attribute `ImporteDR`.
    pub amount: String,
}

#[derive(Debug, Clone)]
pub struct RelatedDocumentTransfer {
    /// XML attribute `BaseDR`.
    pub base: String,
    /// XML attribute `ImpuestoDR`.
    pub tax: TaxType,
    /// XML attribute `TipoFactorDR`.
    pub factor_type: TaxFactor,
    /// XML attribute `TasaOCuotaDR`.
    pub rate_or_amount: Option<String>,
    /// XML attribute `ImporteDR`.
    pub amount: Option<String>,
}

#[derive(Debug, Clone)]
pub struct PaymentTaxes {
    /// XML element `RetencionesP`.
    pub withholdings: Option<PaymentWithholdingList>,
    /// XML element `TrasladosP`.
    pub transfers: Option<PaymentTransferList>,
}

#[derive(Debug, Clone)]
pub struct PaymentWithholdingList {
    /// XML element `RetencionP`.
    pub items: Vec<PaymentWithholding>,
}

#[derive(Debug, Clone)]
pub struct PaymentTransferList {
    /// XML element `TrasladoP`.
    pub items: Vec<PaymentTransfer>,
}

#[derive(Debug, Clone)]
pub struct PaymentWithholding {
    /// XML attribute `ImpuestoP`.
    pub tax: TaxType,
    /// XML attribute `ImporteP`.
    pub amount: String,
}

#[derive(Debug, Clone)]
pub struct PaymentTransfer {
    /// XML attribute `BaseP`.
    pub base: String,
    /// XML attribute `ImpuestoP`.
    pub tax: TaxType,
    /// XML attribute `TipoFactorP`.
    pub factor_type: TaxFactor,
    /// XML attribute `TasaOCuotaP`.
    pub rate_or_amount: Option<String>,
    /// XML attribute `ImporteP`.
    pub amount: Option<String>,
}

impl RelatedDocumentTaxes {
    /// The `RelatedDocumentTransfer` entries of `transfers`, or none when the list is absent.
    pub fn transfers(&self) -> (r: &[RelatedDocumentTransfer])
        ensures
            r@ == (match self.transfers {
                Some(l) => l.items@,
                None => Seq::<RelatedDocumentTransfer>::empty(),
            }),
    {
        match &self.transfers {
            Some(l) => l.items.as_slice(),
            None => &[],
        }
    }

    /// The `RelatedDocumentWithholding` entries of `withholdings`, or none when the list is absent.
    pub fn withholdings(&self) -> (r: &[RelatedDocumentWithholding])
        ensures
            r@ == (match self.withholdings {
                Some(l) => l.items@,
                None => Seq::<RelatedDocumentWithholding>::empty(),
            }),
    {
        match &self.withholdings {
            Some(l) => l.items.as_slice(),
            None => &[],
        }
    }

}

impl PaymentTaxes {
    /// The `PaymentTransfer` entries of `transfers`, or none when the list is absent.
    pub fn transfers(&self) -> (r: &[PaymentTransfer])
        ensures
            r@ == (match self.transfers {
                Some(l) => l.items@,
                None => Seq::<PaymentTransfer>::empty(),
            }),
    {
        match &self.transfers {
            Some(l) => l.items.as_slice(),
            None => &[],
        }
    }

    /// The `PaymentWithholding` entries of `withholdings`, or none when the list is absent.
    pub fn withholdings(&self) -> (r: &[PaymentWithholding])
        ensures
            r@ == (match self.withholdings {
                Some(l) => l.items@,
                None => Seq::<PaymentWithholding>::empty(),
            }),
    {
        match &self.withholdings {
            Some(l) => l.items.as_slice(),
            None => &[],
        }
    }

}

} // verus!
