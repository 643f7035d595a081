//! The invoice (`cfdi:Comprobante`) and its parts.
use vstd::prelude::*;

use crate::cfdi::catalogs::{
    CfdiUse, Currency, DocumentType, ExportType, FiscalRegime, InvoicePeriodicity, PaymentForm,
    PaymentMethod, RelationType, TaxFactor, TaxObject, TaxType,
};
use crate::cfdi::complement::{Complement, ComplementKind, FiscalStamp};
use crate::cfdi::freight::FreightTransportComplement;
use crate::cfdi::payment::PaymentsComplement;
use crate::cfdi::payroll::PayrollComplement;

verus! {

#[derive(Debug, Clone)]
pub struct Invoice {
    /// XML attribute `Version`.
    pub version: String,
    /// XML attribute `Serie`.
    pub series: Option<String>,
    /// XML attribute `Folio`.
    pub fiscal_id: Option<String>,
    /// XML attribute `Fecha`.
    pub issued_at: String,
    /// XML attribute `Sello`.
    pub seal: String,
    /// XML attribute `FormaPago`.
    pub payment_form: Option<PaymentForm>,
    /// XML attribute `NoCertificado`.
    pub certificate_number: String,
    /// XML attribute `Certificado`.
    pub certificate: String,
    /// XML attribute `CondicionesDePago`.
    pub payment_conditions: Option<String>,
    /// XML attribute `SubTotal`.
    pub subtotal: String,
    /// XML attribute `Descuento`.
    pub discount: Option<String>,
    /// XML attribute `Moneda`.
    pub currency: Currency,
    /// XML attribute `TipoCambio`.
    pub exchange_rate: Option<String>,
    /// XML attribute `Total`.
    pub total: String,
    /// XML attribute `TipoDeComprobante`.
    pub document_type: DocumentType,
    /// XML attribute `Exportacion`.
    pub export: Option<ExportType>,
    /// XML attribute `MetodoPago`.
    pub payment_method: Option<PaymentMethod>,
    /// XML attribute `LugarExpedicion`.
    pub issue_place: String,
    /// XML attribute `Confirmacion`.
    pub confirmation: Option<String>,
    /// XML element `InformacionGlobal`.
    pub global_info: Option<GlobalInfo>,
    /// XML element `CfdiRelacionados`.
    pub related_cfdis: Vec<RelatedCfdis>,
    /// XML element `Emisor`.
    pub issuer: Issuer,
    /// XML element `Receptor`.
    pub recipient: Recipient,
    /// XML element `Conceptos`.
    pub line_items: LineItems,
    /// XML element `Impuestos`.
    pub taxes: Option<DocumentTaxes>,
    /// The typed complements; not read with the rest of the document but from the
    /// `Complemento` element apart (see `cfdi::document` and `cfdi::complement`).
    pub complement: Option<Complement>,
}

#[derive(Debug, Clone)]
pub struct GlobalInfo {
    /// XML attribute `Periodicidad`.
    pub periodicity: InvoicePeriodicity,
    /// XML attribute `Meses`.
    pub months: String,
    /// XML attribute `Año`.
    pub year: String,
}

#[derive(Debug, Clone)]
pub struct RelatedCfdis {
    /// XML attribute `TipoRelacion`.
    pub relation_type: RelationType,
    /// XML element `CfdiRelacionado`.
    pub items: Vec<RelatedCfdi>,
}

#[derive(Debug, Clone)]
pub struct RelatedCfdi {
    /// XML attribute `UUID`.
    pub uuid: String,
}

#[derive(Debug, Clone)]
pub struct Issuer {
    /// XML attribute `Rfc`.
    pub taxpayer_id: String,
    /// XML attribute `Nombre`.
    pub name: Option<String>,
    /// XML attribute `RegimenFiscal`.
    pub fiscal_regime: FiscalRegime,
    /// XML attribute `FacAtrAdquirente`.
    pub acquirer_fac_attr: Option<String>,
}

#[derive(Debug, Clone)]
pub struct Recipient {
    /// XML attribute `Rfc`.
    pub taxpayer_id: String,
    /// XML attribute `Nombre`.
    pub name: Option<String>,
    /// XML attribute `DomicilioFiscalReceptor`.
    pub fiscal_domicile: Option<String>,
    /// XML attribute `ResidenciaFiscal`.
    pub tax_residence: Option<String>,
    /// XML attribute `NumRegIdTrib`.
    pub foreign_tax_id: Option<String>,
    /// XML attribute `RegimenFiscalReceptor`.
    pub fiscal_regime: Option<FiscalRegime>,
    /// XML attribute `UsoCFDI`.
    pub cfdi_use: CfdiUse,
}

#[derive(Debug, Clone)]
pub struct LineItems {
    /// XML element `Concepto`.
    pub items: Vec<LineItem>,
}

#[derive(Debug, Clone)]
pub struct LineItem {
    /// XML attribute `ClaveProdServ`.
    pub product_service_key: String,
    /// XML attribute `NoIdentificacion`.
    pub id_number: Option<String>,
    /// XML attribute `Cantidad`.
    pub quantity: String,
    /// XML attribute `ClaveUnidad`.
    pub unit_key: String,
    /// XML attribute `Unidad`.
    pub unit: Option<String>,
    /// XML attribute `Descripcion`.
    pub description: String,
    /// XML attribute `ValorUnitario`.
    pub unit_value: String,
    /// XML attribute `Importe`.
    pub amount: String,
    /// XML attribute `Descuento`.
    pub discount: Option<String>,
    /// XML attribute `ObjetoImp`.
    pub tax_object: Option<TaxObject>,
    /// XML element `Impuestos`.
    pub taxes: Option<LineItemTaxes>,
    /// XML element `ACuentaTerceros`.
    pub third_party: Option<ThirdParty>,
    /// XML element `InformacionAduanera`.
    pub customs_info: Vec<CustomsInfo>,
    /// XML element `CuentaPredial`.
    pub property_tax_accounts: Vec<PropertyTaxAccount>,
    /// XML element `Parte`.
    pub parts: Vec<Part>,
}

#[derive(Debug, Clone)]
pub struct LineItemTaxes {
    /// XML element `Traslados`.
    pub transfers: Option<TransferList>,
    /// XML element `Retenciones`.
    pub withholdings: Option<WithholdingList>,
}

#[derive(Debug, Clone)]
pub struct DocumentTaxes {
    /// XML attribute `TotalImpuestosRetenidos`.
    pub total_withheld: Option<String>,
    /// XML attribute `TotalImpuestosTrasladados`.
    pub total_transferred: Option<String>,
    /// XML element `Retenciones`.
    pub withholdings: Option<WithholdingList>,
    /// XML element `Traslados`.
    pub transfers: Option<TransferList>,
}

#[derive(Debug, Clone)]
pub struct TransferList {
    /// XML element `Traslado`.
    pub items: Vec<Transfer>,
}

#[derive(Debug, Clone)]
pub struct WithholdingList {
    /// XML element `Retencion`.
    pub items: Vec<Withholding>,
}

#[derive(Debug, Clone)]
pub struct Transfer {
    /// XML attribute `Base`.
    pub base: Option<String>,
    /// XML attribute `Impuesto`.
    pub tax: TaxType,
    /// XML attribute `TipoFactor`.
    pub factor_type: TaxFactor,
    /// XML attribute `TasaOCuota`.
    pub rate_or_amount: Option<String>,
    /// XML attribute `Importe`.
    pub amount: Option<String>,
}

#[derive(Debug, Clone)]
pub struct Withholding {
    /// XML attribute `Base`.
    pub base: Option<String>,
    /// XML attribute `Impuesto`.
    pub tax: TaxType,
    /// XML attribute `TipoFactor`.
    pub factor_type: Option<TaxFactor>,
    /// XML attribute `TasaOCuota`.
    pub rate_or_amount: Option<String>,
    /// XML attribute `Importe`.
    pub amount: String,
}

#[derive(Debug, Clone)]
pub struct ThirdParty {
    /// XML attribute `RfcACuentaTerceros`.
    pub taxpayer_id: String,
    /// XML attribute `NombreACuentaTerceros`.
    pub name: Option<String>,
    /// XML attribute `RegimenFiscalACuentaTerceros`.
    pub fiscal_regime: FiscalRegime,
    /// XML attribute `DomicilioFiscalACuentaTerceros`.
    pub fiscal_domicile: String,
}

#[derive(Debug, Clone)]
pub struct CustomsInfo {
    /// XML attribute `NumeroPedimento`.
    pub customs_document_number: String,
}

#[derive(Debug, Clone)]
pub struct PropertyTaxAccount {
    /// XML attribute `Numero`.
    pub number: String,
}

#[derive(Debug, Clone)]
pub struct Part {
    /// XML attribute `ClaveProdServ`.
    pub product_service_key: String,
    /// XML attribute `NoIdentificacion`.
    pub id_number: Option<String>,
    /// XML attribute `Cantidad`.
    pub quantity: String,
    /// XML attribute `Unidad`.
    pub unit: Option<String>,
    /// XML attribute `Descripcion`.
    pub description: String,
    /// XML attribute `ValorUnitario`.
    pub unit_value: Option<String>,
    /// XML attribute `Importe`.
    pub amount: Option<String>,
    /// XML element `InformacionAduanera`.
    pub customs_info: Vec<CustomsInfo>,
}

impl LineItemTaxes {
    /// The `Transfer` entries of `transfers`, or none when the list is absent.
    pub fn transfers(&self) -> (r: &[Transfer])
        ensures
            r@ == (match self.transfers {
                Some(l) => l.items@,
                None => Seq::<Transfer>::empty(),
            }),
    {
        match &self.transfers {
            Some(l) => l.items.as_slice(),
            None => &[],
        }
    }

    /// The `Withholding` entries of `withholdings`, or none when the list is absent.
    pub fn withholdings(&self) -> (r: &[Withholding])
        ensures
            r@ == (match self.withholdings {
                Some(l) => l.items@,
                None => Seq::<Withholding>::empty(),
            }),
    {
        match &self.withholdings {
            Some(l) => l.items.as_slice(),
            None => &[],
        }
    }

}

impl DocumentTaxes {
    /// The `Transfer` entries of `transfers`, or none when the list is absent.
    pub fn transfers(&self) -> (r: &[Transfer])
        ensures
            r@ == (match self.transfers {
                Some(l) => l.items@,
                None => Seq::<Transfer>::empty(),
            }),
    {
        match &self.transfers {
            Some(l) => l.items.as_slice(),
            None => &[],
        }
    }

    /// The `Withholding` entries of `withholdings`, or none when the list is absent.
    pub fn withholdings(&self) -> (r: &[Withholding])
        ensures
            r@ == (match self.withholdings {
                Some(l) => l.items@,
                None => Seq::<Withholding>::empty(),
            }),
    {
        match &self.withholdings {
            Some(l) => l.items.as_slice(),
            None => &[],
        }
    }

}

/// The first payments complement among `items`.
pub open spec fn first_payments(items: Seq<ComplementKind>) -> Option<PaymentsComplement>
    decreases items.len(),
{
    if items.len() == 0 {
        None
    } else if let ComplementKind::Payments(p) = items[0] {
        Some(p)
    } else {
        first_payments(items.drop_first())
    }
}

/// The first payroll complement among `items`.
pub open spec fn first_payroll(items: Seq<ComplementKind>) -> Option<PayrollComplement>
    decreases items.len(),
{
    if items.len() == 0 {
        None
    } else if let ComplementKind::Payroll(p) = items[0] {
        Some(p)
    } else {
        first_payroll(items.drop_first())
    }
}

/// The first freight transport complement among `items`.
pub open spec fn first_freight(items: Seq<ComplementKind>) -> Option<FreightTransportComplement>
    decreases items.len(),
{
    if items.len() == 0 {
        None
    } else if let ComplementKind::FreightTransport(p) = items[0] {
        Some(p)
    } else {
        first_freight(items.drop_first())
    }
}

/// The first fiscal stamp among `items`.
pub open spec fn first_stamp(items: Seq<ComplementKind>) -> Option<FiscalStamp>
    decreases items.len(),
{
    if items.len() == 0 {
        None
    } else if let ComplementKind::FiscalStamp(p) = items[0] {
        Some(p)
    } else {
        first_stamp(items.drop_first())
    }
}

/// The payments complement looked up is the first one: there is none exactly when no item is a payments complement,
/// and otherwise it is the one held by the earliest such item, whatever comes before or after.
pub proof fn lemma_first_payments_is_earliest(items: Seq<ComplementKind>)
    ensures
        first_payments(items) is None <==> forall|k: int| 0 <= k < items.len() ==> !(#[trigger] items[k] is Payments),
        forall|k: int|
            0 <= k < items.len() && (forall|j: int| 0 <= j < k ==> !(#[trigger] items[j] is Payments)) ==> (
            #[trigger] items[k] matches ComplementKind::Payments(x) ==> first_payments(items) == Some(x)),
    decreases items.len(),
{
    if items.len() > 0 {
        let rest = items.drop_first();
        lemma_first_payments_is_earliest(rest);
        assert forall|k: int| 1 <= k < items.len() implies #[trigger] items[k] == rest[k - 1] by {}
        if !(items[0] is Payments) {
            assert((forall|k: int| 0 <= k < items.len() ==> !(#[trigger] items[k] is Payments)) <==> (forall|
                k: int,
            | 0 <= k < rest.len() ==> !(#[trigger] rest[k] is Payments))) by {
                if forall|k: int| 0 <= k < rest.len() ==> !(#[trigger] rest[k] is Payments) {
                    assert forall|k: int| 0 <= k < items.len() implies !(#[trigger] items[k] is Payments) by {
                        if k > 0 {
                            assert(items[k] == rest[k - 1]);
                        }
                    }
                }
                if forall|k: int| 0 <= k < items.len() ==> !(#[trigger] items[k] is Payments) {
                    assert forall|k: int| 0 <= k < rest.len() implies !(#[trigger] rest[k] is Payments) by {
                        assert(items[k + 1] == rest[k]);
                    }
                }
            }
            assert forall|k: int|
                0 <= k < items.len() && (forall|j: int| 0 <= j < k ==> !(#[trigger] items[j] is Payments))
                    implies (#[trigger] items[k] matches ComplementKind::Payments(x) ==> first_payments(items) == Some(x)) by {
                if k > 0 {
                    assert(items[k] == rest[k - 1]);
                    assert forall|j: int| 0 <= j < k - 1 implies !(#[trigger] rest[j] is Payments) by {
                        assert(items[j + 1] == rest[j]);
                    }
                }
            }
        }
    }
}

/// The payroll complement looked up is the first one: there is none exactly when no item is a payroll complement,
/// and otherwise it is the one held by the earliest such item, whatever comes before or after.
pub proof fn lemma_first_payroll_is_earliest(items: Seq<ComplementKind>)
    ensures
        first_payroll(items) is None <==> forall|k: int| 0 <= k < items.len() ==> !(#[trigger] items[k] is Payroll),
        forall|k: int|
            0 <= k < items.len() && (forall|j: int| 0 <= j < k ==> !(#[trigger] items[j] is Payroll)) ==> (
            #[trigger] items[k] matches ComplementKind::Payroll(x) ==> first_payroll(items) == Some(x)),
    decreases items.len(),
{
    if items.len() > 0 {
        let rest = items.drop_first();
        lemma_first_payroll_is_earliest(rest);
        assert forall|k: int| 1 <= k < items.len() implies #[trigger] items[k] == rest[k - 1] by {}
        if !(items[0] is Payroll) {
            assert((forall|k: int| 0 <= k < items.len() ==> !(#[trigger] items[k] is Payroll)) <==> (forall|
                k: int,
            | 0 <= k < rest.len() ==> !(#[trigger] rest[k] is Payroll))) by {
                if forall|k: int| 0 <= k < rest.len() ==> !(#[trigger] rest[k] is Payroll) {
                    assert forall|k: int| 0 <= k < items.len() implies !(#[trigger] items[k] is Payroll) by {
                        if k > 0 {
                            assert(items[k] == rest[k - 1]);
                        }
                    }
                }
                if forall|k: int| 0 <= k < items.len() ==> !(#[trigger] items[k] is Payroll) {
                    assert forall|k: int| 0 <= k < rest.len() implies !(#[trigger] rest[k] is Payroll) by {
                        assert(items[k + 1] == rest[k]);
                    }
                }
            }
            assert forall|k: int|
                0 <= k < items.len() && (forall|j: int| 0 <= j < k ==> !(#[trigger] items[j] is Payroll))
                    implies (#[trigger] items[k] matches ComplementKind::Payroll(x) ==> first_payroll(items) == Some(x)) by {
                if k > 0 {
                    assert(items[k] == rest[k - 1]);
                    assert forall|j: int| 0 <= j < k - 1 implies !(#[trigger] rest[j] is Payroll) by {
                        assert(items[j + 1] == rest[j]);
                    }
                }
            }
        }
    }
}

/// The freight transport complement looked up is the first one: there is none exactly when no item is a freight transport complement,
/// and otherwise it is the one held by the earliest such item, whatever comes before or after.
pub proof fn lemma_first_freight_is_earliest(items: Seq<ComplementKind>)
    ensures
        first_freight(items) is None <==> forall|k: int| 0 <= k < items.len() ==> !(#[trigger] items[k] is FreightTransport),
        forall|k: int|
            0 <= k < items.len() && (forall|j: int| 0 <= j < k ==> !(#[trigger] items[j] is FreightTransport)) ==> (
            #[trigger] items[k] matches ComplementKind::FreightTransport(x) ==> first_freight(items) == Some(x)),
    decreases items.len(),
{
    if items.len() > 0 {
        let rest = items.drop_first();
        lemma_first_freight_is_earliest(rest);
        assert forall|k: int| 1 <= k < items.len() implies #[trigger] items[k] == rest[k - 1] by {}
        if !(items[0] is FreightTransport) {
            assert((forall|k: int| 0 <= k < items.len() ==> !(#[trigger] items[k] is FreightTransport)) <==> (forall|
                k: int,
            | 0 <= k < rest.len() ==> !(#[trigger] rest[k] is FreightTransport))) by {
                if forall|k: int| 0 <= k < rest.len() ==> !(#[trigger] rest[k] is FreightTransport) {
                    assert forall|k: int| 0 <= k < items.len() implies !(#[trigger] items[k] is FreightTransport) by {
                        if k > 0 {
                            assert(items[k] == rest[k - 1]);
                        }
                    }
                }
                if forall|k: int| 0 <= k < items.len() ==> !(#[trigger] items[k] is FreightTransport) {
                    assert forall|k: int| 0 <= k < rest.len() implies !(#[trigger] rest[k] is FreightTransport) by {
                        assert(items[k + 1] == rest[k]);
                    }
                }
            }
            assert forall|k: int|
                0 <= k < items.len() && (forall|j: int| 0 <= j < k ==> !(#[trigger] items[j] is FreightTransport))
                    implies (#[trigger] items[k] matches ComplementKind::FreightTransport(x) ==> first_freight(items) == Some(x)) by {
                if k > 0 {
                    assert(items[k] == rest[k - 1]);
                    assert forall|j: int| 0 <= j < k - 1 implies !(#[trigger] rest[j] is FreightTransport) by {
                        assert(items[j + 1] == rest[j]);
                    }
                }
            }
        }
    }
}

/// The fiscal stamp looked up is the first one: there is none exactly when no item is a fiscal stamp,
/// and otherwise it is the one held by the earliest such item, whatever comes before or after.
pub proof fn lemma_first_stamp_is_earliest(items: Seq<ComplementKind>)
    ensures
        first_stamp(items) is None <==> forall|k: int| 0 <= k < items.len() ==> !(#[trigger] items[k] is FiscalStamp),
        forall|k: int|
            0 <= k < items.len() && (forall|j: int| 0 <= j < k ==> !(#[trigger] items[j] is FiscalStamp)) ==> (
            #[trigger] items[k] matches ComplementKind::FiscalStamp(x) ==> first_stamp(items) == Some(x)),
    decreases items.len(),
{
    if items.len() > 0 {
        let rest = items.drop_first();
        lemma_first_stamp_is_earliest(rest);
        assert forall|k: int| 1 <= k < items.len() implies #[trigger] items[k] == rest[k - 1] by {}
        if !(items[0] is FiscalStamp) {
            assert((forall|k: int| 0 <= k < items.len() ==> !(#[trigger] items[k] is FiscalStamp)) <==> (forall|
                k: int,
            | 0 <= k < rest.len() ==> !(#[trigger] rest[k] is FiscalStamp))) by {
                if forall|k: int| 0 <= k < rest.len() ==> !(#[trigger] rest[k] is FiscalStamp) {
                    assert forall|k: int| 0 <= k < items.len() implies !(#[trigger] items[k] is FiscalStamp) by {
                        if k > 0 {
                            assert(items[k] == rest[k - 1]);
                        }
                    }
                }
                if forall|k: int| 0 <= k < items.len() ==> !(#[trigger] items[k] is FiscalStamp) {
                    assert forall|k: int| 0 <= k < rest.len() implies !(#[trigger] rest[k] is FiscalStamp) by {
                        assert(items[k + 1] == rest[k]);
                    }
                }
            }
            assert forall|k: int|
                0 <= k < items.len() && (forall|j: int| 0 <= j < k ==> !(#[trigger] items[j] is FiscalStamp))
                    implies (#[trigger] items[k] matches ComplementKind::FiscalStamp(x) ==> first_stamp(items) == Some(x)) by {
                if k > 0 {
                    assert(items[k] == rest[k - 1]);
                    assert forall|j: int| 0 <= j < k - 1 implies !(#[trigger] rest[j] is FiscalStamp) by {
                        assert(items[j + 1] == rest[j]);
                    }
                }
            }
        }
    }
}

/// The complement items of an invoice, none when it has no complement.
pub open spec fn complement_items(inv: Invoice) -> Seq<ComplementKind> {
    match inv.complement {
        Some(c) => c.items@,
        None => Seq::<ComplementKind>::empty(),
    }
}

/// Whether `r` refers to the value `s` holds, or both are absent.
pub open spec fn same_option<T>(r: Option<&T>, s: Option<T>) -> bool {
    match (r, s) {
        (Some(a), Some(b)) => *a == b,
        (None, None) => true,
        _ => false,
    }
}

impl Invoice {
    /// The invoice's line items (`cfdi:Concepto`).
    pub fn line_items(&self) -> (r: &[LineItem])
        ensures
            r@ == self.line_items.items@,
    {
        self.line_items.items.as_slice()
    }

    /// The first payments complement of the invoice.
    pub fn payments(&self) -> (r: Option<&PaymentsComplement>)
        ensures
            same_option(r, first_payments(complement_items(*self))),
    {
        match &self.complement {
            None => None,
            Some(c) => {
                let n = c.items.len();
                let mut i: usize = 0;
                assert(c.items@.skip(0) =~= c.items@);
                while i < n
                    invariant
                        n == c.items@.len(),
                        complement_items(*self) == c.items@,
                        i <= n,
                        first_payments(c.items@) == first_payments(c.items@.skip(i as int)),
                    decreases n - i,
                {
                    assert(c.items@.skip(i as int).drop_first() =~= c.items@.skip(i + 1));
                    if let ComplementKind::Payments(p) = &c.items[i] {
                        assert(c.items@.skip(i as int)[0] == c.items@[i as int]);
                        return Some(p);
                    }
                    i += 1;
                }
                assert(c.items@.skip(i as int) =~= Seq::<ComplementKind>::empty());
                None
            },
        }
    }

    /// The first payroll complement of the invoice.
    pub fn payroll(&self) -> (r: Option<&PayrollComplement>)
        ensures
            same_option(r, first_payroll(complement_items(*self))),
    {
        match &self.complement {
            None => None,
            Some(c) => {
                let n = c.items.len();
                let mut i: usize = 0;
                assert(c.items@.skip(0) =~= c.items@);
                while i < n
                    invariant
                        n == c.items@.len(),
                        complement_items(*self) == c.items@,
                        i <= n,
                        first_payroll(c.items@) == first_payroll(c.items@.skip(i as int)),
                    decreases n - i,
                {
                    assert(c.items@.skip(i as int).drop_first() =~= c.items@.skip(i + 1));
                    if let ComplementKind::Payroll(p) = &c.items[i] {
                        assert(c.items@.skip(i as int)[0] == c.items@[i as int]);
                        return Some(p);
                    }
                    i += 1;
                }
                assert(c.items@.skip(i as int) =~= Seq::<ComplementKind>::empty());
                None
            },
        }
    }

    /// The first freight transport complement of the invoice.
    pub fn freight_transport(&self) -> (r: Option<&FreightTransportComplement>)
        ensures
            same_option(r, first_freight(complement_items(*self))),
    {
        match &self.complement {
            None => None,
            Some(c) => {
                let n = c.items.len();
                let mut i: usize = 0;
                assert(c.items@.skip(0) =~= c.items@);
                while i < n
                    invariant
                        n == c.items@.len(),
                        complement_items(*self) == c.items@,
                        i <= n,
                        first_freight(c.items@) == first_freight(c.items@.skip(i as int)),
                    decreases n - i,
                {
                    assert(c.items@.skip(i as int).drop_first() =~= c.items@.skip(i + 1));
                    if let ComplementKind::FreightTransport(p) = &c.items[i] {
                        assert(c.items@.skip(i as int)[0] == c.items@[i as int]);
                        return Some(p);
                    }
                    i += 1;
                }
                assert(c.items@.skip(i as int) =~= Seq::<ComplementKind>::empty());
                None
            },
        }
    }

    /// The UUID of the invoice's first fiscal stamp (`tfd:TimbreFiscalDigital`).
    pub fn fiscal_stamp_uuid(&self) -> (r: Option<&str>)
        ensures
            match (r, first_stamp(complement_items(*self))) {
                (Some(u), Some(s)) => u@ == s.uuid@,
                (None, None) => true,
                _ => false,
            },
    {
        match &self.complement {
            None => None,
            Some(c) => {
                let n = c.items.len();
                let mut i: usize = 0;
                assert(c.items@.skip(0) =~= c.items@);
                while i < n
                    invariant
                        n == c.items@.len(),
                        complement_items(*self) == c.items@,
                        i <= n,
                        first_stamp(c.items@) == first_stamp(c.items@.skip(i as int)),
                    decreases n - i,
                {
                    assert(c.items@.skip(i as int).drop_first() =~= c.items@.skip(i + 1));
                    if let ComplementKind::FiscalStamp(s) = &c.items[i] {
                        assert(c.items@.skip(i as int)[0] == c.items@[i as int]);
                        return Some(s.uuid.as_str());
                    }
                    i += 1;
                }
                assert(c.items@.skip(i as int) =~= Seq::<ComplementKind>::empty());
                None
            },
        }
    }
}

} // verus!
