use satcli::cfdi::catalogs::{CfdiUse, Currency, DocumentType, FiscalRegime, TaxFactor, TaxType};
use satcli::cfdi::complement::{Complement, ComplementKind, FiscalStamp};
use satcli::cfdi::invoice::{
    DocumentTaxes, Invoice, Issuer, LineItem, LineItemTaxes, LineItems, Recipient, Transfer,
    TransferList, Withholding, WithholdingList,
};
use satcli::cfdi::payment::{PaymentTaxes, PaymentTotals, PaymentsComplement, RelatedDocumentTaxes};

fn transfer(amount: &str) -> Transfer {
    Transfer {
        base: Some("100.00".to_string()),
        tax: TaxType::from_code("002"),
        factor_type: TaxFactor::from_code("Tasa"),
        rate_or_amount: Some("0.160000".to_string()),
        amount: Some(amount.to_string()),
    }
}

fn withholding(amount: &str) -> Withholding {
    Withholding {
        base: None,
        tax: TaxType::from_code("001"),
        factor_type: None,
        rate_or_amount: None,
        amount: amount.to_string(),
    }
}

fn line_item(description: &str) -> LineItem {
    LineItem {
        product_service_key: "01010101".to_string(),
        id_number: None,
        quantity: "1".to_string(),
        unit_key: "ACT".to_string(),
        unit: None,
        description: description.to_string(),
        unit_value: "100.00".to_string(),
        amount: "100.00".to_string(),
        discount: None,
        tax_object: None,
        taxes: None,
        third_party: None,
        customs_info: vec![],
        property_tax_accounts: vec![],
        parts: vec![],
    }
}

fn stamp(uuid: &str) -> ComplementKind {
    ComplementKind::FiscalStamp(FiscalStamp {
        uuid: uuid.to_string(),
        stamp_date: String::new(),
        sat_certificate_number: String::new(),
        cfdi_seal: String::new(),
        sat_seal: String::new(),
    })
}

fn invoice(complement: Option<Complement>) -> Invoice {
    Invoice {
        version: "4.0".to_string(),
        series: None,
        fiscal_id: None,
        issued_at: "2024-01-01T00:00:00".to_string(),
        seal: String::new(),
        payment_form: None,
        certificate_number: String::new(),
        certificate: String::new(),
        payment_conditions: None,
        subtotal: "100.00".to_string(),
        discount: None,
        currency: Currency::from_code("MXN"),
        exchange_rate: None,
        total: "116.00".to_string(),
        document_type: DocumentType::from_code("I"),
        export: None,
        payment_method: None,
        issue_place: "01000".to_string(),
        confirmation: None,
        global_info: None,
        related_cfdis: vec![],
        issuer: Issuer {
            taxpayer_id: "AAA010101AAA".to_string(),
            name: None,
            fiscal_regime: FiscalRegime::from_code("601"),
            acquirer_fac_attr: None,
        },
        recipient: Recipient {
            taxpayer_id: "XAXX010101000".to_string(),
            name: None,
            fiscal_domicile: None,
            tax_residence: None,
            foreign_tax_id: None,
            fiscal_regime: None,
            cfdi_use: CfdiUse::from_code("G03"),
        },
        line_items: LineItems { items: vec![line_item("first"), line_item("second")] },
        taxes: None,
        complement,
    }
}

#[test]
fn line_items_in_order() {
    let inv = invoice(None);
    let items = inv.line_items();
    assert_eq!(items.len(), 2);
    assert_eq!(items[0].description, "first");
    assert_eq!(items[1].description, "second");
}

#[test]
fn without_complement_nothing_is_found() {
    let inv = invoice(None);
    assert!(inv.payments().is_none());
    assert!(inv.payroll().is_none());
    assert!(inv.freight_transport().is_none());
    assert!(inv.fiscal_stamp_uuid().is_none());
}

#[test]
fn the_first_complement_of_each_kind_is_found() {
    let items = vec![
        ComplementKind::Unknown { namespace: "urn:x".to_string(), raw_xml: "<x/>".to_string() },
        stamp("FIRST"),
        stamp("SECOND"),
    ];
    let inv = invoice(Some(Complement { items }));
    assert_eq!(inv.fiscal_stamp_uuid(), Some("FIRST"));
    assert!(inv.payments().is_none());
    let totals = PaymentTotals {
        total_iva_withheld: None,
        total_isr_withheld: None,
        total_ieps_withheld: None,
        total_transferred_iva_base_16: None,
        total_transferred_iva_tax_16: None,
        total_transferred_iva_base_8: None,
        total_transferred_iva_tax_8: None,
        total_transferred_iva_base_0: None,
        total_transferred_iva_tax_0: None,
        total_transferred_iva_base_exempt: None,
        total_payments_amount: "116.00".to_string(),
    };
    let pays = PaymentsComplement { version: "2.0".to_string(), totals, payments: vec![] };
    let inv = invoice(Some(Complement { items: vec![ComplementKind::Payments(pays), stamp("U")] }));
    assert_eq!(inv.payments().unwrap().version, "2.0");
    assert_eq!(inv.fiscal_stamp_uuid(), Some("U"));
    let empty = invoice(Some(Complement::default()));
    assert!(empty.fiscal_stamp_uuid().is_none());
}

#[test]
fn tax_lists() {
    let t = LineItemTaxes {
        transfers: Some(TransferList { items: vec![transfer("16.00")] }),
        withholdings: None,
    };
    assert_eq!(t.transfers().len(), 1);
    assert_eq!(t.transfers()[0].amount.as_deref(), Some("16.00"));
    assert!(t.withholdings().is_empty());
    let d = DocumentTaxes {
        total_withheld: Some("10.00".to_string()),
        total_transferred: None,
        withholdings: Some(WithholdingList { items: vec![withholding("10.00"), withholding("1.00")] }),
        transfers: None,
    };
    assert!(d.transfers().is_empty());
    assert_eq!(d.withholdings()[1].amount, "1.00");
    let r = RelatedDocumentTaxes { withholdings: None, transfers: None };
    assert!(r.transfers().is_empty() && r.withholdings().is_empty());
    let p = PaymentTaxes { withholdings: None, transfers: None };
    assert!(p.transfers().is_empty() && p.withholdings().is_empty());
}
