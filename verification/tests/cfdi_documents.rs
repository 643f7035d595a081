use satcli::cfdi::catalogs::{Currency, DocumentType, PaymentForm, TaxType};
use satcli::cfdi::complement::{
    capture_element, complement_item, complement_namespace, complement_parts, ComplementKind,
    ComplementNamespace, ComplementPart, FiscalStamp,
};
use satcli::cfdi::document::{
    looks_like_html, parse_cfdi_date, parse_cfdi_datetime, prepare_document,
    prepare_document_bytes, read_placed_events, root_ns_decls, split_complement, strip_bom,
    CfdiError,
};
use satcli::cfdi::freight::si_no_flag;
use satcli::cfdi::xml::XmlEventKind;
use satcli::dates::Date;

const STAMPED: &str = "<?xml version=\"1.0\" encoding=\"UTF-8\"?>\n<cfdi:Comprobante xmlns:cfdi=\"http://www.sat.gob.mx/cfd/4\" xmlns:tfd=\"http://www.sat.gob.mx/TimbreFiscalDigital\" Version=\"4.0\" Total=\"116.00\"><cfdi:Emisor Rfc=\"AAA010101AAA\" Nombre=\"ACME\" RegimenFiscal=\"601\"/><cfdi:Complemento>\n  <tfd:TimbreFiscalDigital Version=\"1.1\" UUID=\"ABC-123\" FechaTimbrado=\"2024-01-02T03:04:05\"/>\n</cfdi:Complemento></cfdi:Comprobante>";

#[test]
fn split_complement_takes_out_the_complement() {
    let (body, inner) = split_complement(STAMPED);
    assert!(!body.contains("Complemento"));
    assert!(body.contains("<cfdi:Emisor Rfc=\"AAA010101AAA\""));
    assert!(body.ends_with("</cfdi:Comprobante>"));
    let inner = inner.expect("complement");
    assert_eq!(
        inner,
        "<tfd:TimbreFiscalDigital Version=\"1.1\" UUID=\"ABC-123\" FechaTimbrado=\"2024-01-02T03:04:05\"/>"
    );
}

#[test]
fn split_complement_leaves_a_document_without_complement_whole() {
    let xml = "<cfdi:Comprobante xmlns:cfdi=\"x\"><cfdi:Emisor/></cfdi:Comprobante>";
    assert_eq!(split_complement(xml), (xml.to_string(), None));
}

#[test]
fn split_complement_of_an_empty_complement_gives_no_content() {
    let xml = "<a><cfdi:Complemento>   </cfdi:Complemento><b/></a>";
    let (body, inner) = split_complement(xml);
    assert_eq!(body, "<a><b/></a>");
    assert_eq!(inner, None);
}

#[test]
fn split_complement_of_a_self_closing_complement() {
    let xml = "<a><Complemento/><b/></a>";
    assert_eq!(split_complement(xml), ("<a><b/></a>".to_string(), None));
}

#[test]
fn root_namespace_declarations_are_kept() {
    assert_eq!(
        root_ns_decls(STAMPED),
        " xmlns:cfdi=\"http://www.sat.gob.mx/cfd/4\" xmlns:tfd=\"http://www.sat.gob.mx/TimbreFiscalDigital\""
    );
    assert_eq!(root_ns_decls("<a b=\"1\"/>"), "");
    assert_eq!(root_ns_decls("not xml at all"), "");
}

#[test]
fn events_end_with_eof() {
    let events = read_placed_events("<a><b/></a>");
    let kinds: Vec<XmlEventKind> = events.iter().map(|e| e.event.kind).collect();
    assert_eq!(
        kinds,
        vec![XmlEventKind::Start, XmlEventKind::Empty, XmlEventKind::End, XmlEventKind::Eof]
    );
    assert_eq!(events[0].before, 0);
    assert_eq!(events[0].after, 3);
    assert_eq!(events[1].event.local_name, "b");
}

#[test]
fn prepare_document_splits_and_keeps_namespaces() {
    let p = prepare_document(STAMPED).expect("a CFDI");
    assert!(!p.body.contains("<tfd:TimbreFiscalDigital"));
    assert!(p.complement.unwrap().starts_with("<tfd:TimbreFiscalDigital"));
    assert!(p.namespaces.contains("xmlns:tfd=\"http://www.sat.gob.mx/TimbreFiscalDigital\""));
}

#[test]
fn byte_order_marks_are_ignored() {
    let with_marks = format!("\u{FEFF}\u{FEFF}{}", STAMPED);
    let a = prepare_document(&with_marks).unwrap();
    let b = prepare_document(STAMPED).unwrap();
    assert_eq!(a.body, b.body);
    assert_eq!(a.complement, b.complement);
    assert_eq!(a.namespaces, b.namespaces);
    assert_eq!(strip_bom("\u{FEFF}\u{FEFF}x\u{FEFF}"), "x\u{FEFF}");
}

#[test]
fn html_pages_are_not_cfdi() {
    assert!(matches!(
        prepare_document("  \n<!DOCTYPE html><html></html>"),
        Err(CfdiError::NotCfdi)
    ));
    assert!(matches!(prepare_document("<html><body/></html>"), Err(CfdiError::NotCfdi)));
    assert!(!looks_like_html("<cfdi:Comprobante/>"));
    assert!(looks_like_html("\t<html lang=\"es\">"));
}

#[test]
fn bytes_must_be_utf8() {
    match prepare_document_bytes(&[0x3c, 0xff, 0x3e]) {
        Err(CfdiError::Xml(m)) => assert!(m.contains("invalid utf-8")),
        other => panic!("unexpected {:?}", other),
    }
    let p = prepare_document_bytes(STAMPED.as_bytes()).unwrap();
    assert!(p.complement.is_some());
}

#[test]
fn capture_element_finds_prefixed_and_bare_elements() {
    let xml = "<x:Other/><pago20:Pagos Version=\"2.0\"><pago20:Pago/></pago20:Pagos>";
    assert_eq!(
        capture_element(xml, "Pagos"),
        "<pago20:Pagos Version=\"2.0\"><pago20:Pago/></pago20:Pagos>"
    );
    assert_eq!(capture_element("<Foo>text</Foo>rest", "Foo"), "<Foo>text</Foo>");
    assert_eq!(capture_element("<a:Foo x=\"1\">open", "Foo"), "<a:Foo x=\"1\">open");
    assert_eq!(capture_element("<a/>", "Missing"), "");
}

#[test]
fn complement_parts_resolve_inherited_prefixes() {
    let inner = "<tfd:TimbreFiscalDigital UUID=\"U-1\"/><x:Custom a=\"1\"><x:Inner/></x:Custom>";
    let ns = " xmlns:tfd=\"http://www.sat.gob.mx/TimbreFiscalDigital\" xmlns:x=\"urn:other\"";
    let parts = complement_parts(inner, ns);
    assert_eq!(parts.len(), 2);
    assert_eq!(parts[0].namespace, "http://www.sat.gob.mx/TimbreFiscalDigital");
    assert_eq!(parts[0].kind, ComplementNamespace::FiscalStamp);
    // A self-closing element has no closing tag, so its text runs to the end of the XML.
    assert_eq!(parts[0].element_xml, inner);
    assert_eq!(parts[1].namespace, "urn:other");
    assert_eq!(parts[1].kind, ComplementNamespace::Other);
    assert_eq!(parts[1].element_xml, "<x:Custom a=\"1\"><x:Inner/></x:Custom>");
    assert!(complement_parts("  \n ", ns).is_empty());
}

#[test]
fn complement_parts_with_unbound_prefix_has_no_namespace() {
    let parts = complement_parts("<p:Thing/>", "");
    assert_eq!(parts.len(), 1);
    assert_eq!(parts[0].namespace, "");
    assert_eq!(parts[0].kind, ComplementNamespace::Other);
}

#[test]
fn complement_namespaces() {
    assert_eq!(complement_namespace("http://www.sat.gob.mx/Pagos20"), ComplementNamespace::Payments);
    assert_eq!(complement_namespace("http://www.sat.gob.mx/nomina12"), ComplementNamespace::Payroll);
    assert_eq!(
        complement_namespace("http://www.sat.gob.mx/CartaPorte31"),
        ComplementNamespace::FreightTransport
    );
    assert_eq!(complement_namespace("http://www.sat.gob.mx/Pagos10"), ComplementNamespace::Other);
}

fn part(kind: ComplementNamespace) -> ComplementPart {
    ComplementPart {
        namespace: "urn:ns".to_string(),
        kind,
        element_xml: "<x:E/>".to_string(),
    }
}

#[test]
fn complement_items_keep_unknown_and_failed_ones() {
    match complement_item(&part(ComplementNamespace::Other), Err("ignored".to_string())) {
        ComplementKind::Unknown { namespace, raw_xml } => {
            assert_eq!(namespace, "urn:ns");
            assert_eq!(raw_xml, "<x:E/>");
        }
        other => panic!("unexpected {:?}", other),
    }
    match complement_item(&part(ComplementNamespace::Payments), Err("missing field".to_string())) {
        ComplementKind::Unknown { raw_xml, .. } => assert_eq!(raw_xml, "parse error: missing field"),
        other => panic!("unexpected {:?}", other),
    }
    let stamp = FiscalStamp {
        uuid: "U".to_string(),
        stamp_date: String::new(),
        sat_certificate_number: String::new(),
        cfdi_seal: String::new(),
        sat_seal: String::new(),
    };
    match complement_item(&part(ComplementNamespace::FiscalStamp), Ok(ComplementKind::FiscalStamp(stamp))) {
        ComplementKind::FiscalStamp(s) => assert_eq!(s.uuid, "U"),
        other => panic!("unexpected {:?}", other),
    }
}

#[test]
fn cfdi_dates() {
    let t = parse_cfdi_datetime("2024-02-29T23:59:58").unwrap();
    assert_eq!(t.date, Date { year: 2024, month: 2, day: 29 });
    assert_eq!((t.hour, t.minute, t.second, t.nanosecond), (23, 59, 58, 0));
    assert!(parse_cfdi_datetime("2023-02-29T00:00:00").is_err());
    assert_eq!(
        parse_cfdi_datetime("2024-01-01").unwrap_err().message,
        "premature end of input"
    );
    assert_eq!(parse_cfdi_date("2024-12-31").unwrap(), Date { year: 2024, month: 12, day: 31 });
    assert_eq!(
        parse_cfdi_date("31/12/2024").unwrap_err().message,
        "input contains invalid characters"
    );
}

#[test]
fn catalog_codes_round_trip() {
    assert_eq!(DocumentType::from_code("I"), DocumentType::Income);
    assert_eq!(DocumentType::from_code("P").code(), "P");
    assert_eq!(DocumentType::from_code("Z"), DocumentType::Unknown("Z".to_string()));
    assert_eq!(DocumentType::Unknown("Z".to_string()).code(), "Z");
    assert_eq!(PaymentForm::from_code("03").code(), "03");
    assert_eq!(Currency::from_code("MXN").code(), "MXN");
    assert_eq!(TaxType::from_code("002").code(), "002");
    assert_eq!(TaxType::from_code("9").code(), "9");
}

#[test]
fn yes_no_attributes() {
    assert_eq!(si_no_flag(Some("Sí".to_string())), Some(true));
    assert_eq!(si_no_flag(Some("No".to_string())), Some(false));
    assert_eq!(si_no_flag(Some("Si".to_string())), Some(false));
    assert_eq!(si_no_flag(None), None);
}
