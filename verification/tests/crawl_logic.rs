use satcli::dates::Date;
use satcli::satcrawler::config::{
    CrawlerConfig, CrawlerConfigBuilder, CrawlerFilters, CrawlerOptions, Credentials, LoginType,
};
use satcli::satcrawler::crawler::{browser_launch, crawl_response, Crawler, CrawlerResponse, CrawlerType};
use satcli::satcrawler::csf::{
    certificate_button_selector, certificate_pdf, certificate_response, iframe_hop, is_pdf,
    on_certificate_site, saml_form_message, submit_saml_form,
};
use satcli::satcrawler::downloads::{
    certificate_path, download_folder, downloads_finished, join_path, pdf_download_outcome,
    printed_representation_address, validate_download_outcome, validation_response,
    xml_download_outcome,
};
use satcli::satcrawler::events::{Invoice, InvoiceEvent};
use satcli::satcrawler::filters::{
    apply_date_filter, date_filters_until, get_all_date_filters, parse_date, received_months,
    search_ranges_from, set_mx_date_format,
};
use satcli::satcrawler::logger::Logger;
use satcli::satcrawler::portal::{
    cookie_header, date_field_script, download_outcome, extract_pdf_token, extract_xml_token,
    invoice_from_cells, invoice_summary, month_script, pager_script, pages_to_visit,
    printed_representation_url, recover_cfdi_url, row_is_readable, set_value_script, skip_outcome,
    year_script, DocumentKind, DownloadOutcome,
};
use satcli::satcrawler::session::{
    captcha_base64, captcha_code, captcha_image, credential_fields, error_element_selector, fiel_files, login_failure,
    login_flow, login_start_url, login_succeeded, retry_decision, retry_message, LoginFlow,
    RetryDecision, Site, signs_with_fiel,
};

fn d(year: i32, month: u32, day: u32) -> Date {
    Date { year, month, day }
}

fn credentials(login_type: LoginType, user: &str, pass: &str) -> Credentials {
    Credentials {
        login_type,
        username: user.to_string(),
        password: pass.to_string(),
        crt_path: None,
        key_path: None,
    }
}

fn invoice(uuid: &str) -> Invoice {
    Invoice {
        uuid: uuid.to_string(),
        fiscal_id: "F1".to_string(),
        issuer_tax_id: "AAA010101AAA".to_string(),
        issuer_name: "ACME".to_string(),
        receiver_tax_id: "BBB010101BBB".to_string(),
        receiver_name: "Client".to_string(),
        issued_at: "2024-01-01T00:00:00".to_string(),
        certified_at: "2024-01-01T00:01:00".to_string(),
        total: "$116.00".to_string(),
        invoice_type: "Ingreso".to_string(),
        invoice_status: "Vigente".to_string(),
    }
}

// ── Configuration ───────────────────────────────────────────────────────────

#[test]
fn builder_defaults_to_headless_and_sandboxed() {
    let cfg = CrawlerConfig::builder()
        .with_credentials("RFC".to_string(), "pw".to_string())
        .build()
        .unwrap();
    assert!(cfg.options.headless && cfg.options.sandbox);
    assert_eq!(cfg.credentials.username, "RFC");
    assert_eq!(cfg.credentials.login_type, LoginType::Ciec);
    let cfg = CrawlerConfigBuilder::new()
        .with_credentials("RFC".to_string(), "pw".to_string())
        .with_head()
        .no_sandbox()
        .build()
        .unwrap();
    assert!(!cfg.options.headless && !cfg.options.sandbox);
    assert_eq!(CrawlerConfigBuilder::new().build().unwrap_err(), "Credentials are required");
}

#[test]
fn validation_names_the_missing_setting() {
    let ok = CrawlerConfig::new(credentials(LoginType::Ciec, "RFC", "pw"), CrawlerOptions::default());
    assert_eq!(ok.validate(), Ok(()));
    let no_user = CrawlerConfig::new(credentials(LoginType::Ciec, "", "pw"), CrawlerOptions::default());
    assert_eq!(no_user.validate().unwrap_err(), "username (RFC) is required");
    let no_pass = CrawlerConfig::new(credentials(LoginType::Ciec, "RFC", ""), CrawlerOptions::default());
    assert_eq!(no_pass.validate().unwrap_err(), "password is required");
    let mut fiel = credentials(LoginType::Fiel, "RFC", "pw");
    let cfg = CrawlerConfig::new(fiel.clone(), CrawlerOptions::default());
    assert_eq!(cfg.validate().unwrap_err(), "FIEL login requires a certificate path (crt_path)");
    fiel.crt_path = Some("/c.cer".to_string());
    let cfg = CrawlerConfig::new(fiel.clone(), CrawlerOptions::default());
    assert_eq!(cfg.validate().unwrap_err(), "FIEL login requires a key path (key_path)");
    fiel.key_path = Some("/k.key".to_string());
    assert_eq!(CrawlerConfig::new(fiel, CrawlerOptions::default()).validate(), Ok(()));
}

#[test]
fn crawler_refuses_a_configuration_that_cannot_sign_in() {
    let cfg = CrawlerConfig::default();
    let crawler: Crawler<(), ()> = Crawler::new(CrawlerType::ValidateCredentials, cfg);
    let r = crawler.refusal().unwrap();
    assert!(!r.success);
    assert_eq!(r.message, "username (RFC) is required");
    let cfg = CrawlerConfig::new(credentials(LoginType::Ciec, "RFC", "pw"), CrawlerOptions::default());
    let crawler: Crawler<u8, u8> = Crawler::new(CrawlerType::DownloadInvoices, cfg)
        .with_event_handler(7)
        .with_download_decider(9)
        .with_filters(Some(CrawlerFilters { start_date: Some(d(2024, 1, 1)), end_date: None }));
    assert!(crawler.refusal().is_none());
    assert_eq!(crawler.event_handler, Some(7));
    assert_eq!(crawler.download_decider, Some(9));
    assert_eq!(crawler.filters.start_date, Some(d(2024, 1, 1)));
    let kept = crawler.with_filters(None);
    assert_eq!(kept.filters.start_date, Some(d(2024, 1, 1)));
}

#[test]
fn crawl_errors_are_reported_as_failures() {
    let r = crawl_response(Err("Timeout".to_string()));
    assert!(!r.success);
    assert_eq!(r.message, "Crawler error: Timeout");
    let ok = CrawlerResponse { success: true, message: "done".to_string() };
    assert_eq!(crawl_response(Ok(ok)).message, "done");
    assert_eq!(browser_launch(CrawlerOptions { headless: true, sandbox: false }), (false, true));
}

#[test]
fn log_lines() {
    let l = Logger::new().line("INFO", "2024-01-01 00:00:00", "Starting");
    assert_eq!(l, "[INFO] 2024-01-01 00:00:00 Starting");
}

// ── Dates and searches ──────────────────────────────────────────────────────

#[test]
fn dates_are_written_and_read_as_dd_mm_yyyy() {
    assert_eq!(set_mx_date_format(d(2024, 3, 7)), "07/03/2024");
    assert_eq!(parse_date("07/03/2024"), Ok(d(2024, 3, 7)));
    assert_eq!(parse_date(&set_mx_date_format(d(2020, 2, 29))), Ok(d(2020, 2, 29)));
    assert_eq!(
        parse_date("2024-03-07").unwrap_err(),
        "Invalid date '2024-03-07': expected format dd/mm/YYYY (e.g. 01/01/2024)"
    );
    assert!(parse_date("31/02/2024").is_err());
}

#[test]
fn searches_cover_each_year_since_2020() {
    let ranges = date_filters_until(d(2022, 5, 10));
    assert_eq!(
        ranges,
        vec![
            ("01/01/2020".to_string(), "31/12/2020".to_string()),
            ("01/01/2021".to_string(), "31/12/2021".to_string()),
            ("01/01/2022".to_string(), "10/05/2022".to_string()),
        ]
    );
    assert_eq!(
        date_filters_until(d(2020, 1, 1)),
        vec![("01/01/2020".to_string(), "01/01/2020".to_string())]
    );
    let all = get_all_date_filters();
    assert!(all.len() >= 6);
    assert_eq!(all[0], ("01/01/2020".to_string(), "31/12/2020".to_string()));
}

#[test]
fn filters_cut_the_searches() {
    let filters = CrawlerFilters { start_date: Some(d(2021, 6, 15)), end_date: Some(d(2022, 2, 1)) };
    let r = search_ranges_from(d(2023, 3, 1), &filters);
    assert_eq!(
        r,
        vec![(d(2021, 6, 15), d(2021, 12, 31)), (d(2022, 1, 1), d(2022, 2, 1))]
    );
    let none = CrawlerFilters { start_date: None, end_date: None };
    assert_eq!(search_ranges_from(d(2021, 1, 2), &none).len(), 2);
    let ranges = vec![
        ("01/01/2024".to_string(), "31/12/2024".to_string()),
        ("bad".to_string(), "31/12/2024".to_string()),
    ];
    let later = CrawlerFilters { start_date: Some(d(2025, 1, 1)), end_date: None };
    assert!(apply_date_filter(ranges.clone(), &later).is_empty());
    assert_eq!(apply_date_filter(ranges, &none), vec![(d(2024, 1, 1), d(2024, 12, 31))]);
}

#[test]
fn received_invoices_are_searched_by_month() {
    let months = received_months(&[(d(2024, 10, 5), d(2024, 12, 31)), (d(2025, 1, 1), d(2025, 1, 9))]);
    assert_eq!(months, vec![(2024, 10), (2024, 11), (2024, 12), (2025, 1)]);
}

// ── The invoice portal ──────────────────────────────────────────────────────

#[test]
fn download_tokens_are_read_from_the_buttons() {
    let oc = "window.location.href='RecuperaCfdi.aspx?Datos=abc%2B123';";
    assert_eq!(extract_xml_token(oc), Some("abc%2B123".to_string()));
    assert_eq!(extract_xml_token("RecuperaCfdi.aspx?Datos=unterminated"), None);
    assert_eq!(extract_xml_token("nothing here"), None);
    assert_eq!(extract_pdf_token("recuperaRepresentacionImpresa('tok=1','x');"), Some("tok=1".to_string()));
    assert_eq!(extract_pdf_token("only 'one quote"), None);
    assert_eq!(extract_pdf_token("''"), Some(String::new()));
}

#[test]
fn portal_addresses_and_session() {
    assert_eq!(
        recover_cfdi_url("T"),
        "https://portalcfdi.facturaelectronica.sat.gob.mx/RecuperaCfdi.aspx?Datos=T"
    );
    assert_eq!(
        printed_representation_url("RepresentacionImpresa.aspx?Datos=x"),
        "https://portalcfdi.facturaelectronica.sat.gob.mx/RepresentacionImpresa.aspx?Datos=x"
    );
    let cookies = vec![("a".to_string(), "1".to_string()), ("b".to_string(), "2".to_string())];
    assert_eq!(cookie_header(&cookies), "a=1; b=2");
    assert_eq!(cookie_header(&[]), "");
    assert_eq!(pages_to_visit(0), 1);
    assert_eq!(pages_to_visit(4), 4);
}

#[test]
fn rows_and_invoices() {
    assert!(row_is_readable("", 13));
    assert!(!row_is_readable("color: red; display: none", 13));
    assert!(!row_is_readable("display:none", 20));
    assert!(!row_is_readable("", 12));
    let cells: Vec<String> = (0..13).map(|i| format!("c{}", i)).collect();
    let inv = invoice_from_cells("U1".to_string(), &cells);
    assert_eq!(inv.uuid, "U1");
    assert_eq!(inv.fiscal_id, "c1");
    assert_eq!(inv.total, "c9");
    assert_eq!(inv.invoice_type, "c10");
    assert_eq!(inv.invoice_status, "c12");
    assert_eq!(
        invoice_summary(&invoice("U2")),
        "Invoice U2 | F1 | AAA010101AAA | ACME -> BBB010101BBB | Client | 2024-01-01T00:00:00 | 2024-01-01T00:01:00 | $116.00 | Ingreso | Vigente"
    );
}

#[test]
fn download_results_become_events_or_errors() {
    match download_outcome(DocumentKind::Xml, invoice("U"), Some(Ok(vec![1, 2]))) {
        DownloadOutcome::Emit(InvoiceEvent::XmlDownloaded { invoice, content }) => {
            assert_eq!(invoice.uuid, "U");
            assert_eq!(content, vec![1, 2]);
        }
        other => panic!("unexpected {:?}", other),
    }
    match download_outcome(DocumentKind::Pdf, invoice("U"), Some(Err("HTTP 500".to_string()))) {
        DownloadOutcome::LogError(m) => assert_eq!(m, "PDF download failed for U: HTTP 500"),
        other => panic!("unexpected {:?}", other),
    }
    match download_outcome(DocumentKind::Xml, invoice("U"), None) {
        DownloadOutcome::LogError(m) => assert_eq!(m, "No XML token found for U"),
        other => panic!("unexpected {:?}", other),
    }
    let (line, event) = skip_outcome(invoice("S"));
    assert_eq!(line, "Skipping invoice S (already exists)");
    assert!(matches!(event, InvoiceEvent::Skipped { .. }));
}

#[test]
fn page_scripts() {
    assert_eq!(
        date_field_script("#start", "01/01/2024"),
        "{ const e = document.querySelector('#start'); e.click(); e.value = '01/01/2024'; }"
    );
    assert_eq!(set_value_script("#h", "23"), "document.querySelector('#h').value = '23'");
    assert_eq!(year_script(2024), "document.querySelector('#DdlAnio').value = '2024'; ValidateYear();");
    assert_eq!(
        month_script(3),
        "document.querySelector('#ctl00_MainContent_CldFecha_DdlMes').value = '3'; asignaDia();"
    );
    assert_eq!(pager_script(12), "pager.showPage(12)");
}

// ── Signing in ──────────────────────────────────────────────────────────────

#[test]
fn sign_in_flows() {
    assert_eq!(login_flow(Site::InvoicePortal, LoginType::Fiel), LoginFlow::PortalFiel);
    assert_eq!(login_flow(Site::TaxStatus, LoginType::Ciec), LoginFlow::TaxStatus);
    assert_eq!(login_start_url(LoginFlow::TaxStatus), "https://login.siat.sat.gob.mx/nidp/app/login");
    assert_eq!(login_start_url(LoginFlow::PortalFiel), "https://portalcfdi.facturaelectronica.sat.gob.mx/");
    assert!(login_succeeded(LoginFlow::Portal, "https://portalcfdi.facturaelectronica.sat.gob.mx/x"));
    assert!(!login_succeeded(LoginFlow::PortalFiel, "https://login.siat.sat.gob.mx/nidp"));
    assert!(login_succeeded(LoginFlow::TaxStatus, "https://wwwmat.sat.gob.mx/home"));
    assert!(!login_succeeded(LoginFlow::TaxStatus, "https://login.siat.sat.gob.mx/nidp/app/login?x"));
    assert!(!login_succeeded(LoginFlow::TaxStatusFiel, "https://login.siat.sat.gob.mx/nidp/idff"));
    assert_eq!(error_element_selector(LoginFlow::Portal), "#msgError");
    assert_eq!(error_element_selector(LoginFlow::TaxStatusFiel), "#divError");
    assert!(signs_with_fiel(LoginFlow::PortalFiel) && !signs_with_fiel(LoginFlow::TaxStatus));
    assert_eq!(credential_fields(LoginFlow::Portal), ("#rfc", "input#password"));
    assert_eq!(
        credential_fields(LoginFlow::TaxStatus),
        ("input[name='Ecom_User_ID']", "input[name='Ecom_Password']")
    );
}

#[test]
fn sign_in_failures() {
    assert_eq!(login_failure(LoginFlow::Portal, None), "Login failed with message: Unkown error");
    assert_eq!(
        login_failure(LoginFlow::Portal, Some("Captcha incorrecto".to_string())),
        "Login failed with message: Captcha incorrecto"
    );
    assert_eq!(login_failure(LoginFlow::PortalFiel, None), "FIEL login failed: Unknown error");
    assert_eq!(login_failure(LoginFlow::TaxStatus, Some("x".to_string())), "CSF login failed: x");
    assert_eq!(login_failure(LoginFlow::TaxStatusFiel, None), "CSF FIEL login failed: Unknown error");
    let mut c = credentials(LoginType::Fiel, "R", "p");
    assert_eq!(fiel_files(&c).unwrap_err(), "FIEL login requires a certificate path");
    c.crt_path = Some("/a.cer".to_string());
    assert_eq!(fiel_files(&c).unwrap_err(), "FIEL login requires a key path");
    c.key_path = Some("/a.key".to_string());
    assert_eq!(fiel_files(&c), Ok(("/a.cer".to_string(), "/a.key".to_string())));
}

#[test]
fn captcha_images_are_decoded() {
    assert_eq!(captcha_base64("data:image/jpeg;base64,aGk="), "aGk=");
    assert_eq!(captcha_base64("aGk=data:image/jpeg;base64,"), "aGk=");
    assert_eq!(captcha_image("data:image/jpeg;base64,aGVsbG8="), Ok(b"hello".to_vec()));
    assert!(captcha_image("data:image/jpeg;base64,@@@").is_err());
    assert_eq!(captcha_code(Some("ABC12".to_string())), Ok("ABC12".to_string()));
    assert_eq!(captcha_code(None).unwrap_err(), "NO code found in captcha result");
}

#[test]
fn retries_stop_after_the_last_allowed_one() {
    assert_eq!(retry_decision(true, 0, 3), RetryDecision::Done);
    assert_eq!(retry_decision(false, 0, 3), RetryDecision::TryAgain { attempt: 1 });
    assert_eq!(retry_decision(false, 2, 3), RetryDecision::TryAgain { attempt: 3 });
    assert_eq!(retry_decision(false, 3, 3), RetryDecision::GiveUp);
    // A step that always fails is tried four times with three retries.
    let mut attempts = 0;
    let mut tries = 0;
    loop {
        tries += 1;
        match retry_decision(false, attempts, 3) {
            RetryDecision::TryAgain { attempt } => attempts = attempt,
            _ => break,
        }
    }
    assert_eq!(tries, 4);
    assert_eq!(
        retry_message(2, "Timeout", 500),
        "Attempt 2 failed: Timeout. Retrying in 0 seconds..."
    );
    assert_eq!(retry_message(1, "E", 2500), "Attempt 1 failed: E. Retrying in 2 seconds...");
}

// ── The tax-status certificate ──────────────────────────────────────────────

#[test]
fn certificate_sign_on_hops() {
    assert!(on_certificate_site("https://rfcampc.siat.sat.gob.mx/PTSC"));
    assert!(submit_saml_form(0, "https://wwwmat.sat.gob.mx", "rfcampc.siat.sat.gob.mx", true));
    assert!(!submit_saml_form(3, "https://wwwmat.sat.gob.mx", "rfcampc.siat.sat.gob.mx", true));
    assert!(!submit_saml_form(1, "https://rfcampc.siat.sat.gob.mx/x", "rfcampc.siat.sat.gob.mx", true));
    assert!(!submit_saml_form(1, "https://wwwmat.sat.gob.mx", "rfcampc.siat.sat.gob.mx", false));
    assert_eq!(saml_form_message("CSF first-round", 0), "CSF first-round SAML form 1 \u{2014} submitting");
    assert_eq!(iframe_hop("https://wwwmat.sat.gob.mx", "https://f"), Some("https://f".to_string()));
    assert_eq!(iframe_hop("https://wwwmat.sat.gob.mx", ""), None);
    assert_eq!(iframe_hop("https://rfcampc.siat.sat.gob.mx", "https://f"), None);
    assert_eq!(certificate_button_selector("formReimpAcuse:j_2"), Ok("[id='formReimpAcuse:j_2']".to_string()));
    assert_eq!(
        certificate_button_selector("").unwrap_err(),
        "CSF: 'Generar Constancia' button not found on formReimpAcuse"
    );
}

#[test]
fn certificate_responses() {
    assert!(is_pdf(b"%PDF-1.7"));
    assert!(!is_pdf(b"%PD"));
    assert_eq!(certificate_pdf(true, "200 OK", b"%PDF-1.4 x".to_vec()), Ok(b"%PDF-1.4 x".to_vec()));
    assert_eq!(
        certificate_pdf(false, "403 Forbidden", vec![]).unwrap_err(),
        "CSF: PDF request failed with status 403 Forbidden"
    );
    assert_eq!(
        certificate_pdf(true, "200 OK", b"<html>".to_vec()).unwrap_err(),
        "CSF: response is not a PDF (first chars: <html>)"
    );
    assert_eq!(
        certificate_pdf(true, "200 OK", vec![0xff, 0xfe]).unwrap_err(),
        "CSF: response is not a PDF (first chars: (binary))"
    );
    let long = vec![b'a'; 100];
    assert_eq!(
        certificate_pdf(true, "200 OK", long).unwrap_err(),
        format!("CSF: response is not a PDF (first chars: {})", "a".repeat(60))
    );
    assert_eq!(certificate_response(None).message, "CSF PDF delivered to handler");
    assert_eq!(certificate_response(Some("/d/csf.pdf".to_string())).message, "CSF saved to /d/csf.pdf");
}

// ── Downloads ───────────────────────────────────────────────────────────────

#[test]
fn paths_join_like_unix_paths() {
    assert_eq!(join_path("/home/u", "a/b"), "/home/u/a/b");
    assert_eq!(join_path("/home/u/", "a"), "/home/u/a");
    assert_eq!(join_path("", "a"), "a");
    assert_eq!(join_path("/home/u", "/abs"), "/abs");
    assert_eq!(certificate_path("/docs/RFC"), "/docs/RFC/csf.pdf");
}

#[test]
fn download_folder_prefers_the_environment() {
    assert_eq!(
        download_folder(Some("RFC".to_string()), Some("/custom".to_string()), Some("/home/u".to_string())),
        "/custom"
    );
    assert_eq!(
        download_folder(Some("RFC".to_string()), None, Some("/home/u".to_string())),
        "/home/u/sat-cli/documents/RFC"
    );
    assert_eq!(download_folder(None, None, Some("/home/u".to_string())), "/home/u/sat-cli/documents/");
    assert_eq!(download_folder(Some("X".to_string()), None, None), "sat-cli/documents/X");
}

#[test]
fn portal_responses() {
    assert_eq!(validate_download_outcome(true, "200 OK", ""), Ok(()));
    assert_eq!(
        validate_download_outcome(false, "500 Internal Server Error", "oops").unwrap_err(),
        "validate_download HTTP 500 Internal Server Error: oops"
    );
    assert_eq!(xml_download_outcome(true, "200 OK", vec![1]), Ok(vec![1]));
    assert_eq!(
        xml_download_outcome(false, "404 Not Found", vec![b'n', 0xff, b'o']).unwrap_err(),
        "XML download HTTP 404 Not Found: n\u{FFFD}o"
    );
    assert_eq!(
        printed_representation_address(true, "200 OK", "{\"d\":\"RepresentacionImpresa.aspx?Datos=z\"}"),
        Ok("https://portalcfdi.facturaelectronica.sat.gob.mx/RepresentacionImpresa.aspx?Datos=z".to_string())
    );
    assert_eq!(
        printed_representation_address(true, "200 OK", "{\"e\":1}").unwrap_err(),
        "PDF token response missing 'd': {\"e\":1}"
    );
    assert!(printed_representation_address(true, "200 OK", "not json").is_err());
    assert_eq!(
        printed_representation_address(false, "401 Unauthorized", "no").unwrap_err(),
        "PDF token exchange HTTP 401 Unauthorized: no"
    );
}

#[test]
fn printed_representation_responses() {
    assert_eq!(pdf_download_outcome(true, "200 OK", false, vec![7]), Some(Ok(vec![7])));
    assert_eq!(
        pdf_download_outcome(false, "502 Bad Gateway", false, b"down".to_vec()),
        Some(Err("PDF download HTTP 502 Bad Gateway: down".to_string()))
    );
    assert_eq!(
        pdf_download_outcome(true, "200 OK", true, b"<html>error</html>".to_vec()),
        Some(Err("PDF download returned HTML error page: <html>error</html>".to_string()))
    );
    let long = "x".repeat(400).into_bytes();
    assert_eq!(
        pdf_download_outcome(true, "200 OK", true, long),
        Some(Err(format!("PDF download returned HTML error page: {}", "x".repeat(300))))
    );
    let mut cut = "x".repeat(299).into_bytes();
    cut.extend_from_slice("é".repeat(10).as_bytes());
    assert_eq!(pdf_download_outcome(true, "200 OK", true, cut), None);
}

#[test]
fn crawl_outcomes() {
    assert_eq!(downloads_finished(CrawlerType::DownloadInvoices).message, "Invoices downloaded successfully");
    assert_eq!(
        downloads_finished(CrawlerType::DownloadIssuedInvoices).message,
        "Issued invoices downloaded successfully"
    );
    assert_eq!(
        downloads_finished(CrawlerType::DownloadReceivedInvoices).message,
        "Received invoices downloaded successfully"
    );
    let ok = validation_response(None);
    assert!(ok.success);
    assert_eq!(ok.message, "Credentials are valid");
    let bad = validation_response(Some("Login failed with message: x".to_string()));
    assert!(!bad.success);
    assert_eq!(bad.message, "Error during login: Login failed with message: x");
}
