use satcli::cli::{
    apply_args_to_config, doctor_report, handler_action, invoice_file, parse_login_type,
    prompted_config, prompted_login_type, resolve_path, same_ignoring_ascii_case, save_report,
    should_download, CrawlArgs, DownloadFilterArgs, HandlerAction,
};
use satcli::command::Command;
use satcli::crawler::{validation_outcome, Crawler};
use satcli::dates::Date;
use satcli::satcrawler::config::{CrawlerConfig, CrawlerFilters, CrawlerOptions, Credentials, LoginType};
use satcli::satcrawler::events::{Invoice, InvoiceEvent};

fn invoice(uuid: &str) -> Invoice {
    Invoice {
        uuid: uuid.to_string(),
        fiscal_id: String::new(),
        issuer_tax_id: String::new(),
        issuer_name: String::new(),
        receiver_tax_id: String::new(),
        receiver_name: String::new(),
        issued_at: String::new(),
        certified_at: String::new(),
        total: String::new(),
        invoice_type: String::new(),
        invoice_status: String::new(),
    }
}

fn no_args() -> CrawlArgs {
    CrawlArgs {
        username: None,
        password: None,
        crt: None,
        key: None,
        login_type: None,
        headless: false,
        sandbox: false,
    }
}

#[test]
fn login_types_ignore_case() {
    assert_eq!(parse_login_type("ciec"), Ok(LoginType::Ciec));
    assert_eq!(parse_login_type("FIEL"), Ok(LoginType::Fiel));
    assert_eq!(parse_login_type("FiEl"), Ok(LoginType::Fiel));
    assert_eq!(
        parse_login_type("efirma").unwrap_err(),
        "Invalid login type 'efirma': expected 'ciec' or 'fiel'"
    );
    assert!(parse_login_type("fiel ").is_err());
    assert!(same_ignoring_ascii_case("ÁbC", "Ábc"));
    assert!(!same_ignoring_ascii_case("ábc", "Ábc"));
}

#[test]
fn paths_are_made_absolute() {
    assert_eq!(resolve_path("~/certs/a.cer", "/home/u", Some("/work".to_string())), "/home/u/certs/a.cer");
    assert_eq!(resolve_path("~/~/x", "/home/u", None), "/home/u/x");
    assert_eq!(resolve_path("~", "/home/u", None), "/home/u/~");
    assert_eq!(resolve_path("/abs/k.key", "/home/u", Some("/work".to_string())), "/abs/k.key");
    assert_eq!(resolve_path("rel/k.key", "/home/u", Some("/work".to_string())), "/work/rel/k.key");
    assert_eq!(resolve_path("rel", "", None), "rel");
    assert_eq!(resolve_path("~/x", "", Some("/w".to_string())), "/x");
    assert_eq!(resolve_path("~/x", "home", Some("/w".to_string())), "/w/home/x");
}

#[test]
fn arguments_override_the_saved_configuration() {
    let mut config = CrawlerConfig::new(
        Credentials {
            login_type: LoginType::Ciec,
            username: "SAVED".to_string(),
            password: "saved".to_string(),
            crt_path: None,
            key_path: Some("/old.key".to_string()),
        },
        CrawlerOptions { headless: false, sandbox: true },
    );
    let args = CrawlArgs {
        username: Some("RFC".to_string()),
        password: None,
        crt: Some("c.cer".to_string()),
        key: None,
        login_type: Some(LoginType::Fiel),
        headless: true,
        sandbox: false,
    };
    apply_args_to_config(&mut config, args, "/home/u", Some("/work".to_string()));
    assert_eq!(config.credentials.username, "RFC");
    assert_eq!(config.credentials.password, "saved");
    assert_eq!(config.credentials.crt_path, Some("/work/c.cer".to_string()));
    assert_eq!(config.credentials.key_path, Some("/old.key".to_string()));
    assert_eq!(config.credentials.login_type, LoginType::Fiel);
    assert!(config.options.headless);
    assert!(config.options.sandbox);
    let before = config.clone();
    apply_args_to_config(&mut config, no_args(), "/home/u", None);
    assert_eq!(config.credentials.username, before.credentials.username);
    assert_eq!(config.options, before.options);
}

#[test]
fn filter_arguments_become_filters() {
    let f: CrawlerFilters = DownloadFilterArgs {
        start_date: Some(Date { year: 2024, month: 1, day: 1 }),
        end_date: None,
    }
    .into();
    assert_eq!(f.start_date, Some(Date { year: 2024, month: 1, day: 1 }));
    assert_eq!(f.end_date, None);
}

#[test]
fn the_config_prompt() {
    assert_eq!(prompted_login_type("Fiel"), LoginType::Fiel);
    assert_eq!(prompted_login_type(""), LoginType::Ciec);
    assert_eq!(prompted_login_type("other"), LoginType::Ciec);
    let c = prompted_config(LoginType::Ciec, "R".to_string(), "p".to_string(), "/c".to_string(), "/k".to_string());
    assert_eq!(c.credentials.crt_path, None);
    assert!(c.options.headless && c.options.sandbox);
    let c = prompted_config(LoginType::Fiel, "R".to_string(), "p".to_string(), "/c".to_string(), "/k".to_string());
    assert_eq!(c.credentials.key_path, Some("/k".to_string()));
}

#[test]
fn the_invoice_handler() {
    assert!(should_download(false, true));
    assert!(should_download(true, false));
    assert!(!should_download(true, true));
    assert_eq!(invoice_file("/docs/RFC", "U1", "xml"), "/docs/RFC/U1.xml");
    match handler_action(InvoiceEvent::PdfDownloaded { invoice: invoice("U1"), content: vec![1] }) {
        HandlerAction::Save { uuid, ext, content } => {
            assert_eq!((uuid.as_str(), ext.as_str(), content), ("U1", "pdf", vec![1]));
        }
        other => panic!("unexpected {:?}", other),
    }
    match handler_action(InvoiceEvent::XmlDownloadFailed { invoice: invoice("U2"), error: "boom".to_string() }) {
        HandlerAction::Report(l) => assert_eq!(l, "[ERROR] XML download failed for U2: boom"),
        other => panic!("unexpected {:?}", other),
    }
    match handler_action(InvoiceEvent::Skipped { invoice: invoice("U3") }) {
        HandlerAction::Report(l) => assert_eq!(l, "[INFO] Skipped U3 (already exists)"),
        other => panic!("unexpected {:?}", other),
    }
    assert_eq!(save_report("U", "xml", "/d/U.xml", None), "[INFO] Saved /d/U.xml");
    assert_eq!(
        save_report("U", "xml", "/d/U.xml", Some("denied".to_string())),
        "[ERROR] Failed to save U.xml: denied"
    );
}

#[test]
fn the_doctor_report() {
    let config = CrawlerConfig::new(
        Credentials {
            login_type: LoginType::Fiel,
            username: "RFC".to_string(),
            password: String::new(),
            crt_path: Some("/c.cer".to_string()),
            key_path: None,
        },
        CrawlerOptions::default(),
    );
    let lines = doctor_report(false, &config, true, false, Some("/docs".to_string()));
    assert_eq!(
        lines,
        vec![
            "  [!]  TWOCAPTCHA_API_KEY is not set \u{2014} captcha solving will fail".to_string(),
            "  [!]  Username is set but password is missing".to_string(),
            "  [ok] Certificate file exists: /c.cer".to_string(),
            "  [!]  FIEL login requires a key path (key_path)".to_string(),
            "  [ok] Custom documents folder: /docs".to_string(),
        ]
    );
    let lines = doctor_report(true, &CrawlerConfig::default(), false, false, None);
    assert_eq!(
        lines,
        vec![
            "  [ok] TWOCAPTCHA_API_KEY is set".to_string(),
            "  [!]  No credentials found in ~/sat-cli/config.json".to_string(),
            "  [-]  No custom documents folder set \u{2014} using ~/sat-cli/documents/".to_string(),
        ]
    );
}

#[test]
fn the_first_credentials_check() {
    let r = validation_outcome(None);
    assert!(r.success);
    assert_eq!(r.message, "Credentials are valid");
    assert_eq!(validation_outcome(Some(None)).message, "Unkown error");
    let r = validation_outcome(Some(Some("RFC no registrado".to_string())));
    assert!(r.success);
    assert_eq!(r.message, "RFC no registrado");
    let c = Crawler::ValidateCredentials { username: "u".to_string(), password: "p".to_string() };
    assert!(matches!(c, Crawler::ValidateCredentials { .. }));
}

#[test]
fn the_first_command_line() {
    let args: Vec<String> = ["prog", "validate_credentials", "RFC", "pw"].iter().map(|s| s.to_string()).collect();
    match Command::get(&args).unwrap() {
        Command::ValidateCredentials { username, password } => {
            assert_eq!((username.as_str(), password.as_str()), ("RFC", "pw"));
        }
        other => panic!("unexpected {:?}", other),
    }
    let args: Vec<String> = ["prog", "help"].iter().map(|s| s.to_string()).collect();
    assert!(matches!(Command::get(&args).unwrap(), Command::Help));
    let args: Vec<String> = ["prog", "anything"].iter().map(|s| s.to_string()).collect();
    assert!(matches!(Command::get(&args).unwrap(), Command::Help));
}
