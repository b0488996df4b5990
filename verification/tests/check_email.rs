use std::sync::Arc;

use reacher_backend::check_email::{
    http_handler, BackendConfig, BackwardCompatHotmailB2CVerifMethod,
    BackwardCompatYahooVerifMethod, CheckEmailRequest, WebdriverConfig,
};
use reacher_backend::verif_method::{
    CheckEmailInputProxy, EverythingElseVerifMethod, GmailVerifMethod, HotmailB2BVerifMethod,
    HotmailB2CVerifMethod, MimecastVerifMethod, ProofpointVerifMethod, TimeSpan, VerifMethod,
    VerifMethodSmtpConfig, YahooVerifMethod,
};

fn smtp(hello_name: &str) -> VerifMethodSmtpConfig {
    VerifMethodSmtpConfig {
        from_email: "config@example.org".into(),
        hello_name: hello_name.into(),
        smtp_port: 26,
        smtp_timeout: Some(TimeSpan::from_secs(45)),
        proxy: None,
        retries: 2,
    }
}

fn config() -> BackendConfig {
    BackendConfig {
        backend_name: "backend".into(),
        hello_name: "hello.config".into(),
        from_email: "from@config".into(),
        smtp_timeout: Some(30),
        verif_method: VerifMethod {
            gmail: GmailVerifMethod::Smtp(smtp("gmail")),
            hotmailb2b: HotmailB2BVerifMethod::Smtp(smtp("hotmailb2b")),
            hotmailb2c: HotmailB2CVerifMethod::Headless,
            mimecast: MimecastVerifMethod::Smtp(smtp("mimecast")),
            proofpoint: ProofpointVerifMethod::Smtp(smtp("proofpoint")),
            yahoo: YahooVerifMethod::Headless,
            everything_else: EverythingElseVerifMethod::Smtp(smtp("everything_else")),
        },
        sentry_dsn: Some("dsn".into()),
        webdriver: WebdriverConfig { binary: Some("chrome".into()) },
        webdriver_addr: "http://localhost:9515".into(),
    }
}

fn proxy() -> CheckEmailInputProxy {
    CheckEmailInputProxy {
        host: "proxy".into(),
        port: 1080,
        username: Some("user".into()),
        password: None,
    }
}

fn smtp_configs(method: &VerifMethod) -> Vec<&VerifMethodSmtpConfig> {
    let mut configs = Vec::new();
    let GmailVerifMethod::Smtp(c) = &method.gmail;
    configs.push(c);
    let HotmailB2BVerifMethod::Smtp(c) = &method.hotmailb2b;
    configs.push(c);
    if let HotmailB2CVerifMethod::Smtp(c) = &method.hotmailb2c {
        configs.push(c);
    }
    let MimecastVerifMethod::Smtp(c) = &method.mimecast;
    configs.push(c);
    let ProofpointVerifMethod::Smtp(c) = &method.proofpoint;
    configs.push(c);
    if let YahooVerifMethod::Smtp(c) = &method.yahoo {
        configs.push(c);
    }
    let EverythingElseVerifMethod::Smtp(c) = &method.everything_else;
    configs.push(c);
    configs
}

#[test]
fn forwards_webdriver_and_smtp_overrides_without_proxy() {
    let mut config = config();
    config.webdriver_addr = "http://webdriver:9515".into();
    let request = CheckEmailRequest {
        to_email: "test@example.org".into(),
        smtp_port: Some(2525),
        smtp_timeout: Some(TimeSpan::from_secs(9)),
        from_email: Some("sender@example.org".into()),
        hello_name: Some("example.org".into()),
        ..Default::default()
    };
    let input = request.to_check_email_input(Arc::new(config));
    assert_eq!(input.webdriver_addr, "http://webdriver:9515");
    let GmailVerifMethod::Smtp(smtp) = input.verif_method.gmail;
    assert_eq!(smtp.smtp_port, 2525);
    assert_eq!(smtp.smtp_timeout, Some(TimeSpan::from_secs(9)));
    assert_eq!(smtp.from_email, "sender@example.org");
    assert_eq!(smtp.hello_name, "example.org");
    assert!(matches!(input.verif_method.yahoo, YahooVerifMethod::Headless));
}

#[test]
fn a_silent_request_keeps_the_configuration() {
    let request = CheckEmailRequest { to_email: "test@example.org".into(), ..Default::default() };
    let input = request.to_check_email_input(Arc::new(config()));
    assert_eq!(input.to_email, "test@example.org");
    assert_eq!(input.sentry_dsn.as_deref(), Some("dsn"));
    assert_eq!(input.backend_name, "backend");
    assert_eq!(input.webdriver_config.binary.as_deref(), Some("chrome"));
    assert!(!input.check_gravatar);
    assert_eq!(input.haveibeenpwned_api_key, None);
    let configs = smtp_configs(&input.verif_method);
    let names: Vec<&str> = configs.iter().map(|c| c.hello_name.as_str()).collect();
    assert_eq!(names, vec!["gmail", "hotmailb2b", "mimecast", "proofpoint", "everything_else"]);
    for c in configs {
        assert_eq!(c.from_email, "config@example.org");
        assert_eq!(c.smtp_port, 26);
        assert_eq!(c.smtp_timeout, Some(TimeSpan::from_secs(45)));
        assert_eq!(c.retries, 2);
    }
}

#[test]
fn a_request_proxy_is_used_for_all() {
    let request = CheckEmailRequest {
        to_email: "test@example.org".into(),
        proxy: Some(proxy()),
        ..Default::default()
    };
    let input = request.to_check_email_input(Arc::new(config()));
    let configs = smtp_configs(&input.verif_method);
    assert_eq!(configs.len(), 7);
    for c in configs {
        assert_eq!(c.proxy.as_ref().unwrap().host, "proxy");
        assert_eq!(c.proxy.as_ref().unwrap().username.as_deref(), Some("user"));
        assert_eq!(c.hello_name, "hello.config");
        assert_eq!(c.from_email, "from@config");
        assert_eq!(c.smtp_port, 25);
        assert_eq!(c.smtp_timeout, Some(TimeSpan { secs: 30, nanos: 0 }));
        assert_eq!(c.retries, 1);
    }
}

#[test]
fn explicit_fields_hold_with_a_proxy_too() {
    let request = CheckEmailRequest {
        to_email: "test@example.org".into(),
        proxy: Some(proxy()),
        smtp_port: Some(2525),
        hello_name: Some("example.org".into()),
        ..Default::default()
    };
    let input = request.to_check_email_input(Arc::new(config()));
    for c in smtp_configs(&input.verif_method) {
        assert_eq!(c.smtp_port, 2525);
        assert_eq!(c.hello_name, "example.org");
        assert_eq!(c.from_email, "from@config");
    }
}

#[test]
fn backward_compatible_fields_have_the_last_word() {
    let request = CheckEmailRequest {
        to_email: "test@example.org".into(),
        from_email: Some("sender@example.org".into()),
        yahoo_verif_method: Some(BackwardCompatYahooVerifMethod::Smtp),
        hotmailb2c_verif_method: Some(BackwardCompatHotmailB2CVerifMethod::Smtp),
        ..Default::default()
    };
    let mut config = config();
    config.smtp_timeout = None;
    let config = Arc::new(config);
    let input = request.to_check_email_input(Arc::clone(&config));
    assert!(matches!(&input.verif_method.yahoo, YahooVerifMethod::Smtp(c)
        if c.from_email == "sender@example.org" && c.hello_name == "hello.config"
            && c.smtp_port == 25 && c.smtp_timeout == None && c.proxy.is_none() && c.retries == 1));
    assert!(matches!(&input.verif_method.hotmailb2c, HotmailB2CVerifMethod::Smtp(c)
        if c.from_email == "sender@example.org"));

    let request = CheckEmailRequest {
        to_email: "test@example.org".into(),
        proxy: Some(proxy()),
        yahoo_verif_method: Some(BackwardCompatYahooVerifMethod::Api),
        hotmailb2c_verif_method: Some(BackwardCompatHotmailB2CVerifMethod::Headless),
        ..Default::default()
    };
    let input = request.to_check_email_input(Arc::clone(&config));
    assert!(matches!(input.verif_method.yahoo, YahooVerifMethod::Api));
    assert!(matches!(input.verif_method.hotmailb2c, HotmailB2CVerifMethod::Headless));

    let request = CheckEmailRequest {
        to_email: "test@example.org".into(),
        yahoo_verif_method: Some(BackwardCompatYahooVerifMethod::Headless),
        ..Default::default()
    };
    let input = request.to_check_email_input(Arc::clone(&config));
    assert!(matches!(input.verif_method.yahoo, YahooVerifMethod::Headless));
}

#[test]
fn the_address_is_mandatory() {
    let error = http_handler(Arc::new(config()), CheckEmailRequest::default()).unwrap_err();
    assert_eq!(error.code, 400);
    assert_eq!(error.message, "to_email field is required.");
    let request = CheckEmailRequest { to_email: "a@b.c".into(), ..Default::default() };
    let input = http_handler(Arc::new(config()), request).unwrap();
    assert_eq!(input.to_email, "a@b.c");
}

#[test]
fn nanoseconds_are_carried_over() {
    let span = |secs, nanos| Some(TimeSpan { secs, nanos });
    assert_eq!(TimeSpan::new(9, 999_999_999), span(9, 999_999_999));
    assert_eq!(TimeSpan::new(9, 1_000_000_000), span(10, 0));
    assert_eq!(TimeSpan::new(9, 3_500_000_000), span(12, 500_000_000));
    assert_eq!(TimeSpan::new(u64::MAX, 999_999_999), span(u64::MAX, 999_999_999));
    assert_eq!(TimeSpan::new(u64::MAX, 1_000_000_000), None);
}
