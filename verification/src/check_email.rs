//! The `POST /v0/check_email` endpoint: from a request and the configuration to the input of a
//! verification.

use std::sync::Arc;

use vstd::prelude::*;

use crate::verif_method::{
    CheckEmailInputProxy, HotmailB2CVerifMethod, TimeSpan, VerifMethod, VerifMethodSmtpConfig,
    YahooVerifMethod,
};
use crate::verif_method::{
    EverythingElseVerifMethod, GmailVerifMethod, HotmailB2BVerifMethod, MimecastVerifMethod,
    ProofpointVerifMethod,
};

verus! {

/// The SMTP port of a request that names none.
pub const DEFAULT_SMTP_PORT: u16 = 25;

/// How often the verification of a request is tried.
pub const REQUEST_RETRIES: usize = 1;

/// The largest accepted request body, in bytes.
pub const MAX_BODY_BYTES: u64 = 16384;

/// The browser that headless verifications drive.
#[derive(Debug)]
pub struct WebdriverConfig {
    pub binary: Option<String>,
}

impl Clone for WebdriverConfig {
    fn clone(&self) -> (copy: Self)
        ensures
            copy == *self,
    {
        WebdriverConfig { binary: self.binary.clone() }
    }
}

/// What the configuration of the backend says about verifications.
#[derive(Debug)]
pub struct BackendConfig {
    pub backend_name: String,
    pub hello_name: String,
    pub from_email: String,
    /// In seconds.
    pub smtp_timeout: Option<u64>,
    /// The method that is used for each provider unless the request says otherwise.
    pub verif_method: VerifMethod,
    pub sentry_dsn: Option<String>,
    pub webdriver: WebdriverConfig,
    pub webdriver_addr: String,
}

/// How Yahoo addresses are verified, as older clients say it.
#[derive(Debug, Clone, Copy, PartialEq, Eq, Structural)]
pub enum BackwardCompatYahooVerifMethod {
    Api,
    Headless,
    Smtp,
}

/// How Hotmail addresses of consumers are verified, as older clients say it.
#[derive(Debug, Clone, Copy, PartialEq, Eq, Structural)]
pub enum BackwardCompatHotmailB2CVerifMethod {
    Headless,
    Smtp,
}

impl BackwardCompatYahooVerifMethod {
    /// The method that is meant, where SMTP conversations are held as `smtp` says.
    pub open spec fn meant(self, smtp: VerifMethodSmtpConfig) -> YahooVerifMethod {
        match self {
            BackwardCompatYahooVerifMethod::Api => YahooVerifMethod::Api,
            BackwardCompatYahooVerifMethod::Headless => YahooVerifMethod::Headless,
            BackwardCompatYahooVerifMethod::Smtp => YahooVerifMethod::Smtp(smtp),
        }
    }

    /// The method that is meant, where SMTP conversations are held as `smtp` says.
    pub fn to_yahoo_verif_method(&self, smtp: VerifMethodSmtpConfig) -> (method: YahooVerifMethod)
        ensures
            method == self.meant(smtp),
    {
        match self {
            BackwardCompatYahooVerifMethod::Api => YahooVerifMethod::Api,
            BackwardCompatYahooVerifMethod::Headless => YahooVerifMethod::Headless,
            BackwardCompatYahooVerifMethod::Smtp => YahooVerifMethod::Smtp(smtp),
        }
    }
}

impl BackwardCompatHotmailB2CVerifMethod {
    /// The method that is meant, where SMTP conversations are held as `smtp` says.
    pub open spec fn meant(self, smtp: VerifMethodSmtpConfig) -> HotmailB2CVerifMethod {
        match self {
            BackwardCompatHotmailB2CVerifMethod::Headless => HotmailB2CVerifMethod::Headless,
            BackwardCompatHotmailB2CVerifMethod::Smtp => HotmailB2CVerifMethod::Smtp(smtp),
        }
    }

    /// The method that is meant, where SMTP conversations are held as `smtp` says.
    pub fn to_hotmailb2c_verif_method(
        &self,
        smtp: VerifMethodSmtpConfig,
    ) -> (method: HotmailB2CVerifMethod)
        ensures
            method == self.meant(smtp),
    {
        match self {
            BackwardCompatHotmailB2CVerifMethod::Headless => HotmailB2CVerifMethod::Headless,
            BackwardCompatHotmailB2CVerifMethod::Smtp => HotmailB2CVerifMethod::Smtp(smtp),
        }
    }
}

/// The request body of the `POST /v0/check_email` endpoint.
#[derive(Debug)]
pub struct CheckEmailRequest {
    pub to_email: String,
    pub from_email: Option<String>,
    pub hello_name: Option<String>,
    pub proxy: Option<CheckEmailInputProxy>,
    pub smtp_timeout: Option<TimeSpan>,
    pub smtp_port: Option<u16>,
    // The following fields are for backward compatibility.
    pub yahoo_verif_method: Option<BackwardCompatYahooVerifMethod>,
    pub hotmailb2c_verif_method: Option<BackwardCompatHotmailB2CVerifMethod>,
}

/// The input of a verification.
#[derive(Debug)]
pub struct CheckEmailInput {
    pub to_email: String,
    pub verif_method: VerifMethod,
    pub sentry_dsn: Option<String>,
    pub backend_name: String,
    pub webdriver_config: WebdriverConfig,
    pub webdriver_addr: String,
    pub check_gravatar: bool,
    pub haveibeenpwned_api_key: Option<String>,
}

/// An error that is answered to the client: a status code and a message.
#[derive(Debug)]
pub struct ReacherResponseError {
    pub code: u16,
    pub message: String,
}

/// Whether `input` is the input of the verification that a request asks for.
pub open spec fn is_input_for(
    input: CheckEmailInput,
    request: CheckEmailRequest,
    config: BackendConfig,
) -> bool {
    &&& input.to_email == request.to_email
    &&& input.verif_method == request.method_for(config)
    &&& input.sentry_dsn == config.sentry_dsn
    &&& input.backend_name == config.backend_name
    &&& input.webdriver_config == config.webdriver
    &&& input.webdriver_addr == config.webdriver_addr
    &&& !input.check_gravatar
    &&& input.haveibeenpwned_api_key is None
}

impl CheckEmailRequest {
    /// How SMTP conversations are held on behalf of this request: what the request says, and what
    /// the configuration says where the request is silent.
    pub open spec fn smtp_settings(self, config: BackendConfig) -> VerifMethodSmtpConfig {
        VerifMethodSmtpConfig {
            from_email: match self.from_email {
                Some(from_email) => from_email,
                None => config.from_email,
            },
            hello_name: match self.hello_name {
                Some(hello_name) => hello_name,
                None => config.hello_name,
            },
            smtp_port: match self.smtp_port {
                Some(smtp_port) => smtp_port,
                None => DEFAULT_SMTP_PORT,
            },
            smtp_timeout: match (self.smtp_timeout, config.smtp_timeout) {
                (Some(smtp_timeout), _) => Some(smtp_timeout),
                (None, Some(secs)) => Some(TimeSpan { secs, nanos: 0 }),
                (None, None) => None,
            },
            proxy: self.proxy,
            retries: REQUEST_RETRIES,
        }
    }

    /// The configuration `smtp` with the SMTP fields that this request names put in its place.
    pub open spec fn overriding(self, smtp: VerifMethodSmtpConfig) -> VerifMethodSmtpConfig {
        VerifMethodSmtpConfig {
            from_email: match self.from_email {
                Some(from_email) => from_email,
                None => smtp.from_email,
            },
            hello_name: match self.hello_name {
                Some(hello_name) => hello_name,
                None => smtp.hello_name,
            },
            smtp_port: match self.smtp_port {
                Some(smtp_port) => smtp_port,
                None => smtp.smtp_port,
            },
            smtp_timeout: match self.smtp_timeout {
                Some(smtp_timeout) => Some(smtp_timeout),
                None => smtp.smtp_timeout,
            },
            proxy: smtp.proxy,
            retries: smtp.retries,
        }
    }

    /// The verification methods before the backward compatible fields are heeded: SMTP through the
    /// proxy for all providers where the request has one, else those of the configuration; in
    /// either case with the SMTP fields that the request names.
    pub open spec fn base_method(self, config: BackendConfig) -> VerifMethod {
        let chosen = if self.proxy is Some {
            VerifMethod::same_for_all(self.smtp_settings(config))
        } else {
            config.verif_method
        };
        chosen.map_smtp(|smtp: VerifMethodSmtpConfig| self.overriding(smtp))
    }

    /// The verification methods for this request.
    pub open spec fn method_for(self, config: BackendConfig) -> VerifMethod {
        let base = self.base_method(config);
        VerifMethod {
            yahoo: match self.yahoo_verif_method {
                Some(method) => method.meant(self.smtp_settings(config)),
                None => base.yahoo,
            },
            hotmailb2c: match self.hotmailb2c_verif_method {
                Some(method) => method.meant(self.smtp_settings(config)),
                None => base.hotmailb2c,
            },
            ..base
        }
    }

    /// Puts the SMTP fields that this request names into `smtp`.
    fn override_smtp(&self, smtp: &mut VerifMethodSmtpConfig)
        ensures
            *final(smtp) == self.overriding(*old(smtp)),
    {
        if let Some(value) = &self.from_email {
            smtp.from_email = value.clone();
        }
        if let Some(value) = &self.hello_name {
            smtp.hello_name = value.clone();
        }
        if let Some(value) = self.smtp_timeout {
            smtp.smtp_timeout = Some(value);
        }
        if let Some(value) = self.smtp_port {
            smtp.smtp_port = value;
        }
    }

    /// Puts the SMTP fields that this request names into every SMTP configuration of `method`.
    fn override_smtp_configs(&self, method: &mut VerifMethod)
        ensures
            *final(method) == old(method).map_smtp(
                |smtp: VerifMethodSmtpConfig| self.overriding(smtp),
            ),
    {
        match &mut method.gmail {
            GmailVerifMethod::Smtp(smtp) => self.override_smtp(smtp),
        }
        match &mut method.hotmailb2b {
            HotmailB2BVerifMethod::Smtp(smtp) => self.override_smtp(smtp),
        }
        match &mut method.hotmailb2c {
            HotmailB2CVerifMethod::Headless => {},
            HotmailB2CVerifMethod::Smtp(smtp) => self.override_smtp(smtp),
        }
        match &mut method.mimecast {
            MimecastVerifMethod::Smtp(smtp) => self.override_smtp(smtp),
        }
        match &mut method.proofpoint {
            ProofpointVerifMethod::Smtp(smtp) => self.override_smtp(smtp),
        }
        match &mut method.yahoo {
            YahooVerifMethod::Api => {},
            YahooVerifMethod::Headless => {},
            YahooVerifMethod::Smtp(smtp) => self.override_smtp(smtp),
        }
        match &mut method.everything_else {
            EverythingElseVerifMethod::Smtp(smtp) => self.override_smtp(smtp),
        }
    }

    /// The input of the verification that this request asks for.
    pub fn to_check_email_input(&self, config: Arc<BackendConfig>) -> (input: CheckEmailInput)
        ensures
            is_input_for(input, *self, *config),
    {
        let hello_name: String = match &self.hello_name {
            Some(hello_name) => hello_name.clone(),
            None => config.hello_name.clone(),
        };
        let from_email: String = match &self.from_email {
            Some(from_email) => from_email.clone(),
            None => config.from_email.clone(),
        };
        let smtp_timeout: Option<TimeSpan> = match self.smtp_timeout {
            Some(smtp_timeout) => Some(smtp_timeout),
            None => match config.smtp_timeout {
                Some(secs) => Some(TimeSpan::from_secs(secs)),
                None => None,
            },
        };
        let smtp_port: u16 = match self.smtp_port {
            Some(smtp_port) => smtp_port,
            None => DEFAULT_SMTP_PORT,
        };

        // A request proxy replaces the default SMTP proxy: if the request has a proxy, all the
        // verifications go through it, and the default configuration is used otherwise.
        //
        // Explicit SMTP fields override provider defaults independently of proxy selection.
        let mut verif_method: VerifMethod = match &self.proxy {
            Some(proxy) => VerifMethod::new_with_same_config_for_all(
                Some(proxy.clone()),
                hello_name.clone(),
                from_email.clone(),
                smtp_port,
                smtp_timeout,
                REQUEST_RETRIES,
            ),
            None => config.verif_method.clone(),
        };
        self.override_smtp_configs(&mut verif_method);

        // The backward compatible fields override the method.
        let smtp: VerifMethodSmtpConfig = VerifMethodSmtpConfig {
            from_email,
            hello_name,
            smtp_port,
            smtp_timeout,
            proxy: self.proxy.clone(),
            retries: REQUEST_RETRIES,
        };
        if let Some(yahoo) = &self.yahoo_verif_method {
            verif_method.yahoo = yahoo.to_yahoo_verif_method(smtp.clone());
        }
        if let Some(hotmailb2c) = &self.hotmailb2c_verif_method {
            verif_method.hotmailb2c = hotmailb2c.to_hotmailb2c_verif_method(smtp);
        }
        CheckEmailInput {
            to_email: self.to_email.clone(),
            verif_method,
            sentry_dsn: config.sentry_dsn.clone(),
            backend_name: config.backend_name.clone(),
            webdriver_config: config.webdriver.clone(),
            webdriver_addr: config.webdriver_addr.clone(),
            check_gravatar: false,
            haveibeenpwned_api_key: None,
        }
    }
}

impl Default for CheckEmailRequest {
    /// A request that leaves everything to the configuration.
    fn default() -> (request: Self)
        ensures
            request.to_email@.len() == 0,
            request.from_email is None,
            request.hello_name is None,
            request.proxy is None,
            request.smtp_timeout is None,
            request.smtp_port is None,
            request.yahoo_verif_method is None,
            request.hotmailb2c_verif_method is None,
    {
        CheckEmailRequest {
            to_email: String::new(),
            from_email: None,
            hello_name: None,
            proxy: None,
            smtp_timeout: None,
            smtp_port: None,
            yahoo_verif_method: None,
            hotmailb2c_verif_method: None,
        }
    }
}

/// What the endpoint does with a request: the verification that is to be run, or the error that is
/// answered. The address is mandatory.
pub fn http_handler(config: Arc<BackendConfig>, body: CheckEmailRequest) -> (answer: Result<
    CheckEmailInput,
    ReacherResponseError,
>)
    ensures
        match answer {
            Ok(input) => {
                &&& body.to_email@.len() > 0
                &&& is_input_for(input, body, *config)
            },
            Err(error) => {
                &&& body.to_email@.len() == 0
                &&& error.code == 400
                &&& error.message@ == "to_email field is required."@
            },
        },
{
    if body.to_email.as_str().is_empty() {
        Err(
            ReacherResponseError {
                code: 400,
                message: "to_email field is required.".to_owned(),
            },
        )
    } else {
        Ok(body.to_check_email_input(config))
    }
}

/// An SMTP field that a request names holds for every SMTP conversation on its behalf, whether or
/// not the request has a proxy and whatever the configuration says.
pub proof fn explicit_smtp_fields_hold_everywhere(
    request: CheckEmailRequest,
    config: BackendConfig,
    smtp: VerifMethodSmtpConfig,
)
    requires
        request.method_for(config).uses(smtp),
    ensures
        request.from_email is Some ==> request.from_email == Some(smtp.from_email),
        request.hello_name is Some ==> request.hello_name == Some(smtp.hello_name),
        request.smtp_timeout is Some ==> request.smtp_timeout == smtp.smtp_timeout,
        request.smtp_port is Some ==> request.smtp_port == Some(smtp.smtp_port),
{
}

/// Where a request has a proxy, every SMTP conversation on its behalf goes through that proxy.
pub proof fn request_proxy_is_used_for_all(
    request: CheckEmailRequest,
    config: BackendConfig,
    smtp: VerifMethodSmtpConfig,
)
    requires
        request.proxy is Some,
        request.method_for(config).uses(smtp),
    ensures
        smtp.proxy == request.proxy,
{
}

/// Where a request has a proxy and no backward compatible field, every provider is verified over
/// SMTP with one and the same configuration, made of the request and the defaults.
pub proof fn request_proxy_replaces_the_methods(request: CheckEmailRequest, config: BackendConfig)
    requires
        request.proxy is Some,
        request.yahoo_verif_method is None,
        request.hotmailb2c_verif_method is None,
    ensures
        request.method_for(config) == VerifMethod::same_for_all(request.smtp_settings(config)),
{
}

/// A request that names nothing but the address is verified with the methods of the configuration.
pub proof fn silent_request_keeps_the_configuration(
    request: CheckEmailRequest,
    config: BackendConfig,
)
    requires
        request.from_email is None,
        request.hello_name is None,
        request.proxy is None,
        request.smtp_timeout is None,
        request.smtp_port is None,
        request.yahoo_verif_method is None,
        request.hotmailb2c_verif_method is None,
    ensures
        request.method_for(config) == config.verif_method,
{
}

/// Without a proxy in the request, no provider changes from one kind of method to another unless a
/// backward compatible field says so, and the proxies of the configuration stay in use.
pub proof fn without_proxy_only_named_fields_change(
    request: CheckEmailRequest,
    config: BackendConfig,
)
    requires
        request.proxy is None,
    ensures
        ({
            let before = config.verif_method;
            let after = request.method_for(config);
            &&& after.gmail == GmailVerifMethod::Smtp(request.overriding(before.gmail->Smtp_0))
            &&& after.hotmailb2b == HotmailB2BVerifMethod::Smtp(
                request.overriding(before.hotmailb2b->Smtp_0),
            )
            &&& after.mimecast == MimecastVerifMethod::Smtp(
                request.overriding(before.mimecast->Smtp_0),
            )
            &&& after.proofpoint == ProofpointVerifMethod::Smtp(
                request.overriding(before.proofpoint->Smtp_0),
            )
            &&& after.everything_else == EverythingElseVerifMethod::Smtp(
                request.overriding(before.everything_else->Smtp_0),
            )
            &&& request.yahoo_verif_method is None ==> {
                &&& after.yahoo is Api <==> before.yahoo is Api
                &&& after.yahoo is Headless <==> before.yahoo is Headless
                &&& after.yahoo is Smtp ==> after.yahoo->Smtp_0 == request.overriding(
                    before.yahoo->Smtp_0,
                )
            }
            &&& request.hotmailb2c_verif_method is None ==> {
                &&& after.hotmailb2c is Headless <==> before.hotmailb2c is Headless
                &&& after.hotmailb2c is Smtp ==> after.hotmailb2c->Smtp_0 == request.overriding(
                    before.hotmailb2c->Smtp_0,
                )
            }
        }),
{
}

/// Well-formed timeouts in the request and in the configuration make well-formed timeouts in every
/// SMTP conversation.
pub proof fn timeouts_stay_well_formed(
    request: CheckEmailRequest,
    config: BackendConfig,
    smtp: VerifMethodSmtpConfig,
)
    requires
        request.smtp_timeout matches Some(smtp_timeout) ==> smtp_timeout.well_formed(),
        forall|smtp: VerifMethodSmtpConfig| #[trigger]
            config.verif_method.uses(smtp) ==> smtp.well_formed(),
        request.method_for(config).uses(smtp),
    ensures
        smtp.well_formed(),
{
    let method = config.verif_method;
    assert(method.uses(method.gmail->Smtp_0));
    assert(method.uses(method.hotmailb2b->Smtp_0));
    assert(method.hotmailb2c is Smtp ==> method.uses(method.hotmailb2c->Smtp_0));
    assert(method.uses(method.mimecast->Smtp_0));
    assert(method.uses(method.proofpoint->Smtp_0));
    assert(method.yahoo is Smtp ==> method.uses(method.yahoo->Smtp_0));
    assert(method.uses(method.everything_else->Smtp_0));
}

/// A backward compatible field has the last word on its provider.
pub proof fn backward_compatible_fields_win(request: CheckEmailRequest, config: BackendConfig)
    ensures
        request.yahoo_verif_method matches Some(method) ==> request.method_for(config).yahoo
            == method.meant(request.smtp_settings(config)),
        request.hotmailb2c_verif_method matches Some(method) ==> request.method_for(
            config,
        ).hotmailb2c == method.meant(request.smtp_settings(config)),
{
}

/// Whether `after` is `before` with the sender, the name, the port and the timeout that the request
/// names, and is `before` in everything that it does not name. The proxy and the number of tries are
/// none of what it can name here.
pub open spec fn named_fields_replaced(
    request: CheckEmailRequest,
    before: VerifMethodSmtpConfig,
    after: VerifMethodSmtpConfig,
) -> bool {
    &&& after.proxy == before.proxy
    &&& after.retries == before.retries
    &&& request.from_email is None ==> after.from_email == before.from_email
    &&& request.from_email is Some ==> after.from_email == request.from_email->0
    &&& request.hello_name is None ==> after.hello_name == before.hello_name
    &&& request.hello_name is Some ==> after.hello_name == request.hello_name->0
    &&& request.smtp_port is None ==> after.smtp_port == before.smtp_port
    &&& request.smtp_port is Some ==> after.smtp_port == request.smtp_port->0
    &&& request.smtp_timeout is None ==> after.smtp_timeout == before.smtp_timeout
    &&& request.smtp_timeout is Some ==> after.smtp_timeout == request.smtp_timeout
}

/// Without a proxy in the request, every provider keeps its method of the configuration, with its
/// proxy and its number of tries, and of an SMTP method only those fields change that the request
/// names. (Unless a backward compatible field replaces the method of its provider.)
pub proof fn configuration_changes_field_by_field(
    request: CheckEmailRequest,
    config: BackendConfig,
)
    requires
        request.proxy is None,
    ensures
        ({
            let before = config.verif_method;
            let after = request.method_for(config);
            &&& named_fields_replaced(request, before.gmail->Smtp_0, after.gmail->Smtp_0)
            &&& named_fields_replaced(request, before.hotmailb2b->Smtp_0, after.hotmailb2b->Smtp_0)
            &&& named_fields_replaced(request, before.mimecast->Smtp_0, after.mimecast->Smtp_0)
            &&& named_fields_replaced(request, before.proofpoint->Smtp_0, after.proofpoint->Smtp_0)
            &&& named_fields_replaced(
                request,
                before.everything_else->Smtp_0,
                after.everything_else->Smtp_0,
            )
            &&& request.yahoo_verif_method is None ==> match before.yahoo {
                YahooVerifMethod::Api => after.yahoo is Api,
                YahooVerifMethod::Headless => after.yahoo is Headless,
                YahooVerifMethod::Smtp(smtp) => after.yahoo is Smtp && named_fields_replaced(
                    request,
                    smtp,
                    after.yahoo->Smtp_0,
                ),
            }
            &&& request.hotmailb2c_verif_method is None ==> match before.hotmailb2c {
                HotmailB2CVerifMethod::Headless => after.hotmailb2c is Headless,
                HotmailB2CVerifMethod::Smtp(smtp) => after.hotmailb2c is Smtp
                    && named_fields_replaced(request, smtp, after.hotmailb2c->Smtp_0),
            }
        }),
{
}

/// Whether an SMTP configuration is made of the request, and of the defaults where the request is
/// silent: the sender and the name of the configuration, the port 25, the timeout of the
/// configuration in seconds. It goes through the proxy of the request and is tried once.
pub open spec fn made_of_request_and_defaults(
    request: CheckEmailRequest,
    config: BackendConfig,
    smtp: VerifMethodSmtpConfig,
) -> bool {
    &&& smtp.proxy == request.proxy
    &&& smtp.retries == 1
    &&& smtp.from_email == if request.from_email is Some {
        request.from_email->0
    } else {
        config.from_email
    }
    &&& smtp.hello_name == if request.hello_name is Some {
        request.hello_name->0
    } else {
        config.hello_name
    }
    &&& request.smtp_port is Some ==> smtp.smtp_port == request.smtp_port->0
    &&& request.smtp_port is None ==> smtp.smtp_port == 25
    &&& request.smtp_timeout is Some ==> smtp.smtp_timeout == request.smtp_timeout
    &&& request.smtp_timeout is None && config.smtp_timeout is None ==> smtp.smtp_timeout is None
    &&& request.smtp_timeout is None && config.smtp_timeout is Some ==> smtp.smtp_timeout == Some(
        TimeSpan { secs: config.smtp_timeout->0, nanos: 0 },
    )
}

/// With a proxy in the request, every provider is verified over SMTP, with a configuration made of
/// the request and the defaults. (Unless a backward compatible field replaces the method of its
/// provider.) Nothing of the methods of the configuration is left.
pub proof fn request_proxy_forces_smtp(request: CheckEmailRequest, config: BackendConfig)
    requires
        request.proxy is Some,
    ensures
        ({
            let method = request.method_for(config);
            &&& made_of_request_and_defaults(request, config, method.gmail->Smtp_0)
            &&& made_of_request_and_defaults(request, config, method.hotmailb2b->Smtp_0)
            &&& made_of_request_and_defaults(request, config, method.mimecast->Smtp_0)
            &&& made_of_request_and_defaults(request, config, method.proofpoint->Smtp_0)
            &&& made_of_request_and_defaults(request, config, method.everything_else->Smtp_0)
            &&& request.yahoo_verif_method is None ==> method.yahoo is Smtp
                && made_of_request_and_defaults(request, config, method.yahoo->Smtp_0)
            &&& request.hotmailb2c_verif_method is None ==> method.hotmailb2c is Smtp
                && made_of_request_and_defaults(request, config, method.hotmailb2c->Smtp_0)
        }),
{
}

/// A backward compatible field decides alone on the method of its provider, with a proxy or without
/// and whatever the configuration says. Where it says SMTP, the configuration is made of the request
/// and the defaults.
pub proof fn backward_compatible_fields_decide(request: CheckEmailRequest, config: BackendConfig)
    ensures
        ({
            let method = request.method_for(config);
            &&& request.yahoo_verif_method matches Some(named) ==> match named {
                BackwardCompatYahooVerifMethod::Api => method.yahoo is Api,
                BackwardCompatYahooVerifMethod::Headless => method.yahoo is Headless,
                BackwardCompatYahooVerifMethod::Smtp => method.yahoo is Smtp
                    && made_of_request_and_defaults(request, config, method.yahoo->Smtp_0),
            }
            &&& request.hotmailb2c_verif_method matches Some(named) ==> match named {
                BackwardCompatHotmailB2CVerifMethod::Headless => method.hotmailb2c is Headless,
                BackwardCompatHotmailB2CVerifMethod::Smtp => method.hotmailb2c is Smtp
                    && made_of_request_and_defaults(request, config, method.hotmailb2c->Smtp_0),
            }
        }),
{
}

/// Two requests that differ at most in the address are verified by the same methods.
pub proof fn the_address_has_no_say_in_the_method(
    one: CheckEmailRequest,
    other: CheckEmailRequest,
    config: BackendConfig,
)
    requires
        one == (CheckEmailRequest { to_email: one.to_email, ..other }),
    ensures
        one.method_for(config) == other.method_for(config),
{
    let a = |smtp: VerifMethodSmtpConfig| one.overriding(smtp);
    let b = |smtp: VerifMethodSmtpConfig| other.overriding(smtp);
    assert(a =~= b);
}

/// What older clients mean: the method of the same name, with the given configuration for SMTP.
pub proof fn older_names_mean_the_same(
    yahoo: BackwardCompatYahooVerifMethod,
    hotmailb2c: BackwardCompatHotmailB2CVerifMethod,
    smtp: VerifMethodSmtpConfig,
)
    ensures
        yahoo is Api <==> yahoo.meant(smtp) is Api,
        yahoo is Headless <==> yahoo.meant(smtp) is Headless,
        yahoo is Smtp <==> yahoo.meant(smtp) == YahooVerifMethod::Smtp(smtp),
        hotmailb2c is Headless <==> hotmailb2c.meant(smtp) is Headless,
        hotmailb2c is Smtp <==> hotmailb2c.meant(smtp) == HotmailB2CVerifMethod::Smtp(smtp),
{
}

/// The verification is of the address that the request names, and is told of the backend, of the
/// WebDriver and of where errors are reported what the configuration says. It makes no optional
/// check.
pub proof fn inputs_forward_address_and_configuration(
    input: CheckEmailInput,
    request: CheckEmailRequest,
    config: BackendConfig,
)
    requires
        is_input_for(input, request, config),
    ensures
        request.to_email == input.to_email,
        config.webdriver_addr == input.webdriver_addr,
        config.webdriver.binary == input.webdriver_config.binary,
        config.backend_name == input.backend_name,
        config.sentry_dsn == input.sentry_dsn,
        input.check_gravatar == false,
        input.haveibeenpwned_api_key is None,
        input.verif_method == request.method_for(config),
{
}

} // verus!
