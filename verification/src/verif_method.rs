//! How an address is verified: one method for each kind of email provider.

use vstd::prelude::*;

verus! {

/// The nanoseconds of a second.
pub const NANOS_PER_SEC: u32 = 1_000_000_000;

/// A span of time: whole seconds and the nanoseconds beyond them, which are less than a second.
#[derive(Debug, Clone, Copy, PartialEq, Eq, Structural)]
pub struct TimeSpan {
    pub secs: u64,
    pub nanos: u32,
}

impl TimeSpan {
    /// Whether the nanoseconds are less than a second.
    pub open spec fn well_formed(self) -> bool {
        self.nanos < NANOS_PER_SEC
    }

    /// The length of the span in nanoseconds.
    pub open spec fn total_nanos(self) -> int {
        self.secs * NANOS_PER_SEC + self.nanos
    }

    /// A span of that many seconds and nanoseconds. Nanoseconds that make up whole seconds are
    /// carried over to the seconds; there is no such span where these become too many.
    pub fn new(secs: u64, nanos: u32) -> (span: Option<TimeSpan>)
        ensures
            match span {
                Some(span) => span.well_formed() && span.total_nanos() == secs * NANOS_PER_SEC
                    + nanos,
                None => secs + nanos / NANOS_PER_SEC > u64::MAX,
            },
    {
        let carried: u64 = (nanos / NANOS_PER_SEC) as u64;
        match secs.checked_add(carried) {
            Some(secs) => Some(TimeSpan { secs, nanos: nanos % NANOS_PER_SEC }),
            None => None,
        }
    }

    /// A span of whole seconds.
    pub fn from_secs(secs: u64) -> (span: TimeSpan)
        ensures
            span == (TimeSpan { secs, nanos: 0 }),
            span.well_formed(),
    {
        TimeSpan { secs, nanos: 0 }
    }
}

/// A SOCKS5 proxy that SMTP connections can go through.
#[derive(Debug)]
pub struct CheckEmailInputProxy {
    pub host: String,
    pub port: u16,
    pub username: Option<String>,
    pub password: Option<String>,
}

impl Clone for CheckEmailInputProxy {
    fn clone(&self) -> (copy: Self)
        ensures
            copy == *self,
    {
        CheckEmailInputProxy {
            host: self.host.clone(),
            port: self.port,
            username: self.username.clone(),
            password: self.password.clone(),
        }
    }
}

/// How an SMTP conversation is held.
#[derive(Debug)]
pub struct VerifMethodSmtpConfig {
    pub from_email: String,
    pub hello_name: String,
    pub smtp_port: u16,
    pub smtp_timeout: Option<TimeSpan>,
    /// The proxy that the connection goes through, if any.
    pub proxy: Option<CheckEmailInputProxy>,
    pub retries: usize,
}

impl VerifMethodSmtpConfig {
    /// Whether the timeout, if any, is well-formed.
    pub open spec fn well_formed(self) -> bool {
        self.smtp_timeout matches Some(smtp_timeout) ==> smtp_timeout.well_formed()
    }
}

impl Clone for VerifMethodSmtpConfig {
    fn clone(&self) -> (copy: Self)
        ensures
            copy == *self,
    {
        VerifMethodSmtpConfig {
            from_email: self.from_email.clone(),
            hello_name: self.hello_name.clone(),
            smtp_port: self.smtp_port,
            smtp_timeout: self.smtp_timeout,
            proxy: self.proxy.clone(),
            retries: self.retries,
        }
    }
}

#[derive(Debug)]
pub enum GmailVerifMethod {
    Smtp(VerifMethodSmtpConfig),
}

#[derive(Debug)]
pub enum HotmailB2BVerifMethod {
    Smtp(VerifMethodSmtpConfig),
}

#[derive(Debug)]
pub enum HotmailB2CVerifMethod {
    /// A browser walks through the account recovery page.
    Headless,
    Smtp(VerifMethodSmtpConfig),
}

#[derive(Debug)]
pub enum MimecastVerifMethod {
    Smtp(VerifMethodSmtpConfig),
}

#[derive(Debug)]
pub enum ProofpointVerifMethod {
    Smtp(VerifMethodSmtpConfig),
}

#[derive(Debug)]
pub enum YahooVerifMethod {
    /// An HTTP request asks the provider.
    Api,
    /// A browser walks through the account recovery page.
    Headless,
    Smtp(VerifMethodSmtpConfig),
}

#[derive(Debug)]
pub enum EverythingElseVerifMethod {
    Smtp(VerifMethodSmtpConfig),
}

/// The verification method for each kind of email provider.
#[derive(Debug)]
pub struct VerifMethod {
    pub gmail: GmailVerifMethod,
    pub hotmailb2b: HotmailB2BVerifMethod,
    pub hotmailb2c: HotmailB2CVerifMethod,
    pub mimecast: MimecastVerifMethod,
    pub proofpoint: ProofpointVerifMethod,
    pub yahoo: YahooVerifMethod,
    pub everything_else: EverythingElseVerifMethod,
}

impl Clone for VerifMethod {
    fn clone(&self) -> (copy: Self)
        ensures
            copy == *self,
    {
        VerifMethod {
            gmail: match &self.gmail {
                GmailVerifMethod::Smtp(smtp) => GmailVerifMethod::Smtp(smtp.clone()),
            },
            hotmailb2b: match &self.hotmailb2b {
                HotmailB2BVerifMethod::Smtp(smtp) => HotmailB2BVerifMethod::Smtp(smtp.clone()),
            },
            hotmailb2c: match &self.hotmailb2c {
                HotmailB2CVerifMethod::Headless => HotmailB2CVerifMethod::Headless,
                HotmailB2CVerifMethod::Smtp(smtp) => HotmailB2CVerifMethod::Smtp(smtp.clone()),
            },
            mimecast: match &self.mimecast {
                MimecastVerifMethod::Smtp(smtp) => MimecastVerifMethod::Smtp(smtp.clone()),
            },
            proofpoint: match &self.proofpoint {
                ProofpointVerifMethod::Smtp(smtp) => ProofpointVerifMethod::Smtp(smtp.clone()),
            },
            yahoo: match &self.yahoo {
                YahooVerifMethod::Api => YahooVerifMethod::Api,
                YahooVerifMethod::Headless => YahooVerifMethod::Headless,
                YahooVerifMethod::Smtp(smtp) => YahooVerifMethod::Smtp(smtp.clone()),
            },
            everything_else: match &self.everything_else {
                EverythingElseVerifMethod::Smtp(smtp) => EverythingElseVerifMethod::Smtp(
                    smtp.clone(),
                ),
            },
        }
    }
}

impl VerifMethod {
    /// SMTP with the configuration `smtp`, whatever the provider.
    pub open spec fn same_for_all(smtp: VerifMethodSmtpConfig) -> VerifMethod {
        VerifMethod {
            gmail: GmailVerifMethod::Smtp(smtp),
            hotmailb2b: HotmailB2BVerifMethod::Smtp(smtp),
            hotmailb2c: HotmailB2CVerifMethod::Smtp(smtp),
            mimecast: MimecastVerifMethod::Smtp(smtp),
            proofpoint: ProofpointVerifMethod::Smtp(smtp),
            yahoo: YahooVerifMethod::Smtp(smtp),
            everything_else: EverythingElseVerifMethod::Smtp(smtp),
        }
    }

    /// This method with every SMTP configuration replaced by its image under `f`; a method that is
    /// not SMTP stays as it is.
    pub open spec fn map_smtp(
        self,
        f: spec_fn(VerifMethodSmtpConfig) -> VerifMethodSmtpConfig,
    ) -> VerifMethod {
        VerifMethod {
            gmail: match self.gmail {
                GmailVerifMethod::Smtp(smtp) => GmailVerifMethod::Smtp(f(smtp)),
            },
            hotmailb2b: match self.hotmailb2b {
                HotmailB2BVerifMethod::Smtp(smtp) => HotmailB2BVerifMethod::Smtp(f(smtp)),
            },
            hotmailb2c: match self.hotmailb2c {
                HotmailB2CVerifMethod::Headless => HotmailB2CVerifMethod::Headless,
                HotmailB2CVerifMethod::Smtp(smtp) => HotmailB2CVerifMethod::Smtp(f(smtp)),
            },
            mimecast: match self.mimecast {
                MimecastVerifMethod::Smtp(smtp) => MimecastVerifMethod::Smtp(f(smtp)),
            },
            proofpoint: match self.proofpoint {
                ProofpointVerifMethod::Smtp(smtp) => ProofpointVerifMethod::Smtp(f(smtp)),
            },
            yahoo: match self.yahoo {
                YahooVerifMethod::Api => YahooVerifMethod::Api,
                YahooVerifMethod::Headless => YahooVerifMethod::Headless,
                YahooVerifMethod::Smtp(smtp) => YahooVerifMethod::Smtp(f(smtp)),
            },
            everything_else: match self.everything_else {
                EverythingElseVerifMethod::Smtp(smtp) => EverythingElseVerifMethod::Smtp(f(smtp)),
            },
        }
    }

    /// Whether some provider is verified over SMTP with the configuration `smtp`.
    pub open spec fn uses(self, smtp: VerifMethodSmtpConfig) -> bool {
        ||| self.gmail == GmailVerifMethod::Smtp(smtp)
        ||| self.hotmailb2b == HotmailB2BVerifMethod::Smtp(smtp)
        ||| self.hotmailb2c == HotmailB2CVerifMethod::Smtp(smtp)
        ||| self.mimecast == MimecastVerifMethod::Smtp(smtp)
        ||| self.proofpoint == ProofpointVerifMethod::Smtp(smtp)
        ||| self.yahoo == YahooVerifMethod::Smtp(smtp)
        ||| self.everything_else == EverythingElseVerifMethod::Smtp(smtp)
    }

    /// Verifies every address over SMTP, with the same configuration for all providers.
    pub fn new_with_same_config_for_all(
        proxy: Option<CheckEmailInputProxy>,
        hello_name: String,
        from_email: String,
        smtp_port: u16,
        smtp_timeout: Option<TimeSpan>,
        retries: usize,
    ) -> (method: VerifMethod)
        ensures
            method == VerifMethod::same_for_all(
                VerifMethodSmtpConfig {
                    from_email,
                    hello_name,
                    smtp_port,
                    smtp_timeout,
                    proxy,
                    retries,
                },
            ),
    {
        let smtp: VerifMethodSmtpConfig = VerifMethodSmtpConfig {
            from_email,
            hello_name,
            smtp_port,
            smtp_timeout,
            proxy,
            retries,
        };
        VerifMethod {
            gmail: GmailVerifMethod::Smtp(smtp.clone()),
            hotmailb2b: HotmailB2BVerifMethod::Smtp(smtp.clone()),
            hotmailb2c: HotmailB2CVerifMethod::Smtp(smtp.clone()),
            mimecast: MimecastVerifMethod::Smtp(smtp.clone()),
            proofpoint: ProofpointVerifMethod::Smtp(smtp.clone()),
            yahoo: YahooVerifMethod::Smtp(smtp.clone()),
            everything_else: EverythingElseVerifMethod::Smtp(smtp),
        }
    }
}

/// One configuration for all means the very same SMTP configuration for each provider.
pub proof fn same_for_all_means_each(smtp: VerifMethodSmtpConfig)
    ensures
        VerifMethod::same_for_all(smtp).gmail->Smtp_0 == smtp,
        VerifMethod::same_for_all(smtp).hotmailb2b->Smtp_0 == smtp,
        VerifMethod::same_for_all(smtp).hotmailb2c == HotmailB2CVerifMethod::Smtp(smtp),
        VerifMethod::same_for_all(smtp).mimecast->Smtp_0 == smtp,
        VerifMethod::same_for_all(smtp).proofpoint->Smtp_0 == smtp,
        VerifMethod::same_for_all(smtp).yahoo == YahooVerifMethod::Smtp(smtp),
        VerifMethod::same_for_all(smtp).everything_else->Smtp_0 == smtp,
{
}

/// A span that is well-formed and as long as so many seconds and nanoseconds has the whole seconds
/// of both, and the nanoseconds beyond them.
pub proof fn spans_carry_over(span: TimeSpan, secs: u64, nanos: u32)
    requires
        span.well_formed(),
        span.total_nanos() == secs * NANOS_PER_SEC + nanos,
    ensures
        span.secs == secs + nanos / 1_000_000_000,
        span.nanos == nanos % 1_000_000_000,
{
}

} // verus!
