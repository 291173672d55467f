//! Configuration of a bot application and its builder.

use vstd::prelude::*;

verus! {

/// Where the webhook server listens.
#[derive(Debug, Clone)]
pub struct ListeningConfig {
    /// Address to bind, such as `0.0.0.0:3000`.
    pub bind_addr: String,
    /// Path of the webhook route, such as `/webhook`.
    pub webhook_path: String,
}

impl Default for ListeningConfig {
    fn default() -> (res: Self)
        ensures
            res.bind_addr@ == "0.0.0.0:3000"@,
            res.webhook_path@ == "/webhook"@,
    {
        ListeningConfig {
            bind_addr: "0.0.0.0:3000".to_string(),
            webhook_path: "/webhook".to_string(),
        }
    }
}

/// The credentials that the QQ bot platform issued.
#[derive(Debug, Clone)]
pub struct CredentialConfig {
    pub app_id: String,
    pub secret: String,
}

impl Default for CredentialConfig {
    fn default() -> (res: Self)
        ensures
            res.app_id@ == Seq::<char>::empty(),
            res.secret@ == Seq::<char>::empty(),
    {
        CredentialConfig { app_id: String::new(), secret: String::new() }
    }
}

/// Settings of the sandbox environment; none so far.
#[derive(Debug, Clone)]
pub struct SandboxConfig {}

impl Default for SandboxConfig {
    fn default() -> (res: Self) {
        SandboxConfig {}
    }
}

/// Replacement base URLs for the open API.
#[derive(Debug, Clone)]
pub struct QQApiOverrides {
    pub prod_url_override: Option<String>,
    pub sandbox_url_override: Option<String>,
}

impl Default for QQApiOverrides {
    fn default() -> (res: Self)
        ensures
            res.prod_url_override is None,
            res.sandbox_url_override is None,
    {
        QQApiOverrides { prod_url_override: None, sandbox_url_override: None }
    }
}

/// The configuration of a bot application.
#[derive(Debug, Clone)]
pub struct AppConfig {
    pub listening: ListeningConfig,
    pub credential: CredentialConfig,
    pub sandbox_config: SandboxConfig,
    pub api_overrides: QQApiOverrides,
    /// Skips the start-up checks, such as those for registrations made twice.
    pub ignore_checking: bool,
}

/// The default configuration: listen on `0.0.0.0:3000` at `/webhook`, empty
/// credentials, no API overrides, start-up checks on.
pub open spec fn is_default_config(c: AppConfig) -> bool {
    &&& c.listening.bind_addr@ == "0.0.0.0:3000"@
    &&& c.listening.webhook_path@ == "/webhook"@
    &&& c.credential.app_id@ == Seq::<char>::empty()
    &&& c.credential.secret@ == Seq::<char>::empty()
    &&& c.api_overrides.prod_url_override is None
    &&& c.api_overrides.sandbox_url_override is None
    &&& !c.ignore_checking
}

impl Default for AppConfig {
    fn default() -> (res: Self)
        ensures
            is_default_config(res),
    {
        AppConfig {
            listening: ListeningConfig::default(),
            credential: CredentialConfig::default(),
            sandbox_config: SandboxConfig::default(),
            api_overrides: QQApiOverrides::default(),
            ignore_checking: false,
        }
    }
}

impl AppConfig {
    /// The default configuration.
    pub fn new() -> (res: Self)
        ensures
            is_default_config(res),
    {
        Self::default()
    }

    /// Sets the address to listen on.
    pub fn bind_addr(self, bind: &str) -> (res: Self)
        ensures
            res.listening.bind_addr@ == bind@,
            res.listening.webhook_path == self.listening.webhook_path,
            res.credential == self.credential,
            res.api_overrides == self.api_overrides,
            res.ignore_checking == self.ignore_checking,
    {
        let mut c = self;
        c.listening.bind_addr = bind.to_string();
        c
    }

    /// Sets the path of the webhook route.
    pub fn webhook_path(self, path: &str) -> (res: Self)
        ensures
            res.listening.webhook_path@ == path@,
            res.listening.bind_addr == self.listening.bind_addr,
            res.credential == self.credential,
            res.api_overrides == self.api_overrides,
            res.ignore_checking == self.ignore_checking,
    {
        let mut c = self;
        c.listening.webhook_path = path.to_string();
        c
    }

    /// Sets the credentials.
    pub fn credential(self, credential: CredentialConfig) -> (res: Self)
        ensures
            res.credential == credential,
            res.listening == self.listening,
            res.api_overrides == self.api_overrides,
            res.ignore_checking == self.ignore_checking,
    {
        let mut c = self;
        c.credential = credential;
        c
    }

    /// Replaces the base URL of the production API.
    pub fn prod_url_override(self, api: &str) -> (res: Self)
        ensures
            res.api_overrides.prod_url_override matches Some(u) && u@ == api@,
            res.api_overrides.sandbox_url_override == self.api_overrides.sandbox_url_override,
            res.listening == self.listening,
            res.credential == self.credential,
            res.ignore_checking == self.ignore_checking,
    {
        let mut c = self;
        c.api_overrides.prod_url_override = Some(api.to_string());
        c
    }

    /// The base URL of the production API: the override when there is one,
    /// else the official one.
    pub fn prod_base_url(&self) -> (res: String)
        ensures
            res@ == match self.api_overrides.prod_url_override {
                Some(u) => u@,
                None => crate::openapi::OFFICIAL_API_BASE_URL@,
            },
    {
        match &self.api_overrides.prod_url_override {
            Some(u) => u.clone(),
            None => crate::openapi::OFFICIAL_API_BASE_URL.to_string(),
        }
    }
}

} // verus!
