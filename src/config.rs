use vstd::prelude::*;
use vstd::string::*;

verus! {

/// std's `PathBuf`, carried opaquely in a configuration.
#[verifier::external_type_specification]
#[verifier::external_body]
pub struct ExPathBuf(std::path::PathBuf);

/// Settings for starting a tunnel. Only `port` decides what is started; the
/// other fields are carried for callers that still fill them.
#[derive(Debug)]
pub struct TunnelConfig {
    /// The local port to tunnel
    pub port: u16,
    /// Optional path to the tunnel binary
    pub bin_path: Option<std::path::PathBuf>,
    /// Timeout for tunnel startup in seconds
    pub timeout_secs: Option<u64>,
    /// Verbose logging
    pub verbose: Option<bool>,
    /// Tunnel provider
    pub provider: Option<String>,
    /// Authentication token for the tunnel service
    pub auth_token: Option<String>,
    /// Custom domain for the tunnel
    pub custom_domain: Option<String>,
}

pub const DEFAULT_TUNNEL_PORT: u16 = 8080;

pub const DEFAULT_TIMEOUT_SECS: u64 = 30;

pub open spec fn opt_view(o: Option<String>) -> Option<Seq<char>> {
    match o {
        Some(s) => Some(s@),
        None => None,
    }
}

impl TunnelConfig {
    /// The settings a fresh configuration for `port` carries.
    pub open spec fn is_fresh(&self, port: u16) -> bool {
        &&& self.port == port
        &&& self.bin_path is None
        &&& self.timeout_secs == Some(DEFAULT_TIMEOUT_SECS)
        &&& self.verbose == Some(false)
        &&& opt_view(self.provider) == Some("cloudflare"@)
        &&& self.auth_token is None
        &&& self.custom_domain is None
    }

    pub fn new(port: u16) -> (r: Self)
        ensures
            r.is_fresh(port),
    {
        TunnelConfig {
            port,
            bin_path: None,
            timeout_secs: Some(DEFAULT_TIMEOUT_SECS),
            verbose: Some(false),
            provider: Some("cloudflare".to_string()),
            auth_token: None,
            custom_domain: None,
        }
    }

    pub fn with_bin_path(self, bin_path: std::path::PathBuf) -> (r: Self)
        ensures
            r.bin_path == Some(bin_path),
            r.port == self.port,
            r.timeout_secs == self.timeout_secs,
            r.verbose == self.verbose,
            r.provider == self.provider,
            r.auth_token == self.auth_token,
            r.custom_domain == self.custom_domain,
    {
        let mut s = self;
        s.bin_path = Some(bin_path);
        s
    }

    pub fn with_timeout(self, timeout_secs: u64) -> (r: Self)
        ensures
            r.timeout_secs == Some(timeout_secs),
            r.port == self.port,
            r.bin_path == self.bin_path,
            r.verbose == self.verbose,
            r.provider == self.provider,
            r.auth_token == self.auth_token,
            r.custom_domain == self.custom_domain,
    {
        let mut s = self;
        s.timeout_secs = Some(timeout_secs);
        s
    }

    pub fn with_verbose(self, verbose: bool) -> (r: Self)
        ensures
            r.verbose == Some(verbose),
            r.port == self.port,
            r.bin_path == self.bin_path,
            r.timeout_secs == self.timeout_secs,
            r.provider == self.provider,
            r.auth_token == self.auth_token,
            r.custom_domain == self.custom_domain,
    {
        let mut s = self;
        s.verbose = Some(verbose);
        s
    }

    pub fn with_provider(self, provider: String) -> (r: Self)
        ensures
            r.provider == Some(provider),
            r.port == self.port,
            r.bin_path == self.bin_path,
            r.timeout_secs == self.timeout_secs,
            r.verbose == self.verbose,
            r.auth_token == self.auth_token,
            r.custom_domain == self.custom_domain,
    {
        let mut s = self;
        s.provider = Some(provider);
        s
    }

    pub fn with_auth_token(self, auth_token: String) -> (r: Self)
        ensures
            r.auth_token == Some(auth_token),
            r.port == self.port,
            r.bin_path == self.bin_path,
            r.timeout_secs == self.timeout_secs,
            r.verbose == self.verbose,
            r.provider == self.provider,
            r.custom_domain == self.custom_domain,
    {
        let mut s = self;
        s.auth_token = Some(auth_token);
        s
    }

    pub fn with_custom_domain(self, custom_domain: String) -> (r: Self)
        ensures
            r.custom_domain == Some(custom_domain),
            r.port == self.port,
            r.bin_path == self.bin_path,
            r.timeout_secs == self.timeout_secs,
            r.verbose == self.verbose,
            r.provider == self.provider,
            r.auth_token == self.auth_token,
    {
        let mut s = self;
        s.custom_domain = Some(custom_domain);
        s
    }
}

impl Default for TunnelConfig {
    fn default() -> (r: Self)
        ensures
            r.is_fresh(DEFAULT_TUNNEL_PORT),
    {
        TunnelConfig::new(DEFAULT_TUNNEL_PORT)
    }
}

} // verus!
