//! The configuration snapshot: layered resolution from partial source
//! records with defined precedence, and the session policy derived from the
//! resolved snapshot.

use vstd::prelude::*;
use vstd::string::{StringExecFns, StringSliceAdditionalSpecFns};
use vstd::utf8::encode_utf8;
use crate::ascii::{eq_ignore_case, spec_eq_ignore_ascii_case};
use crate::numtext::{parse_u16, parse_u64, spec_parse_u16, spec_parse_u64};
use crate::secret::{KeyError, KeyOutcome, SecretKey, spec_key_outcome};

verus! {

/// Runtime mode of the service. The mode decides the cookie security
/// policy: only `Prod` marks session cookies `Secure`.
#[derive(Clone, Copy, Debug, PartialEq, Eq, Structural)]
pub enum RuntimeMode {
    Dev,
    Prod,
    Test,
}

impl Default for RuntimeMode {
    /// The mode used when no source supplies one.
    fn default() -> (r: RuntimeMode)
        ensures
            r == RuntimeMode::Prod,
    {
        RuntimeMode::Prod
    }
}

/// The text `dev`.
pub open spec fn dev_token() -> Seq<u8> {
    seq![0x64u8, 0x65u8, 0x76u8]
}

/// The text `prod`.
pub open spec fn prod_token() -> Seq<u8> {
    seq![0x70u8, 0x72u8, 0x6fu8, 0x64u8]
}

/// The text `test`.
pub open spec fn test_token() -> Seq<u8> {
    seq![0x74u8, 0x65u8, 0x73u8, 0x74u8]
}

/// What a mode text denotes: `dev`, `prod` or `test`, case-insensitively;
/// anything else is rejected.
pub open spec fn spec_parse_mode(s: Seq<u8>) -> Option<RuntimeMode> {
    if spec_eq_ignore_ascii_case(s, dev_token()) {
        Some(RuntimeMode::Dev)
    } else if spec_eq_ignore_ascii_case(s, prod_token()) {
        Some(RuntimeMode::Prod)
    } else if spec_eq_ignore_ascii_case(s, test_token()) {
        Some(RuntimeMode::Test)
    } else {
        None
    }
}

impl RuntimeMode {
    /// The lowercase name of the mode, as it appears in configuration
    /// sources and diagnostics.
    pub fn label(&self) -> (r: &'static str)
        ensures
            self is Dev ==> r@ == "dev"@,
            self is Prod ==> r@ == "prod"@,
            self is Test ==> r@ == "test"@,
    {
        match self {
            RuntimeMode::Dev => "dev",
            RuntimeMode::Prod => "prod",
            RuntimeMode::Test => "test",
        }
    }

    /// Parse a mode from a byte text, case-insensitively.
    pub fn parse(s: &[u8]) -> (r: Option<RuntimeMode>)
        ensures
            r == spec_parse_mode(s@),
    {
        let dev: [u8; 3] = [0x64, 0x65, 0x76];
        let prod: [u8; 4] = [0x70, 0x72, 0x6f, 0x64];
        let test: [u8; 4] = [0x74, 0x65, 0x73, 0x74];
        proof {
            assert(dev@ =~= dev_token());
            assert(prod@ =~= prod_token());
            assert(test@ =~= test_token());
        }
        if eq_ignore_case(s, dev.as_slice()) {
            Some(RuntimeMode::Dev)
        } else if eq_ignore_case(s, prod.as_slice()) {
            Some(RuntimeMode::Prod)
        } else if eq_ignore_case(s, test.as_slice()) {
            Some(RuntimeMode::Test)
        } else {
            None
        }
    }
}

/// One partial configuration record, as one source (a file, the
/// environment) supplies it: every field optional, every value still raw
/// text.
pub struct ConfigSource {
    pub port: Option<String>,
    pub secret_key: Option<String>,
    pub cookie_name: Option<String>,
    pub cookie_ttl_seconds: Option<String>,
    pub mode: Option<String>,
}

/// The mathematical content of one source record: parsed fields as their
/// UTF-8 bytes, the cookie name as its characters.
pub struct SourceView {
    pub port: Option<Seq<u8>>,
    pub secret_key: Option<Seq<u8>>,
    pub cookie_name: Option<Seq<char>>,
    pub cookie_ttl_seconds: Option<Seq<u8>>,
    pub mode: Option<Seq<u8>>,
}

/// The UTF-8 bytes of an optional text.
pub open spec fn opt_bytes(o: Option<String>) -> Option<Seq<u8>> {
    match o {
        Some(s) => Some(encode_utf8(s@)),
        None => None,
    }
}

/// The characters of an optional text.
pub open spec fn opt_chars(o: Option<String>) -> Option<Seq<char>> {
    match o {
        Some(s) => Some(s@),
        None => None,
    }
}

impl View for ConfigSource {
    type V = SourceView;

    open spec fn view(&self) -> SourceView {
        SourceView {
            port: opt_bytes(self.port),
            secret_key: opt_bytes(self.secret_key),
            cookie_name: opt_chars(self.cookie_name),
            cookie_ttl_seconds: opt_bytes(self.cookie_ttl_seconds),
            mode: opt_bytes(self.mode),
        }
    }
}

/// The record that sets nothing.
pub open spec fn spec_empty_source() -> SourceView {
    SourceView { port: None, secret_key: None, cookie_name: None, cookie_ttl_seconds: None, mode: None }
}

/// Field-wise override: whatever the higher-precedence record sets wins.
pub open spec fn spec_override(lo: SourceView, hi: SourceView) -> SourceView {
    SourceView {
        port: if hi.port is Some {
            hi.port
        } else {
            lo.port
        },
        secret_key: if hi.secret_key is Some {
            hi.secret_key
        } else {
            lo.secret_key
        },
        cookie_name: if hi.cookie_name is Some {
            hi.cookie_name
        } else {
            lo.cookie_name
        },
        cookie_ttl_seconds: if hi.cookie_ttl_seconds is Some {
            hi.cookie_ttl_seconds
        } else {
            lo.cookie_ttl_seconds
        },
        mode: if hi.mode is Some {
            hi.mode
        } else {
            lo.mode
        },
    }
}

/// The fold of a list of records in increasing precedence.
pub open spec fn spec_merged(sources: Seq<SourceView>) -> SourceView
    decreases sources.len(),
{
    if sources.len() == 0 {
        spec_empty_source()
    } else {
        spec_override(spec_merged(sources.drop_last()), sources.last())
    }
}

/// The views of a list of source records.
pub open spec fn views(sources: Seq<ConfigSource>) -> Seq<SourceView> {
    sources.map_values(|s: ConfigSource| s@)
}

/// Errors that abort configuration resolution.
#[derive(Clone, Copy, Debug, PartialEq, Eq, Structural)]
pub enum ConfigError {
    /// The highest-precedence port text is not a decimal 16-bit number.
    InvalidPort,
    /// The secret-key text was rejected by the key-material decoder.
    Key(KeyError),
    /// The highest-precedence cookie name is empty.
    EmptyCookieName,
    /// The highest-precedence TTL text is not a decimal 64-bit number.
    InvalidTtl,
    /// The highest-precedence mode text is none of `dev`, `prod`, `test`.
    InvalidMode,
}

impl ConfigError {
    /// A fixed description of the error, for startup diagnostics.
    pub fn message(&self) -> (r: &'static str)
        ensures
            self is InvalidPort ==> r@ == "port must be a decimal number between 0 and 65535"@,
            self is Key ==> r@ == "secret key is not acceptable"@,
            self is EmptyCookieName ==> r@ == "cookie name must not be empty"@,
            self is InvalidTtl ==> r@ == "cookie TTL must be a decimal number of seconds"@,
            self is InvalidMode ==> r@ == "mode must be one of dev, prod, test"@,
    {
        match self {
            ConfigError::InvalidPort => "port must be a decimal number between 0 and 65535",
            ConfigError::Key(_) => "secret key is not acceptable",
            ConfigError::EmptyCookieName => "cookie name must not be empty",
            ConfigError::InvalidTtl => "cookie TTL must be a decimal number of seconds",
            ConfigError::InvalidMode => "mode must be one of dev, prod, test",
        }
    }
}

/// A fully settled snapshot, before the key request is carried out: the
/// key field still says whether material was given or generation asked.
pub struct SettledView {
    pub port: u16,
    pub key: KeyOutcome,
    pub cookie_name: Seq<char>,
    pub cookie_ttl_seconds: u64,
    pub mode: RuntimeMode,
}

/// What resolution produces: a fatal error or a settled snapshot.
pub enum Resolution {
    Fatal(ConfigError),
    Settled(SettledView),
}

/// The port the merged record asks for: the set text parsed, or the
/// default.
pub open spec fn spec_port_of(m: SourceView) -> Option<u16> {
    match m.port {
        Some(t) => spec_parse_u16(t),
        None => Some(1337u16),
    }
}

/// The key request of the merged record: the set text classified, or
/// generation.
pub open spec fn spec_key_of(m: SourceView) -> KeyOutcome {
    match m.secret_key {
        Some(t) => spec_key_outcome(t),
        None => KeyOutcome::Generate,
    }
}

/// The cookie name of the merged record: the set name if non-empty, or the
/// default.
pub open spec fn spec_name_of(m: SourceView) -> Option<Seq<char>> {
    match m.cookie_name {
        Some(n) => if n.len() > 0 {
            Some(n)
        } else {
            None
        },
        None => Some("auth-example"@),
    }
}

/// The TTL of the merged record: the set text parsed, or the default.
pub open spec fn spec_ttl_of(m: SourceView) -> Option<u64> {
    match m.cookie_ttl_seconds {
        Some(t) => spec_parse_u64(t),
        None => Some(300u64),
    }
}

/// The mode of the merged record: the set text parsed, or the default.
pub open spec fn spec_mode_of(m: SourceView) -> Option<RuntimeMode> {
    match m.mode {
        Some(t) => spec_parse_mode(t),
        None => Some(RuntimeMode::Prod),
    }
}

/// The legacy port override: a parseable legacy value replaces the port,
/// anything else leaves it.
pub open spec fn spec_legacy_port(legacy: Option<Seq<u8>>, port: u16) -> u16 {
    match legacy {
        Some(l) => match spec_parse_u16(l) {
            Some(p) => p,
            None => port,
        },
        None => port,
    }
}

/// What resolving a list of records in increasing precedence, with an
/// optional legacy port value, produces. Fields are checked in a fixed
/// order — port, secret key, cookie name, TTL, mode — and the first
/// failure decides the error; the legacy override is applied last and only
/// to the port.
pub open spec fn spec_resolve(sources: Seq<SourceView>, legacy: Option<Seq<u8>>) -> Resolution {
    let m = spec_merged(sources);
    match spec_port_of(m) {
        None => Resolution::Fatal(ConfigError::InvalidPort),
        Some(p) => match spec_key_of(m) {
            KeyOutcome::Reject(e) => Resolution::Fatal(ConfigError::Key(e)),
            key => match spec_name_of(m) {
                None => Resolution::Fatal(ConfigError::EmptyCookieName),
                Some(name) => match spec_ttl_of(m) {
                    None => Resolution::Fatal(ConfigError::InvalidTtl),
                    Some(ttl) => match spec_mode_of(m) {
                        None => Resolution::Fatal(ConfigError::InvalidMode),
                        Some(mode) => Resolution::Settled(
                            SettledView {
                                port: spec_legacy_port(legacy, p),
                                key: key,
                                cookie_name: name,
                                cookie_ttl_seconds: ttl,
                                mode: mode,
                            },
                        ),
                    },
                },
            },
        },
    }
}

/// The TTL in seconds as a bounded signed duration: values beyond the
/// signed range saturate at its maximum instead of wrapping.
pub open spec fn spec_ttl_duration(secs: u64) -> i64 {
    if secs > i64::MAX as u64 {
        i64::MAX
    } else {
        secs as i64
    }
}

/// Copy an optional text.
fn clone_opt(o: &Option<String>) -> (r: Option<String>)
    ensures
        r is Some <==> o is Some,
        r matches Some(s) ==> (o matches Some(t) && s@ == t@),
{
    match o {
        Some(s) => Some(s.clone()),
        None => None,
    }
}

impl ConfigSource {
    /// The record that sets nothing.
    pub fn empty() -> (r: ConfigSource)
        ensures
            r@ == spec_empty_source(),
    {
        ConfigSource {
            port: None,
            secret_key: None,
            cookie_name: None,
            cookie_ttl_seconds: None,
            mode: None,
        }
    }
}

/// Field-wise override of one record by a higher-precedence one.
fn override_source(lo: ConfigSource, hi: &ConfigSource) -> (r: ConfigSource)
    ensures
        r@ == spec_override(lo@, hi@),
{
    ConfigSource {
        port: if hi.port.is_some() {
            clone_opt(&hi.port)
        } else {
            lo.port
        },
        secret_key: if hi.secret_key.is_some() {
            clone_opt(&hi.secret_key)
        } else {
            lo.secret_key
        },
        cookie_name: if hi.cookie_name.is_some() {
            clone_opt(&hi.cookie_name)
        } else {
            lo.cookie_name
        },
        cookie_ttl_seconds: if hi.cookie_ttl_seconds.is_some() {
            clone_opt(&hi.cookie_ttl_seconds)
        } else {
            lo.cookie_ttl_seconds
        },
        mode: if hi.mode.is_some() {
            clone_opt(&hi.mode)
        } else {
            lo.mode
        },
    }
}

/// The resolved, immutable configuration snapshot.
pub struct AppConfig {
    /// TCP port to bind.
    pub port: u16,
    /// Session-signing key material, at least 64 bytes.
    pub secret_key: SecretKey,
    /// Session cookie name, never empty.
    pub cookie_name: String,
    /// Session TTL in seconds.
    pub cookie_ttl_seconds: u64,
    /// Runtime mode.
    pub mode: RuntimeMode,
}

impl AppConfig {
    /// The snapshot invariant: validated key material and a non-empty
    /// cookie name.
    pub open spec fn wf(&self) -> bool {
        self.secret_key.wf() && self.cookie_name@.len() > 0
    }

    /// The port used when no source supplies one.
    pub fn default_port() -> (r: u16)
        ensures
            r == 1337u16,
    {
        1337
    }

    /// The cookie name used when no source supplies one.
    pub fn default_cookie_name() -> (r: &'static str)
        ensures
            r@ == "auth-example"@,
    {
        "auth-example"
    }

    /// The TTL in seconds used when no source supplies one.
    pub fn default_cookie_ttl_seconds() -> (r: u64)
        ensures
            r == 300u64,
    {
        300
    }

    /// Resolve one snapshot from partial records in increasing precedence,
    /// with the optional legacy port value applied last. The result is
    /// exactly what `spec_resolve` says, except that a key-generation
    /// request is carried out with a fresh 64-byte key.
    pub fn load(sources: &Vec<ConfigSource>, legacy_port: Option<&str>) -> (r: Result<
        AppConfig,
        ConfigError,
    >)
        ensures
            match r {
                Ok(c) => {
                    &&& spec_resolve(views(sources@), spec_legacy(legacy_port)) matches
                        Resolution::Settled(v)
                    &&& c.port == v.port
                    &&& c.cookie_name@ == v.cookie_name
                    &&& c.cookie_ttl_seconds == v.cookie_ttl_seconds
                    &&& c.mode == v.mode
                    &&& match v.key {
                        KeyOutcome::Material(b) => c.secret_key@ == b,
                        KeyOutcome::Generate => c.secret_key@.len() == 64,
                        KeyOutcome::Reject(_) => false,
                    }
                    &&& c.wf()
                },
                Err(e) => spec_resolve(views(sources@), spec_legacy(legacy_port))
                    == Resolution::Fatal(e),
            },
    {
        let ghost vs = views(sources@);
        let mut merged = ConfigSource::empty();
        let mut i: usize = 0;
        proof {
            assert(vs.take(0) =~= Seq::<SourceView>::empty());
        }
        while i < sources.len()
            invariant
                vs == views(sources@),
                i <= sources@.len(),
                merged@ == spec_merged(vs.take(i as int)),
            decreases sources@.len() - i,
        {
            merged = override_source(merged, &sources[i]);
            proof {
                assert(vs.take(i + 1).drop_last() =~= vs.take(i as int));
                assert(vs.take(i + 1).last() == sources@[i as int]@);
            }
            i = i + 1;
        }
        proof {
            assert(vs.take(sources@.len() as int) =~= vs);
        }
        let ghost m = spec_merged(vs);

        let port0: u16 = match &merged.port {
            Some(p) => {
                let ptext = p.as_str();
                match parse_u16(ptext.as_bytes()) {
                    Some(v) => v,
                    None => {
                        return Err(ConfigError::InvalidPort);
                    },
                }
            },
            None => 1337,
        };

        let key: SecretKey = match &merged.secret_key {
            Some(t) => {
                let ttext = t.as_str();
                match SecretKey::from_text(ttext) {
                    Ok(k) => k,
                    Err(e) => {
                        return Err(ConfigError::Key(e));
                    },
                }
            },
            None => SecretKey::generate(),
        };

        let cookie_name: String = match &merged.cookie_name {
            Some(n) => {
                if n.as_str().is_empty() {
                    return Err(ConfigError::EmptyCookieName);
                }
                n.clone()
            },
            None => String::from_str("auth-example"),
        };

        let ttl: u64 = match &merged.cookie_ttl_seconds {
            Some(t) => {
                let ttext = t.as_str();
                match parse_u64(ttext.as_bytes()) {
                    Some(v) => v,
                    None => {
                        return Err(ConfigError::InvalidTtl);
                    },
                }
            },
            None => 300,
        };

        let mode: RuntimeMode = match &merged.mode {
            Some(t) => {
                let ttext = t.as_str();
                match RuntimeMode::parse(ttext.as_bytes()) {
                    Some(v) => v,
                    None => {
                        return Err(ConfigError::InvalidMode);
                    },
                }
            },
            None => RuntimeMode::Prod,
        };

        let port: u16 = match legacy_port {
            Some(l) => {
                match parse_u16(l.as_bytes()) {
                    Some(p) => p,
                    None => port0,
                }
            },
            None => port0,
        };

        proof {
            reveal_strlit("auth-example");
            assert(spec_port_of(m) == Some(port0));
            assert(spec_key_of(m) is Generate || spec_key_of(m) is Material);
            assert(spec_name_of(m) == Some(cookie_name@));
            assert(cookie_name@.len() > 0);
            assert(spec_ttl_of(m) == Some(ttl));
            assert(spec_mode_of(m) == Some(mode));
            assert(port == spec_legacy_port(spec_legacy(legacy_port), port0));
        }
        Ok(AppConfig { port, secret_key: key, cookie_name, cookie_ttl_seconds: ttl, mode })
    }

    /// Whether session cookies are marked `Secure`: exactly in `Prod`.
    pub fn cookie_secure(&self) -> (r: bool)
        ensures
            r == (self.mode is Prod),
    {
        matches!(self.mode, RuntimeMode::Prod)
    }

    /// The session TTL as a signed number of seconds, saturating at the
    /// signed maximum; never negative.
    pub fn cookie_ttl(&self) -> (r: i64)
        ensures
            r == spec_ttl_duration(self.cookie_ttl_seconds),
            0 <= r,
    {
        if self.cookie_ttl_seconds > 0x7fff_ffff_ffff_ffff {
            i64::MAX
        } else {
            self.cookie_ttl_seconds as i64
        }
    }

    /// The resolved port, with the legacy override already applied by
    /// `load`.
    pub fn effective_port(&self) -> (r: u16)
        ensures
            r == self.port,
    {
        self.port
    }
}

/// The canonical environment key of the port field.
pub fn env_key_port() -> (r: &'static str)
    ensures
        r@ == "APP__PORT"@,
{
    "APP__PORT"
}

/// The canonical environment key of the cookie-name field.
pub fn env_key_cookie_name() -> (r: &'static str)
    ensures
        r@ == "APP__COOKIE_NAME"@,
{
    "APP__COOKIE_NAME"
}

/// The canonical environment key of the TTL field.
pub fn env_key_cookie_ttl_seconds() -> (r: &'static str)
    ensures
        r@ == "APP__COOKIE_TTL_SECONDS"@,
{
    "APP__COOKIE_TTL_SECONDS"
}

/// The canonical environment key of the mode field.
pub fn env_key_mode() -> (r: &'static str)
    ensures
        r@ == "APP__MODE"@,
{
    "APP__MODE"
}

/// The canonical environment key of the secret-key field.
pub fn env_key_secret_key() -> (r: &'static str)
    ensures
        r@ == "APP__SECRET_KEY"@,
{
    "APP__SECRET_KEY"
}

/// The legacy environment key that overrides the port alone.
pub fn env_key_legacy_port() -> (r: &'static str)
    ensures
        r@ == "PORT"@,
{
    "PORT"
}

/// The UTF-8 bytes of the optional legacy port text.
pub open spec fn spec_legacy(legacy: Option<&str>) -> Option<Seq<u8>> {
    match legacy {
        Some(l) => Some(l.spec_bytes()),
        None => None,
    }
}

/// The legacy port always wins: whenever resolution succeeds and the
/// legacy value parses as a port number, the snapshot holds exactly that
/// number, whatever any other source set.
pub proof fn lemma_legacy_port_wins(sources: Seq<SourceView>, legacy: Seq<u8>, p: u16)
    requires
        spec_parse_u16(legacy) == Some(p),
        spec_resolve(sources, Some(legacy)) is Settled,
    ensures
        spec_resolve(sources, Some(legacy)) matches Resolution::Settled(v) && v.port == p,
{
}

} // verus!
