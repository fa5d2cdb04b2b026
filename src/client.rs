use vstd::prelude::*;
use crate::logger::{spec_defaulted, spec_installed, LogSink, LoggerConfig};
use crate::status::{Error, StatusCode, BAD_INTERNAL_ERROR, GOOD};

verus! {

/// One step of the native configuration of a fresh client handle, in the order
/// in which the caller that owns the handle must perform them.
#[derive(Clone, Copy, Debug, PartialEq, Eq, Structural)]
pub enum SetupStep {
    /// Call the teardown callback of the logger that the configuration held.
    ClearPreviousLogger,
    /// Install the logger bridge.
    InstallLoggerBridge,
    /// Apply the native library defaults to the rest of the configuration.
    ApplyDefaults,
}

/// The configuration of a native client handle.
#[derive(Clone, Copy, Debug, PartialEq, Eq, Structural)]
pub struct ClientConfig {
    pub logger: LoggerConfig,
    pub defaults_applied: bool,
}

/// The steps that configure a handle whose logger configuration is `logger`.
pub open spec fn spec_setup_steps(logger: LoggerConfig) -> Seq<SetupStep> {
    if logger.has_clear {
        seq![SetupStep::ClearPreviousLogger, SetupStep::InstallLoggerBridge, SetupStep::ApplyDefaults]
    } else {
        seq![SetupStep::InstallLoggerBridge, SetupStep::ApplyDefaults]
    }
}

/// Whether `s` ends with the logger bridge's installation followed by the application
/// of the defaults, and holds nothing but teardowns of a previous logger before them.
pub open spec fn spec_bridge_before_defaults(s: Seq<SetupStep>) -> bool {
    &&& s.len() >= 2
    &&& s[s.len() - 2] == SetupStep::InstallLoggerBridge
    &&& s[s.len() - 1] == SetupStep::ApplyDefaults
    &&& forall|k: int| 0 <= k < s.len() - 2 ==> s[k] == SetupStep::ClearPreviousLogger
}

/// Whether `s` contains a NUL character.
pub open spec fn spec_has_nul(s: Seq<char>) -> bool {
    exists|i: int| 0 <= i < s.len() && s[i] == '\0'
}

/// Tells whether a string contains a NUL character, which no C string can hold.
pub fn has_nul(s: &str) -> (r: bool)
    ensures
        r == spec_has_nul(s@),
{
    let n = s.unicode_len();
    let mut i: usize = 0;
    while i < n
        invariant
            i <= n,
            n == s@.len(),
            forall|j: int| 0 <= j < i ==> s@[j] != '\0',
        decreases n - i,
    {
        if s.get_char(i) == '\0' {
            return true;
        }
        i = i + 1;
    }
    false
}

/// Builder for [`Client`]: a configured client handle, not yet connected.
pub struct ClientBuilder {
    config: ClientConfig,
    steps: Vec<SetupStep>,
}

impl ClientBuilder {
    /// The configuration that the handle holds once the steps are done.
    pub closed spec fn spec_config(&self) -> ClientConfig {
        self.config
    }

    /// The configuration steps, in order.
    pub closed spec fn spec_steps(&self) -> Seq<SetupStep> {
        self.steps@
    }

    /// Configures a handle whose logger configuration is `logger`: the logger bridge is
    /// installed first (after the teardown of any logger that was there), then the
    /// native defaults are applied.
    pub fn from_logger_config(logger: LoggerConfig) -> (r: ClientBuilder)
        ensures
            r.spec_steps() == spec_setup_steps(logger),
            r.spec_config() == (ClientConfig {
                logger: spec_defaulted(spec_installed(logger)),
                defaults_applied: true,
            }),
    {
        let mut config = ClientConfig { logger, defaults_applied: false };
        let mut steps: Vec<SetupStep> = Vec::new();
        let clear_previous = config.logger.install_bridge();
        if clear_previous {
            steps.push(SetupStep::ClearPreviousLogger);
        }
        steps.push(SetupStep::InstallLoggerBridge);
        config.logger.apply_defaults();
        config.defaults_applied = true;
        steps.push(SetupStep::ApplyDefaults);
        proof {
            assert(steps@ =~= spec_setup_steps(logger));
        }
        ClientBuilder { config, steps }
    }

    /// Returns the configuration that the handle holds once the steps are done.
    pub fn config(&self) -> (r: ClientConfig)
        ensures
            r == self.spec_config(),
    {
        self.config
    }

    /// Returns the configuration steps, in order.
    pub fn setup_steps(&self) -> (r: Vec<SetupStep>)
        ensures
            r@ == self.spec_steps(),
    {
        self.steps.clone()
    }

    /// Connects to the OPC UA endpoint, given the status that the native connect call
    /// reported. An endpoint URL that holds a NUL character cannot be handed to the
    /// native stack and fails with an internal error; a status other than good fails
    /// with that status; otherwise the client is connected.
    pub fn connect(self, endpoint_url: &str, status: StatusCode) -> (r: Result<Client, Error>)
        ensures
            spec_has_nul(endpoint_url@) ==> r == Err::<Client, Error>(
                Error { status: StatusCode { code: BAD_INTERNAL_ERROR } },
            ),
            !spec_has_nul(endpoint_url@) && status.code != GOOD ==> r == Err::<Client, Error>(
                Error { status },
            ),
            !spec_has_nul(endpoint_url@) && status.code == GOOD ==> r.is_ok() && r.unwrap().spec_config()
                == self.spec_config() && r.unwrap().spec_endpoint_url() == endpoint_url@,
    {
        if has_nul(endpoint_url) {
            return Err(Error::new(StatusCode::bad_internal_error()));
        }
        if !status.is_good() {
            return Err(Error::new(status));
        }
        Ok(Client { config: self.config, endpoint_url: endpoint_url.to_owned() })
    }
}

/// The configuration of a client built with the defaults: the bridge installed, with
/// no teardown callback and no context, and the native defaults applied.
pub open spec fn spec_default_config() -> ClientConfig {
    ClientConfig {
        logger: LoggerConfig { sink: LogSink::Bridge, has_clear: false, has_context: false },
        defaults_applied: true,
    }
}

impl Default for ClientBuilder {
    /// Configures a handle as the native stack hands it out: it already holds the native
    /// default logger, which has a teardown callback. That logger is torn down, the
    /// bridge installed, then the defaults applied.
    fn default() -> (r: ClientBuilder)
        ensures
            r.spec_steps() == seq![
                SetupStep::ClearPreviousLogger,
                SetupStep::InstallLoggerBridge,
                SetupStep::ApplyDefaults,
            ],
            r.spec_config() == spec_default_config(),
    {
        let mut logger = LoggerConfig::unset();
        logger.apply_defaults();
        ClientBuilder::from_logger_config(logger)
    }
}

/// Building a client, from any logger configuration the handle held, installs the
/// logger bridge strictly before the native defaults are applied, and leaves the bridge,
/// not a native default logger, installed.
pub proof fn bridge_installed_before_defaults(logger: LoggerConfig, b: ClientBuilder)
    requires
        b.spec_steps() == spec_setup_steps(logger),
        b.spec_config() == (ClientConfig {
            logger: spec_defaulted(spec_installed(logger)),
            defaults_applied: true,
        }),
    ensures
        spec_bridge_before_defaults(b.spec_steps()),
        b.spec_config().logger.sink == LogSink::Bridge,
{
}

/// OPC UA client connected to one endpoint. Once connected it cannot be redirected to
/// another endpoint: create a new client for that.
pub struct Client {
    config: ClientConfig,
    endpoint_url: String,
}

impl Client {
    /// The configuration of the client's handle.
    pub closed spec fn spec_config(&self) -> ClientConfig {
        self.config
    }

    /// The endpoint the client is connected to.
    pub closed spec fn spec_endpoint_url(&self) -> Seq<char> {
        self.endpoint_url@
    }

    /// Creates a client connected to the endpoint, with the default configuration, given
    /// the status that the native connect call reported.
    pub fn new(endpoint_url: &str, status: StatusCode) -> (r: Result<Client, Error>)
        ensures
            spec_has_nul(endpoint_url@) ==> r == Err::<Client, Error>(
                Error { status: StatusCode { code: BAD_INTERNAL_ERROR } },
            ),
            !spec_has_nul(endpoint_url@) && status.code != GOOD ==> r == Err::<Client, Error>(
                Error { status },
            ),
            !spec_has_nul(endpoint_url@) && status.code == GOOD ==> r.is_ok()
                && r.unwrap().spec_config() == spec_default_config()
                && r.unwrap().spec_endpoint_url() == endpoint_url@,
    {
        ClientBuilder::default().connect(endpoint_url, status)
    }

    /// Returns the endpoint URL the client is connected to.
    pub fn endpoint_url(&self) -> (r: &str)
        ensures
            r@ == self.spec_endpoint_url(),
    {
        self.endpoint_url.as_str()
    }

    /// Returns the configuration of the client's handle.
    pub fn config(&self) -> (r: ClientConfig)
        ensures
            r == self.spec_config(),
    {
        self.config
    }

    /// Turns the client into an [`AsyncClient`], which takes it over whole: the handle
    /// is moved, never duplicated.
    pub fn into_async(self) -> (r: AsyncClient)
        ensures
            r.spec_client() == self,
    {
        AsyncClient { client: self }
    }
}

/// Asynchronous façade over a connected client: it owns the client exclusively and
/// runs each blocking native call away from the caller.
pub struct AsyncClient {
    client: Client,
}

impl AsyncClient {
    /// The client this façade owns.
    pub closed spec fn spec_client(&self) -> Client {
        self.client
    }

    /// Returns the client this façade owns.
    pub fn client(&self) -> (r: &Client)
        ensures
            *r == self.spec_client(),
    {
        &self.client
    }
}

} // verus!
