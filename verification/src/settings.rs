//! What the service is started with.

use vstd::prelude::*;
use vstd::string::StringExecFns;

verus! {

/// The settings of a running service.
#[derive(Debug, Clone, PartialEq, Eq)]
pub struct Settings {
    pub api_key: String,
    pub secret_key: String,
    pub port: String,
}

/// Why the service does not start.
#[derive(Debug, Clone, Copy, PartialEq, Eq, Structural)]
pub enum StartupError {
    /// `ALPACA_API_KEY` is not set.
    MissingApiKey,
    /// `ALPACA_SECRET_KEY` is not set.
    MissingSecretKey,
}

/// The port that is used where none is given.
pub open spec fn default_port() -> Seq<char> {
    "3000"@
}

/// The address to listen on: every interface, at the given port.
pub open spec fn bind_address_of(port: Seq<char>) -> Seq<char> {
    "0.0.0.0:"@ + port
}

/// What the message of a startup error is.
pub open spec fn startup_message(error: StartupError) -> Seq<char> {
    match error {
        StartupError::MissingApiKey => "ALPACA_API_KEY environment variable must be set"@,
        StartupError::MissingSecretKey => "ALPACA_SECRET_KEY environment variable must be set"@,
    }
}

impl StartupError {
    /// The message to stop with.
    pub fn message(&self) -> (message: String)
        ensures
            message@ == startup_message(*self),
    {
        match self {
            StartupError::MissingApiKey => "ALPACA_API_KEY environment variable must be set"
                .to_owned(),
            StartupError::MissingSecretKey => "ALPACA_SECRET_KEY environment variable must be set"
                .to_owned(),
        }
    }
}

impl Settings {
    /// The settings for the values of `ALPACA_API_KEY`, `ALPACA_SECRET_KEY` and
    /// `PORT`, each `None` where the variable is not set. Both keys are
    /// required, the API key being looked at first; the port is "3000" where
    /// none is given.
    pub fn from_values(
        api_key: Option<String>,
        secret_key: Option<String>,
        port: Option<String>,
    ) -> (made: Result<Settings, StartupError>)
        ensures
            api_key is None ==> made == Err::<Settings, StartupError>(StartupError::MissingApiKey),
            api_key is Some && secret_key is None ==> made == Err::<Settings, StartupError>(
                StartupError::MissingSecretKey,
            ),
            api_key is Some && secret_key is Some ==> (made matches Ok(settings)
                && settings.api_key == api_key->0 && settings.secret_key == secret_key->0
                && settings.port@ == (match port {
                Some(port) => port@,
                None => default_port(),
            })),
    {
        let api_key = match api_key {
            Some(key) => key,
            None => return Err(StartupError::MissingApiKey),
        };
        let secret_key = match secret_key {
            Some(key) => key,
            None => return Err(StartupError::MissingSecretKey),
        };
        let port = match port {
            Some(port) => port,
            None => "3000".to_owned(),
        };
        Ok(Settings { api_key, secret_key, port })
    }

    /// The address to listen on.
    pub fn bind_address(&self) -> (address: String)
        ensures
            address@ == bind_address_of(self.port@),
    {
        let mut address = "0.0.0.0:".to_owned();
        address.append(self.port.as_str());
        address
    }
}

} // verus!
