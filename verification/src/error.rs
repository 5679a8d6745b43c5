//! What can go wrong at startup and while talking to the panel.

use vstd::prelude::*;

verus! {

/// Why no configuration could be made at startup.
#[derive(Clone, Copy, Debug, PartialEq, Eq, Structural)]
pub enum ConfigError {
    /// `SERVER_URI`, the base address of the panel, is not set.
    MissingServerUri,
    /// `SERVER_KEY`, the token for the panel's management interface, is not set.
    MissingServerKey,
    /// `CLIENT_KEY`, the token for the panel's client interface, is not set.
    MissingClientKey,
    /// `SERVER_KEY` holds a character that cannot be sent in a header.
    UnusableServerKey,
    /// `CLIENT_KEY` holds a character that cannot be sent in a header.
    UnusableClientKey,
}

/// The name of the setting that a configuration error is about.
pub open spec fn variable_spec(error: ConfigError) -> Seq<char> {
    match error {
        ConfigError::MissingServerUri => "SERVER_URI"@,
        ConfigError::MissingServerKey | ConfigError::UnusableServerKey => "SERVER_KEY"@,
        ConfigError::MissingClientKey | ConfigError::UnusableClientKey => "CLIENT_KEY"@,
    }
}

impl ConfigError {
    /// The name of the setting that this error is about.
    pub fn variable(self) -> (name: &'static str)
        ensures
            name@ == variable_spec(self),
    {
        match self {
            ConfigError::MissingServerUri => "SERVER_URI",
            ConfigError::MissingServerKey | ConfigError::UnusableServerKey => "SERVER_KEY",
            ConfigError::MissingClientKey | ConfigError::UnusableClientKey => "CLIENT_KEY",
        }
    }

    /// Whether the setting is absent, rather than present and unusable.
    pub fn is_missing(self) -> (missing: bool)
        ensures
            missing == (self == ConfigError::MissingServerUri || self
                == ConfigError::MissingServerKey || self == ConfigError::MissingClientKey),
    {
        match self {
            ConfigError::MissingServerUri
            | ConfigError::MissingServerKey
            | ConfigError::MissingClientKey => true,
            ConfigError::UnusableServerKey | ConfigError::UnusableClientKey => false,
        }
    }
}

/// A call to the panel that did not yield an answer.
#[derive(Debug)]
pub enum PanelError {
    /// The panel could not be reached, or the connection broke.
    Transport(String),
    /// The panel answered, but not with a body of the expected shape.
    Protocol(String),
}

/// What a [`PanelError`] says, as plain values.
pub enum PanelFault {
    Transport(Seq<char>),
    Protocol(Seq<char>),
}

impl View for PanelError {
    type V = PanelFault;

    open spec fn view(&self) -> PanelFault {
        match self {
            PanelError::Transport(message) => PanelFault::Transport(message@),
            PanelError::Protocol(message) => PanelFault::Protocol(message@),
        }
    }
}

impl PanelFault {
    /// The text that came with the failure.
    pub open spec fn message(self) -> Seq<char> {
        match self {
            PanelFault::Transport(message) => message,
            PanelFault::Protocol(message) => message,
        }
    }
}

/// The failure of a call, by whether an answer came at all.
pub open spec fn fault(answered: bool, message: Seq<char>) -> PanelFault {
    if answered {
        PanelFault::Protocol(message)
    } else {
        PanelFault::Transport(message)
    }
}

impl PanelError {
    /// Sorts a failed call: if the panel answered, the body was not of the
    /// expected shape; if it did not, the call never got through.
    pub fn from_failure(answered: bool, message: String) -> (error: PanelError)
        ensures
            error@ == fault(answered, message@),
    {
        if answered {
            PanelError::Protocol(message)
        } else {
            PanelError::Transport(message)
        }
    }

    /// The text that came with the failure.
    pub fn message(&self) -> (text: &str)
        ensures
            text@ == self@.message(),
    {
        match self {
            PanelError::Transport(message) => message.as_str(),
            PanelError::Protocol(message) => message.as_str(),
        }
    }

    /// Whether the panel could not be reached at all.
    pub fn is_transport(&self) -> (transport: bool)
        ensures
            transport == (self@ is Transport),
    {
        match self {
            PanelError::Transport(_) => true,
            PanelError::Protocol(_) => false,
        }
    }
}

} // verus!
