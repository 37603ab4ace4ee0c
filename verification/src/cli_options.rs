use vstd::prelude::*;

use crate::error::PulsarCatError;

verus! {

/// Top-level invocation: broker URL plus the selected operation.
#[derive(Debug, Clone)]
pub struct CliOpts {
    pub broker: String,
    pub command: OpMode,
}

/// The three operations the tool offers.
#[derive(Debug, Clone)]
pub enum OpMode {
    Producer(ProducerOpts),
    Consumer(ConsumerOpts),
    List(ListOpts),
}

/// Where a fresh subscription starts reading.
#[derive(Debug, Clone, PartialEq, Eq, Structural)]
pub enum OffsetPosition {
    Beginning,
    End,
}

/// How consumed messages are rendered: a custom placeholder string, a JSON
/// envelope, or (neither set) the bare payload.
#[derive(Debug, Clone)]
pub struct DisplayOpts {
    pub format: Option<String>,
    pub json: bool,
}

/// Authentication material handed to the broker client.
#[derive(Debug, Clone)]
pub struct AuthOpts {
    pub token: Option<String>,
}

/// Compression applied by the broker client when producing.
#[derive(Debug, Clone, PartialEq, Eq, Structural)]
pub enum CompressionOpt {
    NoCompression,
    Lz4,
    Zlib,
    Zstd,
    Snappy,
}

/// Options for the produce operation.
#[derive(Debug, Clone)]
pub struct ProducerOpts {
    pub topic: String,
    pub compression: CompressionOpt,
    pub key: Option<String>,
    pub enforce_key: bool,
    pub auth: AuthOpts,
}

/// Options for the consume operation.
#[derive(Debug, Clone)]
pub struct ConsumerOpts {
    pub topic: String,
    pub offset: Option<OffsetPosition>,
    pub exit: bool,
    pub auth: AuthOpts,
    pub display: DisplayOpts,
}

/// Options for the listing operation.
#[derive(Debug, Clone)]
pub struct ListOpts {
    pub auth: AuthOpts,
    pub namespace: Option<String>,
    pub topic: Option<String>,
}

/// Startup validation of an operation's options. Configuration errors are
/// fatal and reported before any network activity: `validate` succeeds
/// exactly on well-formed configurations, and a failure carries the
/// application-level message given by `config_error_msg`.
pub trait OpValidate {
    /// When the options are acceptable.
    spec fn valid_config(&self) -> bool;

    /// The message reported when they are not.
    spec fn config_error_msg(&self) -> Seq<char>;

    fn validate(&self) -> (r: Result<(), PulsarCatError>)
        ensures
            r is Ok <==> self.valid_config(),
            (r matches Err(e) ==> e matches PulsarCatError::Application(m)
                && m@ == self.config_error_msg()),
    ;
}

impl OpValidate for ProducerOpts {
    /// Enforcing a key without a delimiter to derive it from can never
    /// produce a message, so it is rejected up front.
    open spec fn valid_config(&self) -> bool {
        !(self.enforce_key && self.key is None)
    }

    open spec fn config_error_msg(&self) -> Seq<char> {
        "Message key is required but not provided, please use --key to set the delimiter."@
    }

    fn validate(&self) -> (r: Result<(), PulsarCatError>)
    {
        if self.enforce_key && self.key.is_none() {
            Err(PulsarCatError::Application(
                "Message key is required but not provided, please use --key to set the delimiter.".to_owned(),
            ))
        } else {
            Ok(())
        }
    }
}

impl OpValidate for ConsumerOpts {
    open spec fn valid_config(&self) -> bool {
        true
    }

    open spec fn config_error_msg(&self) -> Seq<char> {
        Seq::empty()
    }

    fn validate(&self) -> (r: Result<(), PulsarCatError>)
    {
        Ok(())
    }
}

impl OpValidate for ListOpts {
    /// The listing operation needs a topic or a namespace to work on.
    open spec fn valid_config(&self) -> bool {
        self.namespace is Some || self.topic is Some
    }

    open spec fn config_error_msg(&self) -> Seq<char> {
        "You must provide either a topic or a namespace."@
    }

    fn validate(&self) -> (r: Result<(), PulsarCatError>)
    {
        if self.namespace.is_some() || self.topic.is_some() {
            Ok(())
        } else {
            Err(PulsarCatError::Application(
                "You must provide either a topic or a namespace.".to_owned(),
            ))
        }
    }
}

} // verus!
