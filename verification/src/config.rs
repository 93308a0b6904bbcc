//! Static configuration: the list of remotes and the command line values.

use vstd::prelude::*;

verus! {

/// Priority given to a target that does not state one.
pub const DEFAULT_PRIORITY: u32 = 1;

/// Whether a target that does not say so serves reads.
pub const DEFAULT_READ_REQUEST: bool = true;

/// Port the proxy listens on when none is given.
pub const DEFAULT_PORT: u16 = 9000;

/// Where a remote lives and how to sign requests for it.
#[derive(Debug, Clone)]
pub struct S3Credentials {
    pub endpoint: String,
    pub access_key: String,
    pub secret_key: String,
    pub bucket: String,
}

/// One configured remote.
#[derive(Debug, Clone)]
pub struct S3Target {
    pub name: String,
    pub priority: u32,
    pub read_request: bool,
    pub s3: S3Credentials,
}

/// The configuration file's content.
#[derive(Debug, Clone)]
pub struct Config {
    pub targets: Vec<S3Target>,
}

/// Values taken from the command line or the environment.
#[derive(Debug, Clone)]
pub struct AppArgs {
    pub config_file: String,
    pub port: u16,
    pub access_key: String,
    pub secret_key: String,
    pub bucket: String,
    pub mongo_uri: String,
    pub mongo_db: String,
}

/// A configuration that passed validation, with the arguments it came with.
#[derive(Debug, Clone)]
pub struct S3ReproxySetup {
    pub config: Config,
    pub args: AppArgs,
}

/// Why a configuration is refused.
#[derive(Debug, Clone, Copy, PartialEq, Eq, Structural)]
pub enum Error {
    /// No target has `read_request` set, so no read could ever be served.
    MissingReadableTarget,
}

/// Some target among `targets` serves reads.
pub open spec fn has_readable_target(targets: Seq<S3Target>) -> bool {
    exists|i: int| 0 <= i < targets.len() && #[trigger] targets[i].read_request
}

impl S3Target {
    /// A target with the default priority that serves reads.
    pub fn new(name: String, s3: S3Credentials) -> (target: Self)
        ensures
            target.name == name,
            target.s3 == s3,
            target.priority == DEFAULT_PRIORITY,
            target.read_request == DEFAULT_READ_REQUEST,
    {
        S3Target { name, priority: DEFAULT_PRIORITY, read_request: DEFAULT_READ_REQUEST, s3 }
    }
}

impl Error {
    /// The message shown to the operator.
    pub fn message(&self) -> (text: String)
        ensures
            text@ == "At least one readable target must be specified"@,
    {
        "At least one readable target must be specified".to_owned()
    }
}

impl S3ReproxySetup {
    /// Pairs a parsed configuration with its arguments, refusing a
    /// configuration that `validate_config` refuses.
    pub fn new(args: AppArgs, config: Config) -> (setup: Result<Self, Error>)
        ensures
            setup is Ok <==> has_readable_target(config.targets@),
            setup is Ok ==> config.targets@.len() > 0,
            setup matches Ok(s) ==> s.config == config && s.args == args,
            setup matches Err(e) ==> e == Error::MissingReadableTarget,
    {
        let setup = S3ReproxySetup { config, args };
        match Self::validate_config(&setup) {
            Ok(()) => Ok(setup),
            Err(e) => Err(e),
        }
    }

    /// Accepts the setup exactly when at least one target serves reads.
    /// An empty target list is refused by the same rule.
    pub fn validate_config(setup: &Self) -> (checked: Result<(), Error>)
        ensures
            checked is Ok <==> has_readable_target(setup.config.targets@),
            checked is Ok ==> setup.config.targets@.len() > 0,
            checked matches Err(e) ==> e == Error::MissingReadableTarget,
    {
        let mut i: usize = 0;
        while i < setup.config.targets.len()
            invariant
                i <= setup.config.targets.len(),
                forall|j: int| 0 <= j < i ==> !(#[trigger] setup.config.targets@[j]).read_request,
            decreases setup.config.targets.len() - i,
        {
            if setup.config.targets[i].read_request {
                return Ok(());
            }
            i += 1;
        }
        Err(Error::MissingReadableTarget)
    }
}

} // verus!
