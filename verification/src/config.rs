//! What the development tool is told on its command line.

use vstd::prelude::*;
use std::path::PathBuf;

verus! {

/// A path in the file system, as the standard library holds it.
#[verifier::external_type_specification]
#[verifier::external_body]
pub struct ExPathBuf(PathBuf);

/// `PathBuf::clone`, of whose result nothing is claimed.
pub assume_specification[ <PathBuf as Clone>::clone ](path: &PathBuf) -> (copy: PathBuf)
;

/// Whether the node works on its own or within the network.
#[derive(Clone, Copy, Debug, PartialEq, Eq, Structural)]
pub enum OperationMode {
    /// On its own, for development.
    Local,
    /// As a node of the network.
    Network,
}

/// All that the command line holds.
#[derive(Clone)]
pub struct Config {
    pub sub_command: SubCommand,
    pub additional: BaseConfig,
}

/// What holds for every command.
#[derive(Clone)]
pub struct BaseConfig {
    /// Overrides the directory where contract files are stored.
    pub contract_data_dir: Option<PathBuf>,
    /// Overrides the directory where delegate files are stored.
    pub delegate_data_dir: Option<PathBuf>,
    /// Overrides the directory where secret files are stored.
    pub secret_data_dir: Option<PathBuf>,
    /// Node operation mode.
    pub mode: OperationMode,
}

/// The command to run.
#[derive(Clone)]
pub enum SubCommand {
    New(NewPackageConfig),
    Build(BuildToolConfig),
    Inspect(InspectConfig),
    Publish(PutConfig),
    WasmRuntime(ExecutorConfig),
    Execute(RunCliConfig),
    Test(TestConfig),
}

impl SubCommand {
    /// Whether this process is a child that a test running in several
    /// processes has started.
    pub fn is_child(&self) -> (child: bool)
        ensures
            child == (*self matches SubCommand::Test(config) && config.command
                matches TestMode::MultiProcess(processes) && processes.mode == Process::Child),
    {
        if let SubCommand::Test(config) = self {
            if let TestMode::MultiProcess(processes) = &config.command {
                return matches!(processes.mode, Process::Child);
            }
        }
        false
    }
}

/// The options of the command that inspects a packaged file. This library
/// reads none of them.
#[derive(Clone, Copy, Debug, PartialEq, Eq, Structural)]
pub struct InspectConfig {}

/// The options of the command that runs the local executor. This library
/// reads none of them.
#[derive(Clone, Copy, Debug, PartialEq, Eq, Structural)]
pub struct ExecutorConfig {}

/// The options of the command that runs a test network.
#[derive(Clone, Copy, Debug, PartialEq, Eq, Structural)]
pub struct TestConfig {
    /// How the test is run.
    pub command: TestMode,
}

/// How a test network is run.
#[derive(Clone, Copy, Debug, PartialEq, Eq, Structural)]
pub enum TestMode {
    /// All nodes in one process.
    SingleProcess,
    /// Each node in a process of its own.
    MultiProcess(MultiProcessConfig),
}

/// The options of a test that runs in several processes.
#[derive(Clone, Copy, Debug, PartialEq, Eq, Structural)]
pub struct MultiProcessConfig {
    /// The part that this process plays.
    pub mode: Process,
}

/// The part that a process plays in a test that runs in several.
#[derive(Clone, Copy, Debug, PartialEq, Eq, Structural)]
pub enum Process {
    /// Starts the children and watches over them.
    Supervisor,
    /// Runs one node for the supervisor.
    Child,
}

/// Core CLI tool for interacting with the local node.
///
/// This tool allows the execution of commands against the local node and is
/// intended to be used for development and automated workflows.
#[derive(Clone)]
pub struct RunCliConfig {
    /// Command to execute.
    pub command: NodeCommand,
}

/// A command against the local node.
#[derive(Clone)]
pub enum NodeCommand {
    Put(PutConfig),
    Update(UpdateConfig),
}

/// Updates a contract in the network.
#[derive(Clone)]
pub struct UpdateConfig {
    /// Contract id of the contract being updated in Base58 format.
    pub key: String,
    /// A path to the update/delta being pushed to the contract.
    pub delta: PathBuf,
    /// Whether this contract will be updated in the network or is just a dry
    /// run to be executed in local mode only. By default puts are performed in
    /// local.
    pub release: bool,
}

/// What is being published.
#[derive(Clone, Copy, Debug, PartialEq, Eq, Structural)]
pub enum PutType {
    /// A new contract.
    Contract,
    /// A new delegate.
    Delegate,
}

/// Publishes a new contract or delegate to the network.
#[derive(Clone)]
pub struct PutConfig {
    /// A path to the compiled WASM code file. This must be a valid packaged
    /// contract or component, not an arbitrary WASM file.
    pub code: PathBuf,
    /// A path to the file parameters for the contract/delegate. If not
    /// specified, will be published with empty parameters.
    pub parameters: Option<PathBuf>,
    /// Whether this contract will be released into the network or is just a
    /// dry run to be executed in local mode only. By default puts are
    /// performed in local.
    pub release: bool,
    /// Type of put to perform.
    pub package_type: PutType,
}

/// A version as plain values.
pub struct VersionView {
    pub major: u64,
    pub minor: u64,
    pub patch: u64,
    pub pre: Seq<char>,
    pub build: Seq<char>,
}

/// A semantic version: three numbers, and the pre-release and build texts,
/// which are empty where the version has none.
#[derive(Clone, Debug, PartialEq, Eq)]
pub struct ApiVersion {
    pub major: u64,
    pub minor: u64,
    pub patch: u64,
    pub pre: String,
    pub build: String,
}

impl View for ApiVersion {
    type V = VersionView;

    open spec fn view(&self) -> VersionView {
        VersionView {
            major: self.major,
            minor: self.minor,
            patch: self.patch,
            pre: self.pre@,
            build: self.build@,
        }
    }
}

impl ApiVersion {
    /// The version with these three numbers and neither pre-release nor build
    /// text.
    pub fn new(major: u64, minor: u64, patch: u64) -> (version: Self)
        ensures
            version@ == (VersionView { major, minor, patch, pre: Seq::empty(), build: Seq::empty() }),
    {
        ApiVersion { major, minor, patch, pre: String::new(), build: String::new() }
    }
}

/// What `semver::Version::parse` makes of a text: the version it reads, or
/// the message of its error.
pub uninterp spec fn semver_parse(text: Seq<char>) -> Result<VersionView, Seq<char>>;

/// A parsed version or the message of the failure, as plain values.
pub open spec fn parsed_view(parsed: Result<ApiVersion, String>) -> Result<VersionView, Seq<char>> {
    match parsed {
        Ok(version) => Ok(version@),
        Err(message) => Err(message@),
    }
}

/// Calls `semver::Version::parse` and hands back what it returned: the
/// version, field by field, or the error's message. The contract only names
/// that result; which texts are versions is the outside crate's to say.
#[verifier::external_body]
fn semver_parse_text(text: &str) -> (parsed: Result<ApiVersion, String>)
    ensures
        parsed_view(parsed) == semver_parse(text@),
{
    match semver::Version::parse(text) {
        Ok(version) => Ok(
            ApiVersion {
                major: version.major,
                minor: version.minor,
                patch: version.patch,
                pre: version.pre.as_str().to_string(),
                build: version.build.as_str().to_string(),
            },
        ),
        Err(error) => Err(error.to_string()),
    }
}

/// Reads the version that the command line gives for the API.
pub fn parse_version(src: &str) -> (parsed: Result<ApiVersion, String>)
    ensures
        parsed_view(parsed) == semver_parse(src@),
{
    semver_parse_text(src)
}

/// What is being built.
#[derive(Clone, Copy, Debug, PartialEq, Eq, Structural)]
pub enum PackageType {
    Contract,
    Delegate,
}

impl Default for PackageType {
    fn default() -> (package_type: Self)
        ensures
            package_type == PackageType::Contract,
    {
        PackageType::Contract
    }
}

impl PackageType {
    /// The feature that the package is compiled with.
    pub fn feature(&self) -> (feature: &'static str)
        ensures
            feature@ == (match *self {
                PackageType::Contract => "freenet-main-contract"@,
                PackageType::Delegate => "freenet-main-delegate"@,
            }),
    {
        match self {
            PackageType::Contract => "freenet-main-contract",
            PackageType::Delegate => "freenet-main-delegate",
        }
    }

    /// The word by which the type is written out.
    pub fn name(&self) -> (name: &'static str)
        ensures
            name@ == (match *self {
                PackageType::Contract => "contract"@,
                PackageType::Delegate => "delegate"@,
            }),
    {
        match self {
            PackageType::Contract => "contract",
            PackageType::Delegate => "delegate",
        }
    }
}

/// Builds and packages a contract or delegate.
#[derive(Clone, Debug)]
pub struct BuildToolConfig {
    /// Compile the contract or delegate with specific features.
    pub features: Option<String>,
    /// Compile the contract or delegate with a specific API version.
    pub version: ApiVersion,
    /// Output object type.
    pub package_type: PackageType,
    /// Compile in debug mode instead of release.
    pub debug: bool,
}

impl Default for BuildToolConfig {
    fn default() -> (config: Self)
        ensures
            config.features is None,
            config.version@ == (VersionView {
                major: 0,
                minor: 0,
                patch: 1,
                pre: Seq::empty(),
                build: Seq::empty(),
            }),
            config.package_type == PackageType::Contract,
            !config.debug,
    {
        BuildToolConfig {
            features: None,
            version: ApiVersion::new(0, 0, 1),
            package_type: PackageType::Contract,
            debug: false,
        }
    }
}

/// Create a new contract and/or app.
#[derive(Clone, Copy, Debug, PartialEq, Eq, Structural)]
pub struct NewPackageConfig {
    pub kind: ContractKind,
}

/// The kind of package to create.
#[derive(Clone, Copy, Debug, PartialEq, Eq, Structural)]
pub enum ContractKind {
    /// A web app container contract.
    WebApp,
    /// An standard contract.
    Contract,
}

} // verus!
