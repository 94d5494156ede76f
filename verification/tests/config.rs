use locutus_node::config::{
    parse_version, ApiVersion, BuildToolConfig, ContractKind, ExecutorConfig, InspectConfig,
    MultiProcessConfig, NewPackageConfig, NodeCommand, PackageType, Process, PutConfig, PutType,
    RunCliConfig, SubCommand, TestConfig, TestMode, UpdateConfig,
};
use std::path::PathBuf;

fn put_config() -> PutConfig {
    PutConfig {
        code: PathBuf::from("contract.wasm"),
        parameters: None,
        release: false,
        package_type: PutType::Contract,
    }
}

#[test]
fn package_type_features() {
    assert_eq!(PackageType::Contract.feature(), "freenet-main-contract");
    assert_eq!(PackageType::Delegate.feature(), "freenet-main-delegate");
}

#[test]
fn package_type_names() {
    assert_eq!(PackageType::Contract.name(), "contract");
    assert_eq!(PackageType::Delegate.name(), "delegate");
    assert_eq!(PackageType::default(), PackageType::Contract);
}

#[test]
fn build_tool_defaults() {
    let config = BuildToolConfig::default();
    assert_eq!(config.features, None);
    assert_eq!(config.version, ApiVersion::new(0, 0, 1));
    assert_eq!(config.version.pre, "");
    assert_eq!(config.version.build, "");
    assert_eq!(config.package_type, PackageType::Contract);
    assert!(!config.debug);
}

#[test]
fn version_is_parsed_by_semver() {
    assert_eq!(parse_version("1.2.3"), Ok(ApiVersion::new(1, 2, 3)));
    assert_eq!(
        parse_version("0.10.7-alpha.1+build.5"),
        Ok(ApiVersion {
            major: 0,
            minor: 10,
            patch: 7,
            pre: "alpha.1".to_string(),
            build: "build.5".to_string(),
        })
    );
}

#[test]
fn bad_version_gives_the_message_of_semver() {
    assert_eq!(
        parse_version(""),
        Err("empty string, expected a semver version".to_string())
    );
    assert_eq!(
        parse_version("1.0"),
        Err("unexpected end of input while parsing minor version number".to_string())
    );
    assert_eq!(
        parse_version("1.0.01"),
        Err("invalid leading zero in patch version number".to_string())
    );
    assert!(parse_version("23456789999999999999.0.0").is_err());
}

#[test]
fn only_a_child_of_a_multi_process_test_is_a_child() {
    let child = SubCommand::Test(TestConfig {
        command: TestMode::MultiProcess(MultiProcessConfig { mode: Process::Child }),
    });
    let supervisor = SubCommand::Test(TestConfig {
        command: TestMode::MultiProcess(MultiProcessConfig { mode: Process::Supervisor }),
    });
    let single = SubCommand::Test(TestConfig { command: TestMode::SingleProcess });
    assert!(child.is_child());
    assert!(!supervisor.is_child());
    assert!(!single.is_child());
    assert!(!SubCommand::New(NewPackageConfig { kind: ContractKind::WebApp }).is_child());
    assert!(!SubCommand::Build(BuildToolConfig::default()).is_child());
    assert!(!SubCommand::Inspect(InspectConfig {}).is_child());
    assert!(!SubCommand::Publish(put_config()).is_child());
    assert!(!SubCommand::WasmRuntime(ExecutorConfig {}).is_child());
    let update = UpdateConfig { key: "abc".to_string(), delta: PathBuf::from("d"), release: true };
    assert!(!SubCommand::Execute(RunCliConfig { command: NodeCommand::Update(update) }).is_child());
    assert!(!SubCommand::Execute(RunCliConfig { command: NodeCommand::Put(put_config()) })
        .is_child());
}
