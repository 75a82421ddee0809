use nakji::config::Config;
use nakji::connector::Connector;
use nakji::manifest::{Manifest, ManifestError};
use nakji::proto_registry::{
    attach_descriptors, build_topic_proto_messages, descriptor_file_name, proto_file_name,
    TopicProtoMsg,
};
use nakji::topic::{Env, EventNameError, MessageType, Version};

fn test_config(env: &str) -> Config {
    Config::init("localhost:9092".to_string(), env, "http://localhost:8080".to_string()).unwrap()
}

fn test_manifest(version: &str) -> Manifest {
    Manifest::init("ethereum".to_string(), "nakji".to_string(), version).unwrap()
}

#[test]
fn test_build_topic_proto_messages() {
    let mut topic_types: Vec<(String, String)> = Vec::new();
    topic_types.push((
        "nakji.protoregistry.0_0_0.chain_Block".to_string(),
        "nakji.evm.Block".to_string(),
    ));

    let topic_proto_messages = build_topic_proto_messages(&topic_types, MessageType::SYS);

    let mut expected: Vec<TopicProtoMsg> = Vec::new();

    let tpm = TopicProtoMsg {
        message_type: MessageType::SYS,
        topic_name: "nakji.protoregistry.0_0_0.chain_Block".to_string(),
        proto_message_name: "nakji.evm.Block".to_string(),
        descriptor: vec![],
    };
    expected.push(tpm);

    assert_eq!(topic_proto_messages, expected)
}

#[test]
fn config_init_parses_env() {
    let config = test_config("staging");
    assert_eq!(config.kafka_url, "localhost:9092");
    assert_eq!(config.kafka_env, Env::Staging);
    assert_eq!(config.proto_registry_host, "http://localhost:8080");
}

#[test]
fn config_init_rejects_bad_env() {
    let err = Config::init("u".to_string(), "production", "h".to_string()).unwrap_err();
    let nakji::config::ConfigError::InvalidEnv(m) = err;
    assert_eq!(m, "'production' is not a valid value for topic::Env");
}

#[test]
fn manifest_init_parses_version() {
    let manifest = test_manifest("1.2.3");
    assert_eq!(manifest.name, "ethereum");
    assert_eq!(manifest.author, "nakji");
    assert_eq!(manifest.version, Version::new(1, 2, 3));
}

#[test]
fn manifest_init_rejects_bad_version() {
    let err =
        Manifest::init("ethereum".to_string(), "nakji".to_string(), "not-semver").unwrap_err();
    let ManifestError::InvalidVersion(v) = err;
    assert_eq!(v, "not-semver");
}

#[test]
fn connector_id_format() {
    let manifest = test_manifest("1.2.3");
    let config = test_config("dev");
    assert_eq!(Connector::id(&manifest, &config), "nakji-ethereum-1.2.3-Dev");
}

#[test]
fn connector_derives_topic_for_type_name() {
    let connector = Connector::new(test_config("test"), test_manifest("0.1.0"));
    let topic =
        connector.create_topic_for_dynamic_message(MessageType::FCT, "nakji.evm.Block").unwrap();
    assert_eq!(topic.env, Env::Test);
    assert_eq!(topic.message_type, MessageType::FCT);
    assert_eq!(topic.author, "nakji");
    assert_eq!(topic.connector_name, "ethereum");
    assert_eq!(topic.version, Version::new(0, 1, 0));
    assert_eq!(topic.event_name, "evm_Block");
    assert_eq!(topic.to_schema(), "nakji.ethereum.0_1_0.evm_Block");
}

#[test]
fn register_protos_is_disabled_in_dev() {
    let connector = Connector::new(test_config("dev"), test_manifest("0.0.0"));
    let names = vec!["nakji.chain.Block".to_string()];
    assert_eq!(connector.register_protos(MessageType::CMD, &names).unwrap(), None);
}

#[test]
fn register_protos_two_types_end_to_end() {
    let connector = Connector::new(test_config("staging"), test_manifest("0.0.0"));
    let names = vec!["nakji.chain.Block".to_string(), "nakji.chain.Transaction".to_string()];

    let records = connector.register_protos(MessageType::CMD, &names).unwrap().unwrap();
    assert_eq!(records.len(), 2);
    assert_eq!(records[0].topic_name, "nakji.ethereum.0_0_0.chain_Block");
    assert_eq!(records[1].topic_name, "nakji.ethereum.0_0_0.chain_Transaction");
    assert_eq!(records[0].proto_message_name, "nakji.chain.Block");
    assert_eq!(records[1].proto_message_name, "nakji.chain.Transaction");
    assert_eq!(records[0].message_type, MessageType::CMD);
    assert_eq!(records[1].message_type, MessageType::CMD);
    assert!(records[0].descriptor.is_empty());
    assert!(records[1].descriptor.is_empty());

    // Resolution attaches the compiled descriptor bytes pairwise.
    let descriptors: Vec<Vec<u8>> = vec![vec![10, 1, 2], vec![10, 3, 4]];
    let resolved = attach_descriptors(&records, &descriptors);
    assert_eq!(resolved.len(), 2);
    assert_eq!(resolved[0].proto_message_name, "nakji.chain.Block");
    assert_eq!(resolved[1].proto_message_name, "nakji.chain.Transaction");
    assert!(!resolved[0].descriptor.is_empty());
    assert!(!resolved[1].descriptor.is_empty());
    assert_eq!(resolved[0].descriptor, vec![10, 1, 2]);
    assert_eq!(resolved[1].descriptor, vec![10, 3, 4]);
}

#[test]
fn register_protos_rejects_malformed_type_name() {
    let connector = Connector::new(test_config("staging"), test_manifest("0.0.0"));
    let names = vec!["Block".to_string()];
    assert_eq!(
        connector.register_protos(MessageType::CMD, &names).unwrap_err(),
        EventNameError::MalformedTypeName
    );
}

#[test]
fn proto_file_name_from_type_name() {
    assert_eq!(proto_file_name("nakji.evm.Block").unwrap(), "evm.proto");
    assert_eq!(
        proto_file_name("Block").unwrap_err(),
        EventNameError::MalformedTypeName
    );
}

#[test]
fn descriptor_file_name_placement() {
    assert_eq!(
        descriptor_file_name("/work/protos/", "evm.proto", &None),
        "/work/protos/evm.proto.desc"
    );
    assert_eq!(
        descriptor_file_name("/work/protos", "evm.proto", &Some("/out".to_string())),
        "/out/evm.proto.desc"
    );
}
