use nakji::topic::{get_event_name, Env, EventNameError, MessageType, Topic, Version};

#[test]
fn get_event_name_from_protobuf() {
    let event_name = get_event_name("nakji.evm.Block").unwrap();
    assert_eq!(event_name, "evm_Block")
}

#[test]
fn get_event_name_needs_two_segments() {
    assert_eq!(get_event_name("Block").unwrap_err(), EventNameError::MalformedTypeName);
}

#[test]
fn get_event_name_uses_last_two_segments() {
    assert_eq!(get_event_name("a.b.c.d").unwrap(), "c_d");
    assert_eq!(get_event_name("evm.Block").unwrap(), "evm_Block");
}

#[test]
fn create_new_topic() {
    let version = Version::new(1, 2, 3);

    let topic = Topic::new(
        Env::Test,
        MessageType::FCT,
        "nakji".to_string(),
        "ethereum".to_string(),
        version,
        "evm_Block".to_string(),
    );

    let expected = Topic {
        env: Env::Test,
        message_type: MessageType::FCT,
        author: "nakji".to_string(),
        connector_name: "ethereum".to_string(),
        version,
        event_name: "evm_Block".to_string(),
    };

    assert_eq!(topic, expected);
}

#[test]
fn topic_to_schema() {
    let version = Version::new(0, 1, 0);

    let topic = Topic::new(
        Env::Test,
        MessageType::FCT,
        "nakji".to_string(),
        "ethereum".to_string(),
        version,
        "evm_Block".to_string(),
    );

    let schema = topic.to_schema();

    assert_eq!(schema, "nakji.ethereum.0_1_0.evm_Block");
}

#[test]
fn topic_to_str() {
    let version = Version::new(3, 2, 1);

    let topic = Topic::new(
        Env::Dev,
        MessageType::FCT,
        "nakji".to_string(),
        "ethereum".to_string(),
        version,
        "chain_Block".to_string(),
    );

    let schema = topic.to_string();

    assert_eq!(schema, "dev.fct.nakji.ethereum.3_2_1.chain_Block");
}

#[test]
fn version_display_form() {
    assert_eq!(Version::new(3, 2, 1).to_string(), "3.2.1");
    assert_eq!(Version::new(0, 0, 0).to_string(), "0.0.0");
    assert_eq!(Version::new(10, 200, 3001).to_string(), "10.200.3001");
    assert_eq!(
        Version::new(u64::MAX, 0, 7).to_string(),
        "18446744073709551615.0.7"
    );
}

#[test]
fn env_wire_forms() {
    assert_eq!(Env::Test.as_str(), "test");
    assert_eq!(Env::Dev.as_str(), "dev");
    assert_eq!(Env::Staging.as_str(), "staging");
    assert_eq!(Env::Prod.as_str(), "prod");
}

#[test]
fn env_from_str_parses_wire_forms() {
    assert_eq!(Env::from_str("test").unwrap(), Env::Test);
    assert_eq!(Env::from_str("dev").unwrap(), Env::Dev);
    assert_eq!(Env::from_str("staging").unwrap(), Env::Staging);
    assert_eq!(Env::from_str("prod").unwrap(), Env::Prod);
}

#[test]
fn env_from_str_rejects_unknown_value() {
    assert_eq!(
        Env::from_str("local").unwrap_err(),
        "'local' is not a valid value for topic::Env"
    );
}

#[test]
fn message_type_wire_forms() {
    assert_eq!(MessageType::FCT.as_str(), "fct");
    assert_eq!(MessageType::BF.as_str(), "bf");
    assert_eq!(MessageType::CDC.as_str(), "cdc");
    assert_eq!(MessageType::CMD.as_str(), "cmd");
    assert_eq!(MessageType::SYS.as_str(), "sys");
}
