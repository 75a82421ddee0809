//! The composition root: manifest + configuration + producer, and the
//! rules that derive a topic from a message's runtime type name.
//!
//! Loading the two files and constructing the broker client are the
//! embedding program's; it hands the loaded values in and keeps the
//! client handle next to this connector.

use crate::config::Config;
use crate::manifest::Manifest;
use crate::producer::Producer;
use crate::producer::TxState;
use crate::proto_registry::TopicProtoMsg;
use crate::proto_registry::build_topic_proto_messages;
use crate::topic::Env;
use crate::topic::EventNameError;
use crate::topic::MessageType;
use crate::topic::Topic;
use crate::topic::env_debug_chars;
use crate::topic::event_name_chars;
use crate::topic::get_event_name;
use crate::topic::version_chars;
use vstd::prelude::*;
use vstd::string::StringExecFns;

verus! {

/// A connector: the object an embedding program publishes through.
pub struct Connector {
    pub producer: Producer,
    pub config: Config,
    pub manifest: Manifest,
}

/// The transactional identity of a connector:
/// `author-name-major.minor.patch-Environment`.
pub open spec fn id_chars(manifest: Manifest, config: Config) -> Seq<char> {
    manifest.author@ + seq!['-'] + manifest.name@ + seq!['-'] + version_chars(
        manifest.version,
        '.',
    ) + seq!['-'] + env_debug_chars(config.kafka_env)
}

/// The schema string of the topic a connector derives for a message type:
/// `author.name.major_minor_patch.eventName`.
pub open spec fn connector_schema_chars(manifest: Manifest, full_name: Seq<char>) -> Seq<char> {
    manifest.author@ + seq!['.'] + manifest.name@ + seq!['.'] + version_chars(
        manifest.version,
        '_',
    ) + seq!['.'] + event_name_chars(full_name)
}

impl Connector {
    /// Composes a connector from loaded configuration and manifest; its
    /// producer starts uninitialized.
    pub fn new(config: Config, manifest: Manifest) -> (c: Connector)
        ensures
            c.config == config,
            c.manifest == manifest,
            c.producer.state == TxState::Uninitialized,
    {
        Connector { producer: Producer::new(), config, manifest }
    }

    /// The transactional identity derived from manifest and configuration.
    pub fn id(manifest: &Manifest, config: &Config) -> (s: String)
        ensures
            s@ == id_chars(*manifest, *config),
    {
        let mut s = manifest.author.clone();
        s.append("-");
        s.append(manifest.name.as_str());
        s.append("-");
        let version = manifest.version.to_string();
        s.append(version.as_str());
        s.append("-");
        s.append(config.kafka_env.debug_str());
        proof {
            reveal_strlit("-");
            assert("-"@ =~= seq!['-']);
            assert(s@ =~= id_chars(*manifest, *config));
        }
        s
    }

    /// Derives the topic for a message type from the connector's identity
    /// and the type's fully-qualified name.
    pub fn create_topic_for_dynamic_message(
        &self,
        message_type: MessageType,
        full_name: &str,
    ) -> (r: Result<Topic, EventNameError>)
        ensures
            r is Ok <==> full_name@.contains('.'),
            r matches Ok(t) ==> {
                &&& t.env == self.config.kafka_env
                &&& t.message_type == message_type
                &&& t.author@ == self.manifest.author@
                &&& t.connector_name@ == self.manifest.name@
                &&& t.version == self.manifest.version
                &&& t.event_name@ == event_name_chars(full_name@)
            },
            r is Err ==> r == Err::<Topic, EventNameError>(EventNameError::MalformedTypeName),
    {
        let event_name = match get_event_name(full_name) {
            Ok(name) => name,
            Err(e) => {
                return Err(e);
            },
        };
        Ok(
            Topic::new(
                self.config.kafka_env,
                message_type,
                self.manifest.author.clone(),
                self.manifest.name.clone(),
                self.manifest.version,
                event_name,
            ),
        )
    }

    /// Derives one `(topic schema string, type name)` pair per message
    /// type, in order; a malformed type name rejects the whole batch.
    pub fn build_topic_types(
        &self,
        message_type: MessageType,
        type_names: &Vec<String>,
    ) -> (r: Result<Vec<(String, String)>, EventNameError>)
        ensures
            r is Ok ==> forall|i: int|
                0 <= i < type_names@.len() ==> (#[trigger] type_names@[i])@.contains('.'),
            r is Err ==> exists|i: int|
                0 <= i < type_names@.len() && !(#[trigger] type_names@[i])@.contains('.'),
            r matches Ok(ps) ==> {
                &&& ps@.len() == type_names@.len()
                &&& forall|i: int|
                    0 <= i < type_names@.len() ==> {
                        &&& (#[trigger] ps@[i]).0@ == connector_schema_chars(
                            self.manifest,
                            type_names@[i]@,
                        )
                        &&& ps@[i].1@ == type_names@[i]@
                    }
            },
            r is Err ==> r == Err::<Vec<(String, String)>, EventNameError>(
                EventNameError::MalformedTypeName,
            ),
    {
        let mut ps: Vec<(String, String)> = Vec::new();
        let mut i: usize = 0;
        while i < type_names.len()
            invariant
                i <= type_names@.len(),
                ps@.len() == i,
                forall|j: int| 0 <= j < i ==> (#[trigger] type_names@[j])@.contains('.'),
                forall|j: int|
                    0 <= j < i ==> {
                        &&& (#[trigger] ps@[j]).0@ == connector_schema_chars(
                            self.manifest,
                            type_names@[j]@,
                        )
                        &&& ps@[j].1@ == type_names@[j]@
                    },
            decreases type_names@.len() - i,
        {
            let topic = match self.create_topic_for_dynamic_message(
                message_type,
                type_names[i].as_str(),
            ) {
                Ok(t) => t,
                Err(e) => {
                    return Err(e);
                },
            };
            let schema = topic.to_schema();
            proof {
                assert(schema@ == connector_schema_chars(self.manifest, type_names@[i as int]@));
            }
            ps.push((schema, type_names[i].clone()));
            i += 1;
        }
        Ok(ps)
    }

    /// Builds the registration records for a batch of message types, or
    /// `None` in the `dev` environment, where schema registration is
    /// disabled and nothing must be sent to the registry.
    pub fn register_protos(&self, message_type: MessageType, type_names: &Vec<String>) -> (r:
        Result<Option<Vec<TopicProtoMsg>>, EventNameError>)
        ensures
            self.config.kafka_env == Env::Dev <==> r == Ok::<
                Option<Vec<TopicProtoMsg>>,
                EventNameError,
            >(None),
            r matches Ok(Some(rs)) ==> {
                &&& rs@.len() == type_names@.len()
                &&& forall|i: int|
                    0 <= i < type_names@.len() ==> {
                        &&& (#[trigger] rs@[i]).message_type == message_type
                        &&& rs@[i].topic_name@ == connector_schema_chars(
                            self.manifest,
                            type_names@[i]@,
                        )
                        &&& rs@[i].proto_message_name@ == type_names@[i]@
                        &&& rs@[i].descriptor@ == Seq::<u8>::empty()
                    }
            },
            r is Err ==> self.config.kafka_env != Env::Dev && exists|i: int|
                0 <= i < type_names@.len() && !(#[trigger] type_names@[i])@.contains('.'),
    {
        if self.config.kafka_env == Env::Dev {
            return Ok(None);
        }
        let pairs = match self.build_topic_types(message_type, type_names) {
            Ok(ps) => ps,
            Err(e) => {
                return Err(e);
            },
        };
        Ok(Some(build_topic_proto_messages(&pairs, message_type)))
    }
}

} // verus!
