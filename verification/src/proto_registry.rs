//! Schema registration: turning a mapping of topic schema strings to
//! message-type names into the records a schema registry takes.
//!
//! The registry request body, the descriptor-set compilation and the HTTP
//! call are the embedding program's: it resolves each record's descriptor
//! bytes from the file names computed here, attaches them, serializes the
//! records and posts them.

use crate::key::copy_bytes;
use crate::key::eq_bytes;
use crate::topic::EventNameError;
use crate::topic::MessageType;
use crate::topic::event_base_chars;
use crate::topic::split_type_name;
use vstd::prelude::*;
use vstd::string::StrSliceExecFns;
use vstd::string::StringExecFns;

verus! {

/// One registration record: the category, the topic schema string, the
/// fully-qualified message-type name, and the compiled descriptor bytes.
#[derive(Clone, Debug)]
pub struct TopicProtoMsg {
    pub message_type: MessageType,
    pub topic_name: String,
    pub proto_message_name: String,
    pub descriptor: Vec<u8>,
}

impl PartialEq for TopicProtoMsg {
    fn eq(&self, other: &TopicProtoMsg) -> (r: bool) {
        self.message_type == other.message_type && self.topic_name == other.topic_name
            && self.proto_message_name == other.proto_message_name && eq_bytes(
            &self.descriptor,
            &other.descriptor,
        )
    }
}

impl vstd::std_specs::cmp::PartialEqSpecImpl for TopicProtoMsg {
    open spec fn obeys_eq_spec() -> bool {
        true
    }

    open spec fn eq_spec(&self, other: &TopicProtoMsg) -> bool {
        self.message_type == other.message_type && self.topic_name@ == other.topic_name@
            && self.proto_message_name@ == other.proto_message_name@ && self.descriptor@
            == other.descriptor@
    }
}

/// Builds one registration record per `(topic schema string, type name)`
/// pair, in order, all under the given category, with empty descriptors;
/// descriptor bytes are attached after resolution.
pub fn build_topic_proto_messages(
    topic_types: &Vec<(String, String)>,
    message_type: MessageType,
) -> (rs: Vec<TopicProtoMsg>)
    ensures
        rs@.len() == topic_types@.len(),
        forall|i: int|
            0 <= i < topic_types@.len() ==> {
                &&& (#[trigger] rs@[i]).message_type == message_type
                &&& rs@[i].topic_name@ == topic_types@[i].0@
                &&& rs@[i].proto_message_name@ == topic_types@[i].1@
                &&& rs@[i].descriptor@ == Seq::<u8>::empty()
            },
{
    let mut rs: Vec<TopicProtoMsg> = Vec::new();
    let mut i: usize = 0;
    while i < topic_types.len()
        invariant
            i <= topic_types@.len(),
            rs@.len() == i,
            forall|j: int|
                0 <= j < i ==> {
                    &&& (#[trigger] rs@[j]).message_type == message_type
                    &&& rs@[j].topic_name@ == topic_types@[j].0@
                    &&& rs@[j].proto_message_name@ == topic_types@[j].1@
                    &&& rs@[j].descriptor@ == Seq::<u8>::empty()
                },
        decreases topic_types@.len() - i,
    {
        let record = TopicProtoMsg {
            message_type,
            topic_name: topic_types[i].0.clone(),
            proto_message_name: topic_types[i].1.clone(),
            descriptor: Vec::new(),
        };
        rs.push(record);
        i += 1;
    }
    rs
}

/// The name of the schema source file for a fully-qualified type name:
/// its second-to-last `.`-separated segment with the `.proto` suffix.
pub fn proto_file_name(full_name: &str) -> (r: Result<String, EventNameError>)
    ensures
        r is Ok <==> full_name@.contains('.'),
        r matches Ok(name) ==> name@ == event_base_chars(full_name@) + ".proto"@,
        r is Err ==> r == Err::<String, EventNameError>(EventNameError::MalformedTypeName),
{
    match split_type_name(full_name) {
        None => Err(EventNameError::MalformedTypeName),
        Some((base, _tail)) => {
            let mut name = base;
            name.append(".proto");
            Ok(name)
        },
    }
}

/// `dir` with every trailing `/` removed.
pub open spec fn trimmed_dir(dir: Seq<char>) -> Seq<char>
    decreases dir.len(),
{
    if dir.len() > 0 && dir.last() == '/' {
        trimmed_dir(dir.drop_last())
    } else {
        dir
    }
}

/// `base/file.desc`.
pub open spec fn descriptor_name_chars(base: Seq<char>, file: Seq<char>) -> Seq<char> {
    base + seq!['/'] + file + ".desc"@
}

/// The name of the compiled descriptor-set file for a schema source file:
/// `file` with the `.desc` suffix, under the override directory when one
/// is set, else beside the source file (whose directory loses its
/// trailing slashes).
pub fn descriptor_file_name(dir: &str, file: &str, output_dir: &Option<String>) -> (s: String)
    ensures
        match output_dir {
            Some(o) => s@ == descriptor_name_chars(o@, file@),
            None => s@ == descriptor_name_chars(trimmed_dir(dir@), file@),
        },
{
    let mut s: String;
    match output_dir {
        Some(o) => {
            s = o.clone();
        },
        None => {
            let ghost d = dir@;
            let n = dir.unicode_len();
            let mut m: usize = n;
            proof {
                assert(d.take(n as int) =~= d);
            }
            while m > 0 && dir.get_char(m - 1) == '/'
                invariant
                    m <= n,
                    n == d.len(),
                    d == dir@,
                    trimmed_dir(d) == trimmed_dir(d.take(m as int)),
                decreases m,
            {
                proof {
                    assert(d.take(m as int).last() == d[m - 1]);
                    assert(d.take(m as int).drop_last() =~= d.take(m - 1));
                }
                m -= 1;
            }
            s = dir.substring_char(0, m).to_owned();
            proof {
                assert(s@ =~= trimmed_dir(d));
            }
        },
    }
    s.append("/");
    s.append(file);
    s.append(".desc");
    proof {
        reveal_strlit("/");
        assert("/"@ =~= seq!['/']);
        match output_dir {
            Some(o) => {
                assert(s@ =~= descriptor_name_chars(o@, file@));
            },
            None => {
                assert(s@ =~= descriptor_name_chars(trimmed_dir(dir@), file@));
            },
        }
    }
    s
}

/// Attaches resolved descriptor bytes to registration records, pairwise
/// and in order; every other field is kept.
pub fn attach_descriptors(records: &Vec<TopicProtoMsg>, descriptors: &Vec<Vec<u8>>) -> (rs: Vec<
    TopicProtoMsg,
>)
    requires
        records@.len() == descriptors@.len(),
    ensures
        rs@.len() == records@.len(),
        forall|i: int|
            0 <= i < records@.len() ==> {
                &&& (#[trigger] rs@[i]).message_type == records@[i].message_type
                &&& rs@[i].topic_name@ == records@[i].topic_name@
                &&& rs@[i].proto_message_name@ == records@[i].proto_message_name@
                &&& rs@[i].descriptor@ == descriptors@[i]@
            },
{
    let mut rs: Vec<TopicProtoMsg> = Vec::new();
    let mut i: usize = 0;
    while i < records.len()
        invariant
            i <= records@.len(),
            records@.len() == descriptors@.len(),
            rs@.len() == i,
            forall|j: int|
                0 <= j < i ==> {
                    &&& (#[trigger] rs@[j]).message_type == records@[j].message_type
                    &&& rs@[j].topic_name@ == records@[j].topic_name@
                    &&& rs@[j].proto_message_name@ == records@[j].proto_message_name@
                    &&& rs@[j].descriptor@ == descriptors@[j]@
                },
        decreases records@.len() - i,
    {
        let record = TopicProtoMsg {
            message_type: records[i].message_type,
            topic_name: records[i].topic_name.clone(),
            proto_message_name: records[i].proto_message_name.clone(),
            descriptor: copy_bytes(&descriptors[i]),
        };
        rs.push(record);
        i += 1;
    }
    rs
}

} // verus!
