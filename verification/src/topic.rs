//! Topic identity: the value types and formatting rules that name a
//! destination stream.
//!
//! A topic is identified by an environment, a message category, an author, a
//! connector name, a semantic version and an event name.  Its canonical
//! schema string is `author.connector.major_minor_patch.event`, and its wire
//! string prefixes that with `environment.category.`.

use vstd::prelude::*;
use vstd::string::StrSliceExecFns;
use vstd::string::StringExecFns;

verus! {

// ---------------------------------------------------------------------------
// Decimal formatting of unsigned integers.
// ---------------------------------------------------------------------------
/// The decimal digit character for a value below ten.
pub open spec fn dec_digit(d: nat) -> char
    recommends
        d < 10,
{
    if d == 0 {
        '0'
    } else if d == 1 {
        '1'
    } else if d == 2 {
        '2'
    } else if d == 3 {
        '3'
    } else if d == 4 {
        '4'
    } else if d == 5 {
        '5'
    } else if d == 6 {
        '6'
    } else if d == 7 {
        '7'
    } else if d == 8 {
        '8'
    } else {
        '9'
    }
}

/// The decimal notation of `n`, most significant digit first, with no
/// leading zeros.
pub open spec fn dec_chars(n: nat) -> Seq<char>
    decreases n,
{
    if n < 10 {
        seq![dec_digit(n)]
    } else {
        dec_chars(n / 10) + seq![dec_digit(n % 10)]
    }
}

fn digit_str(d: u64) -> (s: &'static str)
    requires
        d < 10,
    ensures
        s@ == seq![dec_digit(d as nat)],
{
    if d == 0 {
        let s = "0";
        proof {
            reveal_strlit("0");
            assert(s@ =~= seq![dec_digit(d as nat)]);
        }
        s
    } else if d == 1 {
        let s = "1";
        proof {
            reveal_strlit("1");
            assert(s@ =~= seq![dec_digit(d as nat)]);
        }
        s
    } else if d == 2 {
        let s = "2";
        proof {
            reveal_strlit("2");
            assert(s@ =~= seq![dec_digit(d as nat)]);
        }
        s
    } else if d == 3 {
        let s = "3";
        proof {
            reveal_strlit("3");
            assert(s@ =~= seq![dec_digit(d as nat)]);
        }
        s
    } else if d == 4 {
        let s = "4";
        proof {
            reveal_strlit("4");
            assert(s@ =~= seq![dec_digit(d as nat)]);
        }
        s
    } else if d == 5 {
        let s = "5";
        proof {
            reveal_strlit("5");
            assert(s@ =~= seq![dec_digit(d as nat)]);
        }
        s
    } else if d == 6 {
        let s = "6";
        proof {
            reveal_strlit("6");
            assert(s@ =~= seq![dec_digit(d as nat)]);
        }
        s
    } else if d == 7 {
        let s = "7";
        proof {
            reveal_strlit("7");
            assert(s@ =~= seq![dec_digit(d as nat)]);
        }
        s
    } else if d == 8 {
        let s = "8";
        proof {
            reveal_strlit("8");
            assert(s@ =~= seq![dec_digit(d as nat)]);
        }
        s
    } else {
        let s = "9";
        proof {
            reveal_strlit("9");
            assert(s@ =~= seq![dec_digit(d as nat)]);
        }
        s
    }
}

/// Formats `n` in decimal.
pub fn u64_to_string(n: u64) -> (s: String)
    ensures
        s@ == dec_chars(n as nat),
    decreases n,
{
    if n < 10 {
        String::from_str(digit_str(n))
    } else {
        let mut s = u64_to_string(n / 10);
        s.append(digit_str(n % 10));
        proof {
            assert(s@ =~= dec_chars(n as nat));
        }
        s
    }
}

// ---------------------------------------------------------------------------
// Semantic versions.
// ---------------------------------------------------------------------------
/// A semantic version: three unsigned numeric components.
#[derive(Clone, Copy, Debug, PartialEq, Eq, Structural)]
pub struct Version {
    pub major: u64,
    pub minor: u64,
    pub patch: u64,
}

/// The three components of `v` in decimal, joined with `sep`
/// (`.` for display, `_` inside a topic schema string).
pub open spec fn version_chars(v: Version, sep: char) -> Seq<char> {
    dec_chars(v.major as nat) + seq![sep] + dec_chars(v.minor as nat) + seq![sep] + dec_chars(
        v.patch as nat,
    )
}

impl Version {
    pub fn new(major: u64, minor: u64, patch: u64) -> (v: Version)
        ensures
            v == (Version { major, minor, patch }),
    {
        Version { major, minor, patch }
    }

    /// The `major.minor.patch` display form.
    pub fn to_string(&self) -> (s: String)
        ensures
            s@ == version_chars(*self, '.'),
    {
        proof {
            reveal_strlit(".");
        }
        self.join_with(".")
    }

    /// The three components joined with the one-character separator `sep`.
    pub fn join_with(&self, sep: &str) -> (s: String)
        requires
            sep@.len() == 1,
        ensures
            s@ == version_chars(*self, sep@[0]),
    {
        let mut s = u64_to_string(self.major);
        s.append(sep);
        let minor = u64_to_string(self.minor);
        s.append(minor.as_str());
        s.append(sep);
        let patch = u64_to_string(self.patch);
        s.append(patch.as_str());
        proof {
            assert(sep@ =~= seq![sep@[0]]);
            assert(s@ =~= version_chars(*self, sep@[0]));
        }
        s
    }
}

// ---------------------------------------------------------------------------
// Environments and message categories.
// ---------------------------------------------------------------------------
/// The deployment environment a connector publishes under.
#[derive(Clone, Copy, Debug, PartialEq, Eq, Structural)]
pub enum Env {
    Test,
    Dev,
    Staging,
    Prod,
}

/// The lowercase wire form of an environment.
pub open spec fn env_chars(e: Env) -> Seq<char> {
    match e {
        Env::Test => "test"@,
        Env::Dev => "dev"@,
        Env::Staging => "staging"@,
        Env::Prod => "prod"@,
    }
}

/// The capitalized variant name of an environment, as the derived `Debug`
/// formatting prints it; used inside the transactional identity string.
pub open spec fn env_debug_chars(e: Env) -> Seq<char> {
    match e {
        Env::Test => "Test"@,
        Env::Dev => "Dev"@,
        Env::Staging => "Staging"@,
        Env::Prod => "Prod"@,
    }
}

impl Env {
    pub fn as_str(&self) -> (s: &str)
        ensures
            s@ == env_chars(*self),
    {
        match self {
            Env::Test => "test",
            Env::Dev => "dev",
            Env::Staging => "staging",
            Env::Prod => "prod",
        }
    }

    /// The capitalized variant name, as the derived `Debug` formatting
    /// prints it.
    pub fn debug_str(&self) -> (s: &str)
        ensures
            s@ == env_debug_chars(*self),
    {
        match self {
            Env::Test => "Test",
            Env::Dev => "Dev",
            Env::Staging => "Staging",
            Env::Prod => "Prod",
        }
    }

    /// Parses the lowercase wire form; any other string is rejected with a
    /// message that carries the offending value.
    pub fn from_str(s: &str) -> (r: Result<Env, String>)
        ensures
            r matches Ok(e) ==> s@ == env_chars(e),
            r is Err ==> forall|e: Env| s@ != env_chars(e),
            r matches Err(m) ==> m@ == "'"@ + s@ + "' is not a valid value for topic::Env"@,
    {
        let t = s.to_owned();
        if t == String::from_str("test") {
            Ok(Env::Test)
        } else if t == String::from_str("dev") {
            Ok(Env::Dev)
        } else if t == String::from_str("staging") {
            Ok(Env::Staging)
        } else if t == String::from_str("prod") {
            Ok(Env::Prod)
        } else {
            let mut m = String::from_str("'");
            m.append(s);
            m.append("' is not a valid value for topic::Env");
            Err(m)
        }
    }
}

/// The semantic kind of an event stream.
#[derive(Clone, Copy, Debug, PartialEq, Eq, Structural)]
pub enum MessageType {
    FCT,
    BF,
    CDC,
    CMD,
    SYS,
}

/// The lowercase short code of a message category.
pub open spec fn message_type_chars(m: MessageType) -> Seq<char> {
    match m {
        MessageType::FCT => "fct"@,
        MessageType::BF => "bf"@,
        MessageType::CDC => "cdc"@,
        MessageType::CMD => "cmd"@,
        MessageType::SYS => "sys"@,
    }
}

impl MessageType {
    pub fn as_str(&self) -> (s: &str)
        ensures
            s@ == message_type_chars(*self),
    {
        match self {
            MessageType::FCT => "fct",
            MessageType::BF => "bf",
            MessageType::CDC => "cdc",
            MessageType::CMD => "cmd",
            MessageType::SYS => "sys",
        }
    }
}

// ---------------------------------------------------------------------------
// Topics.
// ---------------------------------------------------------------------------
/// Identifies a destination stream.  Immutable value; the formatting
/// functions below are total and deterministic in its fields.
#[derive(Clone, Debug)]
pub struct Topic {
    pub env: Env,
    pub message_type: MessageType,
    pub author: String,
    pub connector_name: String,
    pub version: Version,
    pub event_name: String,
}

/// The schema string of a topic:
/// `author.connector.major_minor_patch.event`.
pub open spec fn schema_chars(t: Topic) -> Seq<char> {
    t.author@ + seq!['.'] + t.connector_name@ + seq!['.'] + version_chars(t.version, '_')
        + seq!['.'] + t.event_name@
}

/// The wire string of a topic: `environment.category.` before the schema
/// string.
pub open spec fn wire_chars(t: Topic) -> Seq<char> {
    env_chars(t.env) + seq!['.'] + message_type_chars(t.message_type) + seq!['.'] + schema_chars(t)
}

impl Topic {
    pub fn new(
        env: Env,
        message_type: MessageType,
        author: String,
        connector_name: String,
        version: Version,
        event_name: String,
    ) -> (t: Topic)
        ensures
            t.env == env,
            t.message_type == message_type,
            t.author@ == author@,
            t.connector_name@ == connector_name@,
            t.version == version,
            t.event_name@ == event_name@,
    {
        Topic { env, message_type, author, connector_name, version, event_name }
    }

    /// Formats the schema string.
    pub fn to_schema(&self) -> (s: String)
        ensures
            s@ == schema_chars(*self),
    {
        let mut s = self.author.clone();
        s.append(".");
        s.append(self.connector_name.as_str());
        s.append(".");
        let version = self.join_underscored_version();
        s.append(version.as_str());
        s.append(".");
        s.append(self.event_name.as_str());
        proof {
            reveal_strlit(".");
            assert("."@ =~= seq!['.']);
            assert(s@ =~= schema_chars(*self));
        }
        s
    }

    fn join_underscored_version(&self) -> (s: String)
        ensures
            s@ == version_chars(self.version, '_'),
    {
        proof {
            reveal_strlit("_");
        }
        self.version.join_with("_")
    }

    /// Formats the wire string.
    pub fn to_string(&self) -> (s: String)
        ensures
            s@ == wire_chars(*self),
    {
        let mut s = self.env.as_str().to_owned();
        s.append(".");
        s.append(self.message_type.as_str());
        s.append(".");
        let schema = self.to_schema();
        s.append(schema.as_str());
        proof {
            reveal_strlit(".");
            assert("."@ =~= seq!['.']);
            assert(s@ =~= wire_chars(*self));
        }
        s
    }
}

impl PartialEq for Topic {
    fn eq(&self, other: &Topic) -> (r: bool) {
        self.env == other.env && self.message_type == other.message_type && self.author
            == other.author && self.connector_name == other.connector_name && self.version
            == other.version && self.event_name == other.event_name
    }
}

impl vstd::std_specs::cmp::PartialEqSpecImpl for Topic {
    open spec fn obeys_eq_spec() -> bool {
        true
    }

    open spec fn eq_spec(&self, other: &Topic) -> bool {
        self.env == other.env && self.message_type == other.message_type && self.author@
            == other.author@ && self.connector_name@ == other.connector_name@ && self.version
            == other.version && self.event_name@ == other.event_name@
    }
}

// ---------------------------------------------------------------------------
// Event names.
// ---------------------------------------------------------------------------
/// `j` is the index of the last `.` of `s`.
pub open spec fn is_last_dot(s: Seq<char>, j: int) -> bool {
    &&& 0 <= j < s.len()
    &&& s[j] == '.'
    &&& forall|k: int| j < k < s.len() ==> s[k] != '.'
}

/// The index of the last `.` of `s`; meaningful only when `s` contains one.
pub open spec fn last_dot(s: Seq<char>) -> int {
    choose|j: int| is_last_dot(s, j)
}

/// The second-to-last `.`-separated segment of `s`: what stands between the
/// last dot and the dot before it (or the start of `s`).
pub open spec fn event_base_chars(s: Seq<char>) -> Seq<char>
    recommends
        s.contains('.'),
{
    let head = s.take(last_dot(s));
    if head.contains('.') {
        head.skip(last_dot(head) + 1)
    } else {
        head
    }
}

/// The event name derived from a fully-qualified type name: its last two
/// `.`-separated segments joined with `_`.
pub open spec fn event_name_chars(s: Seq<char>) -> Seq<char>
    recommends
        s.contains('.'),
{
    event_base_chars(s) + seq!['_'] + s.skip(last_dot(s) + 1)
}

pub proof fn lemma_last_dot_exists(s: Seq<char>)
    requires
        s.contains('.'),
    ensures
        is_last_dot(s, last_dot(s)),
    decreases s.len(),
{
    if s[s.len() - 1] == '.' {
        assert(is_last_dot(s, s.len() - 1));
    } else {
        let i = choose|i: int| 0 <= i < s.len() && s[i] == '.';
        assert(s.drop_last()[i] == '.');
        assert(s.drop_last().contains('.'));
        lemma_last_dot_exists(s.drop_last());
        let j = last_dot(s.drop_last());
        assert(s[j] == '.');
        assert forall|k: int| j < k < s.len() implies s[k] != '.' by {
            if k < s.len() - 1 {
                assert(s.drop_last()[k] == s[k]);
            }
        }
        assert(is_last_dot(s, j));
    }
}

pub proof fn lemma_last_dot_unique(s: Seq<char>, j1: int, j2: int)
    requires
        is_last_dot(s, j1),
        is_last_dot(s, j2),
    ensures
        j1 == j2,
{
}

/// A fully-qualified type name without at least two `.`-separated segments
/// cannot name an event.
#[derive(Clone, Copy, Debug, PartialEq, Eq, Structural)]
pub enum EventNameError {
    MalformedTypeName,
}

/// Splits a fully-qualified type name at its last dot: the second-to-last
/// `.`-separated segment, and everything after the last dot.
pub(crate) fn split_type_name(full_name: &str) -> (r: Option<(String, String)>)
    ensures
        r is Some <==> full_name@.contains('.'),
        r matches Some(p) ==> p.0@ == event_base_chars(full_name@) && p.1@ == full_name@.skip(
            last_dot(full_name@) + 1,
        ),
{
    let ghost s = full_name@;
    let n = full_name.unicode_len();
    let mut last: Option<usize> = None;
    let mut prev: Option<usize> = None;
    let mut i: usize = 0;
    while i < n
        invariant
            n == s.len(),
            i <= n,
            s == full_name@,
            match last {
                None => forall|k: int| 0 <= k < i ==> s[k] != '.',
                Some(d) => {
                    &&& d < i
                    &&& s[d as int] == '.'
                    &&& forall|k: int| d < k < i ==> s[k] != '.'
                    &&& match prev {
                        None => forall|k: int| 0 <= k < d ==> s[k] != '.',
                        Some(p) => {
                            &&& p < d
                            &&& s[p as int] == '.'
                            &&& forall|k: int| p < k < d ==> s[k] != '.'
                        },
                    }
                },
            },
        decreases n - i,
    {
        let c = full_name.get_char(i);
        if c == '.' {
            prev = last;
            last = Some(i);
        }
        i += 1;
    }
    match last {
        None => {
            assert(!s.contains('.'));
            None
        },
        Some(d) => {
            proof {
                assert(s.contains('.'));
                assert(is_last_dot(s, d as int));
                lemma_last_dot_exists(s);
                lemma_last_dot_unique(s, d as int, last_dot(s));
            }
            let base: &str = match prev {
                Some(p) => full_name.substring_char(p + 1, d),
                None => full_name.substring_char(0, d),
            };
            proof {
                let head = s.take(d as int);
                match prev {
                    Some(p) => {
                        assert(is_last_dot(head, p as int));
                        assert(head.contains('.'));
                        lemma_last_dot_exists(head);
                        lemma_last_dot_unique(head, p as int, last_dot(head));
                        assert(base@ =~= event_base_chars(s));
                    },
                    None => {
                        assert(!head.contains('.'));
                        assert(base@ =~= event_base_chars(s));
                    },
                }
            }
            let tail: &str = full_name.substring_char(d + 1, n);
            Some((base.to_owned(), tail.to_owned()))
        },
    }
}

/// Derives the event name from a fully-qualified type name, joining its
/// last two `.`-separated segments with `_`; a name without a `.` has
/// fewer than two segments and is rejected.
pub fn get_event_name(full_name: &str) -> (r: Result<String, EventNameError>)
    ensures
        r is Ok <==> full_name@.contains('.'),
        r matches Ok(name) ==> name@ == event_name_chars(full_name@),
        r is Err ==> r == Err::<String, EventNameError>(EventNameError::MalformedTypeName),
{
    match split_type_name(full_name) {
        None => Err(EventNameError::MalformedTypeName),
        Some((base, tail)) => {
            let mut out = base;
            out.append("_");
            out.append(tail.as_str());
            proof {
                reveal_strlit("_");
                assert("_"@ =~= seq!['_']);
                assert(out@ =~= event_name_chars(full_name@));
            }
            Ok(out)
        },
    }
}

} // verus!
