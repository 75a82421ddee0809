//! Key identity: the routing key of a message and its wire encoding.
//!
//! A key is a namespace and a subject, joined with `.` on the wire.  Parsing
//! splits the decoded text on `.` and accepts exactly two segments; empty
//! byte input parses to the key of two empty strings.  That special case
//! makes parsing a near-inverse of encoding: the encoding of the all-empty
//! key is `.`, not the empty byte string, and the asymmetry is intentional.

use vstd::prelude::*;
use vstd::string::StrSliceExecFns;
use vstd::string::StringExecFns;
use vstd::utf8::decode_utf8;
use vstd::utf8::encode_utf8;
use vstd::utf8::encode_utf8_decode_utf8;
use vstd::utf8::encode_utf8_valid_utf8;
use vstd::utf8::valid_utf8;

verus! {

/// Routing key for a message; immutable value.
#[derive(Clone, Debug)]
pub struct Key {
    pub namespace: String,
    pub subject: String,
}

/// A key's text: namespace and subject joined with `.`.
pub open spec fn key_chars(k: Key) -> Seq<char> {
    k.namespace@ + seq!['.'] + k.subject@
}

/// A key's wire encoding: the UTF-8 bytes of its text.
pub open spec fn key_bytes(ns: Seq<char>, subj: Seq<char>) -> Seq<u8> {
    encode_utf8(ns + seq!['.'] + subj)
}

/// Why a byte string failed to parse as a key.
#[derive(Debug)]
pub enum ParseKeyError {
    /// The decoded text did not have exactly two `.`-separated segments;
    /// carries that text.
    WrongFormat(String),
    /// The bytes were not valid UTF-8; carries them.
    ConvertVec(Vec<u8>),
}

/// `j` is the position of the only `.` of `s`.
pub open spec fn only_dot(s: Seq<char>, j: int) -> bool {
    &&& 0 <= j < s.len()
    &&& s[j] == '.'
    &&& forall|k: int| 0 <= k < s.len() && k != j ==> s[k] != '.'
}

/// `s` has exactly two `.`-separated segments.
pub open spec fn two_segments(s: Seq<char>) -> bool {
    exists|j: int| only_dot(s, j)
}

/// The position of the only `.` of `s`; meaningful when `two_segments(s)`.
pub open spec fn key_dot(s: Seq<char>) -> int {
    choose|j: int| only_dot(s, j)
}

/// The outcome of parsing a byte string as a key.
pub enum KeyParse {
    /// Empty input: the key of two empty strings, by definition.
    Empty,
    /// Not valid UTF-8.
    NotUtf8,
    /// Decoded text without exactly two segments; carries the text.
    BadFormat(Seq<char>),
    /// A namespace and a subject.
    Parsed(Seq<char>, Seq<char>),
}

/// What parsing a byte string as a key yields.
pub open spec fn spec_parse_key(bytes: Seq<u8>) -> KeyParse {
    if bytes.len() == 0 {
        KeyParse::Empty
    } else if !valid_utf8(bytes) {
        KeyParse::NotUtf8
    } else {
        let s = decode_utf8(bytes);
        if two_segments(s) {
            KeyParse::Parsed(s.take(key_dot(s)), s.skip(key_dot(s) + 1))
        } else {
            KeyParse::BadFormat(s)
        }
    }
}

/// Relies on `String::from_utf8`: it returns `Ok` exactly on valid UTF-8
/// input, and then the string holds the decoded characters.
#[verifier::external_body]
fn utf8_to_string(bytes: &Vec<u8>) -> (r: Option<String>)
    ensures
        r is Some <==> valid_utf8(bytes@),
        r matches Some(s) ==> s@ == decode_utf8(bytes@),
{
    String::from_utf8(bytes.clone()).ok()
}

/// Compares two byte vectors element by element.
pub(crate) fn eq_bytes(a: &Vec<u8>, b: &Vec<u8>) -> (r: bool)
    ensures
        r == (a@ == b@),
{
    if a.len() != b.len() {
        proof {
            if a@ == b@ {
                assert(a@.len() == b@.len());
            }
        }
        return false;
    }
    let mut i: usize = 0;
    while i < a.len()
        invariant
            i <= a.len(),
            a@.len() == b@.len(),
            forall|k: int| 0 <= k < i ==> a@[k] == b@[k],
        decreases a.len() - i,
    {
        if a[i] != b[i] {
            return false;
        }
        i += 1;
    }
    proof {
        assert(a@ =~= b@);
    }
    true
}

/// Copies a byte vector element by element.
pub(crate) fn copy_bytes(v: &Vec<u8>) -> (r: Vec<u8>)
    ensures
        r@ == v@,
{
    let mut r: Vec<u8> = Vec::new();
    let mut i: usize = 0;
    while i < v.len()
        invariant
            i <= v.len(),
            r@ =~= v@.take(i as int),
        decreases v.len() - i,
    {
        r.push(v[i]);
        i += 1;
    }
    proof {
        assert(r@ =~= v@);
    }
    r
}

impl Key {
    pub fn new(namespace: String, subject: String) -> (k: Key)
        ensures
            k.namespace@ == namespace@,
            k.subject@ == subject@,
    {
        Key { namespace, subject }
    }

    /// The key's text, namespace and subject joined with `.`.
    pub fn to_string(&self) -> (s: String)
        ensures
            s@ == key_chars(*self),
    {
        let mut s = self.namespace.clone();
        s.append(".");
        s.append(self.subject.as_str());
        proof {
            reveal_strlit(".");
            assert("."@ =~= seq!['.']);
            assert(s@ =~= key_chars(*self));
        }
        s
    }

    /// The key's wire encoding: UTF-8 bytes of its text.
    pub fn to_bytes(&self) -> (r: Vec<u8>)
        ensures
            r@ == key_bytes(self.namespace@, self.subject@),
    {
        let s = self.to_string();
        s.as_str().as_bytes_vec()
    }

    /// Parses a wire encoding back into a key.
    ///
    /// Empty input parses to the key of two empty strings.  Bytes that are
    /// not valid UTF-8 are rejected with `ConvertVec`; decoded text without
    /// exactly two `.`-separated segments is rejected with `WrongFormat`
    /// carrying the text.
    pub fn parse_key(key: &Vec<u8>) -> (r: Result<Key, ParseKeyError>)
        ensures
            match spec_parse_key(key@) {
                KeyParse::Empty => r matches Ok(k) && k.namespace@ == Seq::<char>::empty()
                    && k.subject@ == Seq::<char>::empty(),
                KeyParse::NotUtf8 => r matches Err(e) && e matches ParseKeyError::ConvertVec(b)
                    && b@ == key@,
                KeyParse::BadFormat(s) => r matches Err(e) && e matches ParseKeyError::WrongFormat(
                    w,
                ) && w@ == s,
                KeyParse::Parsed(ns, subj) => r matches Ok(k) && k.namespace@ == ns && k.subject@
                    == subj,
            },
    {
        if key.len() == 0 {
            return Ok(Key { namespace: String::new(), subject: String::new() });
        }
        match utf8_to_string(key) {
            None => Err(ParseKeyError::ConvertVec(copy_bytes(key))),
            Some(text) => {
                let ghost s = text@;
                let n = text.as_str().unicode_len();
                let mut dot: Option<usize> = None;
                let mut many: bool = false;
                let ghost mut g1: int = 0;
                let ghost mut g2: int = 0;
                let mut i: usize = 0;
                while i < n
                    invariant
                        n == s.len(),
                        i <= n,
                        s == text@,
                        !many ==> match dot {
                            None => forall|k: int| 0 <= k < i ==> s[k] != '.',
                            Some(d) => {
                                &&& d < i
                                &&& s[d as int] == '.'
                                &&& forall|k: int| 0 <= k < i && k != d ==> s[k] != '.'
                            },
                        },
                        many ==> 0 <= g1 < g2 < i && s[g1] == '.' && s[g2] == '.',
                    decreases n - i,
                {
                    let c = text.as_str().get_char(i);
                    if c == '.' {
                        match dot {
                            None => {
                                dot = Some(i);
                            },
                            Some(d) => {
                                if !many {
                                    many = true;
                                    proof {
                                        g1 = d as int;
                                        g2 = i as int;
                                    }
                                }
                            },
                        }
                    }
                    i += 1;
                }
                if many {
                    proof {
                        assert forall|j: int| !only_dot(s, j) by {
                            if only_dot(s, j) {
                                if j != g1 {
                                    assert(s[g1] != '.');
                                } else {
                                    assert(s[g2] != '.');
                                }
                            }
                        }
                    }
                    return Err(ParseKeyError::WrongFormat(text));
                }
                match dot {
                    None => {
                        assert(!two_segments(s));
                        Err(ParseKeyError::WrongFormat(text))
                    },
                    Some(d) => {
                        proof {
                            assert(only_dot(s, d as int));
                            let j0 = key_dot(s);
                            assert(only_dot(s, j0));
                            if j0 != d {
                                assert(s[d as int] != '.');
                            }
                        }
                        let namespace = text.as_str().substring_char(0, d).to_owned();
                        let subject = text.as_str().substring_char(d + 1, n).to_owned();
                        proof {
                            assert(namespace@ =~= s.take(key_dot(s)));
                            assert(subject@ =~= s.skip(key_dot(s) + 1));
                        }
                        Ok(Key { namespace, subject })
                    },
                }
            },
        }
    }
}

impl PartialEq for Key {
    fn eq(&self, other: &Key) -> (r: bool) {
        self.namespace == other.namespace && self.subject == other.subject
    }
}

impl vstd::std_specs::cmp::PartialEqSpecImpl for Key {
    open spec fn obeys_eq_spec() -> bool {
        true
    }

    open spec fn eq_spec(&self, other: &Key) -> bool {
        self.namespace@ == other.namespace@ && self.subject@ == other.subject@
    }
}

impl PartialEq for ParseKeyError {
    fn eq(&self, other: &ParseKeyError) -> (r: bool) {
        match (self, other) {
            (ParseKeyError::WrongFormat(a), ParseKeyError::WrongFormat(b)) => *a == *b,
            (ParseKeyError::ConvertVec(a), ParseKeyError::ConvertVec(b)) => eq_bytes(a, b),
            _ => false,
        }
    }
}

impl vstd::std_specs::cmp::PartialEqSpecImpl for ParseKeyError {
    open spec fn obeys_eq_spec() -> bool {
        true
    }

    open spec fn eq_spec(&self, other: &ParseKeyError) -> bool {
        match (self, other) {
            (ParseKeyError::WrongFormat(a), ParseKeyError::WrongFormat(b)) => a@ == b@,
            (ParseKeyError::ConvertVec(a), ParseKeyError::ConvertVec(b)) => a@ == b@,
            _ => false,
        }
    }
}

/// Round trip: parsing the encoding of a key whose namespace and subject
/// are free of `.` yields that key back.  (The all-empty key is covered
/// too: its encoding is the one-byte text `.`, not the empty input.)
pub proof fn lemma_parse_key_roundtrip(ns: Seq<char>, subj: Seq<char>)
    requires
        !ns.contains('.'),
        !subj.contains('.'),
    ensures
        spec_parse_key(key_bytes(ns, subj)) == KeyParse::Parsed(ns, subj),
{
    let kc = ns + seq!['.'] + subj;
    let bytes = key_bytes(ns, subj);
    encode_utf8_valid_utf8(kc);
    encode_utf8_decode_utf8(kc);
    assert(kc.len() > 0);
    if bytes.len() == 0 {
        assert(decode_utf8(bytes) =~= Seq::<char>::empty());
        assert(false);
    }
    let s = decode_utf8(bytes);
    assert(s == kc);
    let j = ns.len() as int;
    assert forall|k: int| 0 <= k < kc.len() && k != j implies kc[k] != '.' by {
        if k < j {
            assert(kc[k] == ns[k]);
            assert(!ns.contains('.'));
            if ns[k] == '.' {
                assert(ns.contains('.'));
            }
        } else {
            assert(kc[k] == subj[k - j - 1]);
            if subj[k - j - 1] == '.' {
                assert(subj.contains('.'));
            }
        }
    }
    assert(only_dot(kc, j));
    assert(two_segments(s));
    let j0 = key_dot(s);
    assert(only_dot(s, j0));
    if j0 != j {
        assert(s[j as int] != '.');
    }
    assert(s.take(key_dot(s)) =~= ns);
    assert(s.skip(key_dot(s) + 1) =~= subj);
}

} // verus!
