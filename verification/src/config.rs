//! Config adaptation: turning an associative value received from the host
//! runtime into the canonical string-to-string configuration that the catalog
//! collaborator is constructed from.
//!
//! Adaptation is a pure conversion with a defined failure mode: a value that
//! is not an associative structure is rejected as [`AdaptError::NotAMapping`],
//! and an entry whose value is not a string is rejected as
//! [`AdaptError::NonStringValue`] rather than coerced.

use vstd::prelude::*;

verus! {

/// A scalar value as the host scripting runtime hands it across the
/// extension boundary.  Only text is accepted by adaptation; every other
/// shape is reported as a failure rather than coerced.
#[derive(Debug)]
pub enum HostScalar {
    /// A host string.
    Text(String),
    /// A host integer.
    Integer(i64),
    /// A host boolean.
    Boolean(bool),
    /// The host runtime's nil value.
    Nil,
}

/// A value received from the host runtime: either an associative structure
/// with string keys, or a bare scalar that cannot serve as a configuration.
#[derive(Debug)]
pub enum HostValue {
    /// An associative structure, given as its key/value entries.
    Mapping(Vec<(String, HostScalar)>),
    /// Any non-associative value.
    Scalar(HostScalar),
}

/// Why a host value could not be adapted into a configuration.
#[derive(Debug, Clone, Copy, PartialEq, Eq, Structural)]
pub enum AdaptError {
    /// The host value was not an associative structure.
    NotAMapping,
    /// Some entry's value was not a string.
    NonStringValue,
}

/// The canonical string-to-string configuration handed to the external
/// catalog collaborator.  Key order carries no meaning; the entries are kept
/// exactly as they were received.
#[derive(Debug, PartialEq, Eq)]
pub struct ConfigMap {
    /// The key/value entries, in the order the host runtime presented them.
    pub entries: Vec<(String, String)>,
}

impl View for ConfigMap {
    type V = Seq<(Seq<char>, Seq<char>)>;

    open spec fn view(&self) -> Self::V {
        self.entries@.map_values(|p: (String, String)| (p.0@, p.1@))
    }
}

/// The text behind a scalar, when it is text.
pub open spec fn text_of(s: HostScalar) -> Seq<char>
    recommends
        s is Text,
{
    match s {
        HostScalar::Text(t) => t@,
        _ => Seq::empty(),
    }
}

/// Every value of the given entries is a string.
pub open spec fn all_values_text(pairs: Seq<(String, HostScalar)>) -> bool {
    forall|i: int| 0 <= i < pairs.len() ==> pairs[i].1 is Text
}

/// The configuration entries that adaptation produces from host entries
/// whose values are all strings: each pair kept as it is, its value read
/// as text.
pub open spec fn adapted_pairs(pairs: Seq<(String, HostScalar)>) -> Seq<(Seq<char>, Seq<char>)>
    recommends
        all_values_text(pairs),
{
    pairs.map_values(|p: (String, HostScalar)| (p.0@, text_of(p.1)))
}

/// Converts a host-runtime associative value into a [`ConfigMap`].
///
/// Succeeds exactly on mappings whose values are all strings, and then keeps
/// every key/value pair unchanged.  A non-mapping fails with
/// [`AdaptError::NotAMapping`]; a mapping holding any non-string value fails
/// with [`AdaptError::NonStringValue`].  No side effects either way.
#[verifier::loop_isolation(false)]
pub fn adapt(raw: &HostValue) -> (r: Result<ConfigMap, AdaptError>)
    ensures
        match r {
            Ok(cm) => {
                &&& raw matches HostValue::Mapping(pairs)
                &&& all_values_text(pairs@)
                &&& cm@ == adapted_pairs(pairs@)
            },
            Err(e) => match e {
                AdaptError::NotAMapping => !(raw is Mapping),
                AdaptError::NonStringValue => {
                    &&& raw matches HostValue::Mapping(pairs)
                    &&& !all_values_text(pairs@)
                },
            },
        },
{
    match raw {
        HostValue::Mapping(pairs) => {
            let mut entries: Vec<(String, String)> = Vec::new();
            let mut i: usize = 0;
            while i < pairs.len()
                invariant
                    i <= pairs@.len(),
                    entries@.len() == i,
                    forall|j: int| 0 <= j < i ==> (#[trigger] pairs@[j]).1 is Text,
                    forall|j: int|
                        0 <= j < i ==> (#[trigger] entries@[j]).0@ == pairs@[j].0@
                            && entries@[j].1@ == text_of(pairs@[j].1),
                decreases pairs@.len() - i,
            {
                match &pairs[i].1 {
                    HostScalar::Text(t) => {
                        let key = pairs[i].0.clone();
                        let val = t.clone();
                        entries.push((key, val));
                    },
                    _ => {
                        proof {
                            assert(!all_values_text(pairs@)) by {
                                assert(!(pairs@[i as int].1 is Text));
                            }
                        }
                        return Err(AdaptError::NonStringValue);
                    },
                }
                i += 1;
            }
            Ok(ConfigMap { entries })
        },
        HostValue::Scalar(_) => Err(AdaptError::NotAMapping),
    }
}

/// Law: on a mapping whose values are all strings, adaptation is the identity
/// on the key/value pairs — every entry comes through unchanged, with its
/// value read as text, and no entry is added, dropped or reordered.
pub proof fn lemma_adapt_is_identity_on_text(pairs: Seq<(String, HostScalar)>)
    requires
        all_values_text(pairs),
    ensures
        adapted_pairs(pairs).len() == pairs.len(),
        forall|i: int|
            0 <= i < pairs.len() ==> adapted_pairs(pairs)[i] == (pairs[i].0@, text_of(pairs[i].1)),
{
}

} // verus!
