//! The compose manifest as a generic structured document.
//!
//! The manifest is an ordered mapping of top-level sections; the
//! `services` section is an ordered mapping of service names to service
//! entries, each an ordered mapping of field keys to field values.  Only
//! the parts that this library reads or rewrites are held as plain
//! values; every other value is carried through opaquely, so that a
//! rewrite preserves it exactly.

use vstd::prelude::*;

verus! {

/// Declares serde_yaml's generic document value, so that parts of a
/// manifest that this library never inspects can be carried through a
/// rewrite unchanged.
#[verifier::external_type_specification]
#[verifier::external_body]
pub struct ExValue(serde_yaml::Value);

/// One field value of a service entry: a string, a nested mapping with
/// string keys and such values, or any other document value, carried
/// opaquely.
pub enum FieldValue {
    Str(String),
    Mapping(Vec<(String, FieldValue)>),
    Opaque(serde_yaml::Value),
}

/// One service of the manifest: its name and its fields in document
/// order.
pub struct ServiceEntry {
    pub name: String,
    pub fields: Vec<(String, FieldValue)>,
}

/// One top-level section of the manifest: the services section, held as
/// plain values, or any other section, carried opaquely.
pub enum TopValue {
    Services(Vec<ServiceEntry>),
    Other(serde_yaml::Value),
}

/// A compose manifest: its top-level sections in document order.
pub struct ComposeDoc {
    pub entries: Vec<(String, TopValue)>,
}

/// Whether a field list holds a field with the given key.
pub open spec fn spec_has_key(fields: Seq<(String, FieldValue)>, key: Seq<char>) -> bool {
    exists|i: int| 0 <= i < fields.len() && fields[i].0@ == key
}

/// The position of the first field with the given key.
pub open spec fn spec_key_at(fields: Seq<(String, FieldValue)>, key: Seq<char>) -> int
    decreases fields.len(),
{
    if fields.len() == 0 {
        0
    } else if fields[0].0@ == key {
        0
    } else {
        1 + spec_key_at(fields.drop_first(), key)
    }
}

/// The field keys of a service entry are distinct, as keys of one
/// document mapping are.
pub open spec fn spec_fields_wf(fields: Seq<(String, FieldValue)>) -> bool {
    forall|i: int, j: int|
        0 <= i < j < fields.len() ==> fields[i].0@ != fields[j].0@
}

/// The service names of a manifest are distinct, as keys of one document
/// mapping are.
pub open spec fn spec_services_wf(services: Seq<ServiceEntry>) -> bool {
    &&& forall|i: int, j: int|
        0 <= i < j < services.len() ==> services[i].name@ != services[j].name@
    &&& forall|i: int| 0 <= i < services.len() ==> spec_fields_wf(#[trigger] services[i].fields@)
}

/// Where the first field with the given key stands, it is inside the
/// list, carries that key, and no earlier field does.
pub proof fn lemma_key_at(fields: Seq<(String, FieldValue)>, key: Seq<char>)
    requires
        spec_has_key(fields, key),
    ensures
        0 <= spec_key_at(fields, key) < fields.len(),
        fields[spec_key_at(fields, key)].0@ == key,
        forall|i: int| 0 <= i < spec_key_at(fields, key) ==> fields[i].0@ != key,
    decreases fields.len(),
{
    if fields.len() > 0 && fields[0].0@ != key {
        assert(spec_has_key(fields.drop_first(), key)) by {
            let w = choose|i: int| 0 <= i < fields.len() && fields[i].0@ == key;
            assert(fields.drop_first()[w - 1].0@ == key);
        }
        lemma_key_at(fields.drop_first(), key);
        assert forall|i: int| 0 <= i < spec_key_at(fields, key) implies fields[i].0@ != key by {
            if i > 0 {
                assert(fields.drop_first()[i - 1] == fields[i]);
            }
        }
    }
}

/// Looks up the first field with the given key, reporting its position.
pub fn find_key(fields: &Vec<(String, FieldValue)>, key: &str) -> (r: Option<usize>)
    ensures
        match r {
            Some(i) => {
                &&& spec_has_key(fields@, key@)
                &&& i == spec_key_at(fields@, key@)
                &&& i < fields@.len()
                &&& fields@[i as int].0@ == key@
            },
            None => !spec_has_key(fields@, key@),
        },
{
    let k = key.to_owned();
    let mut i: usize = 0;
    while i < fields.len()
        invariant
            0 <= i <= fields@.len(),
            k@ == key@,
            forall|j: int| 0 <= j < i ==> fields@[j].0@ != key@,
        decreases fields@.len() - i,
    {
        if fields[i].0 == k {
            proof {
                lemma_key_at(fields@, key@);
                assert(spec_key_at(fields@, key@) >= i);
                assert(spec_key_at(fields@, key@) <= i);
            }
            return Some(i);
        }
        i += 1;
    }
    None
}

} // verus!
