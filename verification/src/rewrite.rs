//! Manifest rewriting: every service with a build field has that field
//! replaced by an image field holding the service's resolved image
//! reference; every other field, service and section of the document is
//! kept exactly as it was.

use vstd::prelude::*;
use vstd::string::StringExecFns;

use crate::manifest::{
    spec_fields_wf, spec_has_key, spec_key_at, spec_services_wf, ComposeDoc, FieldValue,
    ServiceEntry, TopValue,
};
use crate::manifest::{find_key, lemma_key_at};

verus! {

/// Why a rewrite is refused: the document has no services section, or a
/// service with a build field has no resolved image reference, which
/// means catalog and manifest disagree.
#[derive(Debug)]
pub enum RewriteError {
    NoServices,
    MissingImage(String),
}

/// The resolved image reference for a name: the second component of the
/// first pair whose first component is the name.
pub open spec fn spec_lookup(images: Seq<(String, String)>, name: Seq<char>) -> Option<Seq<char>>
    decreases images.len(),
{
    if images.len() == 0 {
        None
    } else if images[0].0@ == name {
        Some(images[0].1@)
    } else {
        spec_lookup(images.drop_first(), name)
    }
}

/// Looks a name up among the resolved image references.
pub fn lookup_image(images: &Vec<(String, String)>, name: &String) -> (r: Option<String>)
    ensures
        match r {
            Some(img) => spec_lookup(images@, name@) == Some(img@),
            None => spec_lookup(images@, name@) is None,
        },
{
    let mut i: usize = 0;
    proof {
        assert(images@.skip(0) =~= images@);
    }
    while i < images.len()
        invariant
            0 <= i <= images@.len(),
            spec_lookup(images@.skip(i as int), name@) == spec_lookup(images@, name@),
        decreases images@.len() - i,
    {
        proof {
            assert(images@.skip(i as int).drop_first() =~= images@.skip(i + 1));
        }
        if images[i].0 == *name {
            return Some(images[i].1.clone());
        }
        i += 1;
    }
    None
}

/// How one buildable service's field list is rewritten: where the list
/// has no image field yet, the build field's slot now carries the image
/// field with the resolved reference; where it has one, that field's
/// value is now the resolved reference and the build field is gone, the
/// rest keeping their order.  Every field but those two is unchanged.
pub open spec fn spec_build_replaced(
    old: Seq<(String, FieldValue)>,
    img: Seq<char>,
    new: Seq<(String, FieldValue)>,
) -> bool {
    let q = spec_key_at(old, "build"@);
    if !spec_has_key(old, "image"@) {
        &&& new.len() == old.len()
        &&& forall|j: int| 0 <= j < old.len() && j != q ==> new[j] == old[j]
        &&& new[q].0@ == "image"@
        &&& new[q].1 matches FieldValue::Str(s) && s@ == img
    } else {
        let p = spec_key_at(old, "image"@);
        let pp = if p < q {
            p
        } else {
            p - 1
        };
        &&& new.len() == old.len() - 1
        &&& forall|j: int| 0 <= j < q && j != p ==> new[j] == old[j]
        &&& forall|j: int| q <= j < new.len() && j + 1 != p ==> new[j] == old[j + 1]
        &&& new[pp].0 == old[p].0
        &&& new[pp].1 matches FieldValue::Str(s) && s@ == img
    }
}

/// Rewrites one service that has a build field, given its resolved image
/// reference.
fn rewrite_entry(e: ServiceEntry, img: String) -> (r: ServiceEntry)
    requires
        spec_fields_wf(e.fields@),
        spec_has_key(e.fields@, "build"@),
    ensures
        r.name == e.name,
        spec_build_replaced(e.fields@, img@, r.fields@),
{
    proof {
        reveal_strlit("build");
        reveal_strlit("image");
        lemma_key_at(e.fields@, "build"@);
    }
    let q = match find_key(&e.fields, "build") {
        Some(i) => i,
        None => {
            proof {
                assert(false);
            }
            0
        },
    };
    let image_pos = find_key(&e.fields, "image");
    let ghost orig = e.fields@;
    let n = e.fields.len();
    let mut rest = e.fields;
    let mut out: Vec<(String, FieldValue)> = Vec::new();
    let mut j: usize = 0;
    match image_pos {
        None => {
            while rest.len() > 0
                invariant
                    0 <= j <= n,
                    n == orig.len(),
                    rest@ == orig.skip(j as int),
                    out@.len() == j,
                    q < orig.len(),
                    forall|t: int| 0 <= t < j && t != q ==> out@[t] == orig[t],
                    j > q ==> out@[q as int].0@ == "image"@,
                    j > q ==> (out@[q as int].1 matches FieldValue::Str(s) && s@ == img@),
                decreases rest@.len(),
            {
                proof {
                    assert(rest@.drop_first() =~= orig.skip(j + 1));
                }
                let (k, v) = rest.remove(0);
                proof {
                    assert(rest@ =~= orig.skip(j + 1));
                }
                if j == q {
                    out.push((String::from_str("image"), FieldValue::Str(img.clone())));
                } else {
                    out.push((k, v));
                }
                j += 1;
            }
            ServiceEntry { name: e.name, fields: out }
        },
        Some(p) => {
            proof {
                reveal_strlit("build");
                reveal_strlit("image");
                assert("build"@[0] == 'b' && "image"@[0] == 'i');
                assert("build"@ != "image"@);
                assert(orig[p as int].0@ == "image"@);
                assert(orig[q as int].0@ == "build"@);
            }
            let ghost pp: int = if p < q {
                p as int
            } else {
                p as int - 1
            };
            while rest.len() > 0
                invariant
                    0 <= j <= n,
                    n == orig.len(),
                    rest@ == orig.skip(j as int),
                    q < orig.len(),
                    p < orig.len(),
                    p != q,
                    pp == (if p < q {
                        p as int
                    } else {
                        p as int - 1
                    }),
                    orig[p as int].0@ == "image"@,
                    out@.len() == (if j > q {
                        j - 1
                    } else {
                        j as int
                    }),
                    forall|t: int|
                        0 <= t < out@.len() && t < q && t != p ==> out@[t] == orig[t],
                    forall|t: int|
                        q <= t < out@.len() && t + 1 != p ==> out@[t] == orig[t + 1],
                    j > p ==> out@[pp].0 == orig[p as int].0,
                    j > p ==> (out@[pp].1 matches FieldValue::Str(s) && s@ == img@),
                decreases rest@.len(),
            {
                proof {
                    assert(rest@.drop_first() =~= orig.skip(j + 1));
                }
                let (k, v) = rest.remove(0);
                proof {
                    assert(rest@ =~= orig.skip(j + 1));
                }
                if j == q {
                    // the build field is dropped
                } else if j == p {
                    out.push((k, FieldValue::Str(img.clone())));
                } else {
                    out.push((k, v));
                }
                j += 1;
            }
            ServiceEntry { name: e.name, fields: out }
        },
    }
}

/// Whether a service has a build field, of whatever shape.
pub open spec fn spec_buildable(e: ServiceEntry) -> bool {
    spec_has_key(e.fields@, "build"@)
}

/// Every buildable service has a resolved image reference.
pub open spec fn spec_all_resolved(
    services: Seq<ServiceEntry>,
    images: Seq<(String, String)>,
) -> bool {
    forall|i: int|
        0 <= i < services.len() && spec_buildable(#[trigger] services[i])
            ==> spec_lookup(images, services[i].name@) is Some
}

/// How the service list is rewritten: a service without a build field is
/// kept exactly as it was; in a buildable one the build field gives way
/// to an image field holding the service's resolved reference.
pub open spec fn spec_services_rewritten(
    old: Seq<ServiceEntry>,
    images: Seq<(String, String)>,
    new: Seq<ServiceEntry>,
) -> bool {
    &&& new.len() == old.len()
    &&& forall|i: int|
        0 <= i < old.len() && !spec_buildable(#[trigger] old[i]) ==> new[i] == old[i]
    &&& forall|i: int|
        0 <= i < old.len() && spec_buildable(#[trigger] old[i]) ==> {
            &&& new[i].name == old[i].name
            &&& spec_lookup(images, old[i].name@) matches Some(img) && spec_build_replaced(
                old[i].fields@,
                img,
                new[i].fields@,
            )
        }
}

/// The name nm belongs to the first buildable service, in document
/// order, that has no resolved image reference.
pub open spec fn spec_first_missing(
    services: Seq<ServiceEntry>,
    images: Seq<(String, String)>,
    nm: String,
) -> bool {
    exists|i: int|
        {
            &&& 0 <= i < services.len()
            &&& spec_buildable(#[trigger] services[i])
            &&& spec_lookup(images, services[i].name@) is None
            &&& nm == services[i].name
            &&& forall|j: int|
                0 <= j < i && spec_buildable(#[trigger] services[j]) ==> spec_lookup(
                    images,
                    services[j].name@,
                ) is Some
        }
}

/// Rewrites the services in document order.  Succeeds exactly when every
/// buildable service has a resolved image reference; otherwise reports
/// the first buildable service without one.
pub fn rewrite_services(services: Vec<ServiceEntry>, images: &Vec<(String, String)>) -> (r:
    Result<Vec<ServiceEntry>, RewriteError>)
    requires
        spec_services_wf(services@),
    ensures
        r is Ok <==> spec_all_resolved(services@, images@),
        r matches Ok(out) ==> spec_services_rewritten(services@, images@, out@),
        r matches Err(err) ==> (err matches RewriteError::MissingImage(nm)
            && spec_first_missing(services@, images@, nm)),
{
    let ghost orig = services@;
    let n = services.len();
    let mut rest = services;
    let mut out: Vec<ServiceEntry> = Vec::new();
    let mut i: usize = 0;
    #[verifier::loop_isolation(false)]
    while rest.len() > 0
        invariant
            0 <= i <= n,
            n == orig.len(),
            rest@ == orig.skip(i as int),
            out@.len() == i,
            spec_services_wf(orig),
            forall|t: int|
                0 <= t < i && !spec_buildable(#[trigger] orig[t]) ==> out@[t] == orig[t],
            forall|t: int|
                0 <= t < i && spec_buildable(#[trigger] orig[t]) ==> {
                    &&& out@[t].name == orig[t].name
                    &&& spec_lookup(images@, orig[t].name@) matches Some(img)
                        && spec_build_replaced(orig[t].fields@, img, out@[t].fields@)
                },
        decreases rest@.len(),
    {
        proof {
            assert(rest@.drop_first() =~= orig.skip(i + 1));
        }
        let entry = rest.remove(0);
        proof {
            assert(entry == orig[i as int]);
        }
        match find_key(&entry.fields, "build") {
            None => {
                out.push(entry);
            },
            Some(_) => {
                match lookup_image(images, &entry.name) {
                    None => {
                        proof {
                            assert(spec_buildable(orig[i as int]));
                            assert(spec_lookup(images@, orig[i as int].name@) is None);
                            assert forall|j: int|
                                0 <= j < i && spec_buildable(#[trigger] orig[j]) implies
                                spec_lookup(images@, orig[j].name@) is Some by {}
                            assert(!spec_all_resolved(orig, images@));
                            assert(spec_first_missing(orig, images@, entry.name));
                        }
                        return Err(RewriteError::MissingImage(entry.name));
                    },
                    Some(img) => {
                        proof {
                            assert(spec_fields_wf(orig[i as int].fields@));
                        }
                        out.push(rewrite_entry(entry, img));
                    },
                }
            },
        }
        i += 1;
    }
    proof {
        assert forall|t: int| 0 <= t < orig.len() && spec_buildable(#[trigger] orig[t]) implies
            spec_lookup(images@, orig[t].name@) is Some by {}
    }
    Ok(out)
}

/// The service list of the document: the value of the first services
/// section, where there is one.
pub open spec fn spec_doc_services(entries: Seq<(String, TopValue)>) -> Option<Seq<ServiceEntry>>
    decreases entries.len(),
{
    if entries.len() == 0 {
        None
    } else {
        match entries[0].1 {
            TopValue::Services(s) => Some(s@),
            _ => spec_doc_services(entries.drop_first()),
        }
    }
}

/// Where position k holds the first services section, the document's
/// service list is that section's.
proof fn lemma_doc_services_at(entries: Seq<(String, TopValue)>, k: int)
    requires
        0 <= k < entries.len(),
        entries[k].1 is Services,
        forall|i: int| 0 <= i < k ==> !((#[trigger] entries[i]).1 is Services),
    ensures
        entries[k].1 matches TopValue::Services(s) && spec_doc_services(entries) == Some(s@),
    decreases entries.len(),
{
    if k > 0 {
        assert(entries[0] == entries[0]);
        lemma_doc_services_at(entries.drop_first(), k - 1);
    }
}

/// Where no entry is a services section, the document has no service
/// list.
proof fn lemma_doc_services_none(entries: Seq<(String, TopValue)>)
    requires
        forall|i: int| 0 <= i < entries.len() ==> !((#[trigger] entries[i]).1 is Services),
    ensures
        spec_doc_services(entries) is None,
    decreases entries.len(),
{
    if entries.len() > 0 {
        lemma_doc_services_none(entries.drop_first());
    }
}

/// Looks for the first services section of the document.
fn find_services(entries: &Vec<(String, TopValue)>) -> (r: Option<usize>)
    ensures
        match r {
            Some(k) => {
                &&& k < entries@.len()
                &&& entries@[k as int].1 is Services
                &&& forall|i: int| 0 <= i < k ==> !((#[trigger] entries@[i]).1 is Services)
            },
            None => forall|i: int|
                0 <= i < entries@.len() ==> !((#[trigger] entries@[i]).1 is Services),
        },
{
    let mut i: usize = 0;
    while i < entries.len()
        invariant
            0 <= i <= entries@.len(),
            forall|j: int| 0 <= j < i ==> !((#[trigger] entries@[j]).1 is Services),
        decreases entries@.len() - i,
    {
        match &entries[i].1 {
            TopValue::Services(_) => {
                return Some(i);
            },
            _ => {},
        }
        i += 1;
    }
    None
}

/// A well-formed document: top-level keys are distinct, only the
/// `services` key holds a services section, and the service list is
/// well formed.
pub open spec fn spec_doc_wf(doc: ComposeDoc) -> bool {
    &&& forall|i: int, j: int|
        0 <= i < j < doc.entries@.len() ==> (#[trigger] doc.entries@[i]).0@ != (
        #[trigger] doc.entries@[j]).0@
    &&& forall|i: int|
        0 <= i < doc.entries@.len() ==> ((#[trigger] doc.entries@[i]).1 matches
        TopValue::Services(s) ==> doc.entries@[i].0@ == "services"@ && spec_services_wf(s@))
}

/// How a whole document is rewritten: the services section, which the
/// document has exactly one of, is rewritten service by service; every
/// other section is kept exactly as it was.
pub open spec fn spec_doc_rewritten(
    old: ComposeDoc,
    images: Seq<(String, String)>,
    new: ComposeDoc,
) -> bool {
    exists|k: int|
        {
            &&& 0 <= k < old.entries@.len()
            &&& #[trigger] old.entries@[k].1 is Services
            &&& new.entries@.len() == old.entries@.len()
            &&& forall|i: int|
                0 <= i < old.entries@.len() && i != k ==> new.entries@[i] == old.entries@[i]
            &&& new.entries@[k].0 == old.entries@[k].0
            &&& old.entries@[k].1 matches TopValue::Services(os) && new.entries@[
                k
            ].1 matches TopValue::Services(ns) && spec_services_rewritten(os@, images, ns@)
        }
}

/// Which image references are resolvable depends on the listed names
/// alone, not on the references beside them.
pub proof fn lemma_lookup_by_names(
    i1: Seq<(String, String)>,
    i2: Seq<(String, String)>,
    name: Seq<char>,
)
    requires
        i1.len() == i2.len(),
        forall|t: int| 0 <= t < i1.len() ==> (#[trigger] i1[t]).0@ == (#[trigger] i2[t]).0@,
    ensures
        spec_lookup(i1, name) is Some <==> spec_lookup(i2, name) is Some,
    decreases i1.len(),
{
    if i1.len() > 0 && i1[0].0@ != name {
        assert(forall|t: int|
            0 <= t < i1.drop_first().len() ==> (#[trigger] i1.drop_first()[t],
            #[trigger] i2.drop_first()[t]) == (i1[t + 1], i2[t + 1]));
        lemma_lookup_by_names(i1.drop_first(), i2.drop_first(), name);
    }
}

/// Rewrites the whole document.  Every section but the services section
/// is kept exactly as it was; the services section is rewritten service
/// by service.  Fails when the document has no services section, or when
/// a buildable service has no resolved image reference.
#[verifier::rlimit(50)]
pub fn rewrite_doc(doc: ComposeDoc, images: &Vec<(String, String)>) -> (r: Result<
    ComposeDoc,
    RewriteError,
>)
    requires
        spec_doc_wf(doc),
    ensures
        spec_doc_services(doc.entries@) is None ==> (r matches Err(e) && e is NoServices),
        spec_doc_services(doc.entries@) matches Some(svc) ==> (r is Ok <==> spec_all_resolved(
            svc,
            images@,
        )),
        r matches Ok(rd) ==> spec_doc_rewritten(doc, images@, rd),
        r matches Err(e) ==> (e matches RewriteError::MissingImage(nm)
            ==> spec_doc_services(doc.entries@) matches Some(svc) && spec_first_missing(
            svc,
            images@,
            nm,
        )),
{
    let si = match find_services(&doc.entries) {
        Some(k) => k,
        None => {
            proof {
                lemma_doc_services_none(doc.entries@);
            }
            return Err(RewriteError::NoServices);
        },
    };
    proof {
        lemma_doc_services_at(doc.entries@, si as int);
    }
    let ghost orig = doc.entries@;
    let mut entries = doc.entries;
    let (key, val) = entries.remove(si);
    match val {
        TopValue::Services(list) => {
            proof {
                assert(spec_services_wf(list@));
            }
            let ghost glist = list@;
            proof {
                assert(spec_doc_services(orig) == Some(glist));
            }
            let rewritten = match rewrite_services(list, images) {
                Ok(x) => x,
                Err(e2) => {
                    proof {
                        assert(e2 matches RewriteError::MissingImage(nm)
                            ==> spec_first_missing(glist, images@, nm));
                    }
                    return Err(e2);
                },
            };
            entries.insert(si, (key, TopValue::Services(rewritten)));
            let rd = ComposeDoc { entries };
            proof {
                assert(rd.entries@ =~= orig.update(
                    si as int,
                    (rd.entries@[si as int].0, rd.entries@[si as int].1),
                ));
                assert(forall|i: int|
                    0 <= i < orig.len() && i != si ==> rd.entries@[i] == orig[i]);
            }
            Ok(rd)
        },
        _ => {
            proof {
                assert(orig[si as int].1 is Services);
                assert(val == orig[si as int].1);
                assert(false);
            }
            Err(RewriteError::NoServices)
        },
    }
}

} // verus!
