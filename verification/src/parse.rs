//! Typed extraction from the generic manifest: each service's build
//! field is probed for one of the two recognized shapes — a bare string
//! context path, or a structured descriptor with a required context —
//! and a service whose build field fits neither shape is skipped with a
//! diagnostic, never aborting the rest of the manifest.

use vstd::prelude::*;

use crate::dockerfile::{DockerBuild, DockerBuildAdvanced, DockerFile, DockerService};
use crate::manifest::{find_key, spec_has_key, spec_key_at, FieldValue, ServiceEntry};
use crate::manifest::spec_services_wf;
use crate::dockerfile::spec_names_distinct;

verus! {

/// An optional string field: absent, present as a string, or present
/// with some other shape (the outer None).
pub open spec fn spec_opt_str(
    fields: Seq<(String, FieldValue)>,
    key: Seq<char>,
) -> Option<Option<String>> {
    if !spec_has_key(fields, key) {
        Some(None)
    } else {
        match fields[spec_key_at(fields, key)].1 {
            FieldValue::Str(s) => Some(Some(s)),
            _ => None,
        }
    }
}

/// A structured build descriptor: a mapping with a string context, and
/// optional string build file and target.  Anything else is no
/// recognized shape.
pub open spec fn spec_probe_mapping(entries: Seq<(String, FieldValue)>) -> Option<DockerBuild> {
    if !spec_has_key(entries, "context"@) {
        None
    } else {
        match entries[spec_key_at(entries, "context"@)].1 {
            FieldValue::Str(ctx) => match (spec_opt_str(entries, "dockerfile"@), spec_opt_str(
                entries,
                "target"@,
            )) {
                (Some(df), Some(tg)) => Some(
                    DockerBuild::Advanced(
                        DockerBuildAdvanced { context: ctx, dockerfile: df, target: tg },
                    ),
                ),
                _ => None,
            },
            _ => None,
        }
    }
}

/// What a build field parses to: a bare string is the context path, a
/// mapping is probed as a structured descriptor, anything else fits
/// neither shape.
pub open spec fn spec_probe(v: FieldValue) -> Option<DockerBuild> {
    match v {
        FieldValue::Str(s) => Some(DockerBuild::Str(s)),
        FieldValue::Mapping(m) => spec_probe_mapping(m@),
        FieldValue::Opaque(_) => None,
    }
}

/// The typed service one entry parses to.
pub open spec fn spec_service_of(e: ServiceEntry) -> DockerService {
    DockerService {
        build: if spec_has_key(e.fields@, "build"@) {
            spec_probe(e.fields@[spec_key_at(e.fields@, "build"@)].1)
        } else {
            None
        },
        restart: match spec_opt_str(e.fields@, "restart"@) {
            Some(s) => s,
            None => None,
        },
    }
}

/// A service whose build field fits neither recognized shape: it is
/// skipped with a diagnostic.
pub open spec fn spec_bad_shape(e: ServiceEntry) -> bool {
    spec_has_key(e.fields@, "build"@) && spec_probe(
        e.fields@[spec_key_at(e.fields@, "build"@)].1,
    ) is None
}

/// The names of the skipped services, in document order.
pub open spec fn spec_skipped(services: Seq<ServiceEntry>) -> Seq<String>
    decreases services.len(),
{
    if services.len() == 0 {
        Seq::empty()
    } else {
        (if spec_bad_shape(services[0]) {
            seq![services[0].name]
        } else {
            Seq::empty()
        }) + spec_skipped(services.drop_first())
    }
}

/// Reads an optional string field.
fn opt_str(fields: &Vec<(String, FieldValue)>, key: &str) -> (r: Option<Option<String>>)
    ensures
        r == spec_opt_str(fields@, key@),
{
    match find_key(fields, key) {
        None => Some(None),
        Some(i) => match &fields[i].1 {
            FieldValue::Str(s) => Some(Some(s.clone())),
            _ => None,
        },
    }
}

/// Probes a build field for one of the two recognized shapes.
pub fn probe_build(v: &FieldValue) -> (r: Option<DockerBuild>)
    ensures
        r == spec_probe(*v),
{
    match v {
        FieldValue::Str(s) => Some(DockerBuild::Str(s.clone())),
        FieldValue::Mapping(m) => {
            match find_key(m, "context") {
                None => None,
                Some(ci) => match &m[ci].1 {
                    FieldValue::Str(ctx) => {
                        let df = opt_str(m, "dockerfile");
                        let tg = opt_str(m, "target");
                        match (df, tg) {
                            (Some(df), Some(tg)) => Some(
                                DockerBuild::Advanced(
                                    DockerBuildAdvanced {
                                        context: ctx.clone(),
                                        dockerfile: df,
                                        target: tg,
                                    },
                                ),
                            ),
                            _ => None,
                        }
                    },
                    _ => None,
                },
            }
        },
        FieldValue::Opaque(_) => None,
    }
}

/// Parses one service entry.
pub fn parse_service(e: &ServiceEntry) -> (r: DockerService)
    ensures
        r == spec_service_of(*e),
{
    let build = match find_key(&e.fields, "build") {
        None => None,
        Some(bi) => probe_build(&e.fields[bi].1),
    };
    let restart = match opt_str(&e.fields, "restart") {
        Some(s) => s,
        None => None,
    };
    DockerService { build, restart }
}

/// Parses the service list into the typed manifest, reporting the name
/// of every service that was skipped because its build field fits
/// neither recognized shape.  Parsing never aborts on such a service.
pub fn to_docker_file(services: &Vec<ServiceEntry>) -> (r: (DockerFile, Vec<String>))
    ensures
        r.0.services@.len() == services@.len(),
        forall|i: int|
            0 <= i < services@.len() ==> r.0.services@[i].0 == (#[trigger] services@[i]).name
                && r.0.services@[i].1 == spec_service_of(services@[i]),
        r.1@ == spec_skipped(services@),
        spec_services_wf(services@) ==> spec_names_distinct(r.0.services@),
{
    let ghost orig = services@;
    let mut typed: Vec<(String, DockerService)> = Vec::new();
    let mut skipped: Vec<String> = Vec::new();
    let mut i: usize = 0;
    proof {
        assert(orig.skip(0) =~= orig);
    }
    while i < services.len()
        invariant
            0 <= i <= orig.len(),
            orig == services@,
            typed@.len() == i,
            forall|t: int|
                0 <= t < i ==> typed@[t].0 == (#[trigger] orig[t]).name && typed@[t].1
                    == spec_service_of(orig[t]),
            spec_skipped(orig) == skipped@ + spec_skipped(orig.skip(i as int)),
        decreases orig.len() - i,
    {
        proof {
            assert(orig.skip(i as int).drop_first() =~= orig.skip(i + 1));
            assert(orig.skip(i as int)[0] == orig[i as int]);
        }
        let e = &services[i];
        let svc = parse_service(e);
        if find_key(&e.fields, "build").is_some() && svc.build.is_none() {
            skipped.push(e.name.clone());
        }
        typed.push((e.name.clone(), svc));
        proof {
            assert(spec_skipped(orig) =~= skipped@ + spec_skipped(orig.skip(i + 1)));
        }
        i += 1;
    }
    proof {
        assert(spec_skipped(orig.skip(i as int)) =~= Seq::<String>::empty());
        assert(skipped@ =~= spec_skipped(orig));
    }
    let file = DockerFile { services: typed };
    proof {
        if spec_services_wf(orig) {
            assert forall|p: int, q: int| 0 <= p < q < file.services@.len() implies (
            #[trigger] file.services@[p]).0@ != (#[trigger] file.services@[q]).0@ by {
                assert(orig[p].name@ != orig[q].name@);
            }
        }
    }
    (file, skipped)
}

} // verus!
