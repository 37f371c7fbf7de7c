//! The typed service manifest and the container catalog derived from
//! it: the ordered, deduplicated list of buildable containers, sorted by
//! name so that the build order is deterministic.

use vstd::multiset::Multiset;
use vstd::prelude::*;
use vstd::relations::sorted_by;
use vstd::seq_lib::group_to_multiset_ensures;

use crate::order::{
    lemma_lex_le_total, lemma_lex_le_transitive, lex_le, str_le,
};

verus! {

/// The typed view of the manifest: services in document order.
pub struct DockerFile {
    pub services: Vec<(String, DockerService)>,
}

/// One service: its build descriptor, where it has one of a recognized
/// shape, and its restart policy, where it has one.
pub struct DockerService {
    pub build: Option<DockerBuild>,
    pub restart: Option<String>,
}

/// A build descriptor: a bare context path, or a structured descriptor.
pub enum DockerBuild {
    Str(String),
    Advanced(DockerBuildAdvanced),
}

/// A structured build descriptor: the context path, an optional build
/// file and an optional target stage.
pub struct DockerBuildAdvanced {
    pub context: String,
    pub dockerfile: Option<String>,
    pub target: Option<String>,
}

/// One buildable container of the catalog.
pub struct DockerContainer {
    pub name: String,
    pub build_dir: String,
    pub dockerfile: Option<String>,
    pub target: Option<String>,
}

/// The container a service's build descriptor stands for.
pub open spec fn spec_container_of(name: String, b: DockerBuild) -> DockerContainer {
    match b {
        DockerBuild::Str(s) => DockerContainer {
            name: name,
            build_dir: s,
            dockerfile: None,
            target: None,
        },
        DockerBuild::Advanced(a) => DockerContainer {
            name: name,
            build_dir: a.context,
            dockerfile: a.dockerfile,
            target: a.target,
        },
    }
}

/// The catalog in document order: one container for each service with a
/// build descriptor, none for the others.
pub open spec fn spec_catalog(services: Seq<(String, DockerService)>) -> Seq<DockerContainer>
    decreases services.len(),
{
    if services.len() == 0 {
        Seq::empty()
    } else {
        (match services[0].1.build {
            Some(b) => seq![spec_container_of(services[0].0, b)],
            None => Seq::empty(),
        }) + spec_catalog(services.drop_first())
    }
}

/// The number of services with a build descriptor.
pub open spec fn spec_buildable_count(services: Seq<(String, DockerService)>) -> int
    decreases services.len(),
{
    if services.len() == 0 {
        0int
    } else {
        (if services[0].1.build is Some {
            1int
        } else {
            0int
        }) + spec_buildable_count(services.drop_first())
    }
}

/// The catalog has exactly one entry for each service with a build
/// descriptor, of whatever shape.
pub proof fn lemma_catalog_count(services: Seq<(String, DockerService)>)
    ensures
        spec_catalog(services).len() == spec_buildable_count(services),
    decreases services.len(),
{
    if services.len() > 0 {
        lemma_catalog_count(services.drop_first());
    }
}

/// The catalog names are drawn from the service names.
proof fn lemma_catalog_names_from_services(services: Seq<(String, DockerService)>, c: DockerContainer)
    requires
        spec_catalog(services).contains(c),
    ensures
        exists|i: int|
            0 <= i < services.len() && (#[trigger] services[i]).0 == c.name
                && services[i].1.build is Some,
    decreases services.len(),
{
    let cat = spec_catalog(services);
    let rest = spec_catalog(services.drop_first());
    if services[0].1.build is Some && cat[0] == c {
        assert(services[0].0 == c.name);
    } else {
        assert(rest.contains(c)) by {
            let w = choose|w: int| 0 <= w < cat.len() && cat[w] == c;
            match services[0].1.build {
                Some(_) => {
                    assert(rest[w - 1] == c);
                },
                None => {
                    assert(rest =~= cat);
                },
            }
        }
        lemma_catalog_names_from_services(services.drop_first(), c);
        let i = choose|i: int|
            0 <= i < services.drop_first().len() && (#[trigger] services.drop_first()[i]).0
                == c.name && services.drop_first()[i].1.build is Some;
        assert(services[i + 1] == services.drop_first()[i]);
    }
}

/// The service names of a typed manifest are distinct, as keys of one
/// document mapping are.
pub open spec fn spec_names_distinct(services: Seq<(String, DockerService)>) -> bool {
    forall|i: int, j: int|
        0 <= i < j < services.len() ==> (#[trigger] services[i]).0@ != (
        #[trigger] services[j]).0@
}

/// Where the service names are distinct, so are the catalog's names.
proof fn lemma_catalog_names_distinct(services: Seq<(String, DockerService)>)
    requires
        spec_names_distinct(services),
    ensures
        forall|i: int, j: int|
            0 <= i < j < spec_catalog(services).len() ==> (#[trigger] spec_catalog(services)[i]).name@
                != (#[trigger] spec_catalog(services)[j]).name@,
    decreases services.len(),
{
    if services.len() > 0 {
        let cat = spec_catalog(services);
        let rest = spec_catalog(services.drop_first());
        assert(spec_names_distinct(services.drop_first())) by {
            assert(forall|i: int, j: int|
                0 <= i < j < services.drop_first().len() ==> (#[trigger] services.drop_first()[i],
                #[trigger] services.drop_first()[j]) == (services[i + 1], services[j + 1]));
        }
        lemma_catalog_names_distinct(services.drop_first());
        assert forall|i: int, j: int| 0 <= i < j < cat.len() implies (#[trigger] cat[i]).name@ != (
        #[trigger] cat[j]).name@ by {
            match services[0].1.build {
                Some(_) => {
                    if i == 0 {
                        assert(rest.contains(cat[j])) by {
                            assert(rest[j - 1] == cat[j]);
                        }
                        lemma_catalog_names_from_services(services.drop_first(), cat[j]);
                        let w = choose|w: int|
                            0 <= w < services.drop_first().len() && (
                            #[trigger] services.drop_first()[w]).0 == cat[j].name
                                && services.drop_first()[w].1.build is Some;
                        assert(services[w + 1] == services.drop_first()[w]);
                        assert(services[0].0@ != services[w + 1].0@);
                    } else {
                        assert(rest[i - 1] == cat[i] && rest[j - 1] == cat[j]);
                    }
                },
                None => {
                    assert(rest =~= cat);
                },
            }
        }
    }
}

/// The order of the catalog: by name, lexicographically over the
/// names' UTF-8 bytes.
pub open spec fn spec_name_le(a: DockerContainer, b: DockerContainer) -> bool {
    lex_le(vstd::utf8::encode_utf8(a.name@), vstd::utf8::encode_utf8(b.name@))
}

/// The name order as a relation value.
pub open spec fn name_le_order() -> spec_fn(DockerContainer, DockerContainer) -> bool {
    |a: DockerContainer, b: DockerContainer| spec_name_le(a, b)
}

/// Sorts a container list by name.
fn sort_catalog(input: Vec<DockerContainer>) -> (r: Vec<DockerContainer>)
    ensures
        r@.to_multiset() == input@.to_multiset(),
        sorted_by(r@, name_le_order()),
{
    broadcast use group_to_multiset_ensures;
    broadcast use vstd::multiset::group_multiset_axioms;

    let mut rest = input;
    let mut out: Vec<DockerContainer> = Vec::new();
    proof {
        assert(out@.to_multiset().add(rest@.to_multiset()) =~= input@.to_multiset());
    }
    while rest.len() > 0
        invariant
            out@.to_multiset().add(rest@.to_multiset()) == input@.to_multiset(),
            sorted_by(out@, name_le_order()),
        decreases rest@.len(),
    {
        let ghost pre_rest = rest@;
        let x = match rest.pop() {
            Some(x) => x,
            None => {
                proof {
                    assert(false);
                }
                unreached()
            },
        };
        proof {
            assert(pre_rest =~= rest@.push(x));
            vstd::seq_lib::to_multiset_build(rest@, x);
            assert(pre_rest.to_multiset() =~= rest@.to_multiset().insert(x));
        }
        let ghost pre_out = out@;
        let mut k: usize = 0;
        while k < out.len() && str_le(&out[k].name, &x.name)
            invariant
                0 <= k <= out@.len(),
                out@ == pre_out,
                forall|t: int| 0 <= t < k ==> spec_name_le(#[trigger] out@[t], x),
            decreases out@.len() - k,
        {
            k += 1;
        }
        proof {
            if k < out@.len() {
                lemma_lex_le_total(
                    vstd::utf8::encode_utf8(out@[k as int].name@),
                    vstd::utf8::encode_utf8(x.name@),
                );
            }
            assert forall|t: int| k <= t < out@.len() implies spec_name_le(
                x,
                #[trigger] out@[t],
            ) by {
                assert(sorted_by(out@, name_le_order()));
                if t > k {
                    assert(name_le_order()(out@[k as int], out@[t]));
                    assert(spec_name_le(out@[k as int], out@[t]));
                    lemma_lex_le_transitive(
                        vstd::utf8::encode_utf8(x.name@),
                        vstd::utf8::encode_utf8(out@[k as int].name@),
                        vstd::utf8::encode_utf8(out@[t].name@),
                    );
                }
            }
        }
        out.insert(k, x);
        proof {
            vstd::seq_lib::to_multiset_insert(pre_out, k as int, x);
            assert(out@.to_multiset() =~= pre_out.to_multiset().insert(x));
            assert(out@.to_multiset().add(rest@.to_multiset()) =~= input@.to_multiset());
            assert forall|i: int, j: int| 0 <= i < j < out@.len() implies name_le_order()(
                out@[i],
                out@[j],
            ) by {
                assert(sorted_by(pre_out, name_le_order()));
                if j < k {
                    assert(name_le_order()(pre_out[i], pre_out[j]));
                } else if i > k {
                    assert(name_le_order()(pre_out[i - 1], pre_out[j - 1]));
                } else if i < k && j > k {
                    assert(name_le_order()(pre_out[i], pre_out[j - 1]));
                } else if j == k {
                    assert(spec_name_le(out@[i], x));
                } else if i == k {
                    assert(spec_name_le(x, out@[j]));
                }
            }
        }
    }
    proof {
        broadcast use vstd::multiset::group_multiset_axioms;
        broadcast use group_to_multiset_ensures;

        assert(rest@ =~= Seq::<DockerContainer>::empty());
        assert(rest@.to_multiset() =~= Multiset::<DockerContainer>::empty());
        assert(out@.to_multiset() =~= input@.to_multiset());
    }
    out
}

impl DockerContainer {
    /// Derives the container catalog from the typed manifest: exactly
    /// one container for each service with a build descriptor, sorted
    /// by name, so that the build order is deterministic and the same
    /// for identical input.
    pub fn from_docker_file(file: DockerFile) -> (r: Vec<DockerContainer>)
        requires
            spec_names_distinct(file.services@),
        ensures
            r@.to_multiset() == spec_catalog(file.services@).to_multiset(),
            r@.len() == spec_buildable_count(file.services@),
            sorted_by(r@, name_le_order()),
            forall|i: int, j: int|
                0 <= i < j < r@.len() ==> (#[trigger] r@[i]).name@ != (#[trigger] r@[j]).name@,
    {
        broadcast use group_to_multiset_ensures;

        let ghost orig = file.services@;
        let mut svcs = file.services;
        let mut cat: Vec<DockerContainer> = Vec::new();
        let mut i: usize = 0;
        let n = svcs.len();
        proof {
            assert(orig.skip(0) =~= orig);
        }
        while svcs.len() > 0
            invariant
                0 <= i <= n,
                n == orig.len(),
                svcs@ == orig.skip(i as int),
                spec_catalog(orig) == cat@ + spec_catalog(orig.skip(i as int)),
            decreases svcs@.len(),
        {
            proof {
                assert(orig.skip(i as int).drop_first() =~= orig.skip(i + 1));
            }
            let (name, svc) = svcs.remove(0);
            match svc.build {
                Some(DockerBuild::Str(ctx)) => {
                    cat.push(
                        DockerContainer {
                            name: name,
                            build_dir: ctx,
                            dockerfile: None,
                            target: None,
                        },
                    );
                },
                Some(DockerBuild::Advanced(adv)) => {
                    cat.push(
                        DockerContainer {
                            name: name,
                            build_dir: adv.context,
                            dockerfile: adv.dockerfile,
                            target: adv.target,
                        },
                    );
                },
                None => {},
            }
            proof {
                assert(spec_catalog(orig) =~= cat@ + spec_catalog(orig.skip(i + 1)));
            }
            i += 1;
        }
        proof {
            assert(spec_catalog(orig.skip(i as int)) =~= Seq::<DockerContainer>::empty());
            assert(cat@ =~= spec_catalog(orig));
            lemma_catalog_names_distinct(orig);
            assert forall|p: int, q: int| 0 <= p < q < cat@.len() implies cat@[p] != cat@[q] by {
                assert(cat@[p].name@ != cat@[q].name@);
            }
            assert(cat@.no_duplicates());
        }
        let r = sort_catalog(cat);
        proof {
            lemma_catalog_count(orig);
            assert(r@.len() == r@.to_multiset().len());
            assert(cat@.len() == cat@.to_multiset().len());
            cat@.lemma_multiset_has_no_duplicates();
            r@.lemma_multiset_has_no_duplicates_conv();
            assert(r@.no_duplicates());
            assert forall|p: int, q: int| 0 <= p < q < r@.len() implies (#[trigger] r@[p]).name@
                != (#[trigger] r@[q]).name@ by {
                if r@[p].name@ == r@[q].name@ {
                    assert(r@[p] != r@[q]);
                    assert(r@.contains(r@[p]) && r@.contains(r@[q]));
                    assert(cat@.to_multiset().count(r@[p]) > 0);
                    assert(cat@.to_multiset().count(r@[q]) > 0);
                    assert(cat@.contains(r@[p]) && cat@.contains(r@[q]));
                    let wp = choose|w: int| 0 <= w < cat@.len() && cat@[w] == r@[p];
                    let wq = choose|w: int| 0 <= w < cat@.len() && cat@[w] == r@[q];
                    assert(cat@[wp].name@ != cat@[wq].name@);
                }
            }
        }
        r
    }
}

/// One advisory diagnostic about a buildable service's restart policy.
pub enum RestartDiag {
    MissingRestart { name: String },
    NonStandardRestart { name: String, value: String },
}

/// The accepted restart policies.
pub open spec fn spec_restart_ok(s: Seq<char>) -> bool {
    s == "unless-stopped"@ || s == "always"@
}

/// The diagnostic one service gives rise to: only a service with a
/// build descriptor is checked, and a missing or non-standard restart
/// policy is reported.
pub open spec fn spec_restart_diag(name: String, svc: DockerService) -> Option<RestartDiag> {
    if svc.build is None {
        None
    } else {
        match svc.restart {
            None => Some(RestartDiag::MissingRestart { name: name }),
            Some(v) => if spec_restart_ok(v@) {
                None
            } else {
                Some(RestartDiag::NonStandardRestart { name: name, value: v })
            },
        }
    }
}

/// The diagnostics of all services, in document order.
pub open spec fn spec_restart_diags(services: Seq<(String, DockerService)>) -> Seq<RestartDiag>
    decreases services.len(),
{
    if services.len() == 0 {
        Seq::empty()
    } else {
        (match spec_restart_diag(services[0].0, services[0].1) {
            Some(d) => seq![d],
            None => Seq::empty(),
        }) + spec_restart_diags(services.drop_first())
    }
}

/// The advisory restart-policy check: one diagnostic for every service
/// with a build descriptor whose restart policy is missing or not one
/// of the accepted values.  It never fails, and the catalog is derived
/// independently of it.
pub fn restart_diagnostics(file: &DockerFile) -> (r: Vec<RestartDiag>)
    ensures
        r@ == spec_restart_diags(file.services@),
{
    let ghost orig = file.services@;
    let mut out: Vec<RestartDiag> = Vec::new();
    let mut i: usize = 0;
    proof {
        assert(orig.skip(0) =~= orig);
    }
    while i < file.services.len()
        invariant
            0 <= i <= orig.len(),
            orig == file.services@,
            spec_restart_diags(orig) == out@ + spec_restart_diags(orig.skip(i as int)),
        decreases orig.len() - i,
    {
        proof {
            assert(orig.skip(i as int).drop_first() =~= orig.skip(i + 1));
            assert(orig.skip(i as int)[0] == orig[i as int]);
        }
        let (name, svc) = &file.services[i];
        if svc.build.is_some() {
            match &svc.restart {
                None => {
                    out.push(RestartDiag::MissingRestart { name: name.clone() });
                },
                Some(v) => {
                    let ok = *v == String::from_str("unless-stopped") || *v == String::from_str(
                        "always",
                    );
                    if !ok {
                        out.push(
                            RestartDiag::NonStandardRestart {
                                name: name.clone(),
                                value: v.clone(),
                            },
                        );
                    }
                },
            }
        }
        proof {
            assert(spec_restart_diags(orig) =~= out@ + spec_restart_diags(orig.skip(i + 1)));
        }
        i += 1;
    }
    proof {
        assert(spec_restart_diags(orig.skip(i as int)) =~= Seq::<RestartDiag>::empty());
        assert(out@ =~= spec_restart_diags(orig));
    }
    out
}

/// The catalog does not depend on the restart policies: two manifests
/// that agree on service names and build descriptors have the same
/// catalog, whatever the restart-policy check reports.
pub proof fn lemma_catalog_ignores_restart(
    s1: Seq<(String, DockerService)>,
    s2: Seq<(String, DockerService)>,
)
    requires
        s1.len() == s2.len(),
        forall|i: int|
            0 <= i < s1.len() ==> (#[trigger] s1[i]).0 == s2[i].0 && s1[i].1.build == (
            #[trigger] s2[i]).1.build,
    ensures
        spec_catalog(s1) == spec_catalog(s2),
    decreases s1.len(),
{
    if s1.len() > 0 {
        assert(forall|i: int|
            0 <= i < s1.drop_first().len() ==> (#[trigger] s1.drop_first()[i],
            #[trigger] s2.drop_first()[i]) == (s1[i + 1], s2[i + 1]));
        lemma_catalog_ignores_restart(s1.drop_first(), s2.drop_first());
    }
}

} // verus!
