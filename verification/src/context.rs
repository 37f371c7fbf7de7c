//! The build context and the pipeline plans.  The context is built once
//! per run and read-only afterwards; every top-level operation turns
//! into a plan, the exact list of external commands to run in order,
//! which the pipeline runner walks with first-failure short-circuiting.

use vstd::prelude::*;
use vstd::string::StringExecFns;

use crate::config::DepConfig;
use crate::dockerfile::DockerContainer;
use crate::manifest::ComposeDoc;
use crate::rewrite::{
    lemma_lookup_by_names, rewrite_doc, spec_all_resolved, spec_doc_rewritten, spec_doc_services,
    spec_buildable, spec_doc_wf, spec_first_missing, spec_lookup, RewriteError,
};

verus! {

/// One external command: a program and its arguments.
pub struct ExecCmd {
    pub program: String,
    pub args: Vec<String>,
}

/// One step of a plan: run a program, run a shell script fed on its
/// input stream, or stage the rewritten manifest with the extra files
/// and synchronize them to the remote target.
pub enum Cmd {
    Exec(ExecCmd),
    Script(String),
    Transfer(TransferCmd),
}

/// The file-transfer step: the rewritten manifest to stage, the extra
/// files to send along, and the remote target directory.
pub struct TransferCmd {
    pub manifest: ComposeDoc,
    pub extra: Vec<String>,
    pub dest: String,
}

/// The argument views of a command's argument list.
pub open spec fn spec_args_of(args: Vec<String>) -> Seq<Seq<char>> {
    args@.map_values(|s: String| s@)
}

/// The context of one run: the registry, the version tag resolved once
/// for the whole run, the configuration, the pull-before-build flag and
/// the container catalog.
pub struct BuildContext {
    pub registry: String,
    pub version: String,
    pub config: DepConfig,
    pub pull: bool,
    pub containers: Vec<DockerContainer>,
}

/// The image reference of a container: registry/name:version.
pub open spec fn spec_image(registry: Seq<char>, name: Seq<char>, version: Seq<char>) -> Seq<
    char,
> {
    registry + "/"@ + name + ":"@ + version
}

/// The remote target of the transfer: server:name.
pub open spec fn spec_remote_dir(config: DepConfig) -> Seq<char> {
    config.server@ + ":"@ + config.name@
}

/// The strict-shell prefix put before the configured build script.
pub open spec fn spec_script_text(body: Seq<char>) -> Seq<char> {
    "set -o errexit\nset -o nounset\nset -o pipefail\n"@ + body
}

/// The arguments of one image build: the version as a build argument,
/// the pull flag where configured, the build context path, the build
/// file and target where the descriptor has them, and the image tag.
pub open spec fn spec_build_args(
    version: Seq<char>,
    pull: bool,
    c: DockerContainer,
    image: Seq<char>,
) -> Seq<Seq<char>> {
    seq!["build"@, "--build-arg"@, "VERSION="@ + version] + (if pull {
        seq!["--pull"@]
    } else {
        Seq::empty()
    }) + seq![c.build_dir@] + (match c.dockerfile {
        Some(f) => seq!["-f"@, f@],
        None => Seq::empty(),
    }) + (match c.target {
        Some(t) => seq!["--target"@, t@],
        None => Seq::empty(),
    }) + seq!["-t"@, image]
}

/// The command that builds one container's image.
pub open spec fn spec_is_build_cmd(cmd: Cmd, ctx: BuildContext, c: DockerContainer) -> bool {
    &&& cmd matches Cmd::Exec(e)
    &&& e.program@ == "docker"@
    &&& spec_args_of(e.args) == spec_build_args(
        ctx.version@,
        ctx.pull,
        c,
        spec_image(ctx.registry@, c.name@, ctx.version@),
    )
}

/// The command that pushes one container's image to the registry.
pub open spec fn spec_is_push_cmd(cmd: Cmd, ctx: BuildContext, c: DockerContainer) -> bool {
    &&& cmd matches Cmd::Exec(e)
    &&& e.program@ == "docker"@
    &&& spec_args_of(e.args) == seq![
        "push"@,
        spec_image(ctx.registry@, c.name@, ctx.version@),
    ]
}

/// The pre-build script step with the strict-shell prefix.
pub open spec fn spec_is_script_cmd(cmd: Cmd, body: Seq<char>) -> bool {
    cmd matches Cmd::Script(t) && t@ == spec_script_text(body)
}

/// A remote command issued over the remote shell at the configured
/// host.
pub open spec fn spec_is_remote_cmd(cmd: Cmd, ctx: BuildContext, line: Seq<char>) -> bool {
    &&& cmd matches Cmd::Exec(e)
    &&& e.program@ == "ssh"@
    &&& spec_args_of(e.args) == seq![ctx.config.server@, line]
}

/// The image list a rewrite resolves against: one pair per container,
/// in catalog order, each name beside its resolved image reference.
pub open spec fn spec_images_match(images: Seq<(String, String)>, ctx: BuildContext) -> bool {
    &&& images.len() == ctx.containers@.len()
    &&& forall|i: int|
        0 <= i < images.len() ==> (#[trigger] images[i]).0 == ctx.containers@[i].name
            && images[i].1@ == spec_image(
            ctx.registry@,
            ctx.containers@[i].name@,
            ctx.version@,
        )
}

/// The number of leading script steps of a build plan: one where a
/// build script is configured.
pub open spec fn spec_script_offset(ctx: BuildContext) -> int {
    if ctx.config.build is Some {
        1int
    } else {
        0int
    }
}

/// A build plan: the optional script step, then one image build for
/// each container, in catalog order.
pub open spec fn spec_build_plan(r: Seq<Cmd>, ctx: BuildContext) -> bool {
    let off = spec_script_offset(ctx);
    &&& r.len() == off + ctx.containers@.len()
    &&& (ctx.config.build matches Some(body) ==> spec_is_script_cmd(r[0], body@))
    &&& forall|i: int|
        0 <= i < ctx.containers@.len() ==> spec_is_build_cmd(
            r[off + i],
            ctx,
            #[trigger] ctx.containers@[i],
        )
}

impl BuildContext {
    /// Builds the run's context; the registry is taken from the
    /// configuration.
    pub fn new(
        version: String,
        config: DepConfig,
        pull: bool,
        containers: Vec<DockerContainer>,
    ) -> (r: BuildContext)
        ensures
            r.registry == config.registry,
            r.version == version,
            r.config == config,
            r.pull == pull,
            r.containers == containers,
    {
        let registry = config.registry.clone();
        BuildContext { registry, version, config, pull, containers }
    }

    /// The image reference of one container: registry/name:version.
    pub fn image(&self, c: &DockerContainer) -> (r: String)
        ensures
            r@ == spec_image(self.registry@, c.name@, self.version@),
    {
        let mut s = self.registry.clone();
        s.append("/");
        s.append(c.name.as_str());
        s.append(":");
        s.append(self.version.as_str());
        s
    }

    /// The remote target of the transfer: server:name.
    pub fn remote_dir(&self) -> (r: String)
        ensures
            r@ == spec_remote_dir(self.config),
    {
        let mut s = self.config.server.clone();
        s.append(":");
        s.append(self.config.name.as_str());
        s
    }

    /// The pre-build script step, where the configuration has a script
    /// body: the body under a prefix that makes the shell abort on the
    /// first error, on unset variables and on failed pipe stages.
    pub fn run_build_script(&self) -> (r: Option<Cmd>)
        ensures
            match r {
                Some(cmd) => self.config.build matches Some(body) && spec_is_script_cmd(
                    cmd,
                    body@,
                ),
                None => self.config.build is None,
            },
    {
        match &self.config.build {
            None => None,
            Some(body) => {
                let mut t = String::from_str(
                    "set -o errexit\nset -o nounset\nset -o pipefail\n",
                );
                t.append(body.as_str());
                Some(Cmd::Script(t))
            },
        }
    }

    /// The command that builds one container's image.
    pub fn build(&self, c: &DockerContainer) -> (r: Cmd)
        ensures
            spec_is_build_cmd(r, *self, *c),
    {
        let mut args: Vec<String> = Vec::new();
        args.push(String::from_str("build"));
        args.push(String::from_str("--build-arg"));
        let mut va = String::from_str("VERSION=");
        va.append(self.version.as_str());
        args.push(va);
        if self.pull {
            args.push(String::from_str("--pull"));
        }
        args.push(c.build_dir.clone());
        match &c.dockerfile {
            Some(f) => {
                args.push(String::from_str("-f"));
                args.push(f.clone());
            },
            None => {},
        }
        match &c.target {
            Some(t) => {
                args.push(String::from_str("--target"));
                args.push(t.clone());
            },
            None => {},
        }
        args.push(String::from_str("-t"));
        args.push(self.image(c));
        proof {
            assert(spec_args_of(args) =~= spec_build_args(
                self.version@,
                self.pull,
                *c,
                spec_image(self.registry@, c.name@, self.version@),
            ));
        }
        Cmd::Exec(ExecCmd { program: String::from_str("docker"), args })
    }

    /// The build plan: the optional pre-build script, then every
    /// container's image build, strictly in catalog order.
    pub fn build_all(&self) -> (r: Vec<Cmd>)
        ensures
            spec_build_plan(r@, *self),
    {
        let mut cmds: Vec<Cmd> = Vec::new();
        match self.run_build_script() {
            Some(cmd) => {
                cmds.push(cmd);
            },
            None => {},
        }
        let ghost off = spec_script_offset(*self);
        let mut i: usize = 0;
        while i < self.containers.len()
            invariant
                0 <= i <= self.containers@.len(),
                cmds@.len() == off + i,
                off == spec_script_offset(*self),
                self.config.build matches Some(body) ==> spec_is_script_cmd(cmds@[0], body@),
                forall|t: int|
                    0 <= t < i ==> spec_is_build_cmd(
                        cmds@[off + t],
                        *self,
                        #[trigger] self.containers@[t],
                    ),
            decreases self.containers@.len() - i,
        {
            cmds.push(self.build(&self.containers[i]));
            i += 1;
        }
        cmds
    }

    /// The resolved image reference of every container, by name, in
    /// catalog order.
    fn images_of(&self) -> (r: Vec<(String, String)>)
        ensures
            spec_images_match(r@, *self),
    {
        let mut out: Vec<(String, String)> = Vec::new();
        let mut i: usize = 0;
        while i < self.containers.len()
            invariant
                0 <= i <= self.containers@.len(),
                out@.len() == i,
                forall|t: int|
                    0 <= t < i ==> (#[trigger] out@[t]).0 == self.containers@[t].name
                        && out@[t].1@ == spec_image(
                        self.registry@,
                        self.containers@[t].name@,
                        self.version@,
                    ),
            decreases self.containers@.len() - i,
        {
            let c = &self.containers[i];
            out.push((c.name.clone(), self.image(c)));
            i += 1;
        }
        out
    }

    /// Rewrites the manifest document: every buildable service's build
    /// field gives way to an image field holding that service's
    /// resolved reference, everything else stays exactly as it was.
    pub fn transform_docker_compose(&self, doc: ComposeDoc) -> (r: Result<
        ComposeDoc,
        RewriteError,
    >)
        requires
            spec_doc_wf(doc),
        ensures
            spec_doc_services(doc.entries@) is None ==> (r matches Err(e) && e is NoServices),
            forall|images: Seq<(String, String)>|
                #[trigger] spec_images_match(images, *self) ==> (spec_doc_services(
                    doc.entries@,
                ) matches Some(svc) ==> (r is Ok <==> spec_all_resolved(svc, images))),
            r matches Ok(rd) ==> exists|images: Seq<(String, String)>|
                #[trigger] spec_images_match(images, *self) && spec_doc_rewritten(
                    doc,
                    images,
                    rd,
                ),
            r matches Err(e) ==> (e matches RewriteError::MissingImage(nm)
                ==> spec_doc_services(doc.entries@) matches Some(svc) && exists|
                images: Seq<(String, String)>,
            |
                #[trigger] spec_images_match(images, *self) && spec_first_missing(
                    svc,
                    images,
                    nm,
                )),
    {
        let images = self.images_of();
        let ghost gi = images@;
        let r = rewrite_doc(doc, &images);
        proof {
            assert forall|images2: Seq<(String, String)>|
                #[trigger] spec_images_match(images2, *self) implies (spec_doc_services(
                doc.entries@,
            ) matches Some(svc) ==> (r is Ok <==> spec_all_resolved(svc, images2))) by {
                match spec_doc_services(doc.entries@) {
                    Some(svc) => {
                        assert forall|w: int|
                            0 <= w < svc.len() && spec_buildable(#[trigger] svc[w]) implies (
                        spec_lookup(gi, svc[w].name@) is Some <==> spec_lookup(
                            images2,
                            svc[w].name@,
                        ) is Some) by {
                            lemma_lookup_by_names(gi, images2, svc[w].name@);
                        }
                        assert(spec_all_resolved(svc, gi) <==> spec_all_resolved(svc, images2));
                    },
                    None => {},
                }
            }
        }
        r
    }
}

/// A push plan: the whole build plan re-run first, then one registry
/// push for each container, in catalog order.
pub open spec fn spec_push_plan(r: Seq<Cmd>, ctx: BuildContext) -> bool {
    let off = spec_script_offset(ctx);
    let n = ctx.containers@.len() as int;
    &&& r.len() == off + n + n
    &&& spec_build_plan(r.take(off + n), ctx)
    &&& forall|i: int|
        0 <= i < n ==> spec_is_push_cmd(r[off + n + i], ctx, #[trigger] ctx.containers@[i])
}

/// The staged transfer of one run: the manifest rewritten against this
/// context's image references, the configured extra files, and the
/// remote target directory.
pub open spec fn spec_is_transfer_for(t: TransferCmd, ctx: BuildContext, doc: ComposeDoc) -> bool {
    &&& t.dest@ == spec_remote_dir(ctx.config)
    &&& (match ctx.config.additional_files {
        Some(fs) => t.extra@ == fs@,
        None => t.extra@ == Seq::<String>::empty(),
    })
    &&& exists|images: Seq<(String, String)>|
        #[trigger] spec_images_match(images, ctx) && spec_doc_rewritten(doc, images, t.manifest)
}

/// A full push plan: the push plan, then the staged file transfer.
pub open spec fn spec_full_push_plan(
    r: Seq<Cmd>,
    ctx: BuildContext,
    doc: ComposeDoc,
) -> bool {
    &&& r.len() == spec_script_offset(ctx) + 2 * ctx.containers@.len() + 1
    &&& spec_push_plan(r.take(r.len() - 1), ctx)
    &&& r.last() matches Cmd::Transfer(t) && spec_is_transfer_for(t, ctx, doc)
}

impl BuildContext {
    /// The plan that pushes every image to the registry: the build plan
    /// always re-runs first, so that every pushed image carries this
    /// run's version tag, then each image is pushed in catalog order.
    pub fn push_containers(&self) -> (r: Vec<Cmd>)
        ensures
            spec_push_plan(r@, *self),
    {
        let mut cmds = self.build_all();
        let ghost pre = cmds@;
        let mut i: usize = 0;
        while i < self.containers.len()
            invariant
                0 <= i <= self.containers@.len(),
                cmds@.len() == pre.len() + i,
                cmds@.take(pre.len() as int) == pre,
                spec_build_plan(pre, *self),
                pre.len() == spec_script_offset(*self) + self.containers@.len(),
                forall|t: int|
                    0 <= t < i ==> spec_is_push_cmd(
                        cmds@[pre.len() + t],
                        *self,
                        #[trigger] self.containers@[t],
                    ),
            decreases self.containers@.len() - i,
        {
            let c = &self.containers[i];
            let mut args: Vec<String> = Vec::new();
            args.push(String::from_str("push"));
            args.push(self.image(c));
            proof {
                assert(spec_args_of(args) =~= seq![
                    "push"@,
                    spec_image(self.registry@, c.name@, self.version@),
                ]);
            }
            cmds.push(Cmd::Exec(ExecCmd { program: String::from_str("docker"), args }));
            proof {
                assert(cmds@.take(pre.len() as int) =~= pre);
            }
            i += 1;
        }
        proof {
            assert(cmds@.take(
                spec_script_offset(*self) + self.containers@.len() as int,
            ) =~= pre);
        }
        cmds
    }

    /// The plan that transfers the files: exactly one step, the staged
    /// transfer, and no image build or registry push at all.  It fails
    /// exactly where the rewrite does.
    pub fn push_files(&self, doc: ComposeDoc) -> (r: Result<Vec<Cmd>, RewriteError>)
        requires
            spec_doc_wf(doc),
        ensures
            r matches Ok(cmds) ==> cmds@.len() == 1 && (cmds@[0] matches Cmd::Transfer(t)
                && spec_is_transfer_for(t, *self, doc)),
            spec_doc_services(doc.entries@) is None ==> (r matches Err(e) && e is NoServices),
            forall|images: Seq<(String, String)>|
                #[trigger] spec_images_match(images, *self) ==> (spec_doc_services(
                    doc.entries@,
                ) matches Some(svc) ==> (r is Ok <==> spec_all_resolved(svc, images))),
            r matches Err(e) ==> (e matches RewriteError::MissingImage(nm)
                ==> spec_doc_services(doc.entries@) matches Some(svc) && exists|
                images: Seq<(String, String)>,
            |
                #[trigger] spec_images_match(images, *self) && spec_first_missing(
                    svc,
                    images,
                    nm,
                )),
    {
        let rd = match self.transform_docker_compose(doc) {
            Ok(rd) => rd,
            Err(e) => {
                return Err(e);
            },
        };
        let extra: Vec<String> = match &self.config.additional_files {
            Some(fs) => {
                let mut out: Vec<String> = Vec::new();
                let mut i: usize = 0;
                while i < fs.len()
                    invariant
                        0 <= i <= fs@.len(),
                        out@.len() == i,
                        forall|t: int| 0 <= t < i ==> out@[t] == fs@[t],
                    decreases fs@.len() - i,
                {
                    out.push(fs[i].clone());
                    i += 1;
                }
                proof {
                    assert(out@ =~= fs@);
                }
                out
            },
            None => Vec::new(),
        };
        let t = TransferCmd { manifest: rd, extra, dest: self.remote_dir() };
        let mut cmds: Vec<Cmd> = Vec::new();
        cmds.push(Cmd::Transfer(t));
        Ok(cmds)
    }

    /// The plan of a full push: rebuild and push every image, then
    /// transfer the files; it fails exactly where the rewrite does, and
    /// then plans nothing.
    pub fn push(&self, doc: ComposeDoc) -> (r: Result<Vec<Cmd>, RewriteError>)
        requires
            spec_doc_wf(doc),
        ensures
            r matches Ok(cmds) ==> spec_full_push_plan(cmds@, *self, doc),
            spec_doc_services(doc.entries@) is None ==> (r matches Err(e) && e is NoServices),
            forall|images: Seq<(String, String)>|
                #[trigger] spec_images_match(images, *self) ==> (spec_doc_services(
                    doc.entries@,
                ) matches Some(svc) ==> (r is Ok <==> spec_all_resolved(svc, images))),
            r matches Err(e) ==> (e matches RewriteError::MissingImage(nm)
                ==> spec_doc_services(doc.entries@) matches Some(svc) && exists|
                images: Seq<(String, String)>,
            |
                #[trigger] spec_images_match(images, *self) && spec_first_missing(
                    svc,
                    images,
                    nm,
                )),
    {
        let mut files = match self.push_files(doc) {
            Ok(f) => f,
            Err(e) => {
                return Err(e);
            },
        };
        let transfer = match files.pop() {
            Some(t) => t,
            None => {
                proof {
                    assert(false);
                }
                return Err(RewriteError::NoServices);
            },
        };
        let mut cmds = self.push_containers();
        let ghost pre = cmds@;
        cmds.push(transfer);
        proof {
            assert(cmds@.take(cmds@.len() - 1) =~= pre);
        }
        Ok(cmds)
    }

    /// One remote command line, run inside the configured remote
    /// directory.
    fn remote_cmd(&self, tail: &str) -> (r: Cmd)
        ensures
            spec_is_remote_cmd(r, *self, "cd "@ + self.config.name@ + tail@),
    {
        let mut line = String::from_str("cd ");
        line.append(self.config.name.as_str());
        line.append(tail);
        let mut args: Vec<String> = Vec::new();
        args.push(self.config.server.clone());
        args.push(line);
        proof {
            assert(spec_args_of(args) =~= seq![
                self.config.server@,
                "cd "@ + self.config.name@ + tail@,
            ]);
        }
        Cmd::Exec(ExecCmd { program: String::from_str("ssh"), args })
    }
}

/// The remote command line that pulls the images on the remote host.
pub open spec fn spec_pull_line(ctx: BuildContext) -> Seq<char> {
    "cd "@ + ctx.config.name@ + " && docker compose pull"@
}

/// The remote command line that activates the services on the remote
/// host.
pub open spec fn spec_up_line(ctx: BuildContext) -> Seq<char> {
    "cd "@ + ctx.config.name@ + " && docker compose up -d"@
}

/// A deploy plan: the full push plan, then, where pull-before-deploy is
/// set, the remote image pull, then unconditionally the remote
/// activation.
pub open spec fn spec_deploy_plan(r: Seq<Cmd>, ctx: BuildContext, doc: ComposeDoc) -> bool {
    let base = spec_script_offset(ctx) + 2 * ctx.containers@.len() + 1;
    let pc: int = if ctx.pull {
        1int
    } else {
        0int
    };
    &&& r.len() == base + pc + 1
    &&& spec_full_push_plan(r.take(base), ctx, doc)
    &&& (ctx.pull ==> spec_is_remote_cmd(r[base], ctx, spec_pull_line(ctx)))
    &&& spec_is_remote_cmd(r.last(), ctx, spec_up_line(ctx))
}

impl BuildContext {
    /// The plan of a deployment: the full push, then, where the pull
    /// flag is set, a remote image pull, then the remote activation.
    /// Each later stage runs only after the earlier ones succeeded; it
    /// fails exactly where the rewrite does, and then plans nothing.
    pub fn deploy(&self, doc: ComposeDoc) -> (r: Result<Vec<Cmd>, RewriteError>)
        requires
            spec_doc_wf(doc),
        ensures
            r matches Ok(cmds) ==> spec_deploy_plan(cmds@, *self, doc),
            spec_doc_services(doc.entries@) is None ==> (r matches Err(e) && e is NoServices),
            forall|images: Seq<(String, String)>|
                #[trigger] spec_images_match(images, *self) ==> (spec_doc_services(
                    doc.entries@,
                ) matches Some(svc) ==> (r is Ok <==> spec_all_resolved(svc, images))),
            r matches Err(e) ==> (e matches RewriteError::MissingImage(nm)
                ==> spec_doc_services(doc.entries@) matches Some(svc) && exists|
                images: Seq<(String, String)>,
            |
                #[trigger] spec_images_match(images, *self) && spec_first_missing(
                    svc,
                    images,
                    nm,
                )),
    {
        let mut cmds = match self.push(doc) {
            Ok(c) => c,
            Err(e) => {
                return Err(e);
            },
        };
        let ghost base = cmds@;
        if self.pull {
            cmds.push(self.remote_cmd(" && docker compose pull"));
        }
        cmds.push(self.remote_cmd(" && docker compose up -d"));
        proof {
            assert(cmds@.take(base.len() as int) =~= base);
        }
        Ok(cmds)
    }
}

/// The arguments of the mirroring file transfer: archive semantics,
/// verbose progress output, the staging directory with a trailing
/// slash, then the extra files, then the remote target.
pub open spec fn spec_rsync_args(tmp: Seq<char>, extra: Seq<String>, dest: Seq<char>) -> Seq<
    Seq<char>,
> {
    seq!["--verbose"@, "--archive"@, "-h"@, "--progress"@, tmp + "/"@] + extra.map_values(
        |s: String| s@,
    ) + seq![dest]
}

/// Builds the transfer's argument list from the staging directory the
/// runner created, the extra files and the remote target.
pub fn rsync_args(tmp: &str, extra: &Vec<String>, dest: &String) -> (r: Vec<String>)
    ensures
        spec_args_of(r) == spec_rsync_args(tmp@, extra@, dest@),
{
    let mut args: Vec<String> = Vec::new();
    args.push(String::from_str("--verbose"));
    args.push(String::from_str("--archive"));
    args.push(String::from_str("-h"));
    args.push(String::from_str("--progress"));
    let mut staged = tmp.to_owned();
    staged.append("/");
    args.push(staged);
    let mut i: usize = 0;
    while i < extra.len()
        invariant
            0 <= i <= extra@.len(),
            args@.len() == 5 + i,
            args@[0]@ == "--verbose"@,
            args@[1]@ == "--archive"@,
            args@[2]@ == "-h"@,
            args@[3]@ == "--progress"@,
            args@[4]@ == tmp@ + "/"@,
            forall|t: int| 0 <= t < i ==> args@[5 + t]@ == extra@[t]@,
        decreases extra@.len() - i,
    {
        args.push(extra[i].clone());
        i += 1;
    }
    args.push(dest.clone());
    proof {
        assert(spec_args_of(args) =~= spec_rsync_args(tmp@, extra@, dest@));
    }
    args
}

} // verus!
