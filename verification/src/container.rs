//! The container descriptor and the two compilers.
//!
//! `running_args` merges the capability bundles selected by the
//! descriptor's toggles, the descriptor's literal overrides and the
//! command-line overrides into one ordered argument list for the runtime's
//! `run` subcommand.  `build_args` is its simpler sibling for the image
//! build subcommand.  Both are pure functions of their inputs; the one side
//! effect an invocation needs, creating the per-container home directory,
//! is left to the caller, which is handed the exact path by `storage_path`.

use vstd::prelude::*;
use vstd::string::StringExecFns;
use crate::lex::{spec_sort_dedup, sort_dedup};
use crate::snapshot::{EnvSnapshot, spec_env_get};
use crate::text::{
    empty_strings, push_lit, push_string, contains_char, slash_to_underscore,
    spec_slash_to_underscore, str_concat, str_is_empty,
};
use crate::toggles::{ToggleImplication, Toggles};

verus! {

/// Build related configuration of a container.  The instruction text is
/// opaque to the compilers: it is streamed to the build process verbatim.
pub struct ContainerConfigBuild {
    pub instructions: String,
}

/// Run related configuration of a container: the capability toggles and the
/// user-declared literal additions.  Absent fields default to their zero
/// value when the descriptor is loaded.
pub struct ContainerConfigRun {
    pub x11: bool,
    pub wayland: bool,
    pub dri: bool,
    pub ipc: bool,
    pub pulseaudio: bool,
    pub dbus: bool,
    pub net: bool,
    pub network: String,
    pub uidmap: bool,
    pub volumes: Vec<String>,
    pub home: bool,
    pub devices: Vec<String>,
    pub env: Vec<String>,
    pub ports: Vec<String>,
    pub name: String,
    pub memory_limit: String,
    pub args: Vec<String>,
}

/// The configuration of a container.
pub struct ContainerConfig {
    pub build: ContainerConfigBuild,
    pub run: ContainerConfigRun,
}

/// A container: its canonical (namespaced) name, the base name of its
/// configuration file, that file's path, and the parsed configuration.
pub struct Container {
    pub name: String,
    pub basename: String,
    pub file: String,
    pub config: ContainerConfig,
}

/// Per-invocation overrides supplied by the command line.
pub struct InvocationContext {
    pub keep_after_exit: bool,
    pub env_overrides: Vec<String>,
    pub use_build_cache: bool,
    pub extra_trailing_args: Vec<String>,
}

/// The canonical, namespaced name of a container.
pub open spec fn spec_canonical_name(basename: Seq<char>) -> Seq<char> {
    "sandman/"@ + basename
}

/// Builds the canonical name for a configuration base name.
pub fn canonical_name(basename: &str) -> (r: String)
    ensures
        r@ == spec_canonical_name(basename@),
{
    str_concat("sandman/", basename)
}

/// The path of a container's configuration file under the fixed per-user
/// configuration root.
pub open spec fn spec_config_path(home: Seq<char>, basename: Seq<char>) -> Seq<char> {
    home + "/"@ + ".config/sandman"@ + "/"@ + basename + ".toml"@
}

/// Builds the configuration file path for a container name.
pub fn config_path(home: &str, basename: &str) -> (r: String)
    ensures
        r@ == spec_config_path(home@, basename@),
{
    let mut s = String::from_str(home);
    s.append("/");
    s.append(".config/sandman");
    s.append("/");
    s.append(basename);
    s.append(".toml");
    s
}

/// The per-container data directory under the fixed per-user storage root;
/// it backs the container's home when the home-mount toggle is on.
pub open spec fn spec_storage_path(home: Seq<char>, basename: Seq<char>) -> Seq<char> {
    home + "/"@ + ".local/share/sandman"@ + "/"@ + basename
}

/// Builds the per-container storage directory path.  When the home-mount
/// toggle is on, the caller must ensure this directory exists before the
/// compiled invocation is run.
pub fn storage_path(home: &str, basename: &str) -> (r: String)
    ensures
        r@ == spec_storage_path(home@, basename@),
{
    let mut s = String::from_str(home);
    s.append("/");
    s.append(".local/share/sandman");
    s.append("/");
    s.append(basename);
    s
}

/// The bind-mount of the per-container storage directory onto `/home`.
pub open spec fn spec_home_volume(home: Seq<char>, basename: Seq<char>) -> Seq<char> {
    spec_storage_path(home, basename) + ":/home"@
}

/// `s` when the toggle is on, nothing otherwise.
pub open spec fn cond(b: bool, s: Seq<Seq<char>>) -> Seq<Seq<char>> {
    if b {
        s
    } else {
        Seq::empty()
    }
}

/// A bundle environment entry resolved against the snapshot: an entry that
/// already carries a value (it contains `=`) is kept verbatim; a bare name
/// `N` becomes the pair `N=value`, with an unset name resolving to the
/// empty value.
pub open spec fn spec_resolve_env_entry(
    e: Seq<char>,
    env: Seq<(Seq<char>, Seq<char>)>,
) -> Seq<char> {
    if e.contains('=') {
        e
    } else {
        e + "="@ + spec_env_get(env, e)
    }
}

/// All entries of a bundle's environment list, resolved in order.
pub open spec fn spec_resolved_env(
    names: Seq<Seq<char>>,
    env: Seq<(Seq<char>, Seq<char>)>,
) -> Seq<Seq<char>> {
    names.map_values(|e: Seq<char>| spec_resolve_env_entry(e, env))
}

/// The whole volume accumulator: the home mount first, then the volume
/// contributions of the enabled toggles in the fixed evaluation order (the
/// network bundle last), then the descriptor's literal volumes.
pub open spec fn spec_volumes(c: Container, t: Toggles, home: Seq<char>) -> Seq<Seq<char>> {
    cond(c.config.run.home, seq![spec_home_volume(home, c.basename@)])
        + cond(c.config.run.x11, t.x11.volumes.deep_view())
        + cond(c.config.run.wayland, t.wayland.volumes.deep_view())
        + cond(c.config.run.dri, t.dri.volumes.deep_view())
        + cond(c.config.run.ipc, t.ipc.volumes.deep_view())
        + cond(c.config.run.pulseaudio, t.pulseaudio.volumes.deep_view())
        + cond(c.config.run.dbus, t.dbus.volumes.deep_view())
        + cond(c.config.run.uidmap, t.uidmap.volumes.deep_view())
        + cond(c.config.run.net, t.net.volumes.deep_view())
        + c.config.run.volumes.deep_view()
}

/// The whole device accumulator: the device contributions of the enabled
/// toggles in the fixed order, then the descriptor's literal devices.
pub open spec fn spec_devices(c: Container, t: Toggles) -> Seq<Seq<char>> {
    cond(c.config.run.x11, t.x11.devices.deep_view())
        + cond(c.config.run.wayland, t.wayland.devices.deep_view())
        + cond(c.config.run.dri, t.dri.devices.deep_view())
        + cond(c.config.run.ipc, t.ipc.devices.deep_view())
        + cond(c.config.run.pulseaudio, t.pulseaudio.devices.deep_view())
        + cond(c.config.run.dbus, t.dbus.devices.deep_view())
        + cond(c.config.run.uidmap, t.uidmap.devices.deep_view())
        + cond(c.config.run.net, t.net.devices.deep_view())
        + c.config.run.devices.deep_view()
}

/// The whole port accumulator: ports only come from the descriptor.
pub open spec fn spec_ports(c: Container) -> Seq<Seq<char>> {
    c.config.run.ports.deep_view()
}

/// The environment accumulator before command-line overrides: the resolved
/// environment contributions of the enabled toggles in the fixed order,
/// then the descriptor's literal entries, kept verbatim.
pub open spec fn spec_env_base(
    c: Container,
    t: Toggles,
    env: Seq<(Seq<char>, Seq<char>)>,
) -> Seq<Seq<char>> {
    cond(c.config.run.x11, spec_resolved_env(t.x11.env.deep_view(), env))
        + cond(c.config.run.wayland, spec_resolved_env(t.wayland.env.deep_view(), env))
        + cond(c.config.run.dri, spec_resolved_env(t.dri.env.deep_view(), env))
        + cond(c.config.run.ipc, spec_resolved_env(t.ipc.env.deep_view(), env))
        + cond(c.config.run.pulseaudio, spec_resolved_env(t.pulseaudio.env.deep_view(), env))
        + cond(c.config.run.dbus, spec_resolved_env(t.dbus.env.deep_view(), env))
        + cond(c.config.run.uidmap, spec_resolved_env(t.uidmap.env.deep_view(), env))
        + cond(c.config.run.net, spec_resolved_env(t.net.env.deep_view(), env))
        + c.config.run.env.deep_view()
}

/// The whole bare-argument accumulator: the extra arguments of the enabled
/// toggles in the fixed order, then the descriptor's literal arguments.
pub open spec fn spec_args_acc(c: Container, t: Toggles) -> Seq<Seq<char>> {
    cond(c.config.run.x11, t.x11.args.deep_view())
        + cond(c.config.run.wayland, t.wayland.args.deep_view())
        + cond(c.config.run.dri, t.dri.args.deep_view())
        + cond(c.config.run.ipc, t.ipc.args.deep_view())
        + cond(c.config.run.pulseaudio, t.pulseaudio.args.deep_view())
        + cond(c.config.run.dbus, t.dbus.args.deep_view())
        + cond(c.config.run.uidmap, t.uidmap.args.deep_view())
        + cond(c.config.run.net, t.net.args.deep_view())
        + c.config.run.args.deep_view()
}

/// The final environment list: with command-line overrides present, the
/// whole accumulator is normalized (sorted and deduplicated); without them
/// it is left as accumulated.
pub open spec fn spec_env_final(
    c: Container,
    t: Toggles,
    env: Seq<(Seq<char>, Seq<char>)>,
    ctx: InvocationContext,
) -> Seq<Seq<char>> {
    if ctx.env_overrides@.len() > 0 {
        spec_sort_dedup(spec_env_base(c, t, env) + ctx.env_overrides.deep_view())
    } else {
        spec_env_base(c, t, env)
    }
}

/// Network resolution: the network toggle wins over an explicit mode; with
/// both unset the network is denied.  The toggle's contribution travels in
/// the argument accumulator, so nothing is emitted for it here.
pub open spec fn spec_network_direct(run: ContainerConfigRun) -> Seq<Seq<char>> {
    if run.net {
        Seq::empty()
    } else if run.network@.len() == 0 {
        seq!["--network"@, "none"@]
    } else {
        seq!["--network"@, run.network@]
    }
}

/// The fixed head of the argument list: the subcommand, the hostname (the
/// canonical name with `/` replaced by `_`), the terminal flags, the
/// keep/name/memory options and the direct network choice.
pub open spec fn spec_prefix(c: Container, ctx: InvocationContext) -> Seq<Seq<char>> {
    seq![
        "run"@,
        "--hostname"@,
        spec_slash_to_underscore(c.name@),
        "--interactive"@,
        "--tty"@,
    ] + cond(!ctx.keep_after_exit, seq!["--rm"@]) + cond(
        c.config.run.name@.len() > 0,
        seq!["--name"@, c.config.run.name@],
    ) + cond(
        c.config.run.memory_limit@.len() > 0,
        seq!["--memory"@, c.config.run.memory_limit@],
    ) + spec_network_direct(c.config.run)
}

/// Each element of `xs` preceded by `flag`.
pub open spec fn spec_pairs(flag: Seq<char>, xs: Seq<Seq<char>>) -> Seq<Seq<char>>
    decreases xs.len(),
{
    if xs.len() == 0 {
        Seq::empty()
    } else {
        seq![flag, xs[0]] + spec_pairs(flag, xs.drop_first())
    }
}

/// Appending one element to `xs` appends one flagged pair.
pub proof fn lemma_pairs_push(flag: Seq<char>, xs: Seq<Seq<char>>, x: Seq<char>)
    ensures
        spec_pairs(flag, xs.push(x)) == spec_pairs(flag, xs) + seq![flag, x],
    decreases xs.len(),
{
    if xs.len() == 0 {
        assert(xs.push(x)[0] == x);
        assert(xs.push(x).drop_first() =~= xs);
        assert(spec_pairs(flag, xs) =~= Seq::<Seq<char>>::empty());
        assert(spec_pairs(flag, xs.push(x)) =~= spec_pairs(flag, xs) + seq![flag, x]);
    } else {
        lemma_pairs_push(flag, xs.drop_first(), x);
        assert(xs.push(x).drop_first() =~= xs.drop_first().push(x));
        assert(xs.push(x)[0] == xs[0]);
        assert(spec_pairs(flag, xs.push(x)) =~= spec_pairs(flag, xs) + seq![flag, x]);
    }
}

/// The full compiled `run` argument list: the fixed prefix, the flagged
/// accumulators in their fixed order, the bare arguments, the image
/// reference, and the trailing command.
pub open spec fn spec_running_args(
    c: Container,
    t: Toggles,
    env: Seq<(Seq<char>, Seq<char>)>,
    ctx: InvocationContext,
    home: Seq<char>,
) -> Seq<Seq<char>> {
    spec_prefix(c, ctx) + spec_pairs("--volume"@, spec_volumes(c, t, home)) + spec_pairs(
        "--device"@,
        spec_devices(c, t),
    ) + spec_pairs("-p"@, spec_ports(c)) + spec_pairs("--env"@, spec_env_final(c, t, env, ctx))
        + spec_args_acc(c, t) + seq![c.name@] + ctx.extra_trailing_args.deep_view()
}

/// The compiled build argument list: the fixed subcommand marker, the cache
/// flag when caching is requested, then the fixed instruction-stream and
/// tag flags with the image name.
pub open spec fn spec_build_args(c: Container, ctx: InvocationContext) -> Seq<Seq<char>> {
    seq!["bud"@] + cond(ctx.use_build_cache, seq!["--layers=true"@]) + seq![
        "-f"@,
        "-"@,
        "-t"@,
        c.name@,
    ]
}

/// Appends clones of all of `src` to `dst`.
fn extend_cloned(dst: &mut Vec<String>, src: &Vec<String>)
    ensures
        final(dst).deep_view() == old(dst).deep_view() + src.deep_view(),
{
    let ghost d0 = dst.deep_view();
    let mut i: usize = 0;
    proof {
        assert(d0 + src.deep_view().take(0) =~= d0);
    }
    while i < src.len()
        invariant
            i <= src.len(),
            src@.len() == src.deep_view().len(),
            dst.deep_view() == d0 + src.deep_view().take(i as int),
        decreases src.len() - i,
    {
        let s = src[i].clone();
        proof {
            assert(s@ == src.deep_view()[i as int]);
        }
        push_string(dst, s);
        proof {
            assert(
                (d0 + src.deep_view().take(i as int)).push(src.deep_view()[i as int]) =~= d0
                    + src.deep_view().take(i as int + 1));
        }
        i += 1;
    }
    proof {
        assert(src.deep_view().take(src.len() as int) =~= src.deep_view());
    }
}

/// One entry resolved against the snapshot, as `spec_resolve_env_entry`.
fn resolve_env_entry(e: &String, env: &EnvSnapshot) -> (r: String)
    ensures
        r@ == spec_resolve_env_entry(e@, env@),
{
    if contains_char(e.as_str(), '=') {
        e.clone()
    } else {
        let mut s = e.clone();
        s.append("=");
        s.append(env.get(e.as_str()).as_str());
        s
    }
}

/// Appends the resolved forms of all of `names` to `dst`.
fn extend_resolved(dst: &mut Vec<String>, names: &Vec<String>, env: &EnvSnapshot)
    ensures
        final(dst).deep_view() == old(dst).deep_view() + spec_resolved_env(
            names.deep_view(),
            env@,
        ),
{
    let ghost d0 = dst.deep_view();
    let ghost nv = names.deep_view();
    let mut i: usize = 0;
    proof {
        assert(d0 + spec_resolved_env(nv.take(0), env@) =~= d0);
    }
    while i < names.len()
        invariant
            i <= names.len(),
            names@.len() == nv.len(),
            nv == names.deep_view(),
            dst.deep_view() == d0 + spec_resolved_env(nv.take(i as int), env@),
        decreases names.len() - i,
    {
        let r = resolve_env_entry(&names[i], env);
        proof {
            assert(names[i as int]@ == nv[i as int]);
        }
        push_string(dst, r);
        proof {
            assert(
                (d0 + spec_resolved_env(nv.take(i as int), env@)).push(
                    spec_resolve_env_entry(nv[i as int], env@),
                ) =~= d0 + spec_resolved_env(nv.take(i as int + 1), env@));
        }
        i += 1;
    }
    proof {
        assert(spec_resolved_env(nv.take(names@.len() as int), env@) =~= spec_resolved_env(
            nv,
            env@,
        ));
    }
}

/// When `enabled`, appends a bundle's contributions to the four
/// accumulators, resolving its environment names against the snapshot.
fn apply_bundle_if(
    enabled: bool,
    b: &ToggleImplication,
    env: &EnvSnapshot,
    volumes: &mut Vec<String>,
    devices: &mut Vec<String>,
    env_acc: &mut Vec<String>,
    args_acc: &mut Vec<String>,
)
    ensures
        final(volumes).deep_view() == old(volumes).deep_view() + cond(
            enabled,
            b.volumes.deep_view(),
        ),
        final(devices).deep_view() == old(devices).deep_view() + cond(
            enabled,
            b.devices.deep_view(),
        ),
        final(env_acc).deep_view() == old(env_acc).deep_view() + cond(
            enabled,
            spec_resolved_env(b.env.deep_view(), env@),
        ),
        final(args_acc).deep_view() == old(args_acc).deep_view() + cond(
            enabled,
            b.args.deep_view(),
        ),
{
    if enabled {
        extend_cloned(volumes, &b.volumes);
        extend_cloned(devices, &b.devices);
        extend_resolved(env_acc, &b.env, env);
        extend_cloned(args_acc, &b.args);
    } else {
        proof {
            assert(volumes.deep_view() + Seq::<Seq<char>>::empty() =~= volumes.deep_view());
            assert(devices.deep_view() + Seq::<Seq<char>>::empty() =~= devices.deep_view());
            assert(env_acc.deep_view() + Seq::<Seq<char>>::empty() =~= env_acc.deep_view());
            assert(args_acc.deep_view() + Seq::<Seq<char>>::empty() =~= args_acc.deep_view());
        }
    }
}

/// Appends one string, as a one-element concatenation.
fn extend_one(dst: &mut Vec<String>, s: String)
    ensures
        final(dst).deep_view() == old(dst).deep_view() + seq![s@],
{
    let ghost sv = s@;
    let ghost d0 = dst.deep_view();
    push_string(dst, s);
    proof {
        assert(d0.push(sv) =~= d0 + seq![sv]);
    }
}

/// Appends the single flag when `enabled`.
fn push_flag_if(dst: &mut Vec<String>, enabled: bool, flag: &str)
    ensures
        final(dst).deep_view() == old(dst).deep_view() + cond(enabled, seq![flag@]),
{
    if enabled {
        push_lit(dst, flag);
        proof {
            assert(old(dst).deep_view().push(flag@) =~= old(dst).deep_view() + seq![flag@]);
        }
    } else {
        proof {
            assert(dst.deep_view() + Seq::<Seq<char>>::empty() =~= dst.deep_view());
        }
    }
}

/// Appends `flag value` when the value is non-empty.
fn push_opt_pair(dst: &mut Vec<String>, flag: &str, value: &String)
    ensures
        final(dst).deep_view() == old(dst).deep_view() + cond(
            value@.len() > 0,
            seq![flag@, value@],
        ),
{
    let ghost d0 = dst.deep_view();
    if !str_is_empty(value.as_str()) {
        push_lit(dst, flag);
        push_string(dst, value.clone());
        proof {
            assert(d0.push(flag@).push(value@) =~= d0 + seq![flag@, value@]);
        }
    } else {
        proof {
            assert(d0 + Seq::<Seq<char>>::empty() =~= d0);
        }
    }
}

/// Appends the direct network choice of `spec_network_direct`.
fn push_network(dst: &mut Vec<String>, run_net: bool, network: &String)
    ensures
        run_net ==> final(dst).deep_view() == old(dst).deep_view(),
        !run_net && network@.len() == 0 ==> final(dst).deep_view() == old(dst).deep_view()
            + seq!["--network"@, "none"@],
        !run_net && network@.len() > 0 ==> final(dst).deep_view() == old(dst).deep_view()
            + seq!["--network"@, network@],
{
    let ghost d0 = dst.deep_view();
    if run_net {
    } else if str_is_empty(network.as_str()) {
        push_lit(dst, "--network");
        push_lit(dst, "none");
        proof {
            assert(d0.push("--network"@).push("none"@) =~= d0 + seq!["--network"@, "none"@]);
        }
    } else {
        push_lit(dst, "--network");
        push_string(dst, network.clone());
        proof {
            assert(d0.push("--network"@).push(network@) =~= d0 + seq!["--network"@, network@]);
        }
    }
}

/// Appends a `flag value` pair for every accumulator entry, in order.
fn append_pairs(dst: &mut Vec<String>, flag: &str, xs: &Vec<String>)
    ensures
        final(dst).deep_view() == old(dst).deep_view() + spec_pairs(flag@, xs.deep_view()),
{
    let ghost d0 = dst.deep_view();
    let ghost xv = xs.deep_view();
    let mut i: usize = 0;
    proof {
        assert(d0 + spec_pairs(flag@, xv.take(0)) =~= d0);
    }
    while i < xs.len()
        invariant
            i <= xs.len(),
            xs@.len() == xv.len(),
            xv == xs.deep_view(),
            dst.deep_view() == d0 + spec_pairs(flag@, xv.take(i as int)),
        decreases xs.len() - i,
    {
        push_lit(dst, flag);
        let s = xs[i].clone();
        proof {
            assert(s@ == xv[i as int]);
        }
        push_string(dst, s);
        proof {
            lemma_pairs_push(flag@, xv.take(i as int), xv[i as int]);
            assert(xv.take(i as int).push(xv[i as int]) =~= xv.take(i as int + 1));
            assert(
                (d0 + spec_pairs(flag@, xv.take(i as int))).push(flag@).push(xv[i as int]) =~= d0
                    + spec_pairs(flag@, xv.take(i as int + 1)));
        }
        i += 1;
    }
    proof {
        assert(xv.take(xs@.len() as int) =~= xv);
    }
}

impl Container {
    /// The fixed head of the argument list, as `spec_prefix`.
    fn prefix_args(&self, ctx: &InvocationContext) -> (r: Vec<String>)
        ensures
            r.deep_view() == spec_prefix(*self, *ctx),
    {
        let mut arguments = empty_strings();
        push_lit(&mut arguments, "run");
        push_lit(&mut arguments, "--hostname");
        push_string(&mut arguments, slash_to_underscore(self.name.as_str()));
        push_lit(&mut arguments, "--interactive");
        push_lit(&mut arguments, "--tty");
        proof {
            assert(arguments.deep_view() =~= seq![
                "run"@,
                "--hostname"@,
                spec_slash_to_underscore(self.name@),
                "--interactive"@,
                "--tty"@,
            ]);
        }
        push_flag_if(&mut arguments, !ctx.keep_after_exit, "--rm");
        push_opt_pair(&mut arguments, "--name", &self.config.run.name);
        push_opt_pair(&mut arguments, "--memory", &self.config.run.memory_limit);
        push_network(&mut arguments, self.config.run.net, &self.config.run.network);
        arguments
    }

    /// The volume, device, port, environment and bare-argument
    /// accumulators: the home mount, then the contributions of the enabled
    /// toggles in the fixed evaluation order, then the descriptor literals.
    fn accumulators(&self, toggles: &Toggles, env: &EnvSnapshot, home: &str) -> (r: (
        Vec<String>,
        Vec<String>,
        Vec<String>,
        Vec<String>,
        Vec<String>,
    ))
        ensures
            r.0.deep_view() == spec_volumes(*self, *toggles, home@),
            r.1.deep_view() == spec_devices(*self, *toggles),
            r.2.deep_view() == spec_ports(*self),
            r.3.deep_view() == spec_env_base(*self, *toggles, env@),
            r.4.deep_view() == spec_args_acc(*self, *toggles),
    {
        let mut volumes = empty_strings();
        let mut devices = empty_strings();
        let mut ports = empty_strings();
        let mut env_acc = empty_strings();
        let mut args_acc = empty_strings();

        // the home mount comes before any toggle contribution
        if self.config.run.home {
            let mut vol = storage_path(home, self.basename.as_str());
            vol.append(":/home");
            extend_one(&mut volumes, vol);
        }
        proof {
            assert(volumes.deep_view() =~= cond(
                self.config.run.home,
                seq![spec_home_volume(home@, self.basename@)],
            ));
        }

        // toggle contributions in the fixed evaluation order; the network
        // toggle comes last
        let run = &self.config.run;
        apply_bundle_if(run.x11, &toggles.x11, env, &mut volumes, &mut devices, &mut env_acc, &mut args_acc);
        proof {
            assert(devices.deep_view() =~= cond(run.x11, toggles.x11.devices.deep_view()));
            assert(env_acc.deep_view() =~= cond(
                run.x11,
                spec_resolved_env(toggles.x11.env.deep_view(), env@),
            ));
            assert(args_acc.deep_view() =~= cond(run.x11, toggles.x11.args.deep_view()));
        }
        apply_bundle_if(run.wayland, &toggles.wayland, env, &mut volumes, &mut devices, &mut env_acc, &mut args_acc);
        apply_bundle_if(run.dri, &toggles.dri, env, &mut volumes, &mut devices, &mut env_acc, &mut args_acc);
        apply_bundle_if(run.ipc, &toggles.ipc, env, &mut volumes, &mut devices, &mut env_acc, &mut args_acc);
        apply_bundle_if(run.pulseaudio, &toggles.pulseaudio, env, &mut volumes, &mut devices, &mut env_acc, &mut args_acc);
        apply_bundle_if(run.dbus, &toggles.dbus, env, &mut volumes, &mut devices, &mut env_acc, &mut args_acc);
        apply_bundle_if(run.uidmap, &toggles.uidmap, env, &mut volumes, &mut devices, &mut env_acc, &mut args_acc);
        apply_bundle_if(run.net, &toggles.net, env, &mut volumes, &mut devices, &mut env_acc, &mut args_acc);

        // descriptor literals, after all toggle contributions
        extend_cloned(&mut volumes, &self.config.run.volumes);
        extend_cloned(&mut env_acc, &self.config.run.env);
        extend_cloned(&mut devices, &self.config.run.devices);
        extend_cloned(&mut ports, &self.config.run.ports);
        extend_cloned(&mut args_acc, &self.config.run.args);
        proof {
            assert(ports.deep_view() =~= spec_ports(*self));
        }
        (volumes, devices, ports, env_acc, args_acc)
    }

    /// Compiles the ordered argument list for the runtime's `run`
    /// subcommand from this descriptor, the capability catalog, the
    /// environment snapshot, the command-line context and the user's home
    /// directory.  The result is pinned exactly by `spec_running_args`: the
    /// fixed prefix, the home mount, the toggle contributions in the fixed
    /// evaluation order, the descriptor literals, the normalized
    /// environment, the image reference and the trailing command.
    pub fn running_args(
        &self,
        toggles: &Toggles,
        env: &EnvSnapshot,
        ctx: &InvocationContext,
        home: &str,
    ) -> (r: Vec<String>)
        ensures
            r.deep_view() == spec_running_args(*self, *toggles, env@, *ctx, home@),
    {
        let mut arguments = self.prefix_args(ctx);
        let (volumes, devices, ports, env_acc, args_acc) = self.accumulators(
            toggles,
            env,
            home,
        );

        // command-line overrides force a canonical environment list
        let env_final = if ctx.env_overrides.len() > 0 {
            let mut with_overrides = env_acc;
            extend_cloned(&mut with_overrides, &ctx.env_overrides);
            sort_dedup(with_overrides)
        } else {
            env_acc
        };
        proof {
            assert(env_final.deep_view() == spec_env_final(*self, *toggles, env@, *ctx));
        }

        // flatten the accumulators in the fixed order
        append_pairs(&mut arguments, "--volume", &volumes);
        append_pairs(&mut arguments, "--device", &devices);
        append_pairs(&mut arguments, "-p", &ports);
        append_pairs(&mut arguments, "--env", &env_final);
        extend_cloned(&mut arguments, &args_acc);

        // the image reference, then the trailing command
        extend_one(&mut arguments, self.name.clone());
        extend_cloned(&mut arguments, &ctx.extra_trailing_args);
        arguments
    }

    /// Compiles the argument list for the runtime's image-build
    /// subcommand.  The instruction text itself is not an argument: the
    /// caller streams it to the build process on its standard input.
    pub fn build_args(&self, ctx: &InvocationContext) -> (r: Vec<String>)
        ensures
            r.deep_view() == spec_build_args(*self, *ctx),
    {
        let mut arguments = empty_strings();
        push_lit(&mut arguments, "bud");
        proof {
            assert(arguments.deep_view() =~= seq!["bud"@]);
        }
        push_flag_if(&mut arguments, ctx.use_build_cache, "--layers=true");
        push_lit(&mut arguments, "-f");
        push_lit(&mut arguments, "-");
        push_lit(&mut arguments, "-t");
        push_string(&mut arguments, self.name.clone());
        proof {
            assert(arguments.deep_view() =~= spec_build_args(*self, *ctx));
        }
        arguments
    }
}

} // verus!
