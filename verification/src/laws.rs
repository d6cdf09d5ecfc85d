//! The global guarantees of the invocation compiler, stated and proved over
//! the specification functions that pin down `running_args`.

use vstd::prelude::*;
use vstd::seq_lib::lemma_concat_associative;
use crate::container::{
    cond, spec_args_acc, spec_devices, spec_env_base, spec_env_final, spec_home_volume,
    spec_network_direct, spec_prefix, spec_resolved_env, spec_running_args, spec_volumes,
    Container, InvocationContext,
};
use crate::lex::{
    lemma_sort_dedup_membership, lemma_sort_dedup_sorted, lemma_sorted_uniq_no_duplicates,
    sorted_uniq,
};
use crate::toggles::Toggles;

verus! {

/// `x` occurs in `s` as a contiguous block that lies before the contiguous
/// block `y`.
pub open spec fn block_before(s: Seq<Seq<char>>, x: Seq<Seq<char>>, y: Seq<Seq<char>>) -> bool {
    exists|a: Seq<Seq<char>>, b: Seq<Seq<char>>, c: Seq<Seq<char>>|
        s == #[trigger] (a + x + b + y + c)
}

/// `x` occurs in `s` as a contiguous block.
pub open spec fn has_block(s: Seq<Seq<char>>, x: Seq<Seq<char>>) -> bool {
    exists|a: Seq<Seq<char>>, c: Seq<Seq<char>>| s == #[trigger] (a + x + c)
}

/// `s` ends with the block `x`.
pub open spec fn ends_with(s: Seq<Seq<char>>, x: Seq<Seq<char>>) -> bool {
    exists|a: Seq<Seq<char>>| s == #[trigger] (a + x)
}

/// Regrouping of a four-term stretch of a concatenation chain.
proof fn lemma_group4(
    p: Seq<Seq<char>>,
    s1: Seq<Seq<char>>,
    s2: Seq<Seq<char>>,
    s3: Seq<Seq<char>>,
    s4: Seq<Seq<char>>,
)
    ensures
        p + s1 + s2 + s3 + s4 == p + (s1 + s2 + s3 + s4),
{
    lemma_concat_associative(p, s1, s2);
    lemma_concat_associative(p, s1 + s2, s3);
    lemma_concat_associative(p, s1 + s2 + s3, s4);
}

/// Regrouping of a three-term stretch of a concatenation chain.
proof fn lemma_group3(p: Seq<Seq<char>>, s1: Seq<Seq<char>>, s2: Seq<Seq<char>>, s3: Seq<Seq<char>>)
    ensures
        p + s1 + s2 + s3 == p + (s1 + s2 + s3),
{
    lemma_concat_associative(p, s1, s2);
    lemma_concat_associative(p, s1 + s2, s3);
}

/// The toggle evaluation order is fixed by the compiler, not by the
/// descriptor: whenever the x11 and dbus toggles are both enabled, every
/// accumulator carries x11's contributions as a block strictly before
/// dbus's contributions, whatever else the descriptor holds.
pub proof fn lemma_toggle_order(
    c: Container,
    t: Toggles,
    env: Seq<(Seq<char>, Seq<char>)>,
    home: Seq<char>,
)
    requires
        c.config.run.x11,
        c.config.run.dbus,
    ensures
        block_before(
            spec_volumes(c, t, home),
            t.x11.volumes.deep_view(),
            t.dbus.volumes.deep_view(),
        ),
        block_before(spec_devices(c, t), t.x11.devices.deep_view(), t.dbus.devices.deep_view()),
        block_before(
            spec_env_base(c, t, env),
            spec_resolved_env(t.x11.env.deep_view(), env),
            spec_resolved_env(t.dbus.env.deep_view(), env),
        ),
        block_before(spec_args_acc(c, t), t.x11.args.deep_view(), t.dbus.args.deep_view()),
{
    let run = c.config.run;
    {
        let a = cond(run.home, seq![spec_home_volume(home, c.basename@)]);
        let x = t.x11.volumes.deep_view();
        let b = cond(run.wayland, t.wayland.volumes.deep_view()) + cond(
            run.dri,
            t.dri.volumes.deep_view(),
        ) + cond(run.ipc, t.ipc.volumes.deep_view()) + cond(
            run.pulseaudio,
            t.pulseaudio.volumes.deep_view(),
        );
        let y = t.dbus.volumes.deep_view();
        let z = cond(run.uidmap, t.uidmap.volumes.deep_view()) + cond(
            run.net,
            t.net.volumes.deep_view(),
        ) + run.volumes.deep_view();
        lemma_group4(
            a + x,
            cond(run.wayland, t.wayland.volumes.deep_view()),
            cond(run.dri, t.dri.volumes.deep_view()),
            cond(run.ipc, t.ipc.volumes.deep_view()),
            cond(run.pulseaudio, t.pulseaudio.volumes.deep_view()),
        );
        lemma_group3(
            a + x + b + y,
            cond(run.uidmap, t.uidmap.volumes.deep_view()),
            cond(run.net, t.net.volumes.deep_view()),
            run.volumes.deep_view(),
        );
        assert(spec_volumes(c, t, home) == a + x + b + y + z);
    }
    {
        let a = Seq::<Seq<char>>::empty();
        let x = t.x11.devices.deep_view();
        let b = cond(run.wayland, t.wayland.devices.deep_view()) + cond(
            run.dri,
            t.dri.devices.deep_view(),
        ) + cond(run.ipc, t.ipc.devices.deep_view()) + cond(
            run.pulseaudio,
            t.pulseaudio.devices.deep_view(),
        );
        let y = t.dbus.devices.deep_view();
        let z = cond(run.uidmap, t.uidmap.devices.deep_view()) + cond(
            run.net,
            t.net.devices.deep_view(),
        ) + run.devices.deep_view();
        assert(a + x =~= cond(run.x11, t.x11.devices.deep_view()));
        lemma_group4(
            a + x,
            cond(run.wayland, t.wayland.devices.deep_view()),
            cond(run.dri, t.dri.devices.deep_view()),
            cond(run.ipc, t.ipc.devices.deep_view()),
            cond(run.pulseaudio, t.pulseaudio.devices.deep_view()),
        );
        lemma_group3(
            a + x + b + y,
            cond(run.uidmap, t.uidmap.devices.deep_view()),
            cond(run.net, t.net.devices.deep_view()),
            run.devices.deep_view(),
        );
        assert(spec_devices(c, t) == a + x + b + y + z);
    }
    {
        let a = Seq::<Seq<char>>::empty();
        let x = spec_resolved_env(t.x11.env.deep_view(), env);
        let b = cond(run.wayland, spec_resolved_env(t.wayland.env.deep_view(), env)) + cond(
            run.dri,
            spec_resolved_env(t.dri.env.deep_view(), env),
        ) + cond(run.ipc, spec_resolved_env(t.ipc.env.deep_view(), env)) + cond(
            run.pulseaudio,
            spec_resolved_env(t.pulseaudio.env.deep_view(), env),
        );
        let y = spec_resolved_env(t.dbus.env.deep_view(), env);
        let z = cond(run.uidmap, spec_resolved_env(t.uidmap.env.deep_view(), env)) + cond(
            run.net,
            spec_resolved_env(t.net.env.deep_view(), env),
        ) + run.env.deep_view();
        assert(a + x =~= cond(run.x11, spec_resolved_env(t.x11.env.deep_view(), env)));
        lemma_group4(
            a + x,
            cond(run.wayland, spec_resolved_env(t.wayland.env.deep_view(), env)),
            cond(run.dri, spec_resolved_env(t.dri.env.deep_view(), env)),
            cond(run.ipc, spec_resolved_env(t.ipc.env.deep_view(), env)),
            cond(run.pulseaudio, spec_resolved_env(t.pulseaudio.env.deep_view(), env)),
        );
        lemma_group3(
            a + x + b + y,
            cond(run.uidmap, spec_resolved_env(t.uidmap.env.deep_view(), env)),
            cond(run.net, spec_resolved_env(t.net.env.deep_view(), env)),
            run.env.deep_view(),
        );
        assert(spec_env_base(c, t, env) == a + x + b + y + z);
    }
    {
        let a = Seq::<Seq<char>>::empty();
        let x = t.x11.args.deep_view();
        let b = cond(run.wayland, t.wayland.args.deep_view()) + cond(
            run.dri,
            t.dri.args.deep_view(),
        ) + cond(run.ipc, t.ipc.args.deep_view()) + cond(
            run.pulseaudio,
            t.pulseaudio.args.deep_view(),
        );
        let y = t.dbus.args.deep_view();
        let z = cond(run.uidmap, t.uidmap.args.deep_view()) + cond(
            run.net,
            t.net.args.deep_view(),
        ) + run.args.deep_view();
        assert(a + x =~= cond(run.x11, t.x11.args.deep_view()));
        lemma_group4(
            a + x,
            cond(run.wayland, t.wayland.args.deep_view()),
            cond(run.dri, t.dri.args.deep_view()),
            cond(run.ipc, t.ipc.args.deep_view()),
            cond(run.pulseaudio, t.pulseaudio.args.deep_view()),
        );
        lemma_group3(
            a + x + b + y,
            cond(run.uidmap, t.uidmap.args.deep_view()),
            cond(run.net, t.net.args.deep_view()),
            run.args.deep_view(),
        );
        assert(spec_args_acc(c, t) == a + x + b + y + z);
    }
}

/// Network precedence.  The network toggle always wins over an explicit
/// network mode: with the toggle on, the prefix emits no network option at
/// all and the toggle's bundle travels in the argument accumulator.  With
/// the toggle off, the network is the explicit mode when one is set and is
/// denied otherwise.  The prefix always ends with this direct choice.
pub proof fn lemma_network_precedence(c: Container, t: Toggles, ctx: InvocationContext)
    ensures
        c.config.run.net ==> spec_network_direct(c.config.run) == Seq::<Seq<char>>::empty(),
        c.config.run.net ==> has_block(spec_args_acc(c, t), t.net.args.deep_view()),
        !c.config.run.net && c.config.run.network@.len() == 0 ==> spec_network_direct(c.config.run)
            == seq!["--network"@, "none"@],
        !c.config.run.net && c.config.run.network@.len() > 0 ==> spec_network_direct(c.config.run)
            == seq!["--network"@, c.config.run.network@],
        ends_with(spec_prefix(c, ctx), spec_network_direct(c.config.run)),
{
    let run = c.config.run;
    if run.net {
        let a = cond(run.x11, t.x11.args.deep_view()) + cond(
            run.wayland,
            t.wayland.args.deep_view(),
        ) + cond(run.dri, t.dri.args.deep_view()) + cond(run.ipc, t.ipc.args.deep_view()) + cond(
            run.pulseaudio,
            t.pulseaudio.args.deep_view(),
        ) + cond(run.dbus, t.dbus.args.deep_view()) + cond(run.uidmap, t.uidmap.args.deep_view());
        let x = t.net.args.deep_view();
        let z = run.args.deep_view();
        assert(spec_args_acc(c, t) == a + x + z);
    }
    let head = seq![
        "run"@,
        "--hostname"@,
        crate::text::spec_slash_to_underscore(c.name@),
        "--interactive"@,
        "--tty"@,
    ] + cond(!ctx.keep_after_exit, seq!["--rm"@]) + cond(
        run.name@.len() > 0,
        seq!["--name"@, run.name@],
    ) + cond(run.memory_limit@.len() > 0, seq!["--memory"@, run.memory_limit@]);
    assert(spec_prefix(c, ctx) == head + spec_network_direct(run));
}

/// Compilation is deterministic: two compilations of the same descriptor,
/// catalog, environment snapshot and context yield the same argument list.
pub proof fn lemma_compile_idempotent(
    r1: Seq<Seq<char>>,
    r2: Seq<Seq<char>>,
    c: Container,
    t: Toggles,
    env: Seq<(Seq<char>, Seq<char>)>,
    ctx: InvocationContext,
    home: Seq<char>,
)
    requires
        r1 == spec_running_args(c, t, env, ctx, home),
        r2 == spec_running_args(c, t, env, ctx, home),
    ensures
        r1 == r2,
{
}

/// With command-line environment overrides present, the final environment
/// list is sorted, duplicate-free, and holds exactly the members of the
/// accumulated environment plus the overrides.  No other accumulator
/// depends on the overrides: the volume, device, port and argument
/// accumulators take no part of the context at all.
pub proof fn lemma_env_overrides_normalize(
    c: Container,
    t: Toggles,
    env: Seq<(Seq<char>, Seq<char>)>,
    ctx: InvocationContext,
)
    requires
        ctx.env_overrides@.len() > 0,
    ensures
        sorted_uniq(spec_env_final(c, t, env, ctx)),
        spec_env_final(c, t, env, ctx).no_duplicates(),
        forall|y: Seq<char>| #[trigger]
            spec_env_final(c, t, env, ctx).contains(y) <==> (spec_env_base(c, t, env)
                + ctx.env_overrides.deep_view()).contains(y),
{
    let base = spec_env_base(c, t, env) + ctx.env_overrides.deep_view();
    lemma_sort_dedup_sorted(base);
    lemma_sort_dedup_membership(base);
    lemma_sorted_uniq_no_duplicates(spec_env_final(c, t, env, ctx));
}

} // verus!
