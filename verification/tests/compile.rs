use sandman::container::{Container, ContainerConfig, ContainerConfigBuild, ContainerConfigRun};
use sandman::container::InvocationContext;
use sandman::snapshot::{EnvSnapshot, EnvVar};
use sandman::toggles::Toggles;

fn s(x: &str) -> String {
    String::from(x)
}

fn strings(xs: &[&str]) -> Vec<String> {
    xs.iter().map(|x| s(x)).collect()
}

fn zero_run() -> ContainerConfigRun {
    ContainerConfigRun {
        x11: false,
        wayland: false,
        dri: false,
        ipc: false,
        pulseaudio: false,
        dbus: false,
        net: false,
        network: s(""),
        uidmap: false,
        volumes: vec![],
        home: false,
        devices: vec![],
        env: vec![],
        ports: vec![],
        name: s(""),
        memory_limit: s(""),
        args: vec![],
    }
}

fn container(name: &str, basename: &str, run: ContainerConfigRun) -> Container {
    Container {
        name: s(name),
        basename: s(basename),
        file: s(""),
        config: ContainerConfig { build: ContainerConfigBuild { instructions: s("FROM x") }, run },
    }
}

fn default_ctx() -> InvocationContext {
    InvocationContext {
        keep_after_exit: false,
        env_overrides: vec![],
        use_build_cache: false,
        extra_trailing_args: vec![],
    }
}

fn snapshot(pairs: &[(&str, &str)]) -> EnvSnapshot {
    EnvSnapshot {
        vars: pairs.iter().map(|(n, v)| EnvVar { name: s(n), value: s(v) }).collect(),
    }
}

#[test]
fn minimal_descriptor_with_ipc() {
    let c = container("demo", "demo", ContainerConfigRun { ipc: true, ..zero_run() });
    let env = snapshot(&[]);
    let t = Toggles::get_toggles(&env, 1000);
    let args = c.running_args(&t, &env, &default_ctx(), "/home/user");
    assert_eq!(
        args,
        strings(&[
            "run",
            "--hostname",
            "demo",
            "--interactive",
            "--tty",
            "--rm",
            "--network",
            "none",
            "--ipc",
            "host",
            "demo",
        ])
    );
}

#[test]
fn hostname_replaces_slashes() {
    let c = container("sandman/demo", "demo", zero_run());
    let env = snapshot(&[]);
    let t = Toggles::get_toggles(&env, 1000);
    let args = c.running_args(&t, &env, &default_ctx(), "/home/user");
    assert_eq!(args[1], s("--hostname"));
    assert_eq!(args[2], s("sandman_demo"));
    // the image reference keeps the canonical name untouched
    assert_eq!(args[args.len() - 1], s("sandman/demo"));
}

#[test]
fn keep_omits_rm_and_name_memory_appear() {
    let run = ContainerConfigRun { name: s("box"), memory_limit: s("2g"), ..zero_run() };
    let c = container("demo", "demo", run);
    let env = snapshot(&[]);
    let t = Toggles::get_toggles(&env, 1000);
    let ctx = InvocationContext { keep_after_exit: true, ..default_ctx() };
    let args = c.running_args(&t, &env, &ctx, "/home/user");
    assert_eq!(
        args,
        strings(&[
            "run",
            "--hostname",
            "demo",
            "--interactive",
            "--tty",
            "--name",
            "box",
            "--memory",
            "2g",
            "--network",
            "none",
            "demo",
        ])
    );
}

#[test]
fn x11_before_dbus_in_every_accumulator() {
    let run = ContainerConfigRun { x11: true, dbus: true, ..zero_run() };
    let c = container("demo", "demo", run);
    let env = snapshot(&[("DISPLAY", ":0"), ("XDG_RUNTIME_DIR", "/run/user/1000")]);
    let t = Toggles::get_toggles(&env, 1000);
    let args = c.running_args(&t, &env, &default_ctx(), "/home/user");
    assert_eq!(
        args,
        strings(&[
            "run",
            "--hostname",
            "demo",
            "--interactive",
            "--tty",
            "--rm",
            "--network",
            "none",
            "--volume",
            "/tmp/.X11-unix:/tmp/.X11-unix",
            "--volume",
            "/run/user/1000/bus:/run/user/1000/bus",
            "--env",
            "DISPLAY=:0",
            "--env",
            "XCURSOR_THEME=",
            "--env",
            "XCURSOR_SIZE=",
            "--env",
            "DBUS_SESSION_BUS_ADDRESS=unix:path=/run/user/1000/bus",
            "demo",
        ])
    );
}

#[test]
fn network_toggle_wins_over_explicit_mode() {
    let run = ContainerConfigRun { net: true, network: s("mynet"), ..zero_run() };
    let c = container("demo", "demo", run);
    let env = snapshot(&[]);
    let t = Toggles::get_toggles(&env, 1000);
    let args = c.running_args(&t, &env, &default_ctx(), "/home/user");
    // the toggle's bundle is used; the explicit mode is not honored
    assert_eq!(
        args,
        strings(&[
            "run",
            "--hostname",
            "demo",
            "--interactive",
            "--tty",
            "--rm",
            "--network",
            "slirp4netns",
            "demo",
        ])
    );
}

#[test]
fn explicit_network_mode_without_toggle() {
    let run = ContainerConfigRun { network: s("bridge"), ..zero_run() };
    let c = container("demo", "demo", run);
    let env = snapshot(&[]);
    let t = Toggles::get_toggles(&env, 1000);
    let args = c.running_args(&t, &env, &default_ctx(), "/home/user");
    assert_eq!(args[6], s("--network"));
    assert_eq!(args[7], s("bridge"));
    assert!(!args.iter().any(|a| a == "none"));
}

#[test]
fn default_network_is_denied() {
    let c = container("demo", "demo", zero_run());
    let env = snapshot(&[]);
    let t = Toggles::get_toggles(&env, 1000);
    let args = c.running_args(&t, &env, &default_ctx(), "/home/user");
    assert_eq!(args[6], s("--network"));
    assert_eq!(args[7], s("none"));
}

#[test]
fn compiling_twice_is_byte_identical() {
    let run = ContainerConfigRun {
        x11: true,
        dbus: true,
        uidmap: true,
        home: true,
        volumes: strings(&["/data:/data"]),
        env: strings(&["FOO=bar"]),
        ..zero_run()
    };
    let c = container("sandman/demo", "demo", run);
    let env = snapshot(&[("DISPLAY", ":0"), ("XDG_RUNTIME_DIR", "/run/user/1000")]);
    let t = Toggles::get_toggles(&env, 1000);
    let ctx = InvocationContext { env_overrides: strings(&["A=1"]), ..default_ctx() };
    let first = c.running_args(&t, &env, &ctx, "/home/user");
    let second = c.running_args(&t, &env, &ctx, "/home/user");
    assert_eq!(first, second);
}

#[test]
fn env_overrides_dedupe_and_sort() {
    let run = ContainerConfigRun {
        env: strings(&["B=2"]),
        volumes: strings(&["/data:/data", "/data:/data"]),
        ..zero_run()
    };
    let c = container("demo", "demo", run);
    let env = snapshot(&[]);
    let t = Toggles::get_toggles(&env, 1000);
    let ctx = InvocationContext {
        env_overrides: strings(&["A=1", "A=1", "B=2"]),
        ..default_ctx()
    };
    let args = c.running_args(&t, &env, &ctx, "/home/user");
    let env_values: Vec<&String> = args
        .iter()
        .enumerate()
        .filter(|(i, _)| *i > 0 && args[i - 1] == "--env")
        .map(|(_, a)| a)
        .collect();
    assert_eq!(env_values, vec![&s("A=1"), &s("B=2")]);
    // other accumulators are never deduplicated: both literal volumes stay
    let volume_values: Vec<&String> = args
        .iter()
        .enumerate()
        .filter(|(i, _)| *i > 0 && args[i - 1] == "--volume")
        .map(|(_, a)| a)
        .collect();
    assert_eq!(volume_values, vec![&s("/data:/data"), &s("/data:/data")]);
}

#[test]
fn without_overrides_env_keeps_accumulator_order() {
    let run = ContainerConfigRun { env: strings(&["Z=9", "A=1", "Z=9"]), ..zero_run() };
    let c = container("demo", "demo", run);
    let env = snapshot(&[]);
    let t = Toggles::get_toggles(&env, 1000);
    let args = c.running_args(&t, &env, &default_ctx(), "/home/user");
    let env_values: Vec<&String> = args
        .iter()
        .enumerate()
        .filter(|(i, _)| *i > 0 && args[i - 1] == "--env")
        .map(|(_, a)| a)
        .collect();
    assert_eq!(env_values, vec![&s("Z=9"), &s("A=1"), &s("Z=9")]);
}

#[test]
fn home_mount_appends_exactly_one_volume() {
    let run = ContainerConfigRun { home: true, ..zero_run() };
    let c = container("sandman/dev", "dev", run);
    let env = snapshot(&[]);
    let t = Toggles::get_toggles(&env, 1000);
    let expected = s("/home/user/.local/share/sandman/dev:/home");
    for _ in 0..3 {
        let args = c.running_args(&t, &env, &default_ctx(), "/home/user");
        let count = args.iter().filter(|a| **a == expected).count();
        assert_eq!(count, 1);
        assert_eq!(args[8], s("--volume"));
        assert_eq!(args[9], expected);
    }
}

#[test]
fn extra_trailing_args_follow_the_image() {
    let c = container("demo", "demo", zero_run());
    let env = snapshot(&[]);
    let t = Toggles::get_toggles(&env, 1000);
    let ctx = InvocationContext {
        extra_trailing_args: strings(&["bash", "-c", "ls"]),
        ..default_ctx()
    };
    let args = c.running_args(&t, &env, &ctx, "/home/user");
    let n = args.len();
    assert_eq!(args[n - 4], s("demo"));
    assert_eq!(&args[n - 3..], &strings(&["bash", "-c", "ls"])[..]);
}

#[test]
fn ports_devices_and_args_are_flattened_in_order() {
    let run = ContainerConfigRun {
        dri: true,
        devices: strings(&["/dev/null"]),
        ports: strings(&["8080:80", "443:443"]),
        args: strings(&["--read-only"]),
        ..zero_run()
    };
    let c = container("demo", "demo", run);
    let env = snapshot(&[]);
    let t = Toggles::get_toggles(&env, 1000);
    let args = c.running_args(&t, &env, &default_ctx(), "/home/user");
    assert_eq!(
        args,
        strings(&[
            "run",
            "--hostname",
            "demo",
            "--interactive",
            "--tty",
            "--rm",
            "--network",
            "none",
            "--device",
            "/dev/dri",
            "--device",
            "/dev/null",
            "-p",
            "8080:80",
            "-p",
            "443:443",
            "--read-only",
            "demo",
        ])
    );
}

#[test]
fn build_args_without_cache() {
    let c = container("sandman/demo", "demo", zero_run());
    let args = c.build_args(&default_ctx());
    assert_eq!(args, strings(&["bud", "-f", "-", "-t", "sandman/demo"]));
}

#[test]
fn build_cache_flag_sits_between_marker_and_stream_flag() {
    let c = container("sandman/demo", "demo", zero_run());
    let ctx = InvocationContext { use_build_cache: true, ..default_ctx() };
    let args = c.build_args(&ctx);
    assert_eq!(args, strings(&["bud", "--layers=true", "-f", "-", "-t", "sandman/demo"]));
}
