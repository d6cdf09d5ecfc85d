use sandman::container::{canonical_name, config_path, storage_path};
use sandman::errors::SandmanError;
use sandman::snapshot::{EnvSnapshot, EnvVar};
use sandman::text::{contains_char, has_prefix, slash_to_underscore, str_eq, u32_dec};
use sandman::toggles::{catalog_env_names, Toggles};

fn s(x: &str) -> String {
    String::from(x)
}

fn strings(xs: &[&str]) -> Vec<String> {
    xs.iter().map(|x| s(x)).collect()
}

fn snapshot(pairs: &[(&str, &str)]) -> EnvSnapshot {
    EnvSnapshot {
        vars: pairs.iter().map(|(n, v)| EnvVar { name: s(n), value: s(v) }).collect(),
    }
}

#[test]
fn x11_bundle_contents() {
    let t = Toggles::get_toggles(&snapshot(&[]), 1000);
    assert_eq!(t.x11.env, strings(&["DISPLAY", "XCURSOR_THEME", "XCURSOR_SIZE"]));
    assert_eq!(t.x11.volumes, strings(&["/tmp/.X11-unix:/tmp/.X11-unix"]));
    assert!(t.x11.devices.is_empty());
    assert!(t.x11.args.is_empty());
}

#[test]
fn wayland_and_pulse_and_dbus_read_the_snapshot() {
    let env = snapshot(&[("XDG_RUNTIME_DIR", "/run/user/1000"), ("WAYLAND_DISPLAY", "wayland-0")]);
    let t = Toggles::get_toggles(&env, 1000);
    assert_eq!(
        t.wayland.volumes,
        strings(&["/run/user/1000/wayland-0:/run/user/1000/wayland-0"])
    );
    assert_eq!(
        t.pulseaudio.volumes,
        strings(&[
            "/etc/machine-id:/etc/machine-id:ro",
            "/run/user/1000/pulse/native:/run/user/1000/pulse/native",
        ])
    );
    assert_eq!(
        t.dbus.env,
        strings(&["DBUS_SESSION_BUS_ADDRESS=unix:path=/run/user/1000/bus"])
    );
    assert_eq!(t.dbus.volumes, strings(&["/run/user/1000/bus:/run/user/1000/bus"]));
}

#[test]
fn unset_variables_degrade_to_empty_strings() {
    let t = Toggles::get_toggles(&snapshot(&[]), 1000);
    assert_eq!(t.wayland.volumes, strings(&["/:/"]));
    assert_eq!(t.dbus.env, strings(&["DBUS_SESSION_BUS_ADDRESS=unix:path=/bus"]));
    assert_eq!(t.dbus.volumes, strings(&["/bus:/bus"]));
}

#[test]
fn fixed_bundles() {
    let t = Toggles::get_toggles(&snapshot(&[]), 1000);
    assert_eq!(t.dri.devices, strings(&["/dev/dri"]));
    assert_eq!(t.ipc.args, strings(&["--ipc", "host"]));
    assert_eq!(t.net.args, strings(&["--network", "slirp4netns"]));
}

#[test]
fn uidmap_ranges_for_a_common_uid() {
    let t = Toggles::get_toggles(&snapshot(&[]), 1000);
    assert_eq!(
        t.uidmap.args,
        strings(&[
            "--uidmap",
            "1000:0:1",
            "--uidmap",
            "0:1:1000",
            "--uidmap",
            "1001:1001:64536",
            "--user",
            "1000",
        ])
    );
}

#[test]
fn uidmap_ranges_for_root() {
    let t = Toggles::get_toggles(&snapshot(&[]), 0);
    assert_eq!(
        t.uidmap.args,
        strings(&[
            "--uidmap",
            "0:0:1",
            "--uidmap",
            "0:1:0",
            "--uidmap",
            "1:1:65536",
            "--user",
            "0",
        ])
    );
}

#[test]
fn snapshot_lookup_first_binding_wins() {
    let env = snapshot(&[("A", "first"), ("A", "second"), ("B", "x")]);
    assert_eq!(env.get("A"), s("first"));
    assert_eq!(env.get("B"), s("x"));
    assert_eq!(env.get("C"), s(""));
}

#[test]
fn catalog_names_cover_all_bundle_reads() {
    assert_eq!(
        catalog_env_names(),
        strings(&[
            "DISPLAY",
            "XCURSOR_THEME",
            "XCURSOR_SIZE",
            "WAYLAND_DISPLAY",
            "XDG_RUNTIME_DIR",
        ])
    );
}

#[test]
fn path_helpers() {
    assert_eq!(canonical_name("demo"), s("sandman/demo"));
    assert_eq!(config_path("/home/u", "demo"), s("/home/u/.config/sandman/demo.toml"));
    assert_eq!(storage_path("/home/u", "demo"), s("/home/u/.local/share/sandman/demo"));
}

#[test]
fn text_helpers() {
    assert_eq!(slash_to_underscore("sandman/demo"), s("sandman_demo"));
    assert_eq!(slash_to_underscore("a/b/c"), s("a_b_c"));
    assert_eq!(u32_dec(0), s("0"));
    assert_eq!(u32_dec(65536), s("65536"));
    assert_eq!(u32_dec(4294967295), s("4294967295"));
    assert!(str_eq("abc", "abc"));
    assert!(!str_eq("abc", "abd"));
    assert!(has_prefix("--env=A", "--env="));
    assert!(!has_prefix("--en", "--env="));
    assert!(contains_char("A=1", '='));
    assert!(!contains_char("A1", '='));
}

#[test]
fn error_messages_name_the_kind() {
    assert_eq!(SandmanError::ConfigNotFound.message(), s("configuration file not found"));
    assert_eq!(SandmanError::ConfigMalformed.message(), s("configuration file is malformed"));
    assert_eq!(
        SandmanError::EnvironmentUnavailable.message(),
        s("required environment is unavailable")
    );
    assert_eq!(
        SandmanError::ChildSpawnFailed.message(),
        s("failed to spawn the container runtime")
    );
    assert_eq!(SandmanError::ChildIoFailed.message(), s("failed to stream input to the runtime"));
    assert_eq!(
        SandmanError::ChildExitedNonZero(Some(1)).message(),
        s("the runtime exited with an error")
    );
}
