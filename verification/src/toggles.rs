//! The capability catalog: the fixed set of named toggles and the bundle of
//! environment variables, bind mounts, devices and extra runtime arguments
//! each one expands to.  Bundles are a pure function of the environment
//! snapshot and the current user id, computed once per invocation.

use vstd::prelude::*;
use vstd::string::StringExecFns;
use crate::snapshot::{EnvSnapshot, spec_env_get};
use crate::text::{spec_dec, u32_dec, empty_strings, push_lit, push_string};

verus! {

/// Running configuration that a toggle implies.
pub struct ToggleImplication {
    pub env: Vec<String>,
    pub volumes: Vec<String>,
    pub devices: Vec<String>,
    pub args: Vec<String>,
}

/// All allowed and expected toggles.
pub struct Toggles {
    pub x11: ToggleImplication,
    pub wayland: ToggleImplication,
    pub dri: ToggleImplication,
    pub ipc: ToggleImplication,
    pub pulseaudio: ToggleImplication,
    pub dbus: ToggleImplication,
    pub net: ToggleImplication,
    pub uidmap: ToggleImplication,
}

/// The four components of a bundle have exactly the given contents.
pub open spec fn bundle_is(
    b: ToggleImplication,
    env: Seq<Seq<char>>,
    volumes: Seq<Seq<char>>,
    devices: Seq<Seq<char>>,
    args: Seq<Seq<char>>,
) -> bool {
    &&& b.env.deep_view() == env
    &&& b.volumes.deep_view() == volumes
    &&& b.devices.deep_view() == devices
    &&& b.args.deep_view() == args
}

pub open spec fn spec_x11_env() -> Seq<Seq<char>> {
    seq!["DISPLAY"@, "XCURSOR_THEME"@, "XCURSOR_SIZE"@]
}

pub open spec fn spec_x11_volumes() -> Seq<Seq<char>> {
    seq!["/tmp/.X11-unix:/tmp/.X11-unix"@]
}

/// The wayland socket, mounted at the same path inside the container.
pub open spec fn spec_wayland_volumes(env: Seq<(Seq<char>, Seq<char>)>) -> Seq<Seq<char>> {
    let rt = spec_env_get(env, "XDG_RUNTIME_DIR"@);
    let wd = spec_env_get(env, "WAYLAND_DISPLAY"@);
    seq![rt + "/"@ + wd + ":"@ + rt + "/"@ + wd]
}

/// The machine id and the pulseaudio socket.
pub open spec fn spec_pulseaudio_volumes(env: Seq<(Seq<char>, Seq<char>)>) -> Seq<Seq<char>> {
    let rt = spec_env_get(env, "XDG_RUNTIME_DIR"@);
    seq!["/etc/machine-id:/etc/machine-id:ro"@, rt + "/pulse/native:"@ + rt + "/pulse/native"@]
}

/// The session bus address, carried as a literal NAME=VALUE pair.
pub open spec fn spec_dbus_env(env: Seq<(Seq<char>, Seq<char>)>) -> Seq<Seq<char>> {
    let rt = spec_env_get(env, "XDG_RUNTIME_DIR"@);
    seq!["DBUS_SESSION_BUS_ADDRESS=unix:path="@ + rt + "/bus"@]
}

pub open spec fn spec_dbus_volumes(env: Seq<(Seq<char>, Seq<char>)>) -> Seq<Seq<char>> {
    let rt = spec_env_get(env, "XDG_RUNTIME_DIR"@);
    seq![rt + "/bus:"@ + rt + "/bus"@]
}

/// The three user-namespace mapping ranges for user id `u`, each a
/// (container start, host start, length) triple: the current user maps to
/// the host root equivalent, ids below it shift up by one, and the rest of
/// the id space maps to itself.
pub open spec fn spec_uidmap_ranges(u: int) -> Seq<(int, int, int)> {
    seq![(u, 0, 1), (0, 1, u), (u + 1, u + 1, 65536 - u)]
}

/// `v` lies in the container-side interval of the range.
pub open spec fn in_container_range(r: (int, int, int), v: int) -> bool {
    r.0 <= v < r.0 + r.2
}

/// `v` lies in the host-side interval of the range.
pub open spec fn in_host_range(r: (int, int, int), v: int) -> bool {
    r.1 <= v < r.1 + r.2
}

/// A mapping range rendered as a `start:start:length` argument.
pub open spec fn spec_uidmap_entry(r: (int, int, int)) -> Seq<char> {
    spec_dec(r.0) + ":"@ + spec_dec(r.1) + ":"@ + spec_dec(r.2)
}

/// The extra arguments of the uid-mapping bundle: the three ranges and the
/// selection of the running user inside the container.
pub open spec fn spec_uidmap_args(u: int) -> Seq<Seq<char>> {
    let rs = spec_uidmap_ranges(u);
    seq![
        "--uidmap"@,
        spec_uidmap_entry(rs[0]),
        "--uidmap"@,
        spec_uidmap_entry(rs[1]),
        "--uidmap"@,
        spec_uidmap_entry(rs[2]),
        "--user"@,
        spec_dec(u),
    ]
}

/// Every user id below 65536 falls in exactly one of the three mapping
/// ranges, on the container side and on the host side alike: the ranges
/// cover the id space without overlap and without gaps.
pub proof fn lemma_uidmap_ranges_partition(u: int, v: int)
    requires
        0 <= u < 65535,
        0 <= v < 65536,
    ensures
        ({
            let rs = spec_uidmap_ranges(u);
            let c0 = in_container_range(rs[0], v);
            let c1 = in_container_range(rs[1], v);
            let c2 = in_container_range(rs[2], v);
            &&& c0 || c1 || c2
            &&& c0 ==> !c1 && !c2
            &&& c1 ==> !c0 && !c2
            &&& c2 ==> !c0 && !c1
        }),
        ({
            let rs = spec_uidmap_ranges(u);
            let h0 = in_host_range(rs[0], v);
            let h1 = in_host_range(rs[1], v);
            let h2 = in_host_range(rs[2], v);
            &&& h0 || h1 || h2
            &&& h0 ==> !h1 && !h2
            &&& h1 ==> !h0 && !h2
            &&& h2 ==> !h0 && !h1
        }),
{
}

/// One mapping range as its `start:start:length` argument text.
fn uidmap_entry(c: u32, h: u32, l: u32) -> (r: String)
    ensures
        r@ == spec_uidmap_entry((c as int, h as int, l as int)),
{
    let mut s = u32_dec(c);
    s.append(":");
    s.append(u32_dec(h).as_str());
    s.append(":");
    s.append(u32_dec(l).as_str());
    s
}

/// The names of all environment variables the catalog and its bundles
/// read: whoever takes the snapshot must include at least these.
pub fn catalog_env_names() -> (r: Vec<String>)
    ensures
        r.deep_view() == seq![
            "DISPLAY"@,
            "XCURSOR_THEME"@,
            "XCURSOR_SIZE"@,
            "WAYLAND_DISPLAY"@,
            "XDG_RUNTIME_DIR"@,
        ],
{
    let mut names = empty_strings();
    push_lit(&mut names, "DISPLAY");
    push_lit(&mut names, "XCURSOR_THEME");
    push_lit(&mut names, "XCURSOR_SIZE");
    push_lit(&mut names, "WAYLAND_DISPLAY");
    push_lit(&mut names, "XDG_RUNTIME_DIR");
    proof {
        assert(names.deep_view() =~= seq![
            "DISPLAY"@,
            "XCURSOR_THEME"@,
            "XCURSOR_SIZE"@,
            "WAYLAND_DISPLAY"@,
            "XDG_RUNTIME_DIR"@,
        ]);
    }
    names
}

impl Toggles {
    /// The catalog for the given environment snapshot and user id.  Each
    /// toggle's bundle is pinned exactly; unset environment variables
    /// degrade to empty strings inside the affected mount paths rather than
    /// failing.
    pub fn get_toggles(env: &EnvSnapshot, uid: u32) -> (r: Toggles)
        requires
            uid < 65536,
        ensures
            bundle_is(r.x11, spec_x11_env(), spec_x11_volumes(), Seq::empty(), Seq::empty()),
            bundle_is(
                r.wayland,
                seq!["WAYLAND_DISPLAY"@],
                spec_wayland_volumes(env@),
                Seq::empty(),
                Seq::empty(),
            ),
            bundle_is(r.dri, Seq::empty(), Seq::empty(), seq!["/dev/dri"@], Seq::empty()),
            bundle_is(r.ipc, Seq::empty(), Seq::empty(), Seq::empty(), seq!["--ipc"@, "host"@]),
            bundle_is(
                r.pulseaudio,
                seq!["XDG_RUNTIME_DIR"@],
                spec_pulseaudio_volumes(env@),
                Seq::empty(),
                Seq::empty(),
            ),
            bundle_is(
                r.dbus,
                spec_dbus_env(env@),
                spec_dbus_volumes(env@),
                Seq::empty(),
                Seq::empty(),
            ),
            bundle_is(
                r.net,
                Seq::empty(),
                Seq::empty(),
                Seq::empty(),
                seq!["--network"@, "slirp4netns"@],
            ),
            bundle_is(r.uidmap, Seq::empty(), Seq::empty(), Seq::empty(), spec_uidmap_args(
                uid as int,
            )),
    {
        let rt = env.get("XDG_RUNTIME_DIR");
        let wd = env.get("WAYLAND_DISPLAY");

        let mut x11_env: Vec<String> = Vec::new();
        push_lit(&mut x11_env, "DISPLAY");
        push_lit(&mut x11_env, "XCURSOR_THEME");
        push_lit(&mut x11_env, "XCURSOR_SIZE");
        let mut x11_volumes: Vec<String> = Vec::new();
        push_lit(&mut x11_volumes, "/tmp/.X11-unix:/tmp/.X11-unix");
        let x11 = ToggleImplication {
            env: x11_env,
            volumes: x11_volumes,
            devices: empty_strings(),
            args: empty_strings(),
        };

        let mut wayland_env: Vec<String> = Vec::new();
        push_lit(&mut wayland_env, "WAYLAND_DISPLAY");
        let mut wayland_volume = rt.clone();
        wayland_volume.append("/");
        wayland_volume.append(wd.as_str());
        wayland_volume.append(":");
        wayland_volume.append(rt.as_str());
        wayland_volume.append("/");
        wayland_volume.append(wd.as_str());
        let mut wayland_volumes: Vec<String> = Vec::new();
        push_string(&mut wayland_volumes, wayland_volume);
        let wayland = ToggleImplication {
            env: wayland_env,
            volumes: wayland_volumes,
            devices: empty_strings(),
            args: empty_strings(),
        };

        let mut dri_devices: Vec<String> = Vec::new();
        push_lit(&mut dri_devices, "/dev/dri");
        let dri = ToggleImplication {
            env: empty_strings(),
            volumes: empty_strings(),
            devices: dri_devices,
            args: empty_strings(),
        };

        let mut ipc_args: Vec<String> = Vec::new();
        push_lit(&mut ipc_args, "--ipc");
        push_lit(&mut ipc_args, "host");
        let ipc = ToggleImplication {
            env: empty_strings(),
            volumes: empty_strings(),
            devices: empty_strings(),
            args: ipc_args,
        };

        let mut pulse_env: Vec<String> = Vec::new();
        push_lit(&mut pulse_env, "XDG_RUNTIME_DIR");
        let mut pulse_socket = rt.clone();
        pulse_socket.append("/pulse/native:");
        pulse_socket.append(rt.as_str());
        pulse_socket.append("/pulse/native");
        let mut pulse_volumes: Vec<String> = Vec::new();
        push_lit(&mut pulse_volumes, "/etc/machine-id:/etc/machine-id:ro");
        push_string(&mut pulse_volumes, pulse_socket);
        let pulseaudio = ToggleImplication {
            env: pulse_env,
            volumes: pulse_volumes,
            devices: empty_strings(),
            args: empty_strings(),
        };

        let mut dbus_address = String::from_str("DBUS_SESSION_BUS_ADDRESS=unix:path=");
        dbus_address.append(rt.as_str());
        dbus_address.append("/bus");
        let mut dbus_env: Vec<String> = Vec::new();
        push_string(&mut dbus_env, dbus_address);
        let mut dbus_volume = rt.clone();
        dbus_volume.append("/bus:");
        dbus_volume.append(rt.as_str());
        dbus_volume.append("/bus");
        let mut dbus_volumes: Vec<String> = Vec::new();
        push_string(&mut dbus_volumes, dbus_volume);
        let dbus = ToggleImplication {
            env: dbus_env,
            volumes: dbus_volumes,
            devices: empty_strings(),
            args: empty_strings(),
        };

        let mut net_args: Vec<String> = Vec::new();
        push_lit(&mut net_args, "--network");
        push_lit(&mut net_args, "slirp4netns");
        let net = ToggleImplication {
            env: empty_strings(),
            volumes: empty_strings(),
            devices: empty_strings(),
            args: net_args,
        };

        let first_uid = uid + 1;
        let last_uid = 65536 - uid;
        let mut uidmap_args: Vec<String> = Vec::new();
        push_lit(&mut uidmap_args, "--uidmap");
        push_string(&mut uidmap_args, uidmap_entry(uid, 0, 1));
        push_lit(&mut uidmap_args, "--uidmap");
        push_string(&mut uidmap_args, uidmap_entry(0, 1, uid));
        push_lit(&mut uidmap_args, "--uidmap");
        push_string(&mut uidmap_args, uidmap_entry(first_uid, first_uid, last_uid));
        push_lit(&mut uidmap_args, "--user");
        push_string(&mut uidmap_args, u32_dec(uid));
        proof {
            assert(uidmap_args.deep_view() =~= spec_uidmap_args(uid as int));
        }
        let uidmap = ToggleImplication {
            env: empty_strings(),
            volumes: empty_strings(),
            devices: empty_strings(),
            args: uidmap_args,
        };

        let r = Toggles { x11, wayland, dri, ipc, pulseaudio, dbus, net, uidmap };
        proof {
            assert(r.x11.env.deep_view() =~= spec_x11_env());
            assert(r.x11.volumes.deep_view() =~= spec_x11_volumes());
            assert(r.wayland.env.deep_view() =~= seq!["WAYLAND_DISPLAY"@]);
            assert(r.wayland.volumes.deep_view() =~= spec_wayland_volumes(env@));
            assert(r.dri.devices.deep_view() =~= seq!["/dev/dri"@]);
            assert(r.ipc.args.deep_view() =~= seq!["--ipc"@, "host"@]);
            assert(r.pulseaudio.env.deep_view() =~= seq!["XDG_RUNTIME_DIR"@]);
            assert(r.pulseaudio.volumes.deep_view() =~= spec_pulseaudio_volumes(env@));
            assert(r.dbus.env.deep_view() =~= spec_dbus_env(env@));
            assert(r.dbus.volumes.deep_view() =~= spec_dbus_volumes(env@));
            assert(r.net.args.deep_view() =~= seq!["--network"@, "slirp4netns"@]);
        }
        r
    }
}

} // verus!
