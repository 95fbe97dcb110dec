//! Full virtual machines on the agent: how a QEMU guest is sized and
//! launched under systemd, and how its state is read back.
use vstd::prelude::*;
use crate::assignments::string_views;
use crate::numparse::{decimal, format_i64, signed_decimal};
use crate::text::{chars_of, contains_chars, contains_seq, str_eq};

verus! {

/// The number of virtual CPUs for a guest: its millicores, at least 100,
/// in whole CPUs rounded up.
pub open spec fn vcpus_for(cpu_millicores: int) -> int {
    let m = if cpu_millicores < 100 { 100 } else { cpu_millicores };
    (m + 999) / 1000
}

/// Sizes a guest's CPUs (see `vcpus_for`).
pub fn vcpu_count(cpu_millicores: i32) -> (r: i64)
    ensures
        r == vcpus_for(cpu_millicores as int),
        r >= 1,
{
    let m: i64 = if cpu_millicores < 100 { 100 } else { cpu_millicores as i64 };
    (m + 999) / 1000
}

/// A guest's memory in MiB: its bytes divided by 1024 twice (truncating
/// toward zero), at least 512.
pub open spec fn memory_mib_for(memory_bytes: i64) -> int {
    let mib = trunc_div(trunc_div(memory_bytes as int, 1024), 1024);
    if mib < 512 { 512 } else { mib }
}

/// Integer division rounding toward zero, as Rust divides.
pub open spec fn trunc_div(a: int, d: int) -> int {
    if a >= 0 { a / d } else { -((-a) / d) }
}

/// Sizes a guest's memory (see `memory_mib_for`).
pub fn memory_mib(memory_bytes: i64) -> (r: i64)
    ensures
        r == memory_mib_for(memory_bytes),
        r >= 512,
{
    let mib = memory_bytes / 1024 / 1024;
    if mib < 512 { 512 } else { mib }
}

pub open spec fn cat(a: Seq<char>, b: Seq<char>) -> Seq<char> {
    a + b
}

fn concat_str(a: &str, b: &str) -> (r: String)
    ensures
        r@ == a@ + b@,
{
    String::from_str(a).concat(b)
}

/// The `qemu-system-x86_64` arguments for a guest: KVM on a q35 machine
/// with the host's CPU model, the CPUs and memory, the boot disk as a raw
/// virtio drive, no display but a standard VGA card and a USB tablet, a
/// virtio NIC on the tap device with the guest's MAC, QMP and VNC on unix
/// sockets, and, with an installer image, a CD-ROM booted once.
pub open spec fn qemu_args_spec(
    vcpus: int,
    memory_mib: int,
    boot_disk: Seq<char>,
    tap_device: Seq<char>,
    mac: Seq<char>,
    qmp_socket: Seq<char>,
    vnc_socket: Seq<char>,
    iso: Option<Seq<char>>,
) -> Seq<Seq<char>> {
    let base = seq![
        "-enable-kvm"@, "-machine"@, "q35"@, "-cpu"@, "host"@,
        "-smp"@, signed_decimal(vcpus),
        "-m"@, signed_decimal(memory_mib),
        "-drive"@, "file="@ + boot_disk + ",format=raw,if=virtio"@,
        "-display"@, "none"@, "-vga"@, "std"@, "-usb"@, "-device"@, "usb-tablet"@,
        "-netdev"@, "tap,id=net0,ifname="@ + tap_device + ",script=no,downscript=no"@,
        "-device"@, "virtio-net-pci,netdev=net0,mac="@ + mac,
        "-qmp"@, "unix:"@ + qmp_socket + ",server,nowait"@,
        "-vnc"@, "unix:"@ + vnc_socket
    ];
    match iso {
        Some(p) => base + seq!["-cdrom"@, p, "-boot"@, "once=d"@],
        None => base,
    }
}

fn push_str(v: &mut Vec<String>, s: &str)
    ensures
        string_views(final(v)@) == string_views(old(v)@).push(s@),
{
    let ghost before = v@;
    v.push(String::from_str(s));
    assert(string_views(v@) =~= string_views(before).push(s@));
}

fn push_string(v: &mut Vec<String>, s: String)
    ensures
        string_views(final(v)@) == string_views(old(v)@).push(s@),
{
    let ghost before = v@;
    let ghost sv = s@;
    v.push(s);
    assert(string_views(v@) =~= string_views(before).push(sv));
}

/// Builds the guest's QEMU arguments (see `qemu_args_spec`).
pub fn qemu_args(
    vcpus: i64,
    memory_mib: i64,
    boot_disk: &str,
    tap_device: &str,
    mac: &str,
    qmp_socket: &str,
    vnc_socket: &str,
    iso: Option<&str>,
) -> (r: Vec<String>)
    ensures
        string_views(r@) == qemu_args_spec(
            vcpus as int,
            memory_mib as int,
            boot_disk@,
            tap_device@,
            mac@,
            qmp_socket@,
            vnc_socket@,
            match iso {
                Some(p) => Some(p@),
                None => None,
            },
        ),
{
    let mut v: Vec<String> = Vec::new();
    push_str(&mut v, "-enable-kvm");
    push_str(&mut v, "-machine");
    push_str(&mut v, "q35");
    push_str(&mut v, "-cpu");
    push_str(&mut v, "host");
    push_str(&mut v, "-smp");
    push_string(&mut v, format_i64(vcpus));
    push_str(&mut v, "-m");
    push_string(&mut v, format_i64(memory_mib));
    push_str(&mut v, "-drive");
    push_string(&mut v, concat_str(concat_str("file=", boot_disk).as_str(), ",format=raw,if=virtio"));
    push_str(&mut v, "-display");
    push_str(&mut v, "none");
    push_str(&mut v, "-vga");
    push_str(&mut v, "std");
    push_str(&mut v, "-usb");
    push_str(&mut v, "-device");
    push_str(&mut v, "usb-tablet");
    push_str(&mut v, "-netdev");
    push_string(&mut v, concat_str(concat_str("tap,id=net0,ifname=", tap_device).as_str(), ",script=no,downscript=no"));
    push_str(&mut v, "-device");
    push_string(&mut v, concat_str("virtio-net-pci,netdev=net0,mac=", mac));
    push_str(&mut v, "-qmp");
    push_string(&mut v, concat_str(concat_str("unix:", qmp_socket).as_str(), ",server,nowait"));
    push_str(&mut v, "-vnc");
    push_string(&mut v, concat_str("unix:", vnc_socket));
    let ghost base = string_views(v@);
    match iso {
        Some(p) => {
            push_str(&mut v, "-cdrom");
            push_str(&mut v, p);
            push_str(&mut v, "-boot");
            push_str(&mut v, "once=d");
        },
        None => {},
    }
    assert(string_views(v@) =~= qemu_args_spec(
        vcpus as int,
        memory_mib as int,
        boot_disk@,
        tap_device@,
        mac@,
        qmp_socket@,
        vnc_socket@,
        match iso {
            Some(p) => Some(p@),
            None => None,
        },
    ));
    v
}

/// The `systemd-run` arguments that launch a guest as a transient unit,
/// as the agent's user and group with the `kvm` group added, its output to
/// the journal; the QEMU binary and its arguments follow.
pub open spec fn systemd_run_args_spec(unit: Seq<char>, uid: nat, gid: nat, qemu_bin: Seq<char>) -> Seq<Seq<char>> {
    seq![
        "--unit"@, unit, "--collect"@,
        "--uid="@ + decimal(uid), "--gid="@ + decimal(gid),
        "--property=SupplementaryGroups=kvm"@,
        "--property=StandardOutput=journal"@,
        "--property=StandardError=journal"@,
        qemu_bin
    ]
}

/// Builds the `systemd-run` arguments (see `systemd_run_args_spec`).
pub fn systemd_run_args(unit: &str, uid: u32, gid: u32, qemu_bin: &str) -> (r: Vec<String>)
    ensures
        string_views(r@) == systemd_run_args_spec(unit@, uid as nat, gid as nat, qemu_bin@),
{
    let mut v: Vec<String> = Vec::new();
    push_str(&mut v, "--unit");
    push_str(&mut v, unit);
    push_str(&mut v, "--collect");
    push_string(&mut v, concat_str("--uid=", crate::numparse::format_u64(uid as u64).as_str()));
    push_string(&mut v, concat_str("--gid=", crate::numparse::format_u64(gid as u64).as_str()));
    push_str(&mut v, "--property=SupplementaryGroups=kvm");
    push_str(&mut v, "--property=StandardOutput=journal");
    push_str(&mut v, "--property=StandardError=journal");
    push_str(&mut v, qemu_bin);
    assert(string_views(v@) =~= systemd_run_args_spec(unit@, uid as nat, gid as nat, qemu_bin@));
    v
}

/// What a guest's QMP `query-status` answer means for the agent: `failed`
/// after a guest panic, an internal or I/O error, or a shutdown; otherwise
/// `running`.
pub open spec fn vm_status_spec(qmp_status: Seq<char>) -> Seq<char> {
    if qmp_status == "guest-panicked"@ || qmp_status == "internal-error"@ || qmp_status == "io-error"@
        || qmp_status == "shutdown"@ {
        "failed"@
    } else {
        "running"@
    }
}

/// The QMP statuses of a guest that has failed: it panicked, hit an
/// internal or an I/O error, or shut down.
pub open spec fn failing_qmp_statuses() -> Seq<Seq<char>> {
    seq!["guest-panicked"@, "internal-error"@, "io-error"@, "shutdown"@]
}

/// A guest is seen as failed exactly when its QMP status is one of
/// `failing_qmp_statuses`, and as running otherwise.
pub proof fn lemma_vm_status_failing(qmp_status: Seq<char>)
    ensures
        (vm_status_spec(qmp_status) == "failed"@) == failing_qmp_statuses().contains(qmp_status),
        (vm_status_spec(qmp_status) == "running"@) == !failing_qmp_statuses().contains(qmp_status),
{
    reveal_strlit("failed");
    reveal_strlit("running");
    assert("failed"@.len() != "running"@.len());
    let f = failing_qmp_statuses();
    if f.contains(qmp_status) {
        let i = choose|i: int| 0 <= i < f.len() && f[i] == qmp_status;
        assert(i == 0 || i == 1 || i == 2 || i == 3);
    } else {
        assert(qmp_status != f[0] && qmp_status != f[1] && qmp_status != f[2] && qmp_status != f[3]);
    }
}

/// Maps a QMP status (see `vm_status_spec`).
pub fn vm_status(qmp_status: &str) -> (r: String)
    ensures
        r@ == vm_status_spec(qmp_status@),
{
    if str_eq(qmp_status, "guest-panicked") || str_eq(qmp_status, "internal-error") || str_eq(
        qmp_status,
        "io-error",
    ) || str_eq(qmp_status, "shutdown") {
        String::from_str("failed")
    } else {
        String::from_str("running")
    }
}

/// A systemd unit is active when `systemctl is-active` prints something
/// starting with `active`.
pub fn unit_is_active(stdout: &[u8]) -> (b: bool)
    ensures
        b == (stdout@.len() >= 6 && stdout@.subrange(0, 6) == seq![97u8, 99u8, 116u8, 105u8, 118u8, 101u8]),
{
    if stdout.len() < 6 {
        return false;
    }
    let r = stdout[0] == 97 && stdout[1] == 99 && stdout[2] == 116 && stdout[3] == 105 && stdout[4]
        == 118 && stdout[5] == 101;
    proof {
        if r {
            assert(stdout@.subrange(0, 6) =~= seq![97u8, 99u8, 116u8, 105u8, 118u8, 101u8]);
        } else {
            if stdout@.subrange(0, 6) == seq![97u8, 99u8, 116u8, 105u8, 118u8, 101u8] {
                assert(stdout@.subrange(0, 6)[0] == 97u8);
                assert(stdout@.subrange(0, 6)[1] == 99u8);
                assert(stdout@.subrange(0, 6)[2] == 116u8);
                assert(stdout@.subrange(0, 6)[3] == 105u8);
                assert(stdout@.subrange(0, 6)[4] == 118u8);
                assert(stdout@.subrange(0, 6)[5] == 101u8);
            }
        }
    }
    r
}

/// Whether a failed `ip tuntap add` can be let pass: the device exists
/// already (its error output mentions `File exists`).
pub fn tap_exists_already(stderr: &str) -> (b: bool)
    ensures
        b == contains_seq(stderr@, "File exists"@),
{
    contains_chars(&chars_of(stderr), &chars_of("File exists"))
}

/// Where starting a virtual machine stands.
#[derive(Debug, Clone, Copy, PartialEq, Eq, Structural)]
pub enum VmStartStage {
    CreatingDir,
    WritingSidecar,
    EnsuringBootDisk,
    CachingIso,
    EnsuringNetwork,
    AllocatingIp,
    Reserving,
    CreatingTap,
    Spawning,
    /// The tap device is being removed after the guest failed to start.
    RemovingTap,
    Done,
}

/// A start under way: the workload, its resource group and network, its
/// installation image, and what the steps so far gave.
pub struct VmStart {
    pub stage: VmStartStage,
    pub workload_id: String,
    pub resource_group_id: Option<String>,
    pub resource_group_cidr: Option<String>,
    pub iso_url: Option<String>,
    pub bridge: Option<String>,
    pub guest_ip: Option<String>,
    pub spawn_error: Option<String>,
}

/// What the runtime records of a running guest.
pub struct VmHandle {
    pub workload_id: String,
    pub tap_device: String,
    pub qmp_socket_path: String,
    pub vnc_socket_path: String,
    pub resource_group_id: Option<String>,
}

/// The outcome of the last step.
pub enum VmStartEvent {
    /// A step that gives nothing back succeeded, or failed with this text.
    Finished(Result<(), String>),
    /// The resource group's bridge interface, or the error text.
    Bridge(Result<String, String>),
    /// The guest's address in the resource group, or the error text.
    GuestIp(Result<String, String>),
}

/// What the agent is to do next to start a guest.
pub enum VmStartAction {
    CreateDir { dir: String },
    WriteSidecar { path: String, resource_group_id: Option<String> },
    EnsureBootDisk,
    CacheIso { url: String },
    EnsureNetwork { resource_group_id: String, cidr: Option<String> },
    AllocateIp { resource_group_id: String, cidr: String },
    ReserveDhcp { resource_group_id: String, cidr: String, bridge: String, guest_ip: String },
    CreateTap { tap_device: String, bridge: Option<String> },
    Spawn { tap_device: String, qmp_socket_path: String, vnc_socket_path: String },
    RemoveTap { tap_device: String },
    /// The guest runs: record it.
    Record(VmHandle),
    /// The start failed with this text.
    Fail(String),
}

/// The tap device of a workload's guest.
pub open spec fn tap_of(workload_id: Seq<char>) -> Seq<char> {
    crate::agent_layout::tap_prefix() + crate::agent_layout::short_id_spec(workload_id)
}

pub open spec fn vm_dir_of(workload_id: Seq<char>) -> Seq<char> {
    crate::agent_layout::vm_dir_spec(workload_id)
}

/// What each stage has already learned: the network steps run only for a
/// resource group, the address only with its CIDR, and a failed spawn
/// keeps its error.
pub open spec fn vm_start_consistent(run: VmStart) -> bool {
    &&& run.stage == VmStartStage::EnsuringNetwork ==> run.resource_group_id is Some
    &&& run.stage == VmStartStage::AllocatingIp ==> run.resource_group_id is Some && run.resource_group_cidr is Some
        && run.bridge is Some
    &&& run.stage == VmStartStage::Reserving ==> run.resource_group_id is Some && run.resource_group_cidr is Some
        && run.bridge is Some && run.guest_ip is Some
    &&& run.stage == VmStartStage::CachingIso ==> run.iso_url is Some
    &&& run.stage == VmStartStage::RemovingTap ==> run.spawn_error is Some
}

/// The event answers what the stage waits for.
pub open spec fn vm_start_fits(stage: VmStartStage, event: VmStartEvent) -> bool {
    match stage {
        VmStartStage::EnsuringNetwork => event is Bridge,
        VmStartStage::AllocatingIp => event is GuestIp,
        VmStartStage::Done => false,
        _ => event is Finished,
    }
}

/// The stage after the image steps: the network when the guest joins a
/// resource group, else the tap device.
pub open spec fn after_image(rg: Option<String>) -> VmStartStage {
    if rg is Some {
        VmStartStage::EnsuringNetwork
    } else {
        VmStartStage::CreatingTap
    }
}

fn network_or_tap(run: &mut VmStart) -> (a: VmStartAction)
    requires
        old(run).stage == VmStartStage::EnsuringBootDisk || old(run).stage == VmStartStage::CachingIso,
    ensures
        final(run).stage == after_image(old(run).resource_group_id),
        final(run).workload_id@ == old(run).workload_id@,
        final(run).resource_group_id == old(run).resource_group_id,
        final(run).resource_group_cidr == old(run).resource_group_cidr,
        final(run).iso_url == old(run).iso_url,
        final(run).bridge == old(run).bridge,
        final(run).guest_ip == old(run).guest_ip,
        final(run).spawn_error == old(run).spawn_error,
        old(run).resource_group_id matches Some(g) ==> (a matches VmStartAction::EnsureNetwork {
            resource_group_id: h,
            cidr: c,
        } && h@ == g@ && c == old(run).resource_group_cidr),
        old(run).resource_group_id is None ==> (a matches VmStartAction::CreateTap { tap_device: t, bridge: None }
            && t@ == tap_of(old(run).workload_id@)),
{
    match &run.resource_group_id {
        Some(g) => {
            let h = g.clone();
            run.stage = VmStartStage::EnsuringNetwork;
            VmStartAction::EnsureNetwork { resource_group_id: h, cidr: run.resource_group_cidr.clone() }
        },
        None => {
            run.stage = VmStartStage::CreatingTap;
            VmStartAction::CreateTap {
                tap_device: crate::agent_layout::tap_device_name(run.workload_id.as_str()),
                bridge: None,
            }
        },
    }
}

/// Starts a guest for a workload: without a virtual machine spec it fails
/// with `qemu runtime requires a vm_spec`; otherwise its state directory is
/// created first.
pub fn begin_vm_start(
    workload_id: String,
    resource_group_id: Option<String>,
    resource_group_cidr: Option<String>,
    iso_url: Option<String>,
    has_vm_spec: bool,
) -> (r: (VmStart, VmStartAction))
    ensures
        r.0.workload_id@ == workload_id@,
        r.0.resource_group_id == resource_group_id,
        r.0.resource_group_cidr == resource_group_cidr,
        r.0.iso_url == iso_url,
        r.0.bridge is None && r.0.guest_ip is None && r.0.spawn_error is None,
        vm_start_consistent(r.0),
        has_vm_spec ==> r.0.stage == VmStartStage::CreatingDir && (r.1 matches VmStartAction::CreateDir { dir }
            && dir@ == vm_dir_of(workload_id@)),
        !has_vm_spec ==> r.0.stage == VmStartStage::Done && (r.1 matches VmStartAction::Fail(e) && e@
            == "qemu runtime requires a vm_spec"@),
{
    let stage = if has_vm_spec {
        VmStartStage::CreatingDir
    } else {
        VmStartStage::Done
    };
    let action = if has_vm_spec {
        VmStartAction::CreateDir { dir: crate::agent_layout::vm_dir(workload_id.as_str()) }
    } else {
        VmStartAction::Fail(String::from_str("qemu runtime requires a vm_spec"))
    };
    (
        VmStart {
            stage,
            workload_id,
            resource_group_id,
            resource_group_cidr,
            iso_url,
            bridge: None,
            guest_ip: None,
            spawn_error: None,
        },
        action,
    )
}

/// Carries a start on, in the order state directory, sidecar metadata,
/// boot disk, installation image (when there is one), resource-group
/// bridge, guest address and DHCP reservation (for a group, the last two
/// only with its CIDR), tap device, guest. A failing step fails the start
/// with its error; when the guest fails to start, its tap device is removed
/// first. A started guest is recorded with its tap device, QMP and VNC
/// sockets and resource group.
pub fn resume_vm_start(run: &mut VmStart, event: VmStartEvent) -> (a: VmStartAction)
    requires
        vm_start_fits(old(run).stage, event),
        vm_start_consistent(*old(run)),
    ensures
        vm_start_consistent(*final(run)),
        final(run).workload_id@ == old(run).workload_id@,
        final(run).resource_group_id == old(run).resource_group_id,
        final(run).resource_group_cidr == old(run).resource_group_cidr,
        match (old(run).stage, event) {
            (VmStartStage::RemovingTap, _) => {
                &&& final(run).stage == VmStartStage::Done
                &&& a matches VmStartAction::Fail(e) && Some(e@) == crate::workload_fsm::opt_string(old(run).spawn_error)
            },
            (VmStartStage::Spawning, VmStartEvent::Finished(Err(e))) => {
                &&& final(run).stage == VmStartStage::RemovingTap
                &&& final(run).spawn_error matches Some(k) && k@ == e@
                &&& a matches VmStartAction::RemoveTap { tap_device: t } && t@ == tap_of(old(run).workload_id@)
            },
            (VmStartStage::Spawning, VmStartEvent::Finished(Ok(()))) => {
                &&& final(run).stage == VmStartStage::Done
                &&& a matches VmStartAction::Record(h) && {
                    &&& h.workload_id@ == old(run).workload_id@
                    &&& h.tap_device@ == tap_of(old(run).workload_id@)
                    &&& h.qmp_socket_path@ == crate::agent_layout::path_join(vm_dir_of(old(run).workload_id@), "qmp.sock"@)
                    &&& h.vnc_socket_path@ == crate::agent_layout::path_join(vm_dir_of(old(run).workload_id@), "vnc.sock"@)
                    &&& h.resource_group_id == old(run).resource_group_id
                }
            },
            (_, VmStartEvent::Finished(Err(e))) => {
                &&& final(run).stage == VmStartStage::Done
                &&& a matches VmStartAction::Fail(m) && m@ == e@
            },
            (_, VmStartEvent::Bridge(Err(e))) => {
                &&& final(run).stage == VmStartStage::Done
                &&& a matches VmStartAction::Fail(m) && m@ == e@
            },
            (_, VmStartEvent::GuestIp(Err(e))) => {
                &&& final(run).stage == VmStartStage::Done
                &&& a matches VmStartAction::Fail(m) && m@ == e@
            },
            (VmStartStage::CreatingDir, _) => {
                &&& final(run).stage == VmStartStage::WritingSidecar
                &&& a matches VmStartAction::WriteSidecar { path, resource_group_id: g } && path@
                    == crate::agent_layout::path_join(vm_dir_of(old(run).workload_id@), "csfx-meta.json"@) && g
                    == old(run).resource_group_id
            },
            (VmStartStage::WritingSidecar, _) => {
                &&& final(run).stage == VmStartStage::EnsuringBootDisk
                &&& a is EnsureBootDisk
            },
            (VmStartStage::EnsuringBootDisk, _) => match old(run).iso_url {
                Some(u) => {
                    &&& final(run).stage == VmStartStage::CachingIso
                    &&& a matches VmStartAction::CacheIso { url } && url@ == u@
                },
                None => final(run).stage == after_image(old(run).resource_group_id),
            },
            (VmStartStage::CachingIso, _) => final(run).stage == after_image(old(run).resource_group_id),
            (VmStartStage::EnsuringNetwork, VmStartEvent::Bridge(Ok(b))) => {
                &&& final(run).bridge matches Some(k) && k@ == b@
                &&& match old(run).resource_group_cidr {
                    Some(c) => {
                        &&& final(run).stage == VmStartStage::AllocatingIp
                        &&& a matches VmStartAction::AllocateIp { resource_group_id: g, cidr } && Some(g@)
                            == crate::workload_fsm::opt_string(old(run).resource_group_id) && cidr@ == c@
                    },
                    None => {
                        &&& final(run).stage == VmStartStage::CreatingTap
                        &&& a matches VmStartAction::CreateTap { tap_device: t, bridge: Some(k) } && t@ == tap_of(
                            old(run).workload_id@,
                        ) && k@ == b@
                    },
                }
            },
            (VmStartStage::AllocatingIp, VmStartEvent::GuestIp(Ok(ip))) => {
                &&& final(run).stage == VmStartStage::Reserving
                &&& final(run).guest_ip matches Some(k) && k@ == ip@
                &&& a matches VmStartAction::ReserveDhcp { resource_group_id: g, cidr, bridge, guest_ip } && Some(g@)
                    == crate::workload_fsm::opt_string(old(run).resource_group_id) && Some(cidr@)
                    == crate::workload_fsm::opt_string(old(run).resource_group_cidr) && Some(bridge@)
                    == crate::workload_fsm::opt_string(old(run).bridge) && guest_ip@ == ip@
            },
            (VmStartStage::Reserving, _) => {
                &&& final(run).stage == VmStartStage::CreatingTap
                &&& a matches VmStartAction::CreateTap { tap_device: t, bridge: b } && t@ == tap_of(old(run).workload_id@)
                    && crate::workload_fsm::opt_string(b) == crate::workload_fsm::opt_string(old(run).bridge)
            },
            (VmStartStage::CreatingTap, _) => {
                &&& final(run).stage == VmStartStage::Spawning
                &&& a matches VmStartAction::Spawn { tap_device: t, qmp_socket_path: q, vnc_socket_path: v } && t@
                    == tap_of(old(run).workload_id@) && q@ == crate::agent_layout::path_join(
                    vm_dir_of(old(run).workload_id@),
                    "qmp.sock"@,
                ) && v@ == crate::agent_layout::path_join(vm_dir_of(old(run).workload_id@), "vnc.sock"@)
            },
            _ => false,
        },
{
    if run.stage == VmStartStage::RemovingTap {
        run.stage = VmStartStage::Done;
        let e = match &run.spawn_error {
            Some(e) => e.clone(),
            None => String::new(),
        };
        return VmStartAction::Fail(e);
    }
    let failure = match &event {
        VmStartEvent::Finished(Err(e)) => Some(e.clone()),
        VmStartEvent::Bridge(Err(e)) => Some(e.clone()),
        VmStartEvent::GuestIp(Err(e)) => Some(e.clone()),
        _ => None,
    };
    if let Some(e) = failure {
        if run.stage == VmStartStage::Spawning {
            run.stage = VmStartStage::RemovingTap;
            run.spawn_error = Some(e);
            return VmStartAction::RemoveTap {
                tap_device: crate::agent_layout::tap_device_name(run.workload_id.as_str()),
            };
        }
        run.stage = VmStartStage::Done;
        return VmStartAction::Fail(e);
    }
    let dir = crate::agent_layout::vm_dir(run.workload_id.as_str());
    match run.stage {
        VmStartStage::CreatingDir => {
            run.stage = VmStartStage::WritingSidecar;
            VmStartAction::WriteSidecar {
                path: crate::agent_layout::sidecar_metadata_path(dir.as_str()),
                resource_group_id: run.resource_group_id.clone(),
            }
        },
        VmStartStage::WritingSidecar => {
            run.stage = VmStartStage::EnsuringBootDisk;
            VmStartAction::EnsureBootDisk
        },
        VmStartStage::EnsuringBootDisk => {
            match &run.iso_url {
                Some(u) => {
                    let url = u.clone();
                    run.stage = VmStartStage::CachingIso;
                    VmStartAction::CacheIso { url }
                },
                None => network_or_tap(run),
            }
        },
        VmStartStage::CachingIso => network_or_tap(run),
        VmStartStage::EnsuringNetwork => {
            let b = match event {
                VmStartEvent::Bridge(Ok(b)) => b,
                _ => String::new(),
            };
            run.bridge = Some(b.clone());
            match &run.resource_group_cidr {
                Some(c) => {
                    let cidr = c.clone();
                    let g = match &run.resource_group_id {
                        Some(g) => g.clone(),
                        None => String::new(),
                    };
                    run.stage = VmStartStage::AllocatingIp;
                    VmStartAction::AllocateIp { resource_group_id: g, cidr }
                },
                None => {
                    run.stage = VmStartStage::CreatingTap;
                    VmStartAction::CreateTap {
                        tap_device: crate::agent_layout::tap_device_name(run.workload_id.as_str()),
                        bridge: Some(b),
                    }
                },
            }
        },
        VmStartStage::AllocatingIp => {
            let ip = match event {
                VmStartEvent::GuestIp(Ok(ip)) => ip,
                _ => String::new(),
            };
            run.guest_ip = Some(ip.clone());
            run.stage = VmStartStage::Reserving;
            let g = match &run.resource_group_id {
                Some(g) => g.clone(),
                None => String::new(),
            };
            let cidr = match &run.resource_group_cidr {
                Some(c) => c.clone(),
                None => String::new(),
            };
            let bridge = match &run.bridge {
                Some(b) => b.clone(),
                None => String::new(),
            };
            VmStartAction::ReserveDhcp { resource_group_id: g, cidr, bridge, guest_ip: ip }
        },
        VmStartStage::Reserving => {
            run.stage = VmStartStage::CreatingTap;
            VmStartAction::CreateTap {
                tap_device: crate::agent_layout::tap_device_name(run.workload_id.as_str()),
                bridge: run.bridge.clone(),
            }
        },
        VmStartStage::CreatingTap => {
            run.stage = VmStartStage::Spawning;
            VmStartAction::Spawn {
                tap_device: crate::agent_layout::tap_device_name(run.workload_id.as_str()),
                qmp_socket_path: crate::agent_layout::qmp_socket_path(dir.as_str()),
                vnc_socket_path: crate::agent_layout::vnc_socket_path(dir.as_str()),
            }
        },
        _ => {
            run.stage = VmStartStage::Done;
            VmStartAction::Record(VmHandle {
                workload_id: run.workload_id.clone(),
                tap_device: crate::agent_layout::tap_device_name(run.workload_id.as_str()),
                qmp_socket_path: crate::agent_layout::qmp_socket_path(dir.as_str()),
                vnc_socket_path: crate::agent_layout::vnc_socket_path(dir.as_str()),
                resource_group_id: run.resource_group_id.clone(),
            })
        },
    }
}

} // verus!
