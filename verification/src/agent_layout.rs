//! Where the node agent keeps a virtual machine's state, and the names it gives
//! to the machine's systemd unit, tap device and volume mount points.
use vstd::prelude::*;
use crate::text::{chars_of, string_from};

verus! {

/// `Path::join` on Unix: an absolute `seg` replaces `base`; otherwise `seg` is
/// appended, with a `/` between them when `base` is non-empty and does not
/// already end with one.
pub open spec fn path_join(base: Seq<char>, seg: Seq<char>) -> Seq<char> {
    if seg.len() > 0 && seg[0] == '/' {
        seg
    } else if base.len() > 0 && base.last() != '/' {
        base + seq!['/'] + seg
    } else {
        base + seg
    }
}

pub fn join_path(base: &Vec<char>, seg: &Vec<char>) -> (r: Vec<char>)
    ensures
        r@ == path_join(base@, seg@),
{
    if seg.len() > 0 && seg[0] == '/' {
        return seg.clone();
    }
    let mut r = base.clone();
    if base.len() > 0 && base[base.len() - 1] != '/' {
        r.push('/');
    }
    let mut tail = seg.clone();
    r.append(&mut tail);
    r
}

/// The directory that holds the agent's virtual machine state.
pub open spec fn vm_state_dir() -> Seq<char> {
    "/var/lib/csfx-agent/qemu"@
}

/// The state directory of one virtual machine.
pub open spec fn vm_dir_spec(workload_id: Seq<char>) -> Seq<char> {
    path_join(vm_state_dir(), workload_id)
}

fn vm_dir_chars(workload_id: &str) -> (r: Vec<char>)
    ensures
        r@ == vm_dir_spec(workload_id@),
{
    join_path(&chars_of("/var/lib/csfx-agent/qemu"), &chars_of(workload_id))
}

/// The state directory of the virtual machine of a workload.
pub fn vm_dir(workload_id: &str) -> (r: String)
    ensures
        r@ == vm_dir_spec(workload_id@),
{
    string_from(vm_dir_chars(workload_id).as_slice())
}

/// Where the installation image of a workload's virtual machine is cached.
pub fn iso_cache_path(workload_id: &str) -> (r: String)
    ensures
        r@ == path_join(vm_dir_spec(workload_id@), "install.iso"@),
{
    string_from(join_path(&vm_dir_chars(workload_id), &chars_of("install.iso")).as_slice())
}

/// The boot disk image of a workload's virtual machine.
pub fn boot_disk_path(workload_id: &str) -> (r: String)
    ensures
        r@ == path_join(vm_dir_spec(workload_id@), "boot.img"@),
{
    string_from(join_path(&vm_dir_chars(workload_id), &chars_of("boot.img")).as_slice())
}

/// The QMP control socket of a virtual machine whose state is in `dir`.
pub fn qmp_socket_path(dir: &str) -> (r: String)
    ensures
        r@ == path_join(dir@, "qmp.sock"@),
{
    string_from(join_path(&chars_of(dir), &chars_of("qmp.sock")).as_slice())
}

/// The VNC console socket of a virtual machine whose state is in `dir`.
pub fn vnc_socket_path(dir: &str) -> (r: String)
    ensures
        r@ == path_join(dir@, "vnc.sock"@),
{
    string_from(join_path(&chars_of(dir), &chars_of("vnc.sock")).as_slice())
}

/// The metadata file kept beside a virtual machine's state in `dir`.
pub fn sidecar_metadata_path(dir: &str) -> (r: String)
    ensures
        r@ == path_join(dir@, "csfx-meta.json"@),
{
    string_from(join_path(&chars_of(dir), &chars_of("csfx-meta.json")).as_slice())
}

/// The pid file of a virtual machine whose state is in `dir`.
pub fn pid_file_path(dir: &str) -> (r: String)
    ensures
        r@ == path_join(dir@, "qemu.pid"@),
{
    string_from(join_path(&chars_of(dir), &chars_of("qemu.pid")).as_slice())
}

/// The longest network interface name Linux accepts.
pub const MAX_LINUX_IFNAME_LEN: usize = 15;

/// The prefix of every tap device the agent creates.
pub open spec fn tap_prefix() -> Seq<char> {
    "qtap"@
}

/// How many characters of the workload id a device name keeps.
pub open spec fn short_id_len() -> nat {
    11
}

/// `s` without any `-`.
pub open spec fn without_dashes(s: Seq<char>) -> Seq<char>
    decreases s.len(),
{
    if s.len() == 0 {
        s
    } else if s.last() == '-' {
        without_dashes(s.drop_last())
    } else {
        without_dashes(s.drop_last()).push(s.last())
    }
}

/// The first `n` characters of `s`, or all of `s` when it is shorter.
pub open spec fn take_upto(s: Seq<char>, n: nat) -> Seq<char> {
    if s.len() <= n {
        s
    } else {
        s.subrange(0, n as int)
    }
}

/// The short form of a workload id: its characters other than `-`, at most
/// eleven of them, so that `qtap` and the short id fit in a Linux interface name.
pub open spec fn short_id_spec(workload_id: Seq<char>) -> Seq<char> {
    take_upto(without_dashes(workload_id), short_id_len())
}

pub fn short_id(workload_id: &str) -> (r: String)
    ensures
        r@ == short_id_spec(workload_id@),
{
    let v = chars_of(workload_id);
    let mut kept: Vec<char> = Vec::new();
    let mut k: usize = 0;
    while k < v.len()
        invariant
            k <= v.len(),
            kept@ == without_dashes(v@.subrange(0, k as int)),
        decreases v.len() - k,
    {
        assert(v@.subrange(0, k + 1).drop_last() =~= v@.subrange(0, k as int));
        if v[k] != '-' {
            kept.push(v[k]);
        }
        k = k + 1;
    }
    assert(v@.subrange(0, v@.len() as int) =~= v@);
    if kept.len() > 11 {
        kept.truncate(11);
    }
    assert(kept@ =~= take_upto(without_dashes(v@), 11));
    string_from(kept.as_slice())
}

/// The systemd unit that runs a workload's virtual machine.
pub fn unit_name(workload_id: &str) -> (r: String)
    ensures
        r@ == "csfx-qemu-"@ + short_id_spec(workload_id@),
{
    let mut v = chars_of("csfx-qemu-");
    let mut s = chars_of(short_id(workload_id).as_str());
    v.append(&mut s);
    string_from(v.as_slice())
}

/// The tap device of a workload's virtual machine.
pub fn tap_device_name(workload_id: &str) -> (r: String)
    ensures
        r@ == tap_prefix() + short_id_spec(workload_id@),
{
    let mut v = chars_of("qtap");
    let mut s = chars_of(short_id(workload_id).as_str());
    v.append(&mut s);
    string_from(v.as_slice())
}

/// A tap device name is never longer than a Linux interface name may be, counted in
/// characters (in bytes too when the workload id is ASCII, as ids are).
pub proof fn lemma_tap_name_fits(workload_id: Seq<char>)
    ensures
        (tap_prefix() + short_id_spec(workload_id)).len() <= MAX_LINUX_IFNAME_LEN,
{
    reveal_strlit("qtap");
}

/// Where a volume is mounted on the node.
pub fn mount_point_for(volume_id: &str) -> (r: String)
    ensures
        r@ == "/mnt/csf-volumes/"@ + volume_id@,
{
    let mut v = chars_of("/mnt/csf-volumes/");
    let mut s = chars_of(volume_id);
    v.append(&mut s);
    string_from(v.as_slice())
}

} // verus!
