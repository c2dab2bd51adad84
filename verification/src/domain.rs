use vstd::prelude::*;

verus! {

/// The `os` element of a domain definition.
#[derive(Debug)]
pub struct Os {
    pub os_type: OsType,
}

/// The `type` element inside `os`: architecture, machine and the
/// virtualisation kind as its text.
#[derive(Debug)]
pub struct OsType {
    pub arch: String,
    pub machine: String,
    pub value: String,
}

/// Number of virtual CPUs.
#[derive(Debug)]
pub struct Vcpu {
    pub count: u64,
}

/// Guest memory, `count` units of `unit`.
#[derive(Debug)]
pub struct Memory {
    pub unit: String,
    pub count: u64,
}

/// Disk driver: hypervisor driver name and image format.
#[derive(Debug)]
pub struct Driver {
    pub name: String,
    pub driver_type: String,
}

/// Where a disk's data comes from: a pool volume or a file.
#[derive(Debug)]
pub struct DiskSource {
    pub pool: Option<String>,
    pub volume: Option<String>,
    pub file: Option<String>,
}

/// The device name and bus a disk is attached as.
#[derive(Debug)]
pub struct DiskTarget {
    pub dev: String,
    pub bus: String,
}

/// An empty marker element (such as `readonly`).
#[derive(Debug)]
pub struct Empty {}

/// A disk of the domain.
#[derive(Debug)]
pub struct Disk {
    pub disk_type: String,
    pub device: Option<String>,
    pub driver: Driver,
    pub source: DiskSource,
    pub target: DiskTarget,
    pub readonly: Option<Empty>,
}

/// The network an interface is plugged into.
#[derive(Debug)]
pub struct InterfaceSource {
    pub network: String,
}

/// The emulated network card model.
#[derive(Debug)]
pub struct InterfaceModel {
    pub model_type: String,
}

/// A network interface of the domain.
#[derive(Debug)]
pub struct Interface {
    pub interface_type: String,
    pub source: InterfaceSource,
    pub model: InterfaceModel,
}

/// A graphical console of the domain.
#[derive(Debug)]
pub struct Graphics {
    pub graphics_type: String,
    pub autoport: String,
}

/// The devices of the domain.
#[derive(Debug)]
pub struct Devices {
    pub disk: Vec<Disk>,
    pub interface: Vec<Interface>,
    pub graphics: Vec<Graphics>,
}

/// A libvirt domain definition.
#[derive(Debug)]
pub struct Domain {
    pub domain_type: String,
    pub name: String,
    pub os: Os,
    pub vcpu: Vcpu,
    pub memory: Memory,
    pub devices: Devices,
}

/// The view of an optional string.
pub open spec fn opt_str(o: Option<String>) -> Option<Seq<char>> {
    match o {
        Some(s) => Some(s@),
        None => None,
    }
}

/// The system disk: volume `volume` of pool `pool`, a qcow2 image attached
/// as `vda` on the virtio bus.
pub open spec fn is_system_disk(d: Disk, pool: Seq<char>, volume: Seq<char>) -> bool {
    &&& d.disk_type@ == "volume"@
    &&& d.device is None
    &&& d.driver.name@ == "qemu"@
    &&& d.driver.driver_type@ == "qcow2"@
    &&& opt_str(d.source.pool) == Some(pool)
    &&& opt_str(d.source.volume) == Some(volume)
    &&& d.source.file is None
    &&& d.target.dev@ == "vda"@
    &&& d.target.bus@ == "virtio"@
    &&& d.readonly is None
}

/// The cloud-init seed: the raw file `iso`, attached read-only as a cdrom
/// `sda` on the sata bus.
pub open spec fn is_seed_disk(d: Disk, iso: Seq<char>) -> bool {
    &&& d.disk_type@ == "file"@
    &&& opt_str(d.device) == Some("cdrom"@)
    &&& d.driver.name@ == "qemu"@
    &&& d.driver.driver_type@ == "raw"@
    &&& d.source.pool is None
    &&& d.source.volume is None
    &&& opt_str(d.source.file) == Some(iso)
    &&& d.target.dev@ == "sda"@
    &&& d.target.bus@ == "sata"@
    &&& d.readonly is Some
}

/// One virtio interface on the `default` network.
pub open spec fn is_default_interface(i: Interface) -> bool {
    &&& i.interface_type@ == "network"@
    &&& i.source.network@ == "default"@
    &&& i.model.model_type@ == "virtio"@
}

/// A spice console with an automatically chosen port.
pub open spec fn is_spice_console(g: Graphics) -> bool {
    &&& g.graphics_type@ == "spice"@
    &&& g.autoport@ == "yes"@
}

/// The definition of the virtual machine `name`: a KVM guest on x86_64 q35
/// with one vCPU and 2 GiB of memory, booting from volume `volume` of pool
/// `pool`, with the seed image `iso` as cdrom, one network interface and a
/// spice console.
pub open spec fn is_vm_definition(
    d: Domain,
    name: Seq<char>,
    pool: Seq<char>,
    volume: Seq<char>,
    iso: Seq<char>,
) -> bool {
    &&& d.domain_type@ == "kvm"@
    &&& d.name@ == name
    &&& d.os.os_type.arch@ == "x86_64"@
    &&& d.os.os_type.machine@ == "q35"@
    &&& d.os.os_type.value@ == "hvm"@
    &&& d.vcpu.count == 1
    &&& d.memory.unit@ == "G"@
    &&& d.memory.count == 2
    &&& d.devices.disk@.len() == 2
    &&& is_system_disk(d.devices.disk@[0], pool, volume)
    &&& is_seed_disk(d.devices.disk@[1], iso)
    &&& d.devices.interface@.len() == 1
    &&& is_default_interface(d.devices.interface@[0])
    &&& d.devices.graphics@.len() == 1
    &&& is_spice_console(d.devices.graphics@[0])
}

/// Builds the definition of the virtual machine `name` whose system disk is
/// volume `volume_name` of pool `pool_name` and whose cloud-init seed image
/// is the file `cloud_init`.
pub fn domain_definition(
    name: &str,
    pool_name: String,
    volume_name: String,
    cloud_init: String,
) -> (d: Domain)
    ensures
        is_vm_definition(d, name@, pool_name@, volume_name@, cloud_init@),
{
    let system_disk = Disk {
        disk_type: "volume".to_string(),
        device: None,
        driver: Driver { name: "qemu".to_string(), driver_type: "qcow2".to_string() },
        source: DiskSource { pool: Some(pool_name), volume: Some(volume_name), file: None },
        target: DiskTarget { dev: "vda".to_string(), bus: "virtio".to_string() },
        readonly: None,
    };
    let seed_disk = Disk {
        disk_type: "file".to_string(),
        device: Some("cdrom".to_string()),
        driver: Driver { name: "qemu".to_string(), driver_type: "raw".to_string() },
        source: DiskSource { pool: None, volume: None, file: Some(cloud_init) },
        target: DiskTarget { dev: "sda".to_string(), bus: "sata".to_string() },
        readonly: Some(Empty {}),
    };
    let mut disk: Vec<Disk> = Vec::new();
    disk.push(system_disk);
    disk.push(seed_disk);
    let mut interface: Vec<Interface> = Vec::new();
    interface.push(
        Interface {
            interface_type: "network".to_string(),
            source: InterfaceSource { network: "default".to_string() },
            model: InterfaceModel { model_type: "virtio".to_string() },
        },
    );
    let mut graphics: Vec<Graphics> = Vec::new();
    graphics.push(Graphics { graphics_type: "spice".to_string(), autoport: "yes".to_string() });
    Domain {
        domain_type: "kvm".to_string(),
        name: name.to_string(),
        os: Os {
            os_type: OsType {
                arch: "x86_64".to_string(),
                machine: "q35".to_string(),
                value: "hvm".to_string(),
            },
        },
        vcpu: Vcpu { count: 1 },
        memory: Memory { unit: "G".to_string(), count: 2 },
        devices: Devices { disk, interface, graphics },
    }
}

/// How many times the guest's address is asked for before giving up; one
/// second passes between two attempts.
pub const ADDRESS_ATTEMPTS: u32 = 30;

/// Errors of virtual-machine creation.
#[derive(Debug, Clone, Copy, PartialEq, Eq)]
pub enum VmError {
    /// The guest reported no address within the allotted attempts.
    IpAddressTimeout,
}

impl VmError {
    /// The human-readable message of the error.
    pub fn message(&self) -> (s: String)
        ensures
            s@ == "IP address wait timeout"@,
    {
        match self {
            VmError::IpAddressTimeout => "IP address wait timeout".to_string(),
        }
    }
}

/// What the caller does next while waiting for the guest's address.
#[derive(Debug, Clone, Copy, PartialEq, Eq)]
pub enum WaitStep {
    /// Ask the hypervisor for the guest's interface addresses.
    Poll,
    /// No address yet: sleep one second, then ask for the next step.
    Sleep,
    /// Addresses were reported: print them; the machine is ready.
    Ready,
    /// Every attempt came back empty: fail with `VmError::IpAddressTimeout`.
    TimedOut,
}

/// The wait for the guest's address: the attempts that are left.
#[derive(Debug, Clone, Copy, PartialEq, Eq)]
pub struct AddressWait {
    pub attempts_left: u32,
}

impl AddressWait {
    /// The step that the state calls for before a poll.
    pub open spec fn spec_next(self) -> WaitStep {
        if self.attempts_left > 0 {
            WaitStep::Poll
        } else {
            WaitStep::TimedOut
        }
    }

    /// The wait as it stands after a poll that found no address.
    pub open spec fn after_empty_poll(self) -> AddressWait {
        AddressWait { attempts_left: (self.attempts_left - 1) as u32 }
    }

    /// Where the wait ends when the polls report `polls` in turn (`true`
    /// where addresses were found): `Poll` when it needs more polls than
    /// there are.
    pub open spec fn outcome(self, polls: Seq<bool>) -> WaitStep
        decreases polls.len(),
    {
        if self.attempts_left == 0 {
            WaitStep::TimedOut
        } else if polls.len() == 0 {
            WaitStep::Poll
        } else if polls[0] {
            WaitStep::Ready
        } else {
            self.after_empty_poll().outcome(polls.drop_first())
        }
    }

    /// A fresh wait with all attempts left.
    pub fn new() -> (w: AddressWait)
        ensures
            w.attempts_left == ADDRESS_ATTEMPTS,
    {
        AddressWait { attempts_left: ADDRESS_ATTEMPTS }
    }

    /// Whether to poll again or to give up.
    pub fn next_step(&self) -> (s: WaitStep)
        ensures
            s == self.spec_next(),
    {
        if self.attempts_left > 0 {
            WaitStep::Poll
        } else {
            WaitStep::TimedOut
        }
    }

    /// Takes the result of a poll: `found` is whether any interface address
    /// came back.
    pub fn on_poll(&mut self, found: bool) -> (s: WaitStep)
        requires
            old(self).attempts_left > 0,
        ensures
            found ==> s == WaitStep::Ready && *final(self) == *old(self),
            !found ==> s == WaitStep::Sleep && *final(self) == old(self).after_empty_poll(),
    {
        if found {
            WaitStep::Ready
        } else {
            self.attempts_left = self.attempts_left - 1;
            WaitStep::Sleep
        }
    }
}

/// A fresh wait fails with a timeout exactly when each of its
/// `ADDRESS_ATTEMPTS` polls reports no address, and ends ready exactly when
/// one of them reports one.
pub proof fn lemma_wait_times_out_iff_all_polls_empty(polls: Seq<bool>)
    requires
        polls.len() == ADDRESS_ATTEMPTS,
    ensures
        (AddressWait { attempts_left: ADDRESS_ATTEMPTS }.outcome(polls) == WaitStep::TimedOut)
            <==> (forall|i: int| 0 <= i < polls.len() ==> !polls[i]),
        (AddressWait { attempts_left: ADDRESS_ATTEMPTS }.outcome(polls) == WaitStep::Ready)
            <==> (exists|i: int| 0 <= i < polls.len() && polls[i]),
{
    lemma_outcome_counts(AddressWait { attempts_left: ADDRESS_ATTEMPTS }, polls);
}

/// The outcome of a wait follows its steps: a poll on a wait with attempts
/// left ends it ready when it finds an address, and otherwise leaves the
/// outcome to the wait that `on_poll` leaves behind (`after_empty_poll`).
pub proof fn lemma_outcome_follows_on_poll(w: AddressWait, found: bool, rest: Seq<bool>)
    requires
        w.attempts_left > 0,
    ensures
        found ==> w.outcome(seq![found] + rest) == WaitStep::Ready,
        !found ==> w.outcome(seq![found] + rest) == w.after_empty_poll().outcome(rest),
{
    let polls = seq![found] + rest;
    assert(polls[0] == found);
    assert(polls.drop_first() =~= rest);
}

/// A wait uses at most as many polls as it has attempts left: given at
/// least that many answers, it is decided (ready or timed out), and the
/// answers after the first `attempts_left` ones change nothing.
pub proof fn lemma_wait_decided_within_attempts(w: AddressWait, polls: Seq<bool>)
    requires
        polls.len() >= w.attempts_left,
    ensures
        w.outcome(polls) != WaitStep::Poll,
        w.outcome(polls) != WaitStep::Sleep,
        w.outcome(polls) == w.outcome(polls.take(w.attempts_left as int)),
    decreases polls.len(),
{
    let short = polls.take(w.attempts_left as int);
    if w.attempts_left > 0 {
        assert(short[0] == polls[0]);
        if !polls[0] {
            lemma_wait_decided_within_attempts(w.after_empty_poll(), polls.drop_first());
            assert(short.drop_first() =~= polls.drop_first().take(w.after_empty_poll().attempts_left as int));
        }
    }
}

/// With as many polls as attempts left, the wait times out exactly when all
/// polls are empty, and is ready otherwise.
proof fn lemma_outcome_counts(w: AddressWait, polls: Seq<bool>)
    requires
        polls.len() == w.attempts_left,
    ensures
        (w.outcome(polls) == WaitStep::TimedOut) <==> (forall|i: int|
            0 <= i < polls.len() ==> !polls[i]),
        (w.outcome(polls) == WaitStep::Ready) <==> (exists|i: int|
            0 <= i < polls.len() && polls[i]),
    decreases polls.len(),
{
    if w.attempts_left > 0 && !polls[0] {
        let rest = polls.drop_first();
        lemma_outcome_counts(w.after_empty_poll(), rest);
        assert forall|i: int| 0 <= i < rest.len() implies rest[i] == polls[i + 1] by {}
        if exists|i: int| 0 <= i < polls.len() && polls[i] {
            let i = choose|i: int| 0 <= i < polls.len() && polls[i];
            assert(rest[i - 1]);
        }
        if exists|i: int| 0 <= i < rest.len() && rest[i] {
            let i = choose|i: int| 0 <= i < rest.len() && rest[i];
            assert(polls[i + 1]);
        }
    }
}

} // verus!
