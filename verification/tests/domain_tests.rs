use cvm::domain::{domain_definition, AddressWait, VmError, WaitStep, ADDRESS_ATTEMPTS};

#[test]
fn domain_definition_describes_the_vm() {
    let d = domain_definition(
        "test",
        "cvm".to_string(),
        "test.qcow2".to_string(),
        "/tmp/cvm/cloud-init.iso".to_string(),
    );
    assert_eq!(d.domain_type, "kvm");
    assert_eq!(d.name, "test");
    assert_eq!(d.os.os_type.arch, "x86_64");
    assert_eq!(d.os.os_type.machine, "q35");
    assert_eq!(d.os.os_type.value, "hvm");
    assert_eq!(d.vcpu.count, 1);
    assert_eq!(d.memory.unit, "G");
    assert_eq!(d.memory.count, 2);
    assert_eq!(d.devices.disk.len(), 2);
    assert_eq!(d.devices.interface.len(), 1);
    assert_eq!(d.devices.graphics.len(), 1);
}

#[test]
fn domain_system_disk_is_the_pool_volume() {
    let d = domain_definition("vm1", "pool-a".to_string(), "vol-b".to_string(), "/x.iso".to_string());
    let disk = &d.devices.disk[0];
    assert_eq!(disk.disk_type, "volume");
    assert!(disk.device.is_none());
    assert_eq!(disk.driver.name, "qemu");
    assert_eq!(disk.driver.driver_type, "qcow2");
    assert_eq!(disk.source.pool.as_deref(), Some("pool-a"));
    assert_eq!(disk.source.volume.as_deref(), Some("vol-b"));
    assert!(disk.source.file.is_none());
    assert_eq!(disk.target.dev, "vda");
    assert_eq!(disk.target.bus, "virtio");
    assert!(disk.readonly.is_none());
}

#[test]
fn domain_seed_disk_is_a_readonly_cdrom() {
    let d = domain_definition("vm1", "pool-a".to_string(), "vol-b".to_string(), "/x.iso".to_string());
    let disk = &d.devices.disk[1];
    assert_eq!(disk.disk_type, "file");
    assert_eq!(disk.device.as_deref(), Some("cdrom"));
    assert_eq!(disk.driver.name, "qemu");
    assert_eq!(disk.driver.driver_type, "raw");
    assert!(disk.source.pool.is_none());
    assert!(disk.source.volume.is_none());
    assert_eq!(disk.source.file.as_deref(), Some("/x.iso"));
    assert_eq!(disk.target.dev, "sda");
    assert_eq!(disk.target.bus, "sata");
    assert!(disk.readonly.is_some());
}

#[test]
fn domain_network_and_console() {
    let d = domain_definition("vm1", "p".to_string(), "v".to_string(), "f".to_string());
    let i = &d.devices.interface[0];
    assert_eq!(i.interface_type, "network");
    assert_eq!(i.source.network, "default");
    assert_eq!(i.model.model_type, "virtio");
    let g = &d.devices.graphics[0];
    assert_eq!(g.graphics_type, "spice");
    assert_eq!(g.autoport, "yes");
}

#[test]
fn vm_error_message() {
    assert_eq!(VmError::IpAddressTimeout.message(), "IP address wait timeout");
}

#[test]
fn address_wait_starts_with_thirty_attempts() {
    let w = AddressWait::new();
    assert_eq!(w.attempts_left, 30);
    assert_eq!(ADDRESS_ATTEMPTS, 30);
    assert_eq!(w.next_step(), WaitStep::Poll);
}

#[test]
fn address_wait_ready_on_first_address() {
    let mut w = AddressWait::new();
    assert_eq!(w.on_poll(false), WaitStep::Sleep);
    assert_eq!(w.next_step(), WaitStep::Poll);
    assert_eq!(w.on_poll(false), WaitStep::Sleep);
    assert_eq!(w.next_step(), WaitStep::Poll);
    assert_eq!(w.on_poll(true), WaitStep::Ready);
    assert_eq!(w.attempts_left, 28);
}

#[test]
fn address_wait_times_out_after_thirty_empty_polls() {
    let mut w = AddressWait::new();
    let mut polls = 0;
    while w.next_step() == WaitStep::Poll {
        assert_eq!(w.on_poll(false), WaitStep::Sleep);
        polls += 1;
    }
    assert_eq!(polls, 30);
    assert_eq!(w.next_step(), WaitStep::TimedOut);
}

#[test]
fn address_wait_ready_on_last_attempt() {
    let mut w = AddressWait::new();
    for _ in 0..29 {
        assert_eq!(w.next_step(), WaitStep::Poll);
        assert_eq!(w.on_poll(false), WaitStep::Sleep);
    }
    assert_eq!(w.next_step(), WaitStep::Poll);
    assert_eq!(w.on_poll(true), WaitStep::Ready);
}
