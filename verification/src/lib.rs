//! Building blocks for provisioning a cloud-image virtual machine on libvirt:
//! the domain, storage-pool and storage-volume definitions, the cloud-init
//! seed image, the chunked image upload and the wait for the guest's address.

pub mod domain;

pub mod volume;
pub mod pool;
pub mod cloud_init;
