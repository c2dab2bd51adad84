# cvm

Provisions a virtual machine from a cloud image on the local libvirt.

- `src/` is the verified library: the domain, storage-pool and
  storage-volume definitions (`domain.rs`, `pool.rs`, `volume.rs`), the
  cloud-init seed image (`cloud_init.rs`), the chunked copy of an image into
  a volume (`volume.rs`), the steps that get the pool ready (`pool.rs`) and
  the wait for the guest's address (`domain.rs`).
- `app/` is the program: it reads files, serializes the definitions to XML
  and makes the libvirt calls that the library's step functions ask for.
