use cvm::cloud_init::{
    create_iso_image, seed_dir, seed_image_outcome, CloudInitError, seed_entries, seed_options, seed_path, Joliet, Separator,
    SEED_BUFFER_LEN,
};

#[test]
fn seed_paths() {
    assert_eq!(seed_dir(), "/tmp/cvm");
    assert_eq!(seed_path(), "/tmp/cvm/cloud-init.iso");
}

#[test]
fn seed_options_label_the_volume_cidata() {
    let o = seed_options();
    assert_eq!(o.volume_name, "cidata");
    assert!(o.system_id.is_none());
    assert!(o.volume_set_id.is_none());
    assert!(o.publisher_id.is_none());
    assert!(o.preparer_id.is_none());
    assert!(o.application_id.is_none());
    assert_eq!(o.joliet, Some(Joliet::Level3));
    assert_eq!(o.sector_size, 2048);
    assert_eq!(o.path_separator, Separator::ForwardSlash);
    assert!(!o.strict_charset);
}

#[test]
fn seed_entries_hold_user_then_meta_data() {
    let e = seed_entries(b"#cloud-config\n".to_vec(), b"instance-id: x\n".to_vec());
    assert_eq!(e.len(), 2);
    assert_eq!(e[0].name, "user-data");
    assert_eq!(e[0].contents, b"#cloud-config\n".to_vec());
    assert_eq!(e[1].name, "meta-data");
    assert_eq!(e[1].contents, b"instance-id: x\n".to_vec());
}

fn contains(hay: &[u8], needle: &[u8]) -> bool {
    hay.windows(needle.len()).any(|w| w == needle)
}

#[test]
fn create_iso_image_writes_an_iso9660_seed() {
    let user = b"#cloud-config\npassword: secret-test-value\n".to_vec();
    let meta = b"instance-id: iid-local01\nlocal-hostname: test\n".to_vec();
    let image = create_iso_image(user.clone(), meta.clone()).expect("image");
    assert!(image.len() >= SEED_BUFFER_LEN);
    assert_eq!(&image[32769..32774], b"CD001");
    assert!(contains(&image, b"CIDATA") || contains(&image, b"cidata"));
    assert!(contains(&image, &user));
    assert!(contains(&image, &meta));
}

#[test]
fn seed_image_outcome_keeps_the_image() {
    let r = seed_image_outcome(Ok(vec![1, 2, 3]));
    assert_eq!(r.unwrap(), vec![1, 2, 3]);
}

#[test]
fn seed_image_outcome_maps_the_writer_error() {
    let err = hadris_iso::write::IsoCreationError::from(std::io::Error::other("disk full"));
    match seed_image_outcome(Err(err)) {
        Err(CloudInitError::IsoCreation(msg)) => assert!(msg.contains("disk full")),
        other => panic!("unexpected {:?}", other),
    }
}

fn le32(s: &[u8], at: usize) -> usize {
    u32::from_le_bytes([s[at], s[at + 1], s[at + 2], s[at + 3]]) as usize
}

fn utf16_be(name: &str) -> Vec<u8> {
    name.bytes().flat_map(|b| [0u8, b]).collect()
}

/// Reads the Joliet root directory record by record and returns the data of
/// the file called `name`.
fn joliet_root_file(image: &[u8], name: &str) -> Option<Vec<u8>> {
    let dir = le32(image, 34974) * 2048;
    let dir_len = le32(image, 34982);
    let want = utf16_be(name);
    let mut rec = dir;
    while rec < dir + dir_len {
        let len = image[rec] as usize;
        if len == 0 {
            rec = (rec / 2048 + 1) * 2048;
            continue;
        }
        let name_len = image[rec + 32] as usize;
        if image[rec + 33..rec + 33 + name_len] == want[..] {
            let size = le32(image, rec + 10);
            let at = le32(image, rec + 2) * 2048;
            return Some(if size == 0 { vec![] } else { image[at..at + size].to_vec() });
        }
        rec += len;
    }
    None
}

#[test]
fn create_iso_image_lays_out_a_cidata_volume() {
    let user = b"#cloud-config\n".to_vec();
    let meta = b"instance-id: test\n".to_vec();
    let image = create_iso_image(user.clone(), meta.clone()).expect("image");
    assert_eq!(image[32768], 1);
    assert_eq!(&image[32769..32774], b"CD001");
    assert_eq!(&image[32808..32840], b"cidata                          ");
    assert_eq!(&image[32896..32900], &[0u8, 8, 8, 0]);
    assert_eq!(image[34816], 2);
    assert_eq!(&image[34817..34822], b"CD001");
    assert_eq!(&image[34904..34907], b"%/E");
    assert_eq!(joliet_root_file(&image, "user-data"), Some(user));
    assert_eq!(joliet_root_file(&image, "meta-data"), Some(meta));
    assert_eq!(image.len(), SEED_BUFFER_LEN);
}

#[test]
fn create_iso_image_with_empty_files() {
    let image = create_iso_image(vec![], vec![]).expect("image");
    assert_eq!(joliet_root_file(&image, "user-data"), Some(vec![]));
    assert_eq!(joliet_root_file(&image, "meta-data"), Some(vec![]));
}

#[test]
fn create_iso_image_fails_when_the_files_outgrow_the_buffer() {
    let user = vec![b'a'; 2 * SEED_BUFFER_LEN];
    let r = create_iso_image(user, b"instance-id: big\n".to_vec());
    assert!(matches!(r, Err(CloudInitError::IsoCreation(_))));
}
