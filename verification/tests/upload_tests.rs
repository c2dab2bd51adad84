use cvm::volume::{Upload, UploadError, UploadStep, CHUNK_SIZE};

/// Drives a copy of `data` where the stream takes at most `max_send` bytes
/// per call; returns the bytes the stream took.
fn copy_through(data: &[u8], announced: usize, max_send: usize) -> Vec<u8> {
    let mut upload = Upload::new(announced);
    let mut pos = 0;
    let mut out = Vec::new();
    loop {
        match upload.next_step() {
            UploadStep::Read(k) => {
                let end = (pos + k).min(data.len());
                upload.on_read(data[pos..end].to_vec());
                pos = end;
            }
            UploadStep::Send => {
                let p = upload.pending();
                let n = p.len().min(max_send);
                out.extend_from_slice(&p[..n]);
                upload.on_sent(n).unwrap();
            }
            UploadStep::Finish => return out,
        }
    }
}

#[test]
fn upload_whole_file_in_one_chunk() {
    let data: Vec<u8> = (0..100u8).collect();
    assert_eq!(copy_through(&data, 100, usize::MAX), data);
}

#[test]
fn upload_partial_sends_keep_order() {
    let data: Vec<u8> = (0..=255u8).cycle().take(1000).collect();
    assert_eq!(copy_through(&data, 1000, 7), data);
}

#[test]
fn upload_spans_several_chunks() {
    let data: Vec<u8> = (0..=255u8).cycle().take(CHUNK_SIZE * 2 + 5).collect();
    assert_eq!(copy_through(&data, data.len(), CHUNK_SIZE / 3), data);
}

#[test]
fn upload_reads_at_most_a_chunk() {
    let mut u = Upload::new(CHUNK_SIZE * 3);
    assert_eq!(u.next_step(), UploadStep::Read(CHUNK_SIZE));
    u.on_read(vec![1u8; 10]);
    assert_eq!(u.next_step(), UploadStep::Send);
    assert_eq!(u.pending(), &[1u8; 10][..]);
    u.on_sent(10).unwrap();
    assert_eq!(u.next_step(), UploadStep::Read(CHUNK_SIZE));
}

#[test]
fn upload_last_read_is_the_rest() {
    let mut u = Upload::new(5);
    assert_eq!(u.next_step(), UploadStep::Read(5));
    u.on_read(vec![9u8; 3]);
    u.on_sent(3).unwrap();
    assert_eq!(u.next_step(), UploadStep::Read(2));
}

#[test]
fn upload_stops_at_end_of_file() {
    let data = vec![4u8; 10];
    assert_eq!(copy_through(&data, 50, 4), data);
}

#[test]
fn upload_empty_image_finishes_at_once() {
    let u = Upload::new(0);
    assert_eq!(u.next_step(), UploadStep::Finish);
}

#[test]
fn upload_closed_stream_fails() {
    let mut u = Upload::new(4);
    u.on_read(vec![1, 2, 3, 4]);
    u.on_sent(1).unwrap();
    assert_eq!(u.on_sent(0), Err(UploadError::StreamClosed));
    assert_eq!(u.pending(), &[2u8, 3, 4][..]);
    assert_eq!(UploadError::StreamClosed.message(), "stream closed unexpectedly");
}
