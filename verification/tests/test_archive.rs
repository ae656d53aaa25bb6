use aether_renderer_core::archive::{
    count_pngs_in_zip, extract_frame_from_zip, is_valid_image, is_valid_image_lowered,
    unzip_frames, FrameArchive,
};
use aether_renderer_core::error::{ArchiveFault, RenderError};
use aether_renderer_core::preview::preview_frame_from_zip;
use aether_renderer_core::text::base_name_of;
use std::io::Write;
use zip::write::{FileOptions, ZipWriter};
use zip::CompressionMethod;

fn zip_of(members: &[(&str, &[u8])], method: CompressionMethod) -> Vec<u8> {
    let mut zip = ZipWriter::new(std::io::Cursor::new(Vec::new()));
    let options = FileOptions::default().compression_method(method);
    for (name, data) in members {
        zip.start_file(*name, options).unwrap();
        zip.write_all(data).unwrap();
    }
    zip.finish().unwrap().into_inner()
}

#[test]
fn unzip_frames_extracts_pngs() {
    let bytes = zip_of(
        &[("frame_0000.png", b"png0"), ("frame_0001.png", b"png1")],
        CompressionMethod::Stored,
    );
    let mut archive = FrameArchive::open(bytes).unwrap();
    let frames = unzip_frames(&mut archive).unwrap();
    assert_eq!(frames.len(), 2);
    assert_eq!(frames[0].name, "frame_0000.png");
    assert_eq!(frames[0].data, b"png0".to_vec());
    assert_eq!(frames[1].name, "frame_0001.png");
    assert_eq!(frames[1].data, b"png1".to_vec());
}

#[test]
fn only_image_members_are_extracted() {
    let bytes = zip_of(
        &[
            ("readme.txt", b"text"),
            ("frames/b.PNG", b"bb"),
            ("__MACOSX/._b.png", b"sidecar"),
            ("frames/a.png", b"aa"),
            ("._c.png", b"sidecar"),
            ("png", b"no"),
        ],
        CompressionMethod::Deflated,
    );
    let mut archive = FrameArchive::open(bytes).unwrap();
    assert_eq!(count_pngs_in_zip(&mut archive).unwrap(), 2);
    let frames = unzip_frames(&mut archive).unwrap();
    assert_eq!(frames.len(), 2);
    assert_eq!(frames[0].name, "b.PNG");
    assert_eq!(frames[0].data, b"bb".to_vec());
    assert_eq!(frames[1].name, "a.png");
    assert_eq!(frames[1].data, b"aa".to_vec());
}

#[test]
fn archive_without_frames_is_rejected() {
    let bytes = zip_of(&[("readme.txt", b"text")], CompressionMethod::Stored);
    let mut archive = FrameArchive::open(bytes).unwrap();
    assert_eq!(count_pngs_in_zip(&mut archive).unwrap(), 0);
    match unzip_frames(&mut archive) {
        Err(e @ RenderError::NoFramesInArchive) => {
            assert_eq!(e.message(), "❌ No PNG files found in zip archive")
        }
        other => panic!("unexpected result: {:?}", other.map(|f| f.len())),
    }
    assert!(matches!(
        extract_frame_from_zip(&mut archive, 0),
        Err(RenderError::NoFramesInArchive)
    ));
    assert!(matches!(
        preview_frame_from_zip(&mut archive, None),
        Err(RenderError::NoFramesInArchive)
    ));
}

#[test]
fn empty_archive_has_no_frames() {
    let bytes = zip_of(&[], CompressionMethod::Stored);
    let mut archive = FrameArchive::open(bytes).unwrap();
    assert_eq!(count_pngs_in_zip(&mut archive).unwrap(), 0);
    assert!(matches!(
        unzip_frames(&mut archive),
        Err(RenderError::NoFramesInArchive)
    ));
}

#[test]
fn bytes_that_are_no_archive_are_unreadable() {
    match FrameArchive::open(b"this is not a zip file".to_vec()) {
        Err(e @ RenderError::ArchiveUnreadable { .. }) => {
            assert!(e.message().starts_with("❌ Failed to read zip archive: "))
        }
        Err(other) => panic!("unexpected error: {:?}", other),
        Ok(_) => panic!("opened what is no archive"),
    }
    assert!(FrameArchive::open(Vec::new()).is_err());
}

#[test]
fn extracts_one_frame_by_its_index_among_the_frames() {
    let bytes = zip_of(
        &[
            ("notes.txt", b"n"),
            ("f0.png", b"zero"),
            ("f1.png", b"one"),
            ("other.bin", b"o"),
            ("f2.png", b"two"),
        ],
        CompressionMethod::Deflated,
    );
    let mut archive = FrameArchive::open(bytes).unwrap();
    assert_eq!(extract_frame_from_zip(&mut archive, 0).unwrap(), b"zero".to_vec());
    assert_eq!(extract_frame_from_zip(&mut archive, 2).unwrap(), b"two".to_vec());
    assert_eq!(extract_frame_from_zip(&mut archive, 1).unwrap(), b"one".to_vec());
    match extract_frame_from_zip(&mut archive, 3) {
        Err(RenderError::FrameIndexOutOfRange { index, count }) => {
            assert_eq!(index, 3);
            assert_eq!(count, 3);
        }
        other => panic!("unexpected result: {:?}", other),
    }
}

#[test]
fn preview_counts_frames_in_lexicographic_order() {
    let bytes = zip_of(
        &[("b.png", b"bee"), ("a.png", b"ay"), ("x/c.png", b"sea"), ("B.png", b"big")],
        CompressionMethod::Stored,
    );
    let mut archive = FrameArchive::open(bytes).unwrap();
    assert_eq!(preview_frame_from_zip(&mut archive, Some(0)).unwrap(), b"big".to_vec());
    assert_eq!(preview_frame_from_zip(&mut archive, Some(1)).unwrap(), b"ay".to_vec());
    assert_eq!(preview_frame_from_zip(&mut archive, Some(2)).unwrap(), b"bee".to_vec());
    assert_eq!(preview_frame_from_zip(&mut archive, Some(3)).unwrap(), b"sea".to_vec());
    assert_eq!(preview_frame_from_zip(&mut archive, None).unwrap(), b"bee".to_vec());
    let ordered = archive.ordered_frames().unwrap();
    let names: Vec<&str> = ordered.iter().map(|m| m.name.as_str()).collect();
    assert_eq!(names, vec!["B.png", "a.png", "b.png", "c.png"]);
    let places: Vec<usize> = ordered.iter().map(|m| m.index).collect();
    assert_eq!(places, vec![3, 1, 0, 2]);
    assert_eq!(extract_frame_from_zip(&mut archive, 0).unwrap(), b"bee".to_vec());
}

#[test]
fn frames_of_one_name_keep_the_order_of_the_archive() {
    let bytes = zip_of(
        &[("y/f.png", b"first"), ("a.png", b"ay"), ("x/f.png", b"second")],
        CompressionMethod::Stored,
    );
    let mut archive = FrameArchive::open(bytes).unwrap();
    let ordered = archive.ordered_frames().unwrap();
    let places: Vec<usize> = ordered.iter().map(|m| m.index).collect();
    assert_eq!(places, vec![1, 0, 2]);
    assert_eq!(preview_frame_from_zip(&mut archive, Some(1)).unwrap(), b"first".to_vec());
    assert_eq!(preview_frame_from_zip(&mut archive, Some(2)).unwrap(), b"second".to_vec());
}

#[test]
fn preview_of_an_archive_defaults_to_the_middle_frame() {
    let bytes = zip_of(
        &[("f0.png", b"zero"), ("f1.png", b"one"), ("f2.png", b"two"), ("f3.png", b"three")],
        CompressionMethod::Stored,
    );
    let mut archive = FrameArchive::open(bytes).unwrap();
    assert_eq!(preview_frame_from_zip(&mut archive, None).unwrap(), b"two".to_vec());
    assert_eq!(preview_frame_from_zip(&mut archive, Some(0)).unwrap(), b"zero".to_vec());
    match preview_frame_from_zip(&mut archive, Some(4)) {
        Err(e) => assert_eq!(e.message(), "❌ Frame index 4 out of range (0..3)"),
        Ok(_) => panic!("index 4 of 4 frames was accepted"),
    }
}

#[test]
fn image_names() {
    assert!(is_valid_image("frame_0001.png"));
    assert!(is_valid_image("FRAME.PNG"));
    assert!(is_valid_image("a.Png"));
    assert!(is_valid_image(".png"));
    assert!(!is_valid_image("._frame.png"));
    assert!(!is_valid_image("._FRAME.PNG"));
    assert!(!is_valid_image("frame.jpg"));
    assert!(!is_valid_image("png"));
    assert!(!is_valid_image(""));
    assert!(!is_valid_image("frame.png.txt"));
    assert!(is_valid_image_lowered("a.png"));
    assert!(!is_valid_image_lowered("a.PNG"));
    assert!(!is_valid_image_lowered("._a.png"));
}

#[test]
fn base_names() {
    assert_eq!(base_name_of("a/b/c.png"), "c.png");
    assert_eq!(base_name_of("c.png"), "c.png");
    assert_eq!(base_name_of("dir/"), "");
    assert_eq!(base_name_of(""), "");
    assert_eq!(base_name_of("/x"), "x");
    assert_eq!(base_name_of("日本/語.png"), "語.png");
}

#[test]
fn members_are_read_by_their_position() {
    let bytes = zip_of(
        &[("notes.txt", b"n"), ("f0.png", b"zero")],
        CompressionMethod::Deflated,
    );
    let mut archive = FrameArchive::open(bytes).unwrap();
    assert_eq!(archive.len(), 2);
    assert_eq!(archive.member(0).unwrap(), b"n".to_vec());
    assert_eq!(archive.member(1).unwrap(), b"zero".to_vec());
    let members = archive.frame_members().unwrap();
    assert_eq!(members.len(), 1);
    assert_eq!(members[0].index, 1);
    assert_eq!(members[0].name, "f0.png");
}

#[test]
fn damaged_member_makes_the_archive_unreadable() {
    let mut bytes = zip_of(&[("f0.png", b"zero-zero-zero")], CompressionMethod::Stored);
    let at = bytes
        .windows(14)
        .position(|w| w == b"zero-zero-zero")
        .unwrap();
    bytes[at] = b'Z';
    let mut archive = FrameArchive::open(bytes).unwrap();
    assert_eq!(count_pngs_in_zip(&mut archive).unwrap(), 1);
    match unzip_frames(&mut archive) {
        Err(e @ RenderError::ArchiveUnreadable { fault: ArchiveFault::Member { index: 0 }, .. }) => {
            assert!(e.message().starts_with("❌ Failed to access file in zip at index 0: "))
        }
        other => panic!("unexpected result: {:?}", other.map(|f| f.len())),
    }
    match extract_frame_from_zip(&mut archive, 0) {
        Err(e @ RenderError::ArchiveUnreadable { fault: ArchiveFault::Listing { index: 0 }, .. }) => {
            assert!(!e.message().is_empty());
            assert!(!e.message().starts_with("❌"));
        }
        other => panic!("unexpected result: {:?}", other),
    }
    assert!(matches!(
        preview_frame_from_zip(&mut archive, None),
        Err(RenderError::ArchiveUnreadable { fault: ArchiveFault::Listing { index: 0 }, .. })
    ));
}
