use rive_rs::file::{Error, File};

fn header(major: u8, minor: u8) -> Vec<u8> {
    vec![0x52, 0x49, 0x56, 0x45, major, minor, 0x00]
}

#[test]
fn valid_header_loads() {
    let file = File::new(&header(7, 0)).unwrap();
    assert_eq!(file.major, 7);
    assert_eq!(file.minor, 0);
    assert!(file.artboards.is_empty());
}

#[test]
fn truncated_buffer_is_malformed() {
    assert_eq!(File::new(&vec![0x52, 0x49]).unwrap_err(), Error::Malformed);
    assert_eq!(File::new(&Vec::new()).unwrap_err(), Error::Malformed);
}

#[test]
fn wrong_magic_is_malformed() {
    assert_eq!(File::new(&vec![0x00, 0x49, 0x56, 0x45, 7, 0]).unwrap_err(), Error::Malformed);
}

#[test]
fn header_cut_inside_a_version_is_malformed() {
    // The major version byte claims a continuation that never comes.
    assert_eq!(File::new(&vec![0x52, 0x49, 0x56, 0x45, 0x87]).unwrap_err(), Error::Malformed);
    // The minor version is missing entirely.
    assert_eq!(File::new(&vec![0x52, 0x49, 0x56, 0x45, 7]).unwrap_err(), Error::Malformed);
}

#[test]
fn newer_major_version_is_unsupported() {
    assert_eq!(File::new(&header(8, 0)).unwrap_err(), Error::UnsupportedVersion);
    // A multi-byte major version is decoded before being compared:
    // 0x87 0x01 encodes 7 + 128.
    assert_eq!(
        File::new(&vec![0x52, 0x49, 0x56, 0x45, 0x87, 0x01, 0x00]).unwrap_err(),
        Error::UnsupportedVersion,
    );
}

#[test]
fn multi_byte_versions_decode() {
    // The minor version 0x81 0x02 carries low bits 1 plus 2 * 128.
    let file = File::new(&vec![0x52, 0x49, 0x56, 0x45, 0x07, 0x81, 0x02, 0x00]).unwrap();
    assert_eq!(file.major, 7);
    assert_eq!(file.minor, 1 + 128 * 2);
}

#[test]
fn error_messages_name_the_failure() {
    assert_eq!(Error::UnsupportedVersion.message(), "unsupported version");
    assert_eq!(Error::Malformed.message(), "file is incorrectly encoded");
}
