use lotrc::codec::{CodecError, Endian};
use lotrc::level::{byte_order_of, header_version, AUDIO_VERSION, LEVEL_INFO_VERSION, LEVEL_VERSION};

#[test]
fn little_endian_version_byte() {
    assert_eq!(byte_order_of(&[6, 0, 0, 0, 9], LEVEL_VERSION), Ok(Endian::Little));
}

#[test]
fn big_endian_version_byte() {
    assert_eq!(byte_order_of(&[0, 0, 0, 6], LEVEL_VERSION), Ok(Endian::Big));
    assert_eq!(byte_order_of(&[0, 0, 0, 4], LEVEL_INFO_VERSION), Ok(Endian::Big));
    assert_eq!(byte_order_of(&[2, 0, 0, 0], AUDIO_VERSION), Ok(Endian::Little));
}

#[test]
fn unknown_version_is_refused() {
    assert_eq!(byte_order_of(&[7, 0, 0, 7], LEVEL_VERSION), Err(CodecError::UnknownVersion));
    assert_eq!(byte_order_of(&[], LEVEL_VERSION), Err(CodecError::UnknownVersion));
    assert_eq!(byte_order_of(&[0, 0, 6], LEVEL_VERSION), Err(CodecError::UnknownVersion));
}

#[test]
fn rebuilt_header_versions() {
    assert_eq!(header_version(Endian::Little), 1);
    assert_eq!(header_version(Endian::Big), 2);
}
