use zipper::{find_sig_position, ByteSource, CompressionMethod, Signature, ZipError};

#[test]
fn find_sig_eocd() {
    let bytes: &[u8] = &[0, 0, 0x50, 0x4b, 0x05, 0x06, 0, 0];
    let mut cursor = ByteSource::new(bytes.to_vec());

    let res = find_sig_position(&mut cursor, Signature::EndOfCentralDirectory.sig_byte());
    assert!(res.is_ok());
    assert_eq!(2u64, res.unwrap());
}

#[test]
fn deflate_from_code() {
    let method = CompressionMethod::from_code(8u16).unwrap();
    assert_eq!(CompressionMethod::Deflate, method);
}

#[test]
fn store_from_code() {
    assert_eq!(Some(CompressionMethod::Store), CompressionMethod::from_code(0));
}

#[test]
fn unknown_codes_have_no_method() {
    assert_eq!(None, CompressionMethod::from_code(99));
    assert_eq!(None, CompressionMethod::from_code(1));
    assert_eq!(None, CompressionMethod::from_code(7));
    assert_eq!(None, CompressionMethod::from_code(9));
    assert_eq!(None, CompressionMethod::from_code(u16::MAX));
}

#[test]
fn scanner_leaves_cursor_after_signature() {
    let mut cursor = ByteSource::new(vec![0, 0, 0x50, 0x4b, 0x05, 0x06, 0, 0]);
    cursor.seek_start(7);
    let at = find_sig_position(&mut cursor, 0x06054b50).unwrap();
    assert_eq!(2, at);
    assert_eq!(6, cursor.position());
    assert_eq!(vec![0, 0, 0x50, 0x4b, 0x05, 0x06, 0, 0], cursor.data);
}

#[test]
fn scanner_returns_first_of_several() {
    let mut bytes = vec![9u8, 0x50, 0x4b, 0x05, 0x06, 1, 2, 3];
    bytes.extend_from_slice(&[0x50, 0x4b, 0x05, 0x06]);
    let mut cursor = ByteSource::new(bytes);
    assert_eq!(Ok(1), find_sig_position(&mut cursor, 0x06054b50));
    assert_eq!(5, cursor.position());
}

#[test]
fn scanner_advances_one_byte_at_a_time() {
    // The signature stands at an offset that is no multiple of four.
    let mut cursor = ByteSource::new(vec![0x50, 0x50, 0x4b, 0x50, 0x4b, 0x03, 0x04]);
    assert_eq!(Ok(3), find_sig_position(&mut cursor, Signature::LocalFileHeader.sig_byte()));
}

#[test]
fn scanner_finds_signature_at_offset_zero_and_at_the_end() {
    let mut cursor = ByteSource::new(vec![0x50, 0x4b, 0x01, 0x02]);
    assert_eq!(
        Ok(0),
        find_sig_position(&mut cursor, Signature::CentralDirectoryFileHeader.sig_byte())
    );
    let mut cursor = ByteSource::new(vec![7, 7, 7, 0x50, 0x4b, 0x01, 0x02]);
    assert_eq!(Ok(3), find_sig_position(&mut cursor, 0x02014b50));
    assert_eq!(7, cursor.position());
}

#[test]
fn scanner_reports_missing_signature() {
    let mut cursor = ByteSource::new(vec![0x50, 0x4b, 0x05, 0x07, 0, 0, 0x50, 0x4b, 0x05]);
    cursor.seek_start(3);
    assert_eq!(
        Err(ZipError::SignatureNotFound),
        find_sig_position(&mut cursor, 0x06054b50)
    );
    assert_eq!(3, cursor.position());
}

#[test]
fn scanner_on_short_input() {
    for len in 0..4usize {
        let mut cursor = ByteSource::new(vec![0x50u8, 0x4b, 0x05][..len.min(3)].to_vec());
        assert_eq!(
            Err(ZipError::SignatureNotFound),
            find_sig_position(&mut cursor, 0x06054b50)
        );
    }
}

#[test]
fn signature_bytes_are_little_endian() {
    assert_eq!(0x06054b50, Signature::EndOfCentralDirectory.sig_byte());
    assert_eq!(0x02014b50, Signature::CentralDirectoryFileHeader.sig_byte());
    assert_eq!(0x04034b50, Signature::LocalFileHeader.sig_byte());
    assert_eq!(
        [0x50, 0x4b, 0x03, 0x04],
        Signature::LocalFileHeader.sig_byte().to_le_bytes()
    );
}

#[test]
fn source_reads_and_seeks() {
    let mut source = ByteSource::new(vec![1, 2, 3, 4, 5]);
    assert_eq!(5, source.len());
    assert_eq!(0, source.position());
    assert_eq!(Ok(vec![1, 2]), source.read_exact(2));
    assert_eq!(2, source.position());
    assert_eq!(Err(ZipError::IoFailure), source.read_exact(4));
    assert_eq!(2, source.position());
    assert_eq!(Ok(vec![3, 4, 5]), source.read_exact(3));
    assert_eq!(Ok(vec![]), source.read_exact(0));
    assert_eq!(Err(ZipError::IoFailure), source.read_exact(1));
    // A seek past the end is accepted; the read after it fails.
    source.seek_start(100);
    assert_eq!(100, source.position());
    assert_eq!(Err(ZipError::IoFailure), source.read_exact(1));
    assert_eq!(Err(ZipError::IoFailure), source.read_exact(0));
    assert_eq!(Ok(110), source.skip(10));
    source.seek_start(u64::MAX - 1);
    assert_eq!(Err(ZipError::IoFailure), source.skip(2));
    assert_eq!(u64::MAX - 1, source.position());
    assert_eq!(Ok(u64::MAX), source.skip(1));
}
