use zipper::cdfh::CentralDirectoryFileHeader;
use zipper::render::{decimal, hex8};
use zipper::source::{read_u16_le, read_u32_le};
use zipper::{
    read_cdfh, read_eocd, read_lfh, read_lfh_raw_data, read_string, ArchiveStructure, ByteSource,
    CompressionMethod, EndOfCentralDirectory, LocalFileHeader, ZipError,
};

fn cdfh_bytes(name: &[u8], extra: &[u8], comment: &[u8], method: u16, lfh_start: u32) -> Vec<u8> {
    let mut b: Vec<u8> = Vec::new();
    b.extend_from_slice(&0x02014b50u32.to_le_bytes());
    b.extend_from_slice(&0x031eu16.to_le_bytes()); // created_ver
    b.extend_from_slice(&20u16.to_le_bytes()); // extract_ver
    b.extend_from_slice(&0x0800u16.to_le_bytes()); // general_bit_flag
    b.extend_from_slice(&method.to_le_bytes());
    b.extend_from_slice(&0x1234u16.to_le_bytes()); // time
    b.extend_from_slice(&0x5678u16.to_le_bytes()); // date
    b.extend_from_slice(&0xdeadbeefu32.to_le_bytes()); // crc
    b.extend_from_slice(&5u32.to_le_bytes()); // compressed
    b.extend_from_slice(&0x01020304u32.to_le_bytes()); // uncompressed
    b.extend_from_slice(&(name.len() as u16).to_le_bytes());
    b.extend_from_slice(&(extra.len() as u16).to_le_bytes());
    b.extend_from_slice(&(comment.len() as u16).to_le_bytes());
    b.extend_from_slice(&1u16.to_le_bytes()); // disk
    b.extend_from_slice(&2u16.to_le_bytes()); // internal attr
    b.extend_from_slice(&0x81a40000u32.to_le_bytes()); // external attr
    b.extend_from_slice(&lfh_start.to_le_bytes());
    b.extend_from_slice(name);
    b.extend_from_slice(extra);
    b.extend_from_slice(comment);
    b
}

fn lfh_bytes(name: &[u8], extra: &[u8], payload: &[u8]) -> Vec<u8> {
    let mut b: Vec<u8> = Vec::new();
    b.extend_from_slice(&0x04034b50u32.to_le_bytes());
    b.extend_from_slice(&20u16.to_le_bytes()); // extract_ver
    b.extend_from_slice(&8u16.to_le_bytes()); // general_bit_flag
    b.extend_from_slice(&0u16.to_le_bytes()); // method
    b.extend_from_slice(&0x1111u16.to_le_bytes()); // time
    b.extend_from_slice(&0x2222u16.to_le_bytes()); // date
    b.extend_from_slice(&0xcafef00du32.to_le_bytes()); // crc
    b.extend_from_slice(&0u32.to_le_bytes()); // compressed: left to a descriptor
    b.extend_from_slice(&0u32.to_le_bytes()); // uncompressed
    b.extend_from_slice(&(name.len() as u16).to_le_bytes());
    b.extend_from_slice(&(extra.len() as u16).to_le_bytes());
    b.extend_from_slice(name);
    b.extend_from_slice(extra);
    b.extend_from_slice(payload);
    b
}

#[test]
fn fixed_sizes() {
    assert_eq!(46, ArchiveStructure::CentralDirectoryFileHeader.constant_size());
    assert_eq!(22, ArchiveStructure::EndOfCentralDirectory.constant_size());
    assert_eq!(30, ArchiveStructure::LocalFileHeader.constant_size());
}

#[test]
fn little_endian_readers() {
    let bytes = [0x50u8, 0x4b, 0x05, 0x06, 0xff, 0xff, 0xff, 0xff];
    assert_eq!(0x4b50, read_u16_le(&bytes, 0));
    assert_eq!(0x054b, read_u16_le(&bytes, 1));
    assert_eq!(0xffff, read_u16_le(&bytes, 6));
    assert_eq!(0x06054b50, read_u32_le(&bytes, 0));
    assert_eq!(0xffffffff, read_u32_le(&bytes, 4));
    assert_eq!(0xffff0605, read_u32_le(&bytes, 2));
}

#[test]
fn blank_records() {
    let eocd = EndOfCentralDirectory::new();
    assert_eq!(0x06054b50, eocd.sig);
    assert_eq!(0, eocd.total_cd_records);
    assert_eq!(0, eocd.cd_start_offset);
    assert_eq!(0, eocd.comment_len);

    let cdfh = CentralDirectoryFileHeader::new();
    assert_eq!(0x02014b50, cdfh.sig);
    assert_eq!(0, cdfh.compression_method);
    assert_eq!(0, cdfh.local_file_header_start);
    assert_eq!("", cdfh.file_name);
    assert_eq!("", cdfh.extra_field);
    assert_eq!("", cdfh.comment);
    assert!(!cdfh.is_directory());
    assert!(!cdfh.is_file());
    assert_eq!(Some(CompressionMethod::Store), cdfh.as_compression_method());

    let lfh = LocalFileHeader::new();
    assert_eq!(0x04034b50, lfh.sig);
    assert_eq!(0, lfh.file_name_len);
    assert_eq!("", lfh.file_name);
    assert!(!lfh.is_directory());
    assert!(!lfh.is_file());
}

#[test]
fn eocd_decodes_every_field() {
    let mut bytes = vec![0xaau8, 0xbb, 0xcc];
    bytes.extend_from_slice(&[0x50, 0x4b, 0x05, 0x06]);
    bytes.extend_from_slice(&[1, 0, 2, 0, 3, 0, 4, 1]);
    bytes.extend_from_slice(&0x11223344u32.to_le_bytes());
    bytes.extend_from_slice(&0x55667788u32.to_le_bytes());
    bytes.extend_from_slice(&[2, 0, b'h', b'i']);
    let mut source = ByteSource::new(bytes);
    let eocd = read_eocd(&mut source).unwrap();
    assert_eq!(
        EndOfCentralDirectory {
            sig: 0x06054b50,
            this_disk_num: 1,
            cd_start_disk: 2,
            cd_records_on_this_disk: 3,
            total_cd_records: 0x0104,
            cd_size_bytes: 0x11223344,
            cd_start_offset: 0x55667788,
            comment_len: 2,
        },
        eocd
    );
    assert_eq!(25, source.position());
}

#[test]
fn eocd_decode_from_buffer() {
    let mut bytes = vec![0x50u8, 0x4b, 0x05, 0x06];
    bytes.extend_from_slice(&[0u8; 18]);
    bytes[10] = 7;
    let eocd = EndOfCentralDirectory::decode(&bytes).unwrap();
    assert_eq!(7, eocd.total_cd_records);
    assert_eq!(0x06054b50, eocd.sig);
    assert_eq!(Err(ZipError::IoFailure), EndOfCentralDirectory::decode(&bytes[..21]));
}

#[test]
fn eocd_truncated_after_signature() {
    let mut bytes = vec![0x50u8, 0x4b, 0x05, 0x06];
    bytes.extend_from_slice(&[0u8; 17]);
    let mut source = ByteSource::new(bytes);
    source.seek_start(9);
    assert_eq!(Err(ZipError::IoFailure), read_eocd(&mut source));
    assert_eq!(9, source.position());
}

#[test]
fn eocd_without_signature() {
    let mut source = ByteSource::new(vec![0u8; 64]);
    assert_eq!(Err(ZipError::SignatureNotFound), read_eocd(&mut source));
    assert_eq!(0, source.position());
}

#[test]
fn reading_the_trailer_twice_gives_the_same_record() {
    let mut bytes = vec![1u8, 2, 3, 4, 5];
    bytes.extend_from_slice(&[0x50, 0x4b, 0x05, 0x06]);
    bytes.extend_from_slice(&[0, 0, 0, 0, 9, 0, 9, 0, 10, 0, 0, 0, 20, 0, 0, 0, 0, 0]);
    let mut source = ByteSource::new(bytes.clone());
    let first = read_eocd(&mut source).unwrap();
    let after_first = source.position();
    let second = read_eocd(&mut source).unwrap();
    assert_eq!(first, second);
    assert_eq!(after_first, source.position());
    assert_eq!(27, after_first);
    assert_eq!(bytes, source.data);
    assert_eq!(9, first.total_cd_records);
    assert_eq!(20, first.cd_start_offset);
}

#[test]
fn cdfh_decodes_every_field_and_skips_extra_and_comment() {
    let mut bytes = vec![0u8; 3];
    bytes.extend(cdfh_bytes(b"dir/name.txt", b"EXTRA", b"a comment", 8, 0x0a0b0c0d));
    bytes.extend_from_slice(&[0xee; 4]);
    let mut source = ByteSource::new(bytes);
    source.seek_start(3);
    let h = read_cdfh(&mut source).unwrap();
    assert_eq!(0x02014b50, h.sig);
    assert_eq!(0x031e, h.created_ver);
    assert_eq!(20, h.extract_ver);
    assert_eq!(0x0800, h.general_bit_flag);
    assert_eq!(8, h.compression_method);
    assert_eq!(0x1234, h.last_modified_time);
    assert_eq!(0x5678, h.last_modified_date);
    assert_eq!(0xdeadbeef, h.crc_32);
    assert_eq!(5, h.compressed_size);
    assert_eq!(0x01020304, h.uncompressed_size);
    assert_eq!(12, h.file_name_len);
    assert_eq!(5, h.extra_field_len);
    assert_eq!(9, h.comment_len);
    assert_eq!(1, h.file_start_disk_num);
    assert_eq!(2, h.internal_file_attr);
    assert_eq!(0x81a40000, h.external_file_attr);
    assert_eq!(0x0a0b0c0d, h.local_file_header_start);
    assert_eq!("dir/name.txt", h.file_name);
    assert_eq!("", h.extra_field);
    assert_eq!("", h.comment);
    assert_eq!(3 + 46 + 12 + 5 + 9, source.position());
    assert!(h.is_file());
    assert!(!h.is_directory());
    assert_eq!("dir/name.txt", h.as_path());
    assert_eq!(Some(CompressionMethod::Deflate), h.as_compression_method());
}

#[test]
fn cdfh_does_not_check_its_signature() {
    let mut bytes = cdfh_bytes(b"x", b"", b"", 0, 0);
    bytes[0] = 0;
    let mut source = ByteSource::new(bytes);
    let h = read_cdfh(&mut source).unwrap();
    assert_eq!(0x02014b00, h.sig);
    assert_eq!("x", h.file_name);
}

#[test]
fn cdfh_truncated_prefix_or_name() {
    let full = cdfh_bytes(b"name", b"", b"", 0, 0);
    let mut source = ByteSource::new(full[..45].to_vec());
    assert_eq!(Err(ZipError::IoFailure), read_cdfh(&mut source).map(|h| h.file_name));
    assert_eq!(0, source.position());
    let mut source = ByteSource::new(full[..49].to_vec());
    assert_eq!(Err(ZipError::IoFailure), read_cdfh(&mut source).map(|h| h.file_name));
    assert_eq!(0, source.position());
    let mut source = ByteSource::new(full);
    assert_eq!(Ok(String::from("name")), read_cdfh(&mut source).map(|h| h.file_name));
    assert_eq!(50, source.position());
}

#[test]
fn cdfh_extra_and_comment_may_run_past_the_end() {
    let full = cdfh_bytes(b"name", b"EXTRA", b"COMMENT", 0, 0);
    let mut source = ByteSource::new(full[..52].to_vec());
    let h = read_cdfh(&mut source).unwrap();
    assert_eq!("name", h.file_name);
    assert_eq!(46 + 4 + 5 + 7, source.position());
}

#[test]
fn cdfh_name_must_be_utf8() {
    let mut source = ByteSource::new(cdfh_bytes(&[b'a', 0xff, b'b'], b"", b"", 0, 0));
    assert_eq!(
        Err(ZipError::InvalidTextEncoding),
        read_cdfh(&mut source).map(|h| h.file_name)
    );
    assert_eq!(0, source.position());
}

#[test]
fn cdfh_name_may_hold_any_utf8() {
    let name = "d\u{e9}j\u{e0}/\u{65e5}\u{672c}/";
    let mut source = ByteSource::new(cdfh_bytes(name.as_bytes(), b"", b"", 0, 0));
    let h = read_cdfh(&mut source).unwrap();
    assert_eq!(name, h.file_name);
    assert!(h.is_directory());
    assert!(!h.is_file());
}

#[test]
fn cdfh_decode_from_buffer() {
    let bytes = cdfh_bytes(b"", b"", b"", 8, 77);
    let h = CentralDirectoryFileHeader::decode(&bytes, String::from("given")).unwrap();
    assert_eq!("given", h.file_name);
    assert_eq!(77, h.local_file_header_start);
    assert_eq!(0, h.file_name_len);
    assert!(CentralDirectoryFileHeader::decode(&bytes[..45], String::new()).is_err());
}

#[test]
fn lfh_decodes_every_field() {
    let mut bytes = vec![0u8; 10];
    bytes.extend(lfh_bytes(b"folder/", b"xx", b"payload"));
    let mut source = ByteSource::new(bytes);
    source.seek_start(1);
    let h = read_lfh(&mut source, 10).unwrap();
    assert_eq!(0x04034b50, h.sig);
    assert_eq!(20, h.extract_ver);
    assert_eq!(8, h.general_bit_flag);
    assert_eq!(0, h.compression_method);
    assert_eq!(0x1111, h.last_modified_time);
    assert_eq!(0x2222, h.last_modified_date);
    assert_eq!(0xcafef00d, h.crc_32);
    assert_eq!(0, h.compressed_size);
    assert_eq!(0, h.uncompressed_size);
    assert_eq!(7, h.file_name_len);
    assert_eq!(2, h.extra_field_len);
    assert_eq!("folder/", h.file_name);
    assert_eq!("", h.extra_field);
    assert!(h.is_directory());
    assert!(!h.is_file());
    assert_eq!(10 + 30 + 7 + 2, source.position());
}

#[test]
fn lfh_failures_leave_the_cursor() {
    let full = lfh_bytes(b"abc", b"", b"");
    let mut source = ByteSource::new(full[..29].to_vec());
    source.seek_start(5);
    assert_eq!(Err(ZipError::IoFailure), read_lfh(&mut source, 0).map(|h| h.file_name));
    assert_eq!(5, source.position());
    let mut source = ByteSource::new(full[..32].to_vec());
    source.seek_start(5);
    assert_eq!(Err(ZipError::IoFailure), read_lfh(&mut source, 0).map(|h| h.file_name));
    assert_eq!(5, source.position());
    let mut source = ByteSource::new(full.clone());
    assert_eq!(Err(ZipError::IoFailure), read_lfh(&mut source, 4).map(|h| h.file_name));
    let mut source = ByteSource::new(lfh_bytes(&[0xc3, 0x28], b"", b""));
    assert_eq!(
        Err(ZipError::InvalidTextEncoding),
        read_lfh(&mut source, 0).map(|h| h.file_name)
    );
    assert!(LocalFileHeader::decode(&full[..29], String::new()).is_err());
    assert_eq!(3, LocalFileHeader::decode(&full, String::new()).unwrap().file_name_len);
}

#[test]
fn read_string_reads_text() {
    let mut source = ByteSource::new(b"hello world".to_vec());
    source.seek_start(6);
    assert_eq!(Ok(String::from("wor")), read_string(&mut source, 3));
    assert_eq!(9, source.position());
    assert_eq!(Err(ZipError::IoFailure), read_string(&mut source, 3));
    assert_eq!(9, source.position());
    assert_eq!(Ok(String::new()), read_string(&mut source, 0));
    let mut source = ByteSource::new(vec![b'a', 0x80]);
    assert_eq!(Err(ZipError::InvalidTextEncoding), read_string(&mut source, 2));
    assert_eq!(0, source.position());
    assert_eq!(Ok(String::from("a")), read_string(&mut source, 1));
}

#[test]
fn payload_starts_after_the_local_header_fields() {
    // The central header declares other name and extra lengths than the
    // local one: the local header's lengths place the payload.
    let mut bytes = vec![0u8; 4];
    bytes.extend(lfh_bytes(b"ab", b"EXT", b"PAYLOAD-tail"));
    let mut cdfh = CentralDirectoryFileHeader::new();
    cdfh.local_file_header_start = 4;
    cdfh.compressed_size = 7;
    cdfh.file_name_len = 40;
    cdfh.extra_field_len = 50;
    let mut source = ByteSource::new(bytes);
    source.seek_start(2);
    assert_eq!(Ok(b"PAYLOAD".to_vec()), read_lfh_raw_data(&mut source, &cdfh));
    // The read position is back where it was before the call.
    assert_eq!(2, source.position());
}

#[test]
fn payload_shorter_than_declared_is_an_error() {
    let bytes = lfh_bytes(b"ab", b"", b"12345");
    let mut cdfh = CentralDirectoryFileHeader::new();
    cdfh.compressed_size = 6;
    let mut source = ByteSource::new(bytes.clone());
    source.seek_start(3);
    assert_eq!(Err(ZipError::IoFailure), read_lfh_raw_data(&mut source, &cdfh));
    assert_eq!(3, source.position());
    cdfh.compressed_size = 5;
    assert_eq!(Ok(b"12345".to_vec()), read_lfh_raw_data(&mut source, &cdfh));
    assert_eq!(3, source.position());
    cdfh.compressed_size = 0;
    assert_eq!(Ok(Vec::new()), read_lfh_raw_data(&mut source, &cdfh));
    assert_eq!(3, source.position());
    cdfh.local_file_header_start = 1000;
    assert_eq!(Err(ZipError::IoFailure), read_lfh_raw_data(&mut source, &cdfh));
    assert_eq!(3, source.position());
    // A position past the end is put back as well.
    cdfh.local_file_header_start = 0;
    cdfh.compressed_size = 5;
    source.seek_start(4000);
    assert_eq!(Ok(b"12345".to_vec()), read_lfh_raw_data(&mut source, &cdfh));
    assert_eq!(4000, source.position());
}

#[test]
fn numbers_as_text() {
    for n in [0u32, 1, 9, 10, 11, 99, 100, 101, 65535, 65536, 1234567890, u32::MAX] {
        assert_eq!(format!("{}", n), decimal(n));
        assert_eq!(format!("{:08x}", n), hex8(n));
    }
    assert_eq!("4294967295", decimal(u32::MAX));
    assert_eq!("06054b50", hex8(0x06054b50));
    assert_eq!("0000000a", hex8(10));
    assert_eq!("deadbeef", hex8(0xdeadbeef));
}

#[test]
fn eocd_as_text() {
    let eocd = EndOfCentralDirectory {
        sig: 0x06054b50,
        this_disk_num: 1,
        cd_start_disk: 2,
        cd_records_on_this_disk: 3,
        total_cd_records: 260,
        cd_size_bytes: 0x11223344,
        cd_start_offset: 0x55667788,
        comment_len: 0,
    };
    let expected = "EndOfCentralDirectory { \n  sig: 06054b50,\n  this_disk_num: 1,\n  \
                    cd_start_disk: 2,\n  cd_records_on_this_disk: 3,\n  total_cd_records: 260,\n  \
                    cd_size_bytes: 287454020,\n  cd_start_offset: 1432778632,\n  comment_len: 0\n}\n";
    assert_eq!(expected, eocd.to_string());
}

#[test]
fn cdfh_as_text() {
    let mut source =
        ByteSource::new(cdfh_bytes(b"dir/name.txt", b"EXTRA", b"a comment", 8, 0x0a0b0c0d));
    let h = read_cdfh(&mut source).unwrap();
    let expected = "CentralDirectoryFileHeader {\n  sig: 02014b50,\n  created_ver: 798,\n  \
                    extract_ver: 20,\n  compression_method: 8,\n  crc_32: 3735928559,\n  \
                    compressed_size: 5,\n  uncompressed_size: 16909060,\n  file_name_len: 12,\n  \
                    extra_field_len: 5,\n  comment_len: 9,\n  file_start_disk_num: 1,\n  \
                    local_file_header_start: 168496141,\n  file_name: \"dir/name.txt\",\n  \
                    extra_field: \"\",\n  comment: \"\",\n}\n";
    assert_eq!(expected, h.to_string());
}

#[test]
fn lfh_as_text() {
    let mut source = ByteSource::new(lfh_bytes(b"folder/", b"xx", b"payload"));
    let h = read_lfh(&mut source, 0).unwrap();
    let expected = "LocalFileHeader { \n  sig: 04034b50,\n  extract_ver: 20,\n  \
                    general_bit_flag: 8,\n  compression_method: 0,\n  last_modified_time: 4369,\n  \
                    last_modified_date: 8738,\n  crc_32: 3405705229,\n  compressed_size: 0,\n  \
                    uncompressed_size: 0,\n  file_name_len: 7,\n  extra_field_len: 2,\n  \
                    file_name: \"folder/\",\n  extra_field: \"\"\n}\n";
    assert_eq!(expected, h.to_string());
    assert_eq!(
        "LocalFileHeader { \n  sig: 04034b50,\n  extract_ver: 0,\n  general_bit_flag: 0,\n  \
         compression_method: 0,\n  last_modified_time: 0,\n  last_modified_date: 0,\n  \
         crc_32: 0,\n  compressed_size: 0,\n  uncompressed_size: 0,\n  file_name_len: 0,\n  \
         extra_field_len: 0,\n  file_name: \"\",\n  extra_field: \"\"\n}\n",
        LocalFileHeader::new().to_string()
    );
}
