use vstd::prelude::*;
use vstd::string::StringExecFns;
use crate::enums::{method_of_code, CompressionMethod, Signature};
use crate::error::ZipError;
use crate::render::{decimal, decimal_text, hex8, hex8_text, push_line, with_line};
use crate::names::{is_directory_name, is_file_name, names_directory, names_file};
use crate::source::{le_u16, le_u32, read_u16_le, read_u32_le};

verus! {

/// A central-directory file header: the catalog record of one entry.
#[derive(Debug)]
pub struct CentralDirectoryFileHeader {
    pub sig: u32,
    pub created_ver: u16,
    pub extract_ver: u16,
    pub general_bit_flag: u16,
    pub compression_method: u16,
    pub last_modified_time: u16,
    pub last_modified_date: u16,
    pub crc_32: u32,
    pub compressed_size: u32,
    pub uncompressed_size: u32,
    pub file_name_len: u16,
    pub extra_field_len: u16,
    pub comment_len: u16,
    pub file_start_disk_num: u16,
    pub internal_file_attr: u16,
    pub external_file_attr: u32,
    pub local_file_header_start: u32,
    pub file_name: String,
    pub extra_field: String,
    pub comment: String,
}

/// What a central-directory file header holds, with its text fields as
/// sequences of characters.
pub struct CdfhView {
    pub sig: u32,
    pub created_ver: u16,
    pub extract_ver: u16,
    pub general_bit_flag: u16,
    pub compression_method: u16,
    pub last_modified_time: u16,
    pub last_modified_date: u16,
    pub crc_32: u32,
    pub compressed_size: u32,
    pub uncompressed_size: u32,
    pub file_name_len: u16,
    pub extra_field_len: u16,
    pub comment_len: u16,
    pub file_start_disk_num: u16,
    pub internal_file_attr: u16,
    pub external_file_attr: u32,
    pub local_file_header_start: u32,
    pub file_name: Seq<char>,
    pub extra_field: Seq<char>,
    pub comment: Seq<char>,
}

impl View for CentralDirectoryFileHeader {
    type V = CdfhView;

    open spec fn view(&self) -> CdfhView {
        CdfhView {
            sig: self.sig,
            created_ver: self.created_ver,
            extract_ver: self.extract_ver,
            general_bit_flag: self.general_bit_flag,
            compression_method: self.compression_method,
            last_modified_time: self.last_modified_time,
            last_modified_date: self.last_modified_date,
            crc_32: self.crc_32,
            compressed_size: self.compressed_size,
            uncompressed_size: self.uncompressed_size,
            file_name_len: self.file_name_len,
            extra_field_len: self.extra_field_len,
            comment_len: self.comment_len,
            file_start_disk_num: self.file_start_disk_num,
            internal_file_attr: self.internal_file_attr,
            external_file_attr: self.external_file_attr,
            local_file_header_start: self.local_file_header_start,
            file_name: self.file_name@,
            extra_field: self.extra_field@,
            comment: self.comment@,
        }
    }
}

/// The header that the first 46 bytes of `bytes` encode, field by field in
/// little-endian order, with `file_name` for its name. The extra field and
/// the comment are not retained.
pub open spec fn cdfh_record(bytes: Seq<u8>, file_name: Seq<char>) -> CdfhView {
    CdfhView {
        sig: le_u32(bytes, 0),
        created_ver: le_u16(bytes, 4),
        extract_ver: le_u16(bytes, 6),
        general_bit_flag: le_u16(bytes, 8),
        compression_method: le_u16(bytes, 10),
        last_modified_time: le_u16(bytes, 12),
        last_modified_date: le_u16(bytes, 14),
        crc_32: le_u32(bytes, 16),
        compressed_size: le_u32(bytes, 20),
        uncompressed_size: le_u32(bytes, 24),
        file_name_len: le_u16(bytes, 28),
        extra_field_len: le_u16(bytes, 30),
        comment_len: le_u16(bytes, 32),
        file_start_disk_num: le_u16(bytes, 34),
        internal_file_attr: le_u16(bytes, 36),
        external_file_attr: le_u32(bytes, 38),
        local_file_header_start: le_u32(bytes, 42),
        file_name,
        extra_field: Seq::empty(),
        comment: Seq::empty(),
    }
}

/// The header with its signature set, every other number zero and every text
/// empty.
pub open spec fn cdfh_blank() -> CdfhView {
    CdfhView {
        sig: Signature::CentralDirectoryFileHeader.magic(),
        created_ver: 0,
        extract_ver: 0,
        general_bit_flag: 0,
        compression_method: 0,
        last_modified_time: 0,
        last_modified_date: 0,
        crc_32: 0,
        compressed_size: 0,
        uncompressed_size: 0,
        file_name_len: 0,
        extra_field_len: 0,
        comment_len: 0,
        file_start_disk_num: 0,
        internal_file_attr: 0,
        external_file_attr: 0,
        local_file_header_start: 0,
        file_name: Seq::empty(),
        extra_field: Seq::empty(),
        comment: Seq::empty(),
    }
}

/// The header as text: its name, a line for each field that is shown, the
/// signature in hexadecimal, the other numbers in decimal and the texts
/// between double quotes, and a closing brace.
pub open spec fn cdfh_text(cdfh: CdfhView) -> Seq<char> {
    let text = "CentralDirectoryFileHeader {\n"@;
    let text = with_line(text, "  sig: "@, hex8_text(cdfh.sig), ",\n"@);
    let text = with_line(text, "  created_ver: "@, decimal_text(cdfh.created_ver as nat), ",\n"@);
    let text = with_line(text, "  extract_ver: "@, decimal_text(cdfh.extract_ver as nat), ",\n"@);
    let text = with_line(
        text,
        "  compression_method: "@,
        decimal_text(cdfh.compression_method as nat),
        ",\n"@,
    );
    let text = with_line(text, "  crc_32: "@, decimal_text(cdfh.crc_32 as nat), ",\n"@);
    let text = with_line(
        text,
        "  compressed_size: "@,
        decimal_text(cdfh.compressed_size as nat),
        ",\n"@,
    );
    let text = with_line(
        text,
        "  uncompressed_size: "@,
        decimal_text(cdfh.uncompressed_size as nat),
        ",\n"@,
    );
    let text = with_line(
        text,
        "  file_name_len: "@,
        decimal_text(cdfh.file_name_len as nat),
        ",\n"@,
    );
    let text = with_line(
        text,
        "  extra_field_len: "@,
        decimal_text(cdfh.extra_field_len as nat),
        ",\n"@,
    );
    let text = with_line(text, "  comment_len: "@, decimal_text(cdfh.comment_len as nat), ",\n"@);
    let text = with_line(
        text,
        "  file_start_disk_num: "@,
        decimal_text(cdfh.file_start_disk_num as nat),
        ",\n"@,
    );
    let text = with_line(
        text,
        "  local_file_header_start: "@,
        decimal_text(cdfh.local_file_header_start as nat),
        ",\n"@,
    );
    let text = with_line(text, "  file_name: \""@, cdfh.file_name, "\",\n"@);
    let text = with_line(text, "  extra_field: \""@, cdfh.extra_field, "\",\n"@);
    let text = with_line(text, "  comment: \""@, cdfh.comment, "\",\n"@);
    text + "}\n"@
}

impl CentralDirectoryFileHeader {
    /// A header with its signature set and every other field zero or empty.
    pub fn new() -> (header: CentralDirectoryFileHeader)
        ensures
            header@ == cdfh_blank(),
    {
        CentralDirectoryFileHeader {
            sig: Signature::CentralDirectoryFileHeader.sig_byte(),
            created_ver: 0,
            extract_ver: 0,
            general_bit_flag: 0,
            compression_method: 0,
            last_modified_time: 0,
            last_modified_date: 0,
            crc_32: 0,
            compressed_size: 0,
            uncompressed_size: 0,
            file_name_len: 0,
            extra_field_len: 0,
            comment_len: 0,
            file_start_disk_num: 0,
            internal_file_attr: 0,
            external_file_attr: 0,
            local_file_header_start: 0,
            file_name: String::new(),
            extra_field: String::new(),
            comment: String::new(),
        }
    }

    /// Decodes the fixed prefix of a header that stands at the start of
    /// `bytes`, and gives it `file_name` for its name. Fails with
    /// `IoFailure` exactly when `bytes` holds fewer than 46 bytes.
    pub fn decode(bytes: &[u8], file_name: String) -> (decoded: Result<
        CentralDirectoryFileHeader,
        ZipError,
    >)
        ensures
            bytes@.len() >= 46 ==> (decoded matches Ok(header) && header@ == cdfh_record(
                bytes@,
                file_name@,
            )),
            bytes@.len() < 46 ==> (decoded matches Err(e) && e == ZipError::IoFailure),
    {
        if bytes.len() < 46 {
            return Err(ZipError::IoFailure);
        }
        Ok(
            CentralDirectoryFileHeader {
                sig: read_u32_le(bytes, 0),
                created_ver: read_u16_le(bytes, 4),
                extract_ver: read_u16_le(bytes, 6),
                general_bit_flag: read_u16_le(bytes, 8),
                compression_method: read_u16_le(bytes, 10),
                last_modified_time: read_u16_le(bytes, 12),
                last_modified_date: read_u16_le(bytes, 14),
                crc_32: read_u32_le(bytes, 16),
                compressed_size: read_u32_le(bytes, 20),
                uncompressed_size: read_u32_le(bytes, 24),
                file_name_len: read_u16_le(bytes, 28),
                extra_field_len: read_u16_le(bytes, 30),
                comment_len: read_u16_le(bytes, 32),
                file_start_disk_num: read_u16_le(bytes, 34),
                internal_file_attr: read_u16_le(bytes, 36),
                external_file_attr: read_u32_le(bytes, 38),
                local_file_header_start: read_u32_le(bytes, 42),
                file_name,
                extra_field: String::new(),
                comment: String::new(),
            },
        )
    }

    /// The header as text, one field to a line.
    pub fn to_string(&self) -> (text: String)
        ensures
            text@ == cdfh_text(self@),
    {
        let mut out = String::from_str("CentralDirectoryFileHeader {\n");
        push_line(&mut out, "  sig: ", hex8(self.sig).as_str(), ",\n");
        push_line(&mut out, "  created_ver: ", decimal(self.created_ver as u32).as_str(), ",\n");
        push_line(&mut out, "  extract_ver: ", decimal(self.extract_ver as u32).as_str(), ",\n");
        push_line(
            &mut out,
            "  compression_method: ",
            decimal(self.compression_method as u32).as_str(),
            ",\n",
        );
        push_line(&mut out, "  crc_32: ", decimal(self.crc_32).as_str(), ",\n");
        push_line(&mut out, "  compressed_size: ", decimal(self.compressed_size).as_str(), ",\n");
        push_line(
            &mut out,
            "  uncompressed_size: ",
            decimal(self.uncompressed_size).as_str(),
            ",\n",
        );
        push_line(
            &mut out,
            "  file_name_len: ",
            decimal(self.file_name_len as u32).as_str(),
            ",\n",
        );
        push_line(
            &mut out,
            "  extra_field_len: ",
            decimal(self.extra_field_len as u32).as_str(),
            ",\n",
        );
        push_line(&mut out, "  comment_len: ", decimal(self.comment_len as u32).as_str(), ",\n");
        push_line(
            &mut out,
            "  file_start_disk_num: ",
            decimal(self.file_start_disk_num as u32).as_str(),
            ",\n",
        );
        push_line(
            &mut out,
            "  local_file_header_start: ",
            decimal(self.local_file_header_start).as_str(),
            ",\n",
        );
        push_line(&mut out, "  file_name: \"", self.file_name.as_str(), "\",\n");
        push_line(&mut out, "  extra_field: \"", self.extra_field.as_str(), "\",\n");
        push_line(&mut out, "  comment: \"", self.comment.as_str(), "\",\n");
        out.append("}\n");
        out
    }

    /// Whether the entry is a directory: its name is not empty and ends in `/`.
    pub fn is_directory(&self) -> (yes: bool)
        ensures
            yes == names_directory(self@.file_name),
    {
        is_directory_name(self.file_name.as_str())
    }

    /// Whether the entry is a file: its name is not empty and does not end in `/`.
    pub fn is_file(&self) -> (yes: bool)
        ensures
            yes == names_file(self@.file_name),
    {
        is_file_name(self.file_name.as_str())
    }

    /// The entry's path: its name, taken as it stands.
    pub fn as_path(&self) -> (path: &str)
        ensures
            path@ == self@.file_name,
    {
        self.file_name.as_str()
    }

    /// The entry's compression method, if its code stands for one.
    pub fn as_compression_method(&self) -> (method: Option<CompressionMethod>)
        ensures
            method == method_of_code(self@.compression_method),
    {
        CompressionMethod::from_code(self.compression_method)
    }
}

} // verus!
