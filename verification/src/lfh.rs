use vstd::prelude::*;
use vstd::string::StringExecFns;
use crate::enums::Signature;
use crate::error::ZipError;
use crate::render::{decimal, decimal_text, hex8, hex8_text, push_line, with_line};
use crate::names::{is_directory_name, is_file_name, names_directory, names_file};
use crate::source::{le_u16, le_u32, read_u16_le, read_u32_le};

verus! {

/// A local file header: the record that stands immediately before an
/// entry's payload.
#[derive(Debug)]
pub struct LocalFileHeader {
    pub sig: u32,
    pub extract_ver: u16,
    pub general_bit_flag: u16,
    pub compression_method: u16,
    pub last_modified_time: u16,
    pub last_modified_date: u16,
    pub crc_32: u32,
    pub compressed_size: u32,
    pub uncompressed_size: u32,
    pub file_name_len: u16,
    pub extra_field_len: u16,
    pub file_name: String,
    pub extra_field: String,
}

/// What a local file header holds, with its text fields as sequences of
/// characters.
pub struct LfhView {
    pub sig: u32,
    pub extract_ver: u16,
    pub general_bit_flag: u16,
    pub compression_method: u16,
    pub last_modified_time: u16,
    pub last_modified_date: u16,
    pub crc_32: u32,
    pub compressed_size: u32,
    pub uncompressed_size: u32,
    pub file_name_len: u16,
    pub extra_field_len: u16,
    pub file_name: Seq<char>,
    pub extra_field: Seq<char>,
}

impl View for LocalFileHeader {
    type V = LfhView;

    open spec fn view(&self) -> LfhView {
        LfhView {
            sig: self.sig,
            extract_ver: self.extract_ver,
            general_bit_flag: self.general_bit_flag,
            compression_method: self.compression_method,
            last_modified_time: self.last_modified_time,
            last_modified_date: self.last_modified_date,
            crc_32: self.crc_32,
            compressed_size: self.compressed_size,
            uncompressed_size: self.uncompressed_size,
            file_name_len: self.file_name_len,
            extra_field_len: self.extra_field_len,
            file_name: self.file_name@,
            extra_field: self.extra_field@,
        }
    }
}

/// The header that the first 30 bytes of `bytes` encode, field by field in
/// little-endian order, with `file_name` for its name. The extra field is
/// not retained.
pub open spec fn lfh_record(bytes: Seq<u8>, file_name: Seq<char>) -> LfhView {
    LfhView {
        sig: le_u32(bytes, 0),
        extract_ver: le_u16(bytes, 4),
        general_bit_flag: le_u16(bytes, 6),
        compression_method: le_u16(bytes, 8),
        last_modified_time: le_u16(bytes, 10),
        last_modified_date: le_u16(bytes, 12),
        crc_32: le_u32(bytes, 14),
        compressed_size: le_u32(bytes, 18),
        uncompressed_size: le_u32(bytes, 22),
        file_name_len: le_u16(bytes, 26),
        extra_field_len: le_u16(bytes, 28),
        file_name,
        extra_field: Seq::empty(),
    }
}

/// The header with its signature set, every other number zero and every text
/// empty.
pub open spec fn lfh_blank() -> LfhView {
    LfhView {
        sig: Signature::LocalFileHeader.magic(),
        extract_ver: 0,
        general_bit_flag: 0,
        compression_method: 0,
        last_modified_time: 0,
        last_modified_date: 0,
        crc_32: 0,
        compressed_size: 0,
        uncompressed_size: 0,
        file_name_len: 0,
        extra_field_len: 0,
        file_name: Seq::empty(),
        extra_field: Seq::empty(),
    }
}

/// The header as text: its name, a line for each field, the signature in
/// hexadecimal, the other numbers in decimal and the texts between double
/// quotes, and a closing brace.
pub open spec fn lfh_text(lfh: LfhView) -> Seq<char> {
    let text = "LocalFileHeader { \n"@;
    let text = with_line(text, "  sig: "@, hex8_text(lfh.sig), ",\n"@);
    let text = with_line(text, "  extract_ver: "@, decimal_text(lfh.extract_ver as nat), ",\n"@);
    let text = with_line(
        text,
        "  general_bit_flag: "@,
        decimal_text(lfh.general_bit_flag as nat),
        ",\n"@,
    );
    let text = with_line(
        text,
        "  compression_method: "@,
        decimal_text(lfh.compression_method as nat),
        ",\n"@,
    );
    let text = with_line(
        text,
        "  last_modified_time: "@,
        decimal_text(lfh.last_modified_time as nat),
        ",\n"@,
    );
    let text = with_line(
        text,
        "  last_modified_date: "@,
        decimal_text(lfh.last_modified_date as nat),
        ",\n"@,
    );
    let text = with_line(text, "  crc_32: "@, decimal_text(lfh.crc_32 as nat), ",\n"@);
    let text = with_line(
        text,
        "  compressed_size: "@,
        decimal_text(lfh.compressed_size as nat),
        ",\n"@,
    );
    let text = with_line(
        text,
        "  uncompressed_size: "@,
        decimal_text(lfh.uncompressed_size as nat),
        ",\n"@,
    );
    let text = with_line(
        text,
        "  file_name_len: "@,
        decimal_text(lfh.file_name_len as nat),
        ",\n"@,
    );
    let text = with_line(
        text,
        "  extra_field_len: "@,
        decimal_text(lfh.extra_field_len as nat),
        ",\n"@,
    );
    let text = with_line(text, "  file_name: \""@, lfh.file_name, "\",\n"@);
    let text = with_line(text, "  extra_field: \""@, lfh.extra_field, "\"\n"@);
    text + "}\n"@
}

impl LocalFileHeader {
    /// A header with its signature set and every other field zero or empty.
    pub fn new() -> (header: LocalFileHeader)
        ensures
            header@ == lfh_blank(),
    {
        LocalFileHeader {
            sig: Signature::LocalFileHeader.sig_byte(),
            extract_ver: 0,
            general_bit_flag: 0,
            compression_method: 0,
            last_modified_time: 0,
            last_modified_date: 0,
            crc_32: 0,
            compressed_size: 0,
            uncompressed_size: 0,
            file_name_len: 0,
            extra_field_len: 0,
            file_name: String::new(),
            extra_field: String::new(),
        }
    }

    /// Decodes the fixed prefix of a header that stands at the start of
    /// `bytes`, and gives it `file_name` for its name. Fails with
    /// `IoFailure` exactly when `bytes` holds fewer than 30 bytes.
    pub fn decode(bytes: &[u8], file_name: String) -> (decoded: Result<LocalFileHeader, ZipError>)
        ensures
            bytes@.len() >= 30 ==> (decoded matches Ok(header) && header@ == lfh_record(
                bytes@,
                file_name@,
            )),
            bytes@.len() < 30 ==> (decoded matches Err(e) && e == ZipError::IoFailure),
    {
        if bytes.len() < 30 {
            return Err(ZipError::IoFailure);
        }
        Ok(
            LocalFileHeader {
                sig: read_u32_le(bytes, 0),
                extract_ver: read_u16_le(bytes, 4),
                general_bit_flag: read_u16_le(bytes, 6),
                compression_method: read_u16_le(bytes, 8),
                last_modified_time: read_u16_le(bytes, 10),
                last_modified_date: read_u16_le(bytes, 12),
                crc_32: read_u32_le(bytes, 14),
                compressed_size: read_u32_le(bytes, 18),
                uncompressed_size: read_u32_le(bytes, 22),
                file_name_len: read_u16_le(bytes, 26),
                extra_field_len: read_u16_le(bytes, 28),
                file_name,
                extra_field: String::new(),
            },
        )
    }

    /// The header as text, one field to a line.
    pub fn to_string(&self) -> (text: String)
        ensures
            text@ == lfh_text(self@),
    {
        let mut out = String::from_str("LocalFileHeader { \n");
        push_line(&mut out, "  sig: ", hex8(self.sig).as_str(), ",\n");
        push_line(&mut out, "  extract_ver: ", decimal(self.extract_ver as u32).as_str(), ",\n");
        push_line(
            &mut out,
            "  general_bit_flag: ",
            decimal(self.general_bit_flag as u32).as_str(),
            ",\n",
        );
        push_line(
            &mut out,
            "  compression_method: ",
            decimal(self.compression_method as u32).as_str(),
            ",\n",
        );
        push_line(
            &mut out,
            "  last_modified_time: ",
            decimal(self.last_modified_time as u32).as_str(),
            ",\n",
        );
        push_line(
            &mut out,
            "  last_modified_date: ",
            decimal(self.last_modified_date as u32).as_str(),
            ",\n",
        );
        push_line(&mut out, "  crc_32: ", decimal(self.crc_32).as_str(), ",\n");
        push_line(&mut out, "  compressed_size: ", decimal(self.compressed_size).as_str(), ",\n");
        push_line(
            &mut out,
            "  uncompressed_size: ",
            decimal(self.uncompressed_size).as_str(),
            ",\n",
        );
        push_line(
            &mut out,
            "  file_name_len: ",
            decimal(self.file_name_len as u32).as_str(),
            ",\n",
        );
        push_line(
            &mut out,
            "  extra_field_len: ",
            decimal(self.extra_field_len as u32).as_str(),
            ",\n",
        );
        push_line(&mut out, "  file_name: \"", self.file_name.as_str(), "\",\n");
        push_line(&mut out, "  extra_field: \"", self.extra_field.as_str(), "\"\n");
        out.append("}\n");
        out
    }

    /// Whether the entry is a directory: its name is not empty and ends in `/`.
    pub fn is_directory(&self) -> (yes: bool)
        ensures
            yes == names_directory(self@.file_name),
    {
        is_directory_name(self.file_name.as_str())
    }

    /// Whether the entry is a file: its name is not empty and does not end in `/`.
    pub fn is_file(&self) -> (yes: bool)
        ensures
            yes == names_file(self@.file_name),
    {
        is_file_name(self.file_name.as_str())
    }
}

} // verus!
