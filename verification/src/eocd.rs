use vstd::prelude::*;
use vstd::string::StringExecFns;
use crate::enums::Signature;
use crate::error::ZipError;
use crate::render::{decimal, decimal_text, hex8, hex8_text, push_line, with_line};
use crate::source::{le_u16, le_u32, read_u16_le, read_u32_le};

verus! {

/// The end-of-central-directory record: the trailer that anchors an archive.
#[derive(Debug, Clone, Copy, PartialEq, Eq, Structural)]
pub struct EndOfCentralDirectory {
    pub sig: u32,
    pub this_disk_num: u16,
    pub cd_start_disk: u16,
    pub cd_records_on_this_disk: u16,
    pub total_cd_records: u16,
    pub cd_size_bytes: u32,
    pub cd_start_offset: u32,
    pub comment_len: u16,
}

/// The trailer that the first 22 bytes of `bytes` encode, field by field in
/// little-endian order.
pub open spec fn eocd_record(bytes: Seq<u8>) -> EndOfCentralDirectory {
    EndOfCentralDirectory {
        sig: le_u32(bytes, 0),
        this_disk_num: le_u16(bytes, 4),
        cd_start_disk: le_u16(bytes, 6),
        cd_records_on_this_disk: le_u16(bytes, 8),
        total_cd_records: le_u16(bytes, 10),
        cd_size_bytes: le_u32(bytes, 12),
        cd_start_offset: le_u32(bytes, 16),
        comment_len: le_u16(bytes, 20),
    }
}

/// The trailer as text: its name, a line for each field, the signature in
/// hexadecimal and the other numbers in decimal, and a closing brace.
pub open spec fn eocd_text(eocd: EndOfCentralDirectory) -> Seq<char> {
    let text = "EndOfCentralDirectory { \n"@;
    let text = with_line(text, "  sig: "@, hex8_text(eocd.sig), ",\n"@);
    let text = with_line(
        text,
        "  this_disk_num: "@,
        decimal_text(eocd.this_disk_num as nat),
        ",\n"@,
    );
    let text = with_line(
        text,
        "  cd_start_disk: "@,
        decimal_text(eocd.cd_start_disk as nat),
        ",\n"@,
    );
    let text = with_line(
        text,
        "  cd_records_on_this_disk: "@,
        decimal_text(eocd.cd_records_on_this_disk as nat),
        ",\n"@,
    );
    let text = with_line(
        text,
        "  total_cd_records: "@,
        decimal_text(eocd.total_cd_records as nat),
        ",\n"@,
    );
    let text = with_line(
        text,
        "  cd_size_bytes: "@,
        decimal_text(eocd.cd_size_bytes as nat),
        ",\n"@,
    );
    let text = with_line(
        text,
        "  cd_start_offset: "@,
        decimal_text(eocd.cd_start_offset as nat),
        ",\n"@,
    );
    let text = with_line(text, "  comment_len: "@, decimal_text(eocd.comment_len as nat), "\n"@);
    text + "}\n"@
}

impl EndOfCentralDirectory {
    /// A trailer with its signature set and every other field zero.
    pub fn new() -> (eocd: EndOfCentralDirectory)
        ensures
            eocd == (EndOfCentralDirectory {
                sig: Signature::EndOfCentralDirectory.magic(),
                this_disk_num: 0,
                cd_start_disk: 0,
                cd_records_on_this_disk: 0,
                total_cd_records: 0,
                cd_size_bytes: 0,
                cd_start_offset: 0,
                comment_len: 0,
            }),
    {
        EndOfCentralDirectory {
            sig: Signature::EndOfCentralDirectory.sig_byte(),
            this_disk_num: 0,
            cd_start_disk: 0,
            cd_records_on_this_disk: 0,
            total_cd_records: 0,
            cd_size_bytes: 0,
            cd_start_offset: 0,
            comment_len: 0,
        }
    }

    /// The trailer as text, one field to a line.
    pub fn to_string(&self) -> (text: String)
        ensures
            text@ == eocd_text(*self),
    {
        let mut out = String::from_str("EndOfCentralDirectory { \n");
        push_line(&mut out, "  sig: ", hex8(self.sig).as_str(), ",\n");
        push_line(
            &mut out,
            "  this_disk_num: ",
            decimal(self.this_disk_num as u32).as_str(),
            ",\n",
        );
        push_line(
            &mut out,
            "  cd_start_disk: ",
            decimal(self.cd_start_disk as u32).as_str(),
            ",\n",
        );
        push_line(
            &mut out,
            "  cd_records_on_this_disk: ",
            decimal(self.cd_records_on_this_disk as u32).as_str(),
            ",\n",
        );
        push_line(
            &mut out,
            "  total_cd_records: ",
            decimal(self.total_cd_records as u32).as_str(),
            ",\n",
        );
        push_line(&mut out, "  cd_size_bytes: ", decimal(self.cd_size_bytes).as_str(), ",\n");
        push_line(&mut out, "  cd_start_offset: ", decimal(self.cd_start_offset).as_str(), ",\n");
        push_line(&mut out, "  comment_len: ", decimal(self.comment_len as u32).as_str(), "\n");
        out.append("}\n");
        out
    }

    /// Decodes the trailer that stands at the start of `bytes`. Fails with
    /// `IoFailure` exactly when `bytes` holds fewer than 22 bytes.
    pub fn decode(bytes: &[u8]) -> (decoded: Result<EndOfCentralDirectory, ZipError>)
        ensures
            bytes@.len() >= 22 ==> decoded == Ok::<EndOfCentralDirectory, ZipError>(
                eocd_record(bytes@),
            ),
            bytes@.len() < 22 ==> decoded == Err::<EndOfCentralDirectory, ZipError>(
                ZipError::IoFailure,
            ),
    {
        if bytes.len() < 22 {
            return Err(ZipError::IoFailure);
        }
        Ok(
            EndOfCentralDirectory {
                sig: read_u32_le(bytes, 0),
                this_disk_num: read_u16_le(bytes, 4),
                cd_start_disk: read_u16_le(bytes, 6),
                cd_records_on_this_disk: read_u16_le(bytes, 8),
                total_cd_records: read_u16_le(bytes, 10),
                cd_size_bytes: read_u32_le(bytes, 12),
                cd_start_offset: read_u32_le(bytes, 16),
                comment_len: read_u16_le(bytes, 20),
            },
        )
    }
}

} // verus!
