//! Taking the `chromedriver` binary out of a downloaded ZIP archive.
//!
//! The archive is read with the `zip` crate; which entry holds the binary,
//! and how each failure is reported, is decided here.
use std::io::Read;
use vstd::prelude::*;

use crate::cli_commands::file_name_spec;
use crate::platform::{chromedriver_binary_name, chromedriver_name_spec, HostOs};
use crate::text::{push_str, string_from};

verus! {

/// The number of entries of a ZIP archive, or the reader's error text.
pub uninterp spec fn zip_listing(bytes: Seq<u8>) -> Result<nat, Seq<char>>;

/// The name of entry `index`, or the reader's error text.
pub uninterp spec fn zip_entry_name(bytes: Seq<u8>, index: nat) -> Result<Seq<char>, Seq<char>>;

/// The decompressed content of entry `index`, or the reader's error text.
pub uninterp spec fn zip_entry_data(bytes: Seq<u8>, index: nat) -> Result<Seq<u8>, Seq<char>>;

/// `zip::ZipArchive::new` over the bytes, then `len`: the entry count, or
/// the error's text.  The contract names the outcome; nothing else is claimed.
#[verifier::external_body]
fn zip_open(bytes: &[u8]) -> (r: Result<usize, String>)
    ensures
        match r {
            Ok(n) => zip_listing(bytes@) == Ok::<nat, Seq<char>>(n as nat),
            Err(e) => zip_listing(bytes@) == Err::<nat, Seq<char>>(e@),
        },
{
    match zip::ZipArchive::new(std::io::Cursor::new(bytes)) {
        Ok(archive) => Ok(archive.len()),
        Err(e) => Err(e.to_string()),
    }
}

/// `ZipArchive::by_index(index)` then `ZipFile::name`: the entry's name, or
/// the error's text.  The contract names the outcome; nothing else is claimed.
#[verifier::external_body]
fn zip_name(bytes: &[u8], index: usize) -> (r: Result<String, String>)
    ensures
        match r {
            Ok(n) => zip_entry_name(bytes@, index as nat) == Ok::<Seq<char>, Seq<char>>(n@),
            Err(e) => zip_entry_name(bytes@, index as nat) == Err::<Seq<char>, Seq<char>>(e@),
        },
{
    let mut archive = match zip::ZipArchive::new(std::io::Cursor::new(bytes)) {
        Ok(a) => a,
        Err(e) => return Err(e.to_string()),
    };
    let r = match archive.by_index(index) {
        Ok(file) => Ok(file.name().to_string()),
        Err(e) => Err(e.to_string()),
    };
    r
}

/// `ZipArchive::by_index(index)` then `Read::read_to_end`: the entry's
/// content, or the error's text.  The contract names the outcome; nothing
/// else is claimed.
#[verifier::external_body]
fn zip_data(bytes: &[u8], index: usize) -> (r: Result<Vec<u8>, String>)
    ensures
        match r {
            Ok(d) => zip_entry_data(bytes@, index as nat) == Ok::<Seq<u8>, Seq<char>>(d@),
            Err(e) => zip_entry_data(bytes@, index as nat) == Err::<Seq<u8>, Seq<char>>(e@),
        },
{
    let mut archive = match zip::ZipArchive::new(std::io::Cursor::new(bytes)) {
        Ok(a) => a,
        Err(e) => return Err(e.to_string()),
    };
    let mut buf = Vec::new();
    let r = match archive.by_index(index) {
        Ok(mut file) => file.read_to_end(&mut buf).map_err(|e| e.to_string()),
        Err(e) => Err(e.to_string()),
    };
    match r {
        Ok(_) => Ok(buf),
        Err(e) => Err(e),
    }
}

/// Why the binary could not be taken out of the archive.
#[derive(Debug, PartialEq, Eq)]
pub enum ExtractError {
    /// The archive could not be read, or has no such binary.
    Internal(String),
    /// The binary's content could not be read.
    Io(String),
}

pub ghost enum ExtractFailure {
    Internal(Seq<char>),
    Io(Seq<char>),
}

pub open spec fn extract_result(r: Result<Vec<u8>, ExtractError>) -> Result<Seq<u8>, ExtractFailure> {
    match r {
        Ok(d) => Ok(d@),
        Err(ExtractError::Internal(m)) => Err(ExtractFailure::Internal(m@)),
        Err(ExtractError::Io(m)) => Err(ExtractFailure::Io(m@)),
    }
}

/// The entries from `i` on: the first whose file name is `binary` gives its
/// content; a name that cannot be read first is an error.
pub open spec fn extract_from(bytes: Seq<u8>, count: nat, binary: Seq<char>, i: nat) -> Result<
    Seq<u8>,
    ExtractFailure,
>
    decreases count - i,
{
    if i >= count {
        Err(
            ExtractFailure::Internal(
                "'"@ + binary + "' not found inside the downloaded archive"@,
            ),
        )
    } else {
        match zip_entry_name(bytes, i) {
            Err(e) => Err(ExtractFailure::Internal("ZIP read error: "@ + e)),
            Ok(name) => if file_name_spec(name) == Some(binary) {
                match zip_entry_data(bytes, i) {
                    Ok(d) => Ok(d),
                    Err(e) => Err(ExtractFailure::Io(e)),
                }
            } else {
                extract_from(bytes, count, binary, (i + 1) as nat)
            },
        }
    }
}

pub open spec fn extract_spec(bytes: Seq<u8>, os: HostOs) -> Result<Seq<u8>, ExtractFailure> {
    match zip_listing(bytes) {
        Err(e) => Err(ExtractFailure::Internal("Failed to open ZIP archive: "@ + e)),
        Ok(count) => extract_from(bytes, count, chromedriver_name_spec(os), 0),
    }
}

fn file_name_is(name: &str, binary: &str) -> (b: bool)
    ensures
        b == (file_name_spec(name@) == Some(binary@)),
{
    match crate::cli_commands::file_name_of(name) {
        Some(n) => crate::text::eq_chars(
            &crate::text::chars_of(n.as_str()),
            &crate::text::chars_of(binary),
        ),
        None => false,
    }
}

/// Takes the `chromedriver` binary for the host out of a ZIP archive: the
/// first entry whose file name (last path component) is the binary's name.
pub fn extract_chromedriver_from_zip(bytes: &[u8], os: HostOs) -> (r: Result<Vec<u8>, ExtractError>)
    ensures
        extract_result(r) == extract_spec(bytes@, os),
{
    let count = match zip_open(bytes) {
        Ok(n) => n,
        Err(e) => {
            let mut m = string_from("Failed to open ZIP archive: ");
            push_str(&mut m, e.as_str());
            return Err(ExtractError::Internal(m));
        },
    };
    let binary = chromedriver_binary_name(os);
    let mut i: usize = 0;
    while i < count
        invariant
            i <= count,
            zip_listing(bytes@) == Ok::<nat, Seq<char>>(count as nat),
            binary@ == chromedriver_name_spec(os),
            extract_spec(bytes@, os) == extract_from(bytes@, count as nat, binary@, i as nat),
        decreases count - i,
    {
        let name = match zip_name(bytes, i) {
            Ok(n) => n,
            Err(e) => {
                let mut m = string_from("ZIP read error: ");
                push_str(&mut m, e.as_str());
                return Err(ExtractError::Internal(m));
            },
        };
        if file_name_is(name.as_str(), binary) {
            return match zip_data(bytes, i) {
                Ok(d) => Ok(d),
                Err(e) => Err(ExtractError::Io(e)),
            };
        }
        i = i + 1;
    }
    let mut m = string_from("'");
    push_str(&mut m, binary);
    push_str(&mut m, "' not found inside the downloaded archive");
    Err(ExtractError::Internal(m))
}

} // verus!
