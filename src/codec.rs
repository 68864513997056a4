use vstd::prelude::*;
use std::io::Read;
use std::io::Write;

verus! {

/// The error of flate2's encoder and decoder.
#[verifier::external_type_specification]
#[verifier::external_body]
pub struct ExIoError(std::io::Error);

/// Length of the gzip stream that flate2 writes for `data` at the default level.
pub uninterp spec fn gzip_len(data: Seq<u8>) -> nat;

/// Text held by the first gzip member of `data`, where it is one and its
/// content is UTF-8 (bytes after that member are not read).
pub uninterp spec fn gunzip_text(data: Seq<u8>) -> Option<Seq<char>>;

/// Whether `s` parses as a TOML document.
pub uninterp spec fn toml_accepts(s: Seq<char>) -> bool;

/// The JSON text of the TOML document `s`, as serde_json writes the parsed value.
pub uninterp spec fn toml_json_text(s: Seq<char>) -> Seq<char>;

/// Display text of the date-time that the iso8601 crate parses from `s`, if any.
pub uninterp spec fn iso_datetime_text(s: Seq<char>) -> Option<Seq<char>>;

/// Relies on flate2's `GzEncoder` over a `Vec<u8>` with `Compression::default()`:
/// the stream (fixed header, no time stamp) depends on the bytes alone, and
/// header, data and trailer all go to the `Vec`, so writing it does not fail.
#[verifier::external_body]
pub(crate) fn gzip_encoded_len(data: &[u8]) -> (r: Result<u64, std::io::Error>)
    ensures
        r is Ok,
        r matches Ok(n) ==> n as nat == gzip_len(data@),
{
    let mut w = flate2::write::GzEncoder::new(Vec::new(), flate2::Compression::default());
    w.write_all(data)?;
    let out = w.finish()?;
    Ok(out.len() as u64)
}

/// Relies on flate2's `read::GzDecoder` read to a `String`: it succeeds only on a
/// gzip stream whose content is UTF-8, and then yields that content.
#[verifier::external_body]
pub(crate) fn gunzip_to_string(data: &[u8]) -> (r: Result<String, std::io::Error>)
    ensures
        r matches Ok(s) ==> gunzip_text(data@) == Some(s@),
        r is Err ==> gunzip_text(data@) is None,
{
    let mut text = String::new();
    flate2::read::GzDecoder::new(data).read_to_string(&mut text)?;
    Ok(text)
}

/// Relies on `toml::from_str::<toml::Value>`, which succeeds exactly on TOML
/// documents, and on `serde_json::to_string` of the parsed value, which cannot
/// fail: a TOML value holds only strings, numbers, booleans, arrays and tables
/// with string keys.
#[verifier::external_body]
pub(crate) fn toml_as_json(s: &str) -> (r: Option<String>)
    ensures
        r is Some <==> toml_accepts(s@),
        r matches Some(t) ==> t@ == toml_json_text(s@),
{
    match toml::from_str::<toml::Value>(s) {
        Ok(v) => serde_json::to_string(&v).ok(),
        Err(_) => None,
    }
}

/// Relies on `iso8601::datetime`, with the parsed value turned into its
/// display text (`DateTime`'s `Display`); the text depends on `s` alone.
#[verifier::external_body]
pub(crate) fn iso_datetime(s: &str) -> (r: Option<String>)
    ensures
        r matches Some(t) ==> iso_datetime_text(s@) == Some(t@),
        r is None ==> iso_datetime_text(s@) is None,
{
    match iso8601::datetime(s) {
        Ok(d) => Some(d.to_string()),
        Err(_) => None,
    }
}

} // verus!
