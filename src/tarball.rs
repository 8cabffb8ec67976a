//! Single-file tar archives, the form in which sources and artifacts move
//! into and out of containers.

use vstd::prelude::*;
use std::io::Read;

verus! {

/// A name that `tar::Header::set_path` accepts in a GNU header: one relative
/// component of at most 100 ASCII letters, digits, `.`, `_` or `-`, starting
/// with a letter or digit.
pub open spec fn plain_file_name(name: Seq<char>) -> bool {
    &&& 0 < name.len() <= 100
    &&& is_alnum(name[0])
    &&& forall|i: int| 0 <= i < name.len() ==> is_alnum(#[trigger] name[i]) || name[i] == '.' || name[i] == '_' || name[i] == '-'
}

pub open spec fn is_alnum(c: char) -> bool {
    ('a' <= c && c <= 'z') || ('A' <= c && c <= 'Z') || ('0' <= c && c <= '9')
}

/// Permissions of an uploaded source file: `rw-r--r--`.
pub const SOURCE_MODE: u32 = 0o644;

/// Permissions of an uploaded executable: `rwxr-xr-x`.
pub const EXECUTABLE_MODE: u32 = 0o755;

/// The bytes of a GNU tar archive that holds one file `name` with `content`
/// and permission bits `mode`.
pub uninterp spec fn tar_single(name: Seq<char>, content: Seq<u8>, mode: u32) -> Seq<u8>;

/// The content of the first entry of the tar archive `data`, if it can be read.
pub uninterp spec fn tar_first_entry(data: Seq<u8>) -> Option<Seq<u8>>;

/// Relies on the `tar` crate's `Header::new_gnu`, `set_path`, `set_size`,
/// `set_mode`, `set_cksum` and `Builder::append`, `finish`: the archive of
/// one file. `set_path` accepts a plain relative name, and writing into a
/// `Vec` does not fail.
#[verifier::external_body]
fn single_file_tar(name: &str, content: &[u8], mode: u32) -> (r: Vec<u8>)
    requires
        plain_file_name(name@),
    ensures
        r@ == tar_single(name@, content@, mode),
{
    let mut header = tar::Header::new_gnu();
    header.set_path(name).unwrap();
    header.set_size(content.len() as u64);
    header.set_mode(mode);
    header.set_cksum();
    let mut archive = Vec::new();
    let mut builder = tar::Builder::new(&mut archive);
    builder.append(&header, content).unwrap();
    builder.finish().unwrap();
    drop(builder);
    archive
}

/// Relies on `tar::Archive::entries` and `Read::read_to_end`: the content of
/// the first readable entry, or `None`.
#[verifier::external_body]
fn first_entry(data: &[u8]) -> (r: Option<Vec<u8>>)
    ensures
        r is None <==> tar_first_entry(data@) is None,
        r is Some ==> tar_first_entry(data@) == Some(r->Some_0@),
{
    let mut archive = tar::Archive::new(data);
    for entry in archive.entries().ok()? {
        if let Ok(mut entry) = entry {
            let mut content = Vec::new();
            entry.read_to_end(&mut content).ok()?;
            return Some(content);
        }
    }
    None
}

/// An archive of one source file, readable by all.
pub fn create_tar_archive(filename: &str, content: &[u8]) -> (r: Vec<u8>)
    requires
        plain_file_name(filename@),
    ensures
        r@ == tar_single(filename@, content@, SOURCE_MODE),
{
    single_file_tar(filename, content, SOURCE_MODE)
}

/// An archive of one executable file.
pub fn create_tar_archive_executable(filename: &str, content: &[u8]) -> (r: Vec<u8>)
    requires
        plain_file_name(filename@),
    ensures
        r@ == tar_single(filename@, content@, EXECUTABLE_MODE),
{
    single_file_tar(filename, content, EXECUTABLE_MODE)
}

/// The content of the first file in an archive.
pub fn extract_from_tar(data: &[u8]) -> (r: Option<Vec<u8>>)
    ensures
        r is None <==> tar_first_entry(data@) is None,
        r is Some ==> tar_first_entry(data@) == Some(r->Some_0@),
{
    first_entry(data)
}

fn char_ok(c: char, first: bool) -> (r: bool)
    ensures
        r == (is_alnum(c) || (!first && (c == '.' || c == '_' || c == '-'))),
{
    ('a' <= c && c <= 'z') || ('A' <= c && c <= 'Z') || ('0' <= c && c <= '9') || (!first && (c
        == '.' || c == '_' || c == '-'))
}

/// Whether `name` can be the file of a single-file archive.
pub fn is_plain_file_name(name: &str) -> (r: bool)
    ensures
        r == plain_file_name(name@),
{
    let v = crate::text::char_vec(name);
    let n = v.len();
    if n == 0 || n > 100 {
        return false;
    }
    if !char_ok(v[0], true) {
        return false;
    }
    let mut i: usize = 0;
    while i < n
        invariant
            n == v@.len() == name@.len(),
            v@ == name@,
            i <= n,
            forall|k: int| 0 <= k < i ==> is_alnum(#[trigger] name@[k]) || name@[k] == '.' || name@[k] == '_' || name@[k] == '-',
        decreases n - i,
    {
        if !char_ok(v[i], false) {
            return false;
        }
        i = i + 1;
    }
    true
}

} // verus!
