//! Seed-node metrics persistence: the pure pieces of writing swap
//! records to disk — which swaps are recorded, which file they go to,
//! and how the file name is formed. The actual disk write lives
//! outside the library.

use vstd::prelude::*;

use crate::types::Role;

verus! {

/// `std::path::PathBuf`, declared so the library can hand paths out;
/// the library never looks inside one.
#[verifier::external_type_specification]
#[verifier::external_body]
pub struct ExPathBuf(std::path::PathBuf);

/// The characters a `PathBuf` holds.
pub uninterp spec fn path_chars(p: std::path::PathBuf) -> Seq<char>;

/// Relies on `PathBuf::from::<String>`: the conversion neither
/// allocates nor copies, so the path holds exactly the string's
/// characters.
#[verifier::external_body]
fn path_from_string(s: String) -> (r: std::path::PathBuf)
    ensures
        path_chars(r) == s@,
{
    std::path::PathBuf::from(s)
}

/// How one path component is appended to a root, Unix style: an
/// absolute component replaces the root; otherwise the component is
/// appended, with a separator when the root does not already end in
/// one.
pub open spec fn joined_path(root: Seq<char>, name: Seq<char>) -> Seq<char> {
    if name.len() > 0 && name[0] == '/' {
        name
    } else if root.len() == 0 {
        name
    } else if root.last() == '/' {
        root + name
    } else {
        root + seq!['/'] + name
    }
}

/// The file a metrics record is written to: `filename` under `root`,
/// joined as [`joined_path`] says.
pub fn output_file_path(root: &str, filename: &str) -> (r: std::path::PathBuf)
    ensures
        path_chars(r) == joined_path(root@, filename@),
{
    let name_len = filename.unicode_len();
    let root_len = root.unicode_len();
    let joined: String = if name_len > 0 && filename.get_char(0) == '/' {
        String::from_str(filename)
    } else if root_len == 0 {
        String::from_str(filename)
    } else if root.get_char(root_len - 1) == '/' {
        String::from_str(root).concat(filename)
    } else {
        let with_sep = String::from_str(root).concat("/");
        proof {
            reveal_strlit("/");
            assert(("/")@ =~= seq!['/']);
        }
        with_sep.concat(filename)
    };
    path_from_string(joined)
}

/// The serialisation a metrics record is written with.
pub enum SerializeFormat {
    Json,
    Bytes,
}

/// The compression a metrics record may be written with.
pub enum Compress {
    EnableWithFlate2,
}

/// The file-name extension of each serialisation format.
pub open spec fn extension_chars(format: SerializeFormat) -> Seq<char> {
    match format {
        SerializeFormat::Json => ("json")@,
        SerializeFormat::Bytes => ("bytes")@,
    }
}

/// Executable form of [`extension_chars`].
pub fn file_extension(format: &SerializeFormat) -> (r: &'static str)
    ensures
        r@ == extension_chars(*format),
{
    match format {
        SerializeFormat::Json => "json",
        SerializeFormat::Bytes => "bytes",
    }
}

/// The name of a metrics file: the base name, a dot, and the format's
/// extension.
pub fn metrics_file_name(filename: &str, format: &SerializeFormat) -> (r: String)
    ensures
        r@ == filename@ + (".")@ + extension_chars(*format),
{
    String::from_str(filename).concat(".").concat(file_extension(format))
}

/// Which swaps the seed-node metrics collector persists: only the
/// taker side of a swap is written out.
pub fn should_record_swap(role: Role) -> (r: bool)
    ensures
        r == (role == Role::Taker),
{
    match role {
        Role::Taker => true,
        Role::Maker => false,
    }
}

} // verus!
