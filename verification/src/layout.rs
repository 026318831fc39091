//! Where each device keeps its files, below the state directory.
//!
//! Paths are given as their components, relative to the state directory.
use vstd::prelude::*;
use vstd::utf8::*;
use crate::hex::{hex_id, hex_name, is_hex_digit, lemma_hex_name_injective, lemma_hex_text_shape};

verus! {

/// The directory under the state directory that holds one directory per device.
pub open spec fn devices_root_path() -> Seq<Seq<char>> {
    seq!["devices"@]
}

/// The directory of a device.
pub open spec fn device_dir_path(id: Seq<char>) -> Seq<Seq<char>> {
    devices_root_path().push(hex_name(id))
}

/// The MLS store of a device.
pub open spec fn database_file_path(id: Seq<char>) -> Seq<Seq<char>> {
    device_dir_path(id).push("openmls.sqlite"@)
}

/// The identity record of a device.
pub open spec fn identity_file_path(id: Seq<char>) -> Seq<Seq<char>> {
    device_dir_path(id).push("identity.json"@)
}

/// Identifiers short enough for their directory name to be built.
pub open spec fn id_fits(id: Seq<char>) -> bool {
    encode_utf8(id).len() <= usize::MAX / 4
}

/// `["devices"]`.
pub fn devices_root() -> (r: Vec<String>)
    ensures
        r.deep_view() == devices_root_path(),
{
    let mut r: Vec<String> = Vec::new();
    r.push(String::from_str("devices"));
    proof {
        assert(r.deep_view() =~= devices_root_path());
    }
    r
}

/// The file name of a device's MLS store.
pub fn database_file_name() -> (r: String)
    ensures
        r@ == "openmls.sqlite"@,
{
    String::from_str("openmls.sqlite")
}

/// The file name of a device's identity record.
pub fn identity_file_name() -> (r: String)
    ensures
        r@ == "identity.json"@,
{
    String::from_str("identity.json")
}

/// `["devices", hex_id(device_id)]`.
pub fn device_dir(device_id: &str) -> (r: Vec<String>)
    requires
        id_fits(device_id@),
    ensures
        r.deep_view() == device_dir_path(device_id@),
{
    let mut r = devices_root();
    r.push(hex_id(device_id));
    proof {
        assert(r.deep_view() =~= device_dir_path(device_id@));
    }
    r
}

/// `["devices", hex_id(device_id), "openmls.sqlite"]`.
pub fn database_path(device_id: &str) -> (r: Vec<String>)
    requires
        id_fits(device_id@),
    ensures
        r.deep_view() == database_file_path(device_id@),
{
    let mut r = device_dir(device_id);
    r.push(database_file_name());
    proof {
        assert(r.deep_view() =~= database_file_path(device_id@));
    }
    r
}

/// `["devices", hex_id(device_id), "identity.json"]`.
pub fn identity_path(device_id: &str) -> (r: Vec<String>)
    requires
        id_fits(device_id@),
    ensures
        r.deep_view() == identity_file_path(device_id@),
{
    let mut r = device_dir(device_id);
    r.push(identity_file_name());
    proof {
        assert(r.deep_view() =~= identity_file_path(device_id@));
    }
    r
}

/// Distinct devices get distinct directories, so no two devices share a store or an identity.
pub proof fn lemma_device_dirs_distinct(a: Seq<char>, b: Seq<char>)
    requires
        a != b,
    ensures
        device_dir_path(a) != device_dir_path(b),
        database_file_path(a) != database_file_path(b),
        identity_file_path(a) != identity_file_path(b),
{
    if device_dir_path(a) == device_dir_path(b) {
        assert(device_dir_path(a)[1] == device_dir_path(b)[1]);
        lemma_hex_name_injective(a, b);
    }
    if database_file_path(a) == database_file_path(b) {
        assert(database_file_path(a)[1] == database_file_path(b)[1]);
        lemma_hex_name_injective(a, b);
    }
    if identity_file_path(a) == identity_file_path(b) {
        assert(identity_file_path(a)[1] == identity_file_path(b)[1]);
        lemma_hex_name_injective(a, b);
    }
}

/// A device directory sits directly below `devices`, and its name is made of hexadecimal
/// digits only (so it holds no separator and is never `.` or `..`).
pub proof fn lemma_device_dir_shape(id: Seq<char>)
    ensures
        device_dir_path(id).len() == 2,
        device_dir_path(id)[0] == "devices"@,
        device_dir_path(id)[1].len() == 2 * encode_utf8(id).len(),
        forall|i: int| 0 <= i < device_dir_path(id)[1].len() ==> is_hex_digit(#[trigger] device_dir_path(id)[1][i]),
{
    lemma_hex_text_shape(encode_utf8(id));
}

/// A device's store and its identity record are different files.
pub proof fn lemma_store_is_not_identity(a: Seq<char>, b: Seq<char>)
    ensures
        database_file_path(a) != identity_file_path(b),
{
    reveal_strlit("openmls.sqlite");
    reveal_strlit("identity.json");
    assert(database_file_path(a)[2] == "openmls.sqlite"@);
    assert(identity_file_path(b)[2] == "identity.json"@);
    assert("openmls.sqlite"@.len() != "identity.json"@.len());
}

} // verus!
