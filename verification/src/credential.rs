//! Credentials of ONVIF devices, kept by an operator as one record for the
//! user name and one for the password of each device.
//!
//! The records are files in a directory that the operator names. This module
//! says which files belong to a device and what the records that were found
//! amount to; reading them is the caller's part, and it blocks.
use crate::text::{replace_chars, replaced};
use vstd::prelude::*;

verus! {

/// The key of a device's records: its identifier with each hyphen turned into
/// an underscore.
pub open spec fn record_key(device_id: Seq<char>) -> Seq<char> {
    replaced(device_id, seq!['-'], seq!['_'])
}

/// The name of the record that holds a device's user name.
pub open spec fn username_record(device_id: Seq<char>) -> Seq<char> {
    record_key(device_id) + "_username"@
}

/// The name of the record that holds a device's password.
pub open spec fn password_record(device_id: Seq<char>) -> Seq<char> {
    record_key(device_id) + "_password"@
}

/// The key of a device's records.
fn record_key_of(device_id: &str) -> (r: String)
    ensures
        r@ == record_key(device_id@),
{
    proof {
        reveal_strlit("-");
        reveal_strlit("_");
        assert("-"@ =~= seq!['-']);
        assert("_"@ =~= seq!['_']);
    }
    replace_chars(device_id, "-", "_")
}

/// The name of the file that holds a device's user name.
pub fn username_file_name(device_id: &str) -> (r: String)
    ensures
        r@ == username_record(device_id@),
{
    record_key_of(device_id).concat("_username")
}

/// The name of the file that holds a device's password.
pub fn password_file_name(device_id: &str) -> (r: String)
    ensures
        r@ == password_record(device_id@),
{
    record_key_of(device_id).concat("_password")
}

/// What was found of a device's records.
#[derive(Debug, Clone, Default)]
pub struct CredentialRecords {
    /// Whether a directory is configured and can be listed.
    pub directory_found: bool,
    /// The user name record, if there is one; empty where it cannot be read.
    pub username: Option<String>,
    /// The password record, if there is one that can be read.
    pub password: Option<String>,
}

/// The credential that the records amount to: a user name that is not empty,
/// with the password if there is one.
pub open spec fn resolved(records: CredentialRecords) -> Option<(String, Option<String>)> {
    match records.username {
        Some(username) if records.directory_found && username@.len() > 0 => Some(
            (username, records.password),
        ),
        _ => None,
    }
}

/// The credential of an ONVIF device, from what was found of its records.
/// Without a directory, without a user name record or with an empty one there
/// is no credential; that is no error.
pub fn get_credential_for_onvif_device(records: CredentialRecords) -> (r: Option<
    (String, Option<String>),
>)
    ensures
        r == resolved(records),
{
    if !records.directory_found {
        return None;
    }
    match records.username {
        Some(username) => {
            if username.as_str().is_empty() {
                None
            } else {
                Some((username, records.password))
            }
        },
        None => None,
    }
}

} // verus!
