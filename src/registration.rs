use vstd::prelude::*;

use crate::fields::pairs_view;
use crate::record::{key_of, record_for, record_key, public_url, FileDescriptor, FileRecord};

verus! {

/// What one intake event asks of the store and of the reply: write `fields`
/// under `key` in one operation, then answer with `url`.
pub struct Registration {
    pub key: String,
    pub fields: Vec<(String, String)>,
    pub url: String,
}

/// Why an intake event registered nothing.
#[derive(Clone, Copy, Debug, PartialEq, Eq, Structural)]
pub enum RegistrationError {
    /// The message carries no file.
    NotAFile,
    /// The record store could not be reached.
    StoreUnavailable,
}

/// The fields that registering `desc` with origin path `path` writes.
pub open spec fn registered_fields(desc: FileDescriptor, path: Seq<char>) -> Seq<(Seq<char>, Seq<char>)> {
    let r = crate::record::record_spec(desc, path);
    crate::record::fields_spec(r.0, r.1, r.2, r.3, r.4)
}

/// Plans the registration of `desc`, whose origin path resolved to `path`;
/// `base_url` is the public address that retrieval links start with.
pub fn register(desc: &FileDescriptor, path: &str, base_url: &str) -> (r: Registration)
    ensures
        r.key@ == key_of(desc.unique_id@),
        pairs_view(r.fields@) == registered_fields(*desc, path@),
        r.url@ == base_url@ + desc.unique_id@,
{
    let record: FileRecord = record_for(desc, path);
    let fields = record.to_fields();
    Registration {
        key: record_key(desc.unique_id.as_str()),
        fields,
        url: public_url(base_url, desc.unique_id.as_str()),
    }
}

pub open spec fn registration_message_spec(e: RegistrationError) -> Seq<char> {
    match e {
        RegistrationError::NotAFile => "not a file! send me a file."@,
        RegistrationError::StoreUnavailable => "server error!"@,
    }
}

impl RegistrationError {
    /// The reply sent back to the chat for this failure.
    pub fn message(&self) -> (r: String)
        ensures
            r@ == registration_message_spec(*self),
    {
        match self {
            RegistrationError::NotAFile => String::from_str("not a file! send me a file."),
            RegistrationError::StoreUnavailable => String::from_str("server error!"),
        }
    }
}

} // verus!
