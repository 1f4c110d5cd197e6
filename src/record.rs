use vstd::prelude::*;

use crate::fields::pairs_view;

verus! {

/// A file as the chat intake hands it over.
pub struct FileDescriptor {
    /// Platform file id, used to resolve the origin path.
    pub id: String,
    /// Content-derived id; the public retrieval key.
    pub unique_id: String,
    pub name: Option<String>,
    pub mime: Option<String>,
    pub size: u32,
    /// Credential needed to build the origin fetch URL.
    pub token: String,
}

/// One stored record: the fields written under `record_key(unique_id)`.
pub struct FileRecord {
    pub path: String,
    pub mime: String,
    pub name: String,
    pub token: String,
    pub size: u32,
}

pub open spec fn key_prefix() -> Seq<char> {
    "file_"@
}

/// The store key of the record for `unique_id`.
pub open spec fn key_of(unique_id: Seq<char>) -> Seq<char> {
    key_prefix() + unique_id
}

/// The generic binary content type.
pub open spec fn octet_stream() -> Seq<char> {
    "application/octet-stream"@
}

/// The display name stored when none was declared.
pub open spec fn unnamed() -> Seq<char> {
    "unnamed"@
}

pub open spec fn digit_char(d: nat) -> char {
    if d == 0 {
        '0'
    } else if d == 1 {
        '1'
    } else if d == 2 {
        '2'
    } else if d == 3 {
        '3'
    } else if d == 4 {
        '4'
    } else if d == 5 {
        '5'
    } else if d == 6 {
        '6'
    } else if d == 7 {
        '7'
    } else if d == 8 {
        '8'
    } else {
        '9'
    }
}

/// The decimal text of `n`, without sign or leading zeros.
pub open spec fn decimal(n: nat) -> Seq<char>
    decreases n,
{
    if n < 10 {
        seq![digit_char(n)]
    } else {
        decimal(n / 10).push(digit_char(n % 10))
    }
}

/// The mime stored for a declared content type, or the generic binary type.
pub open spec fn stored_mime(m: Option<String>) -> Seq<char> {
    match m {
        Some(t) => t@,
        None => octet_stream(),
    }
}

/// The name stored for a declared file name, or the placeholder.
pub open spec fn stored_name(n: Option<String>) -> Seq<char> {
    match n {
        Some(t) => t@,
        None => unnamed(),
    }
}

/// The record that registering `d` with resolved origin path `path` writes.
pub open spec fn record_spec(d: FileDescriptor, path: Seq<char>) -> (
    Seq<char>,
    Seq<char>,
    Seq<char>,
    Seq<char>,
    u32,
) {
    (path, stored_mime(d.mime), stored_name(d.name), d.token@, d.size)
}

/// The field list written for a record, in this order:
/// path, mime, name, token, size (as decimal text).
pub open spec fn fields_spec(path: Seq<char>, mime: Seq<char>, name: Seq<char>, token: Seq<char>, size: u32) -> Seq<(Seq<char>, Seq<char>)> {
    seq![
        ("path"@, path),
        ("mime"@, mime),
        ("name"@, name),
        ("token"@, token),
        ("size"@, decimal(size as nat)),
    ]
}

/// Relies on mime::APPLICATION_OCTET_STREAM, whose text is its source string
/// "application/octet-stream".
#[verifier::external_body]
fn generic_binary_type() -> (r: String)
    ensures
        r@ == octet_stream(),
{
    mime::APPLICATION_OCTET_STREAM.to_string()
}

/// The store key `"file_" + unique_id`.
pub fn record_key(unique_id: &str) -> (r: String)
    ensures
        r@ == key_of(unique_id@),
{
    let mut k = String::from_str("file_");
    k.append(unique_id);
    k
}

/// The public retrieval URL: the configured base followed by `unique_id`.
pub fn public_url(base: &str, unique_id: &str) -> (r: String)
    ensures
        r@ == base@ + unique_id@,
{
    let mut u = String::from_str(base);
    u.append(unique_id);
    u
}

fn digit_text(d: u32) -> (r: String)
    requires
        d < 10,
    ensures
        r@ == seq![digit_char(d as nat)],
{
    let s = if d == 0 {
        "0"
    } else if d == 1 {
        "1"
    } else if d == 2 {
        "2"
    } else if d == 3 {
        "3"
    } else if d == 4 {
        "4"
    } else if d == 5 {
        "5"
    } else if d == 6 {
        "6"
    } else if d == 7 {
        "7"
    } else if d == 8 {
        "8"
    } else {
        "9"
    };
    proof {
        reveal_strlit("0");
        reveal_strlit("1");
        reveal_strlit("2");
        reveal_strlit("3");
        reveal_strlit("4");
        reveal_strlit("5");
        reveal_strlit("6");
        reveal_strlit("7");
        reveal_strlit("8");
        reveal_strlit("9");
    }
    let r = String::from_str(s);
    assert(r@ =~= seq![digit_char(d as nat)]);
    r
}

/// The decimal text of `n`.
pub fn decimal_text(n: u32) -> (r: String)
    ensures
        r@ == decimal(n as nat),
    decreases n,
{
    if n < 10 {
        digit_text(n)
    } else {
        let mut s = decimal_text(n / 10);
        let d = digit_text(n % 10);
        s.append(d.as_str());
        assert(s@ =~= decimal(n as nat));
        s
    }
}

/// The record written for `desc`: declared mime and name, or their defaults.
pub fn record_for(desc: &FileDescriptor, path: &str) -> (r: FileRecord)
    ensures
        r.path@ == path@,
        r.mime@ == stored_mime(desc.mime),
        r.name@ == stored_name(desc.name),
        r.token@ == desc.token@,
        r.size == desc.size,
{
    let mime = match &desc.mime {
        Some(m) => m.clone(),
        None => generic_binary_type(),
    };
    let name = match &desc.name {
        Some(n) => n.clone(),
        None => String::from_str("unnamed"),
    };
    FileRecord {
        path: String::from_str(path),
        mime,
        name,
        token: desc.token.clone(),
        size: desc.size,
    }
}

impl FileRecord {
    /// The fields this record is stored as.
    pub open spec fn fields(&self) -> Seq<(Seq<char>, Seq<char>)> {
        fields_spec(self.path@, self.mime@, self.name@, self.token@, self.size)
    }

    /// The (name, value) pairs written to the store for this record.
    pub fn to_fields(&self) -> (r: Vec<(String, String)>)
        ensures
            pairs_view(r@) == self.fields(),
    {
        let r = vec![
            (String::from_str("path"), self.path.clone()),
            (String::from_str("mime"), self.mime.clone()),
            (String::from_str("name"), self.name.clone()),
            (String::from_str("token"), self.token.clone()),
            (String::from_str("size"), decimal_text(self.size)),
        ];
        assert(pairs_view(r@) =~= self.fields());
        r
    }
}

} // verus!
