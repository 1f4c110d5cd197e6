use vstd::prelude::*;

use crate::fields::{find_field, has_field};
use crate::record::{key_of, octet_stream, stored_mime, stored_name, unnamed, FileDescriptor};
use crate::registration::registered_fields;
use crate::retrieval::{disposition_of, origin_url_of, plan_of, RetrievalError};

verus! {

/// The fields of `h` whose names `w` does not carry, in their order.
pub open spec fn without(
    h: Seq<(Seq<char>, Seq<char>)>,
    w: Seq<(Seq<char>, Seq<char>)>,
) -> Seq<(Seq<char>, Seq<char>)>
    decreases h.len(),
{
    if h.len() == 0 {
        h
    } else if has_field(w, h[0].0) {
        without(h.drop_first(), w)
    } else {
        seq![h[0]] + without(h.drop_first(), w)
    }
}

/// A multi-field write of `w` onto the hash `h`: every field named in `w`
/// takes its new value; the others stay.
pub open spec fn hash_write(
    h: Seq<(Seq<char>, Seq<char>)>,
    w: Seq<(Seq<char>, Seq<char>)>,
) -> Seq<(Seq<char>, Seq<char>)> {
    w + without(h, w)
}

/// The fields stored under `key`; none where no record is stored.
pub open spec fn read_hash(
    store: Map<Seq<char>, Seq<(Seq<char>, Seq<char>)>>,
    key: Seq<char>,
) -> Seq<(Seq<char>, Seq<char>)> {
    if store.contains_key(key) {
        store[key]
    } else {
        seq![]
    }
}

/// The store after writing `w` under `key` in one operation.
pub open spec fn write_hash(
    store: Map<Seq<char>, Seq<(Seq<char>, Seq<char>)>>,
    key: Seq<char>,
    w: Seq<(Seq<char>, Seq<char>)>,
) -> Map<Seq<char>, Seq<(Seq<char>, Seq<char>)>> {
    store.insert(key, hash_write(read_hash(store, key), w))
}

/// The store after registering `desc`, whose origin path is `path`.
pub open spec fn after_register(
    store: Map<Seq<char>, Seq<(Seq<char>, Seq<char>)>>,
    desc: FileDescriptor,
    path: Seq<char>,
) -> Map<Seq<char>, Seq<(Seq<char>, Seq<char>)>> {
    write_hash(store, key_of(desc.unique_id@), registered_fields(desc, path))
}

/// The outcome of a retrieval request for `unique_id` against `store`.
pub open spec fn retrieve(
    store: Map<Seq<char>, Seq<(Seq<char>, Seq<char>)>>,
    unique_id: Seq<char>,
) -> Result<(Seq<char>, Seq<char>, Seq<char>), RetrievalError> {
    plan_of(read_hash(store, key_of(unique_id)))
}

proof fn lemma_find_concat(
    a: Seq<(Seq<char>, Seq<char>)>,
    b: Seq<(Seq<char>, Seq<char>)>,
    n: Seq<char>,
)
    ensures
        find_field(a + b, n) == (if has_field(a, n) {
            find_field(a, n)
        } else {
            find_field(b, n)
        }),
    decreases a.len(),
{
    if a.len() == 0 {
        assert(a + b =~= b);
    } else {
        assert((a + b).drop_first() =~= a.drop_first() + b);
        lemma_find_concat(a.drop_first(), b, n);
    }
}

proof fn lemma_find_without(
    h: Seq<(Seq<char>, Seq<char>)>,
    w: Seq<(Seq<char>, Seq<char>)>,
    n: Seq<char>,
)
    ensures
        find_field(without(h, w), n) == (if has_field(w, n) {
            None
        } else {
            find_field(h, n)
        }),
    decreases h.len(),
{
    if h.len() > 0 {
        lemma_find_without(h.drop_first(), w, n);
        if !has_field(w, h[0].0) {
            let rest = without(h.drop_first(), w);
            assert((seq![h[0]] + rest).drop_first() =~= rest);
        }
    }
}

proof fn lemma_find_write(
    h: Seq<(Seq<char>, Seq<char>)>,
    w: Seq<(Seq<char>, Seq<char>)>,
    n: Seq<char>,
)
    ensures
        find_field(hash_write(h, w), n) == (if has_field(w, n) {
            find_field(w, n)
        } else {
            find_field(h, n)
        }),
{
    lemma_find_concat(w, without(h, w), n);
    lemma_find_without(h, w, n);
}

/// What a registration writes, field by field, and that it names no other field.
proof fn lemma_registered_fields(desc: FileDescriptor, path: Seq<char>)
    ensures
        find_field(registered_fields(desc, path), "path"@) == Some(path),
        find_field(registered_fields(desc, path), "mime"@) == Some(stored_mime(desc.mime)),
        find_field(registered_fields(desc, path), "name"@) == Some(stored_name(desc.name)),
        find_field(registered_fields(desc, path), "token"@) == Some(desc.token@),
        registered_fields(desc, path).len() == 5,
{
    reveal_strlit("path");
    reveal_strlit("mime");
    reveal_strlit("name");
    reveal_strlit("token");
    reveal_strlit("size");
    let f = registered_fields(desc, path);
    let f1 = f.drop_first();
    let f2 = f1.drop_first();
    let f3 = f2.drop_first();
    assert(f1[0].0 == "mime"@);
    assert(f2[0].0 == "name"@);
    assert(f3[0].0 == "token"@);
    assert("path"@[0] != "mime"@[0]);
    assert("path"@[0] != "name"@[0]);
    assert("path"@[0] != "token"@[0]);
    assert("mime"@[0] != "name"@[0]);
    assert("mime"@[0] != "token"@[0]);
    assert("name"@[0] != "token"@[0]);
    assert(find_field(f2, "name"@) == Some(stored_name(desc.name)));
    assert(find_field(f1, "name"@) == Some(stored_name(desc.name)));
    assert(find_field(f1, "mime"@) == Some(stored_mime(desc.mime)));
    assert(find_field(f3, "token"@) == Some(desc.token@));
    assert(find_field(f2, "token"@) == Some(desc.token@));
    assert(find_field(f1, "token"@) == Some(desc.token@));
}

/// Every registration writes the same field names.
proof fn lemma_same_names(d1: FileDescriptor, p1: Seq<char>, d2: FileDescriptor, p2: Seq<char>, n: Seq<char>)
    ensures
        has_field(registered_fields(d1, p1), n) == has_field(registered_fields(d2, p2), n),
{
    let f1 = registered_fields(d1, p1);
    let f2 = registered_fields(d2, p2);
    assert(f1.drop_first().drop_first().drop_first().drop_first().drop_first().len() == 0);
    assert(f2.drop_first().drop_first().drop_first().drop_first().drop_first().len() == 0);
    reveal_with_fuel(find_field, 6);
}

/// Registering a file and then retrieving it by its identifier finds the
/// record: the fetch goes to the origin URL built from the registered token
/// and path, and the response carries the registered content type and
/// display name, defaults included.
pub proof fn register_then_retrieve(
    store: Map<Seq<char>, Seq<(Seq<char>, Seq<char>)>>,
    desc: FileDescriptor,
    path: Seq<char>,
)
    ensures
        retrieve(after_register(store, desc, path), desc.unique_id@) == Ok::<
            (Seq<char>, Seq<char>, Seq<char>),
            RetrievalError,
        >(
            (
                origin_url_of(desc.token@, path),
                stored_mime(desc.mime),
                disposition_of(stored_name(desc.name)),
            ),
        ),
{
    let key = key_of(desc.unique_id@);
    let w = registered_fields(desc, path);
    let h = read_hash(after_register(store, desc, path), key);
    assert(h == hash_write(read_hash(store, key), w));
    lemma_registered_fields(desc, path);
    lemma_find_write(read_hash(store, key), w, "path"@);
    lemma_find_write(read_hash(store, key), w, "token"@);
    lemma_find_write(read_hash(store, key), w, "mime"@);
    lemma_find_write(read_hash(store, key), w, "name"@);
    assert(h.len() >= w.len());
}

/// Registering a second file under the same identifier replaces the first:
/// every field the first registration wrote now reads as the second one
/// wrote it, and retrieval answers exactly as if only the second had been
/// registered.
pub proof fn reregister_overwrites(
    store: Map<Seq<char>, Seq<(Seq<char>, Seq<char>)>>,
    first: FileDescriptor,
    first_path: Seq<char>,
    second: FileDescriptor,
    second_path: Seq<char>,
)
    requires
        first.unique_id@ == second.unique_id@,
    ensures
        forall|n: Seq<char>|
            #[trigger] has_field(registered_fields(first, first_path), n) ==> find_field(
                read_hash(
                    after_register(after_register(store, first, first_path), second, second_path),
                    key_of(second.unique_id@),
                ),
                n,
            ) == find_field(registered_fields(second, second_path), n),
        retrieve(
            after_register(after_register(store, first, first_path), second, second_path),
            second.unique_id@,
        ) == retrieve(after_register(Map::empty(), second, second_path), second.unique_id@),
{
    let key = key_of(second.unique_id@);
    let mid = after_register(store, first, first_path);
    let w = registered_fields(second, second_path);
    assert(read_hash(after_register(mid, second, second_path), key) == hash_write(
        read_hash(mid, key),
        w,
    ));
    assert forall|n: Seq<char>| #[trigger]
        has_field(registered_fields(first, first_path), n) implies find_field(
        read_hash(after_register(mid, second, second_path), key),
        n,
    ) == find_field(w, n) by {
        lemma_same_names(first, first_path, second, second_path, n);
        lemma_find_write(read_hash(mid, key), w, n);
    }
    register_then_retrieve(mid, second, second_path);
    register_then_retrieve(Map::empty(), second, second_path);
}

/// Retrieving an identifier under which nothing was registered yields
/// not-found, on an empty store too.
pub proof fn unknown_identifier_not_found(
    store: Map<Seq<char>, Seq<(Seq<char>, Seq<char>)>>,
    unique_id: Seq<char>,
)
    requires
        !store.contains_key(key_of(unique_id)),
    ensures
        retrieve(store, unique_id) == Err::<(Seq<char>, Seq<char>, Seq<char>), RetrievalError>(
            RetrievalError::RecordNotFound,
        ),
        retrieve(Map::empty(), unique_id) == Err::<
            (Seq<char>, Seq<char>, Seq<char>),
            RetrievalError,
        >(RetrievalError::RecordNotFound),
{
}

/// A registration without a declared content type stores the generic binary
/// type; one without a declared name stores the placeholder name.
pub proof fn defaults_substituted(desc: FileDescriptor, path: Seq<char>)
    ensures
        desc.mime is None ==> find_field(registered_fields(desc, path), "mime"@) == Some(
            octet_stream(),
        ),
        desc.name is None ==> find_field(registered_fields(desc, path), "name"@) == Some(
            unnamed(),
        ),
{
    lemma_registered_fields(desc, path);
}

} // verus!
