use vstd::prelude::*;

verus! {

/// A hash's fields as plain sequences: each pair is (field name, value).
pub open spec fn pairs_view(s: Seq<(String, String)>) -> Seq<(Seq<char>, Seq<char>)> {
    s.map_values(|p: (String, String)| (p.0@, p.1@))
}

/// The value of the first field called `name`, if any.
pub open spec fn find_field(h: Seq<(Seq<char>, Seq<char>)>, name: Seq<char>) -> Option<Seq<char>>
    decreases h.len(),
{
    if h.len() == 0 {
        None
    } else if h[0].0 == name {
        Some(h[0].1)
    } else {
        find_field(h.drop_first(), name)
    }
}

/// Whether `h` holds a field called `name`.
pub open spec fn has_field(h: Seq<(Seq<char>, Seq<char>)>, name: Seq<char>) -> bool {
    find_field(h, name) is Some
}

/// An optional string as an optional character sequence.
pub open spec fn opt_view(o: Option<String>) -> Option<Seq<char>> {
    match o {
        Some(s) => Some(s@),
        None => None,
    }
}

/// Looks up the value of the field `name` in a list of (name, value) pairs.
pub fn field_value(fields: &Vec<(String, String)>, name: &str) -> (r: Option<String>)
    ensures
        opt_view(r) == find_field(pairs_view(fields@), name@),
{
    let ghost h = pairs_view(fields@);
    let wanted = String::from_str(name);
    let mut i: usize = 0;
    assert(h.subrange(0, h.len() as int) =~= h);
    while i < fields.len()
        invariant
            i <= fields@.len(),
            h == pairs_view(fields@),
            wanted@ == name@,
            find_field(h, name@) == find_field(h.subrange(i as int, h.len() as int), name@),
        decreases fields.len() - i,
    {
        proof {
            let rest = h.subrange(i as int, h.len() as int);
            assert(rest.drop_first() =~= h.subrange(i + 1, h.len() as int));
            assert(rest[0] == (fields@[i as int].0@, fields@[i as int].1@));
        }
        if fields[i].0 == wanted {
            return Some(fields[i].1.clone());
        }
        i = i + 1;
    }
    None
}

} // verus!
