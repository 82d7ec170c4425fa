use vstd::prelude::*;

verus! {

/// The shape of a parsed request body, as the verified core reads it: the
/// structure of a JSON document, with every number carried as the IEEE-754
/// bit pattern of the `f64` it reads as. The unverified shell builds a
/// `JsonValue` from whatever its JSON parser produced and converts bit
/// patterns back to floats on the way out.
pub enum JsonValue {
    Null,
    Bool(bool),
    /// `f64::to_bits` of the numeric value.
    Number(u64),
    Text(String),
    Array(Vec<JsonValue>),
    Object(Vec<(String, JsonValue)>),
}

/// The value under `key` in an association list of object fields: the first
/// binding whose key matches, as a JSON object lookup returns it.
pub open spec fn field_of(fields: Seq<(String, JsonValue)>, key: Seq<char>) -> Option<JsonValue>
    decreases fields.len(),
{
    if fields.len() == 0 {
        None
    } else if fields[0].0@ == key {
        Some(fields[0].1)
    } else {
        field_of(fields.drop_first(), key)
    }
}

/// The value under `key` when `v` is an object that has it; `None` when the
/// field is absent or `v` is not an object.
pub open spec fn get_spec(v: JsonValue, key: Seq<char>) -> Option<JsonValue> {
    match v {
        JsonValue::Object(fields) => field_of(fields@, key),
        _ => None,
    }
}

/// The elements of `v` when it is an array.
pub open spec fn arr_spec(v: JsonValue) -> Option<Seq<JsonValue>> {
    match v {
        JsonValue::Array(items) => Some(items@),
        _ => None,
    }
}

/// The text of `v` when it is a string.
pub open spec fn text_spec(v: JsonValue) -> Option<Seq<char>> {
    match v {
        JsonValue::Text(s) => Some(s@),
        _ => None,
    }
}

/// The bit pattern held by `v` when it is a number.
pub open spec fn number_spec(v: JsonValue) -> Option<u64> {
    match v {
        JsonValue::Number(bits) => Some(bits),
        _ => None,
    }
}

/// Character-for-character string equality, so that object keys can be
/// compared against a field name.
fn str_eq(a: &str, b: &str) -> (r: bool)
    ensures
        r == (a@ == b@),
{
    let a_len = a.unicode_len();
    let b_len = b.unicode_len();
    if a_len != b_len {
        return false;
    }
    let mut i: usize = 0;
    while i < a_len
        invariant
            i <= a_len,
            a_len == a@.len(),
            b_len == b@.len(),
            a_len == b_len,
            forall|k: int| 0 <= k < i ==> a@[k] == b@[k],
        decreases a_len - i,
    {
        if a.get_char(i) != b.get_char(i) {
            return false;
        }
        i += 1;
    }
    proof {
        assert(a@ =~= b@);
    }
    true
}

impl JsonValue {
    /// Looks `key` up when `self` is an object, as a JSON object lookup
    /// behaves: absent keys and non-objects both give `None`.
    pub fn get<'a>(&'a self, key: &str) -> (r: Option<&'a JsonValue>)
        ensures
            match r {
                Some(found) => get_spec(*self, key@) == Some(*found),
                None => get_spec(*self, key@) is None,
            },
    {
        match self {
            JsonValue::Object(fields) => {
                let n = fields.len();
                proof {
                    assert(fields@.skip(0) =~= fields@);
                }
                let mut i: usize = 0;
                while i < n
                    invariant
                        i <= n,
                        n == fields@.len(),
                        get_spec(*self, key@) == field_of(fields@, key@),
                        field_of(fields@, key@) == field_of(fields@.skip(i as int), key@),
                        forall|k: int| 0 <= k < i ==> fields@[k].0@ != key@,
                    decreases n - i,
                {
                    if str_eq(fields[i].0.as_str(), key) {
                        proof {
                            assert(fields@.skip(i as int)[0] == fields@[i as int]);
                            assert(fields@.skip(i as int).len() > 0);
                            assert(field_of(fields@.skip(i as int), key@)
                                == Some(fields@[i as int].1));
                        }
                        return Some(&fields[i].1);
                    }
                    proof {
                        assert(fields@.skip(i as int)[0] == fields@[i as int]);
                        assert(fields@.skip(i as int).drop_first() =~= fields@.skip(i + 1));
                    }
                    i += 1;
                }
                proof {
                    assert(fields@.skip(n as int).len() == 0);
                }
                None
            },
            _ => None,
        }
    }

    /// The elements when `self` is an array.
    pub fn as_array(&self) -> (r: Option<&Vec<JsonValue>>)
        ensures
            match r {
                Some(items) => arr_spec(*self) == Some(items@),
                None => arr_spec(*self) is None,
            },
    {
        match self {
            JsonValue::Array(items) => Some(items),
            _ => None,
        }
    }

    /// The text when `self` is a string.
    pub fn as_text(&self) -> (r: Option<&String>)
        ensures
            match r {
                Some(s) => text_spec(*self) == Some(s@),
                None => text_spec(*self) is None,
            },
    {
        match self {
            JsonValue::Text(s) => Some(s),
            _ => None,
        }
    }

    /// The bit pattern when `self` is a number.
    pub fn number_bits(&self) -> (r: Option<u64>)
        ensures
            r == number_spec(*self),
    {
        match self {
            JsonValue::Number(bits) => Some(*bits),
            _ => None,
        }
    }
}

} // verus!
