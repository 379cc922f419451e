//! An untyped JSON tree, owned by this crate, and the field lookups the
//! payload decoder performs on it.
//!
//! A raw message body arrives as such a tree; the transport layer hands
//! it over converted to [`JsonValue`]. The decoder reads only top-level
//! scalar fields of an object body; nested values are carried through
//! untouched.

use vstd::prelude::*;

verus! {

/// An untyped JSON value. Numbers carry their decimal literal text, so
/// no precision is lost and no floating point enters the crate.
#[derive(Debug, PartialEq)]
pub enum JsonValue {
    /// `null`.
    Null,
    /// `true` or `false`.
    Bool(bool),
    /// A number, as its literal text.
    Num(String),
    /// A string.
    Str(String),
    /// An array.
    Arr(Vec<JsonValue>),
    /// An object: fields in document order. On lookup the first binding
    /// of a name wins.
    Obj(Vec<(String, JsonValue)>),
}

/// What a single field lookup can see of a value: the text of a string,
/// the literal text of a number, or nothing more than that something
/// else stood there.
pub enum JsonField {
    /// A string field, by its text.
    Str(Seq<char>),
    /// A number field, by its literal text.
    Num(Seq<char>),
    /// Any other kind of value.
    Other,
}

/// The projection of one value as a field.
pub open spec fn field_of_value(v: JsonValue) -> JsonField {
    match v {
        JsonValue::Str(s) => JsonField::Str(s@),
        JsonValue::Num(s) => JsonField::Num(s@),
        _ => JsonField::Other,
    }
}

/// The field map of an object's binding list, first binding of a name
/// winning: later bindings are inserted first, so an earlier one
/// overwrites them.
pub open spec fn fields_model(pairs: Seq<(String, JsonValue)>) -> Map<Seq<char>, JsonField>
    decreases pairs.len(),
{
    if pairs.len() == 0 {
        Map::empty()
    } else {
        fields_model(pairs.drop_first()).insert(pairs[0].0@, field_of_value(pairs[0].1))
    }
}

/// The field map of a message body: `Some` for an object, `None` for
/// anything else.
pub open spec fn body_model(v: JsonValue) -> Option<Map<Seq<char>, JsonField>> {
    match v {
        JsonValue::Obj(pairs) => Some(fields_model(pairs@)),
        _ => None,
    }
}

/// One step of the field map's recursion, for reasoning about a
/// binding list position by position.
pub proof fn lemma_fields_model_unfold(s: Seq<(String, JsonValue)>, i: int)
    requires
        0 <= i < s.len(),
    ensures
        fields_model(s.skip(i)) == fields_model(s.skip(i + 1)).insert(
            s[i].0@,
            field_of_value(s[i].1),
        ),
{
    assert(s.skip(i).len() > 0);
    assert(s.skip(i)[0] == s[i]);
    assert(s.skip(i).drop_first() =~= s.skip(i + 1));
}

/// Looks up a field by name in an object body. Returns the first
/// binding of the name; `None` if the body is not an object or has no
/// such field.
pub fn get_field<'a>(v: &'a JsonValue, name: &str) -> (r: Option<&'a JsonValue>)
    ensures
        match r {
            Some(f) => {
                &&& body_model(*v) is Some
                &&& body_model(*v)->0.contains_key(name@)
                &&& body_model(*v)->0[name@] == field_of_value(*f)
            },
            None => body_model(*v) is Some ==> !body_model(*v)->0.contains_key(name@),
        },
{
    match v {
        JsonValue::Obj(pairs) => {
            let name_s: String = name.to_owned();
            let ghost s = pairs@;
            let n = pairs.len();
            let mut i: usize = 0;
            proof {
                assert(s.skip(0) =~= s);
            }
            while i < n
                invariant
                    n == s.len(),
                    s == pairs@,
                    0 <= i <= n,
                    name_s@ == name@,
                    body_model(*v) == Some(fields_model(s)),
                    fields_model(s).contains_key(name@) == fields_model(
                        s.skip(i as int),
                    ).contains_key(name@),
                    fields_model(s).contains_key(name@) ==> fields_model(s)[name@]
                        == fields_model(s.skip(i as int))[name@],
                decreases n - i,
            {
                proof {
                    assert(s.skip(i as int).len() > 0);
                    assert(s.skip(i as int)[0] == s[i as int]);
                    assert(s.skip(i as int).drop_first() =~= s.skip(i as int + 1));
                }
                proof {
                    assert(fields_model(s.skip(i as int)) == fields_model(
                        s.skip(i as int + 1),
                    ).insert(s[i as int].0@, field_of_value(s[i as int].1)));
                }
                if pairs[i].0 == name_s {
                    proof {
                        assert(fields_model(s.skip(i as int)).contains_key(name@));
                        assert(fields_model(s.skip(i as int))[name@] == field_of_value(
                            s[i as int].1,
                        ));
                    }
                    return Some(&pairs[i].1);
                }
                i += 1;
            }
            proof {
                assert(s.skip(n as int) =~= Seq::<(String, JsonValue)>::empty());
            }
            None
        },
        _ => None,
    }
}

/// The text of a string field, `None` where the field is absent, the
/// body is not an object, or the field holds another kind of value.
pub open spec fn lookup_str(b: Option<Map<Seq<char>, JsonField>>, k: Seq<char>) -> Option<
    Seq<char>,
> {
    if b is Some && b->0.contains_key(k) {
        match b->0[k] {
            JsonField::Str(s) => Some(s),
            _ => None,
        }
    } else {
        None
    }
}

/// The literal text of a number field, `None` where the field is absent,
/// the body is not an object, or the field holds another kind of value.
pub open spec fn lookup_num(b: Option<Map<Seq<char>, JsonField>>, k: Seq<char>) -> Option<
    Seq<char>,
> {
    if b is Some && b->0.contains_key(k) {
        match b->0[k] {
            JsonField::Num(s) => Some(s),
            _ => None,
        }
    } else {
        None
    }
}

/// Looks up a string field by name.
pub fn get_str<'a>(v: &'a JsonValue, name: &str) -> (r: Option<&'a String>)
    ensures
        match r {
            Some(s) => lookup_str(body_model(*v), name@) == Some(s@),
            None => lookup_str(body_model(*v), name@) is None,
        },
{
    match get_field(v, name) {
        Some(JsonValue::Str(s)) => Some(s),
        _ => None,
    }
}

/// Looks up a number field by name, yielding its literal text.
pub fn get_num_text<'a>(v: &'a JsonValue, name: &str) -> (r: Option<&'a String>)
    ensures
        match r {
            Some(s) => lookup_num(body_model(*v), name@) == Some(s@),
            None => lookup_num(body_model(*v), name@) is None,
        },
{
    match get_field(v, name) {
        Some(JsonValue::Num(s)) => Some(s),
        _ => None,
    }
}

} // verus!
