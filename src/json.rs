use vstd::prelude::*;

verus! {

/// A JSON number: its value as an `i64` when it is an integer in range, and
/// the decimal text of its value as a double.
pub struct JsonNumber {
    pub integer: Option<i64>,
    pub decimal: String,
}

/// One member of a JSON object.
pub struct JsonMember {
    pub key: String,
    pub value: Json,
}

/// A JSON document, as a service's answer body is read.
pub enum Json {
    Null,
    Bool(bool),
    Number(JsonNumber),
    Str(String),
    Array(Vec<Json>),
    /// Members in document order; keys are unique.
    Object(Vec<JsonMember>),
}

/// The value of the first member of `m` whose key is `key`.
pub open spec fn find_member(m: Seq<JsonMember>, key: Seq<char>) -> Option<Json>
    decreases m.len(),
{
    if m.len() == 0 {
        None
    } else if m[0].key@ == key {
        Some(m[0].value)
    } else {
        find_member(m.drop_first(), key)
    }
}

/// The member `key` of `j`, when `j` is an object that has one.
pub open spec fn member_of(j: Json, key: Seq<char>) -> Option<Json> {
    match j {
        Json::Object(m) => find_member(m@, key),
        _ => None,
    }
}

/// The member `key` of the value `j`, if there is a value.
pub open spec fn member_in(j: Option<Json>, key: Seq<char>) -> Option<Json> {
    match j {
        Some(v) => member_of(v, key),
        None => None,
    }
}

/// The first element of `j`, when `j` is a non-empty array.
pub open spec fn first_of(j: Json) -> Option<Json> {
    match j {
        Json::Array(items) => if items@.len() > 0 {
            Some(items@[0])
        } else {
            None
        },
        _ => None,
    }
}

/// The text of `j`, when it is a string.
pub open spec fn text_of(j: Option<Json>) -> Option<Seq<char>> {
    match j {
        Some(Json::Str(s)) => Some(s@),
        _ => None,
    }
}

/// The decimal text of `j`, when it is a number.
pub open spec fn decimal_of(j: Option<Json>) -> Option<Seq<char>> {
    match j {
        Some(Json::Number(n)) => Some(n.decimal@),
        _ => None,
    }
}

/// The integer value of `j`, when it is an integer number in range.
pub open spec fn integer_of(j: Option<Json>) -> Option<i64> {
    match j {
        Some(Json::Number(n)) => n.integer,
        _ => None,
    }
}

/// The view of an optional string.
pub open spec fn opt_view(s: Option<String>) -> Option<Seq<char>> {
    match s {
        Some(t) => Some(t@),
        None => None,
    }
}

impl Json {
    /// The member `key` of this value, when it is an object that has one.
    pub fn member(&self, key: &str) -> (r: Option<&Json>)
        ensures
            match r {
                Some(v) => member_of(*self, key@) == Some(*v),
                None => member_of(*self, key@) is None,
            },
    {
        match self {
            Json::Object(m) => {
                let wanted = String::from_str(key);
                let mut i: usize = 0;
                assert(m@.subrange(0, m@.len() as int) =~= m@);
                while i < m.len()
                    invariant
                        i <= m@.len(),
                        wanted@ == key@,
                        member_of(*self, key@) == find_member(m@, key@),
                        find_member(m@.subrange(i as int, m@.len() as int), key@) == find_member(
                            m@,
                            key@,
                        ),
                    decreases m@.len() - i,
                {
                    assert(m@.subrange(i as int, m@.len() as int).drop_first() =~= m@.subrange(
                        i + 1,
                        m@.len() as int,
                    ));
                    if m[i].key == wanted {
                        assert(m@.subrange(i as int, m@.len() as int)[0] == m@[i as int]);
                        assert(find_member(m@.subrange(i as int, m@.len() as int), key@) == Some(
                            m@[i as int].value,
                        ));
                        let v = &m[i].value;
                        assert(*v == m@[i as int].value);
                        return Some(v);
                    }
                    i = i + 1;
                }
                None
            },
            _ => None,
        }
    }

    /// The first element of this value, when it is a non-empty array.
    pub fn first(&self) -> (r: Option<&Json>)
        ensures
            match r {
                Some(v) => first_of(*self) == Some(*v),
                None => first_of(*self) is None,
            },
    {
        match self {
            Json::Array(items) => if items.len() > 0 {
                Some(&items[0])
            } else {
                None
            },
            _ => None,
        }
    }
}

/// The member `key` of `j`, if there is a `j`.
pub fn member_at<'a>(j: Option<&'a Json>, key: &str) -> (r: Option<&'a Json>)
    ensures
        match j {
            Some(v) => match r {
                Some(w) => member_of(*v, key@) == Some(*w),
                None => member_of(*v, key@) is None,
            },
            None => r is None,
        },
{
    match j {
        Some(v) => v.member(key),
        None => None,
    }
}

/// A copy of the text of `j`, when it is a string.
pub fn text(j: Option<&Json>) -> (r: Option<String>)
    ensures
        opt_view(r) == text_of(
            match j {
                Some(v) => Some(*v),
                None => None,
            },
        ),
{
    match j {
        Some(Json::Str(s)) => Some(s.clone()),
        _ => None,
    }
}

/// A copy of the decimal text of `j`, when it is a number.
pub fn decimal(j: Option<&Json>) -> (r: Option<String>)
    ensures
        opt_view(r) == decimal_of(
            match j {
                Some(v) => Some(*v),
                None => None,
            },
        ),
{
    match j {
        Some(Json::Number(n)) => Some(n.decimal.clone()),
        _ => None,
    }
}

/// The integer value of `j`, when it is an integer number in range.
pub fn integer(j: Option<&Json>) -> (r: Option<i64>)
    ensures
        r == integer_of(
            match j {
                Some(v) => Some(*v),
                None => None,
            },
        ),
{
    match j {
        Some(Json::Number(n)) => n.integer,
        _ => None,
    }
}

} // verus!
