//! A minimal model of JSON serialization, just large enough for a flat object
//! with a single member, together with a verified builder for the
//! string-valued case.

use vstd::prelude::*;

verus! {

use vstd::string::StringExecFns;

/// A JSON value that can stand as the member of a flat object: either a
/// string or a boolean.  The distinction matters: the responder's payload
/// carries the *string* `"true"`, never the boolean `true`.
pub enum MemberValue {
    JsonString(Seq<char>),
    JsonBool(bool),
}

/// The serialized form of a member value.  A string is quoted verbatim (the
/// model covers no escaping, and none is needed for the fixed payload); a
/// boolean is one of the two bare keywords.
pub open spec fn ser_member_value(v: MemberValue) -> Seq<char> {
    match v {
        MemberValue::JsonString(s) => seq!['"'] + s + seq!['"'],
        MemberValue::JsonBool(b) => if b {
            "true"@
        } else {
            "false"@
        },
    }
}

/// The serialized form of an object with exactly one member.
pub open spec fn ser_single_member_object(key: Seq<char>, v: MemberValue) -> Seq<char> {
    seq!['{', '"'] + key + seq!['"', ':'] + ser_member_value(v) + seq!['}']
}

/// Builds the serialized object with one string-valued member.  Neither
/// `key` nor `value` is escaped, exactly as in the model.
pub fn json_string_object(key: &str, value: &str) -> (r: String)
    ensures
        r@ == ser_single_member_object(key@, MemberValue::JsonString(value@)),
{
    let mut out = String::new();
    out.append("{\"");
    out.append(key);
    out.append("\":\"");
    out.append(value);
    out.append("\"}");
    proof {
        reveal_strlit("{\"");
        reveal_strlit("\":\"");
        reveal_strlit("\"}");
        assert(out@ =~= ser_single_member_object(key@, MemberValue::JsonString(value@)));
    }
    out
}

} // verus!
