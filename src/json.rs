use vstd::prelude::*;
use vstd::string::*;

verus! {

/// The JSON text of a string: the characters quoted and escaped as JSON requires.
pub uninterp spec fn json_quoted(s: Seq<char>) -> Seq<char>;

/// Relies on serde_json's `Value::from(&str)` (a `Value::String`) and the
/// compact `Display` of `Value`: the JSON text of the string, quoted and
/// escaped, which depends on the characters alone.
#[verifier::external_body]
pub(crate) fn quote(s: &str) -> (r: String)
    ensures
        r@ == json_quoted(s@),
{
    serde_json::Value::from(s).to_string()
}

/// One `"key":value` member of a JSON object, `value` being JSON text already.
pub open spec fn member_text(key: Seq<char>, value: Seq<char>) -> Seq<char> {
    json_quoted(key) + ":"@ + value
}

/// The members, in order, separated by commas.
pub open spec fn members_text(fields: Seq<(Seq<char>, Seq<char>)>) -> Seq<char>
    decreases fields.len(),
{
    if fields.len() == 0 {
        Seq::empty()
    } else if fields.len() == 1 {
        member_text(fields[0].0, fields[0].1)
    } else {
        members_text(fields.drop_last()) + ","@ + member_text(fields.last().0, fields.last().1)
    }
}

/// A JSON object with the given members, in the given order.
pub open spec fn object_text(fields: Seq<(Seq<char>, Seq<char>)>) -> Seq<char> {
    "{"@ + members_text(fields) + "}"@
}

/// The members of a string-to-string map, each value quoted as a JSON string.
pub open spec fn quoted_values(pairs: Seq<(Seq<char>, Seq<char>)>) -> Seq<(Seq<char>, Seq<char>)> {
    pairs.map_values(|p: (Seq<char>, Seq<char>)| (p.0, json_quoted(p.1)))
}

/// A JSON object whose values are strings.
pub open spec fn string_map_text(pairs: Seq<(Seq<char>, Seq<char>)>) -> Seq<char> {
    object_text(quoted_values(pairs))
}

/// Appends `t` to `s`.
pub(crate) fn push_text(s: &mut String, t: &str)
    ensures
        final(s)@ == old(s)@ + t@,
{
    s.append(t);
}

/// Writes a JSON object whose members are the given keys and value texts, in order.
pub fn encode_object(fields: &Vec<(String, String)>) -> (r: String)
    ensures
        r@ == object_text(fields.deep_view()),
{
    let ghost fs = fields.deep_view();
    let mut out = String::new();
    push_text(&mut out, "{");
    let mut i: usize = 0;
    while i < fields.len()
        invariant
            i <= fields.len(),
            fs == fields.deep_view(),
            out@ == "{"@ + members_text(fs.take(i as int)),
        decreases fields.len() - i,
    {
        let key = quote(fields[i].0.as_str());
        if i > 0 {
            push_text(&mut out, ",");
        }
        push_text(&mut out, key.as_str());
        push_text(&mut out, ":");
        push_text(&mut out, fields[i].1.as_str());
        proof {
            let next = fs.take(i + 1);
            assert(next.drop_last() =~= fs.take(i as int));
            assert(next.last() == fs[i as int]);
        }
        i = i + 1;
    }
    push_text(&mut out, "}");
    proof {
        assert(fs.take(fields.len() as int) =~= fs);
    }
    out
}

/// Writes a JSON object whose values are the given strings, quoted, in order.
pub fn encode_string_map(pairs: &Vec<(String, String)>) -> (r: String)
    ensures
        r@ == string_map_text(pairs.deep_view()),
{
    let mut fields: Vec<(String, String)> = Vec::new();
    let mut i: usize = 0;
    while i < pairs.len()
        invariant
            i <= pairs.len(),
            fields.len() == i,
            forall|j: int|
                0 <= j < i ==> #[trigger] fields@[j].0@ == pairs@[j].0@ && fields@[j].1@
                    == json_quoted(pairs@[j].1@),
        decreases pairs.len() - i,
    {
        let value = quote(pairs[i].1.as_str());
        fields.push((pairs[i].0.clone(), value));
        i = i + 1;
    }
    proof {
        assert(fields.deep_view() =~= quoted_values(pairs.deep_view()));
    }
    encode_object(&fields)
}

} // verus!

verus! {

/// A copy of a list of string pairs.
pub(crate) fn copy_pairs(pairs: &Vec<(String, String)>) -> (r: Vec<(String, String)>)
    ensures
        r.deep_view() == pairs.deep_view(),
{
    let mut out: Vec<(String, String)> = Vec::new();
    let mut i: usize = 0;
    while i < pairs.len()
        invariant
            i <= pairs.len(),
            out.len() == i,
            forall|j: int| 0 <= j < i ==> #[trigger] out@[j] == pairs@[j],
        decreases pairs.len() - i,
    {
        out.push((pairs[i].0.clone(), pairs[i].1.clone()));
        i = i + 1;
    }
    proof {
        assert(out.deep_view() =~= pairs.deep_view());
    }
    out
}

} // verus!
