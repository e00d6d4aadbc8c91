//! Tool-call arguments: parsed as JSON, and normalized so that known numeric
//! parameters that a provider sent as strings become integers. Members that
//! the normalization does not touch pass through unchanged.
use vstd::prelude::*;
use crate::number::{integer_text, parse_i64};
use crate::text::same_text;

verus! {

#[verifier::external_type_specification]
#[verifier::external_body]
pub struct ExJsonValue(serde_json::Value);

#[verifier::external_type_specification]
#[verifier::external_body]
pub struct ExJsonError(serde_json::Error);

#[verifier::external_type_specification]
#[verifier::external_body]
#[verifier::reject_recursive_types(K)]
#[verifier::reject_recursive_types(V)]
pub struct ExJsonMap<K, V>(serde_json::Map<K, V>);

/// A JSON object's members.
pub type JsonObject = serde_json::Map<String, serde_json::Value>;

/// Whether serde_json's parser accepts `s` as the text of a JSON value.
pub uninterp spec fn is_json_text(s: Seq<char>) -> bool;

/// The value that serde_json's parser reads from `s`, where it accepts it.
pub uninterp spec fn json_value_of(s: Seq<char>) -> serde_json::Value;

/// The members of `v` where it is a JSON object; none for any other value.
pub uninterp spec fn object_members(v: serde_json::Value) -> Option<
    serde_json::Map<String, serde_json::Value>,
>;

/// The names of an object's members.
pub uninterp spec fn member_keys(m: serde_json::Map<String, serde_json::Value>) -> Set<Seq<char>>;

/// An object's members whose value is a JSON string, with that string.
pub uninterp spec fn text_members(m: serde_json::Map<String, serde_json::Value>) -> Map<
    Seq<char>,
    Seq<char>,
>;

/// An object's members whose value is an integer that fits in an `i64`.
pub uninterp spec fn integer_members(m: serde_json::Map<String, serde_json::Value>) -> Map<
    Seq<char>,
    int,
>;

/// Relies on `serde_json::from_str`: whether it succeeds, and what it reads,
/// depend on the text alone.
#[verifier::external_body]
pub(crate) fn parse_json(text: &str) -> (r: Result<serde_json::Value, serde_json::Error>)
    ensures
        r.is_ok() == is_json_text(text@),
        r matches Ok(v) ==> v == json_value_of(text@),
{
    serde_json::from_str(text)
}

/// Tells a JSON object apart from the other kinds of value; any other value
/// comes back as it was.
#[verifier::external_body]
fn into_object(v: serde_json::Value) -> (r: Result<JsonObject, serde_json::Value>)
    ensures
        r matches Ok(m) ==> object_members(v) == Some(m),
        r matches Err(x) ==> x == v && object_members(v) is None,
{
    match v {
        serde_json::Value::Object(m) => Ok(m),
        other => Err(other),
    }
}

/// An object without members.
pub open spec fn empty_members(m: JsonObject) -> bool {
    &&& member_keys(m) == Set::<Seq<char>>::empty()
    &&& text_members(m) == Map::<Seq<char>, Seq<char>>::empty()
    &&& integer_members(m) == Map::<Seq<char>, int>::empty()
}

/// Relies on `serde_json::Map::new`: an object without members.
#[verifier::external_body]
fn empty_object() -> (r: serde_json::Value)
    ensures
        object_members(r) is Some,
        empty_members(object_members(r).unwrap()),
{
    serde_json::Value::Object(serde_json::Map::new())
}

/// Wraps an object as a JSON value.
#[verifier::external_body]
fn object_value(m: JsonObject) -> (r: serde_json::Value)
    ensures
        object_members(r) == Some(m),
{
    serde_json::Value::Object(m)
}

/// Relies on `serde_json::Map::get`: the text of member `key`, where that
/// member is a JSON string.
#[verifier::external_body]
fn text_member(m: &JsonObject, key: &str) -> (r: Option<String>)
    ensures
        r matches Some(s) ==> text_members(*m).contains_key(key@) && text_members(*m)[key@]
            == s@ && member_keys(*m).contains(key@),
        r is None ==> !text_members(*m).contains_key(key@),
{
    match m.get(key) {
        Some(serde_json::Value::String(s)) => Some(s.clone()),
        _ => None,
    }
}

/// Relies on `serde_json::Map::insert`: member `key` becomes the integer `n`;
/// the other members stay as they were.
#[verifier::external_body]
fn set_integer_member(m: &mut JsonObject, key: &str, n: i64)
    ensures
        member_keys(*final(m)) == member_keys(*old(m)).insert(key@),
        text_members(*final(m)) == text_members(*old(m)).remove(key@),
        integer_members(*final(m)) == integer_members(*old(m)).insert(key@, n as int),
{
    m.insert(key.to_string(), serde_json::Value::from(n));
}

/// The parameters of each known tool that take a number.
pub open spec fn numeric_param_table(tool: Seq<char>) -> Seq<Seq<char>> {
    if tool == "get_topic_summary"@ {
        seq!["topic_id"@]
    } else if tool == "get_posts"@ {
        seq!["page"@, "size"@, "topic_id"@]
    } else if tool == "search_forum"@ || tool == "search_topics"@ || tool == "search_posts"@
        || tool == "search_by_username"@ || tool == "search_by_username_mention"@ {
        seq!["limit"@, "offset"@]
    } else if tool == "search_posts_in_topic"@ {
        seq!["limit"@, "offset"@, "topic_id"@]
    } else if tool == "search_by_user"@ {
        seq!["limit"@, "offset"@, "user_id"@]
    } else {
        seq![]
    }
}

/// The views of a sequence of texts.
pub open spec fn texts_view(v: Seq<&str>) -> Seq<Seq<char>> {
    v.map_values(|p: &str| p@)
}

/// The numeric parameters of `tool_name`; none for a tool that is not known.
pub fn numeric_params(tool_name: &str) -> (r: Vec<&'static str>)
    ensures
        texts_view(r@) == numeric_param_table(tool_name@),
{
    let r: Vec<&'static str> = if same_text(tool_name, "get_topic_summary") {
        vec!["topic_id"]
    } else if same_text(tool_name, "get_posts") {
        vec!["page", "size", "topic_id"]
    } else if same_text(tool_name, "search_forum") || same_text(tool_name, "search_topics")
        || same_text(tool_name, "search_posts") || same_text(tool_name, "search_by_username")
        || same_text(tool_name, "search_by_username_mention") {
        vec!["limit", "offset"]
    } else if same_text(tool_name, "search_posts_in_topic") {
        vec!["limit", "offset", "topic_id"]
    } else if same_text(tool_name, "search_by_user") {
        vec!["limit", "offset", "user_id"]
    } else {
        vec![]
    };
    assert(texts_view(r@) =~= numeric_param_table(tool_name@));
    r
}

/// The members among `params` that hold the text of an integer.
pub open spec fn converted_keys(params: Seq<Seq<char>>, texts: Map<Seq<char>, Seq<char>>) -> Set<
    Seq<char>,
> {
    Set::new(
        |k: Seq<char>|
            params.contains(k) && texts.contains_key(k) && integer_text(texts[k]) is Some,
    )
}

/// Those members, with the integer their text writes.
pub open spec fn converted_values(
    params: Seq<Seq<char>>,
    texts: Map<Seq<char>, Seq<char>>,
) -> Map<Seq<char>, int> {
    Map::new(
        |k: Seq<char>| converted_keys(params, texts).contains(k),
        |k: Seq<char>| integer_text(texts[k]).unwrap(),
    )
}

/// Turns each numeric parameter of `tool_name` that holds the text of an
/// integer into that integer. Other members stay as they are.
pub fn normalize_members(tool_name: &str, m: &mut JsonObject)
    ensures
        member_keys(*final(m)) == member_keys(*old(m)),
        text_members(*final(m)) == text_members(*old(m)).remove_keys(
            converted_keys(numeric_param_table(tool_name@), text_members(*old(m))),
        ),
        integer_members(*final(m)) == integer_members(*old(m)).union_prefer_right(
            converted_values(numeric_param_table(tool_name@), text_members(*old(m))),
        ),
{
    let params = numeric_params(tool_name);
    let ghost table = numeric_param_table(tool_name@);
    let ghost texts0 = text_members(*m);
    let ghost ints0 = integer_members(*m);
    let ghost keys0 = member_keys(*m);
    let mut i: usize = 0;
    while i < params.len()
        invariant
            texts_view(params@) == table,
            i <= params@.len(),
            member_keys(*m) == keys0,
            text_members(*m) == texts0.remove_keys(converted_keys(table.take(i as int), texts0)),
            integer_members(*m) == ints0.union_prefer_right(
                converted_values(table.take(i as int), texts0),
            ),
        decreases params@.len() - i,
    {
        let p = params[i];
        let ghost pv = p@;
        let ghost before = table.take(i as int);
        let ghost after = table.take(i + 1);
        assert(table[i as int] == pv);
        assert(after =~= before.push(pv));
        proof {
            assert forall|k: Seq<char>| after.contains(k) == (before.contains(k) || k == pv) by {
                vstd::seq_lib::lemma_seq_contains_after_push(before, pv, k);
            }
        }
        let found = text_member(m, p);
        match found {
            Some(s) => {
                match parse_i64(s.as_str()) {
                    Some(n) => {
                        let ghost texts1 = text_members(*m);
                        let ghost ints1 = integer_members(*m);
                        proof {
                            assert(!converted_keys(before, texts0).contains(pv));
                            assert(texts0.contains_key(pv) && texts0[pv] == s@);
                            assert(converted_keys(after, texts0) =~= converted_keys(
                                before,
                                texts0,
                            ).insert(pv));
                        }
                        set_integer_member(m, p, n);
                        proof {
                            assert(member_keys(*m) =~= keys0);
                            assert(text_members(*m) =~= texts0.remove_keys(
                                converted_keys(after, texts0),
                            ));
                            assert(integer_members(*m) =~= ints0.union_prefer_right(
                                converted_values(after, texts0),
                            ));
                        }
                    },
                    None => {
                        proof {
                            assert(converted_keys(after, texts0) =~= converted_keys(
                                before,
                                texts0,
                            ));
                            assert(converted_values(after, texts0) =~= converted_values(
                                before,
                                texts0,
                            ));
                        }
                    },
                }
            },
            None => {
                proof {
                    assert(converted_keys(after, texts0) =~= converted_keys(before, texts0));
                    assert(converted_values(after, texts0) =~= converted_values(before, texts0));
                }
            },
        }
        i = i + 1;
    }
    assert(table.take(i as int) =~= table);
}

/// `m1` is `m0` with each numeric parameter of `tool` that holds the text
/// of an integer turned into that integer; every key stays.
pub open spec fn members_normalized(tool: Seq<char>, m0: JsonObject, m1: JsonObject) -> bool {
    let table = numeric_param_table(tool);
    &&& member_keys(m1) == member_keys(m0)
    &&& text_members(m1) == text_members(m0).remove_keys(converted_keys(table, text_members(m0)))
    &&& integer_members(m1) == integer_members(m0).union_prefer_right(
        converted_values(table, text_members(m0)),
    )
}

/// `after` is `before` normalized for `tool`: an object has its members
/// normalized; any other value stays as it is.
pub open spec fn arguments_normalized(
    tool: Seq<char>,
    before: serde_json::Value,
    after: serde_json::Value,
) -> bool {
    match object_members(before) {
        None => after == before,
        Some(m0) => object_members(after) matches Some(m1) && members_normalized(tool, m0, m1),
    }
}

/// `normalize_members` applied to `args` where it is an object; any other
/// value, and any value for a tool without numeric parameters, is returned
/// as it is.
pub fn normalize_tool_arguments(tool_name: &str, args: serde_json::Value) -> (r: serde_json::Value)
    ensures
        arguments_normalized(tool_name@, args, r),
        numeric_param_table(tool_name@).len() == 0 ==> r == args,
{
    let params = numeric_params(tool_name);
    if params.len() == 0 {
        proof {
            match object_members(args) {
                Some(m0) => {
                    let table = numeric_param_table(tool_name@);
                    let texts = text_members(m0);
                    assert(converted_keys(table, texts) =~= Set::<Seq<char>>::empty());
                    assert(texts.remove_keys(converted_keys(table, texts)) =~= texts);
                    assert(integer_members(m0).union_prefer_right(converted_values(table, texts))
                        =~= integer_members(m0));
                },
                None => {},
            }
        }
        return args;
    }
    match into_object(args) {
        Ok(mut m) => {
            normalize_members(tool_name, &mut m);
            object_value(m)
        },
        Err(v) => v,
    }
}

/// Normalizing twice changes nothing more than normalizing once: after the
/// first pass no numeric parameter holds the text of an integer.
pub proof fn lemma_normalize_idempotent(
    tool: Seq<char>,
    m0: JsonObject,
    m1: JsonObject,
    m2: JsonObject,
)
    requires
        members_normalized(tool, m0, m1),
        members_normalized(tool, m1, m2),
    ensures
        member_keys(m2) == member_keys(m1),
        text_members(m2) == text_members(m1),
        integer_members(m2) == integer_members(m1),
{
    let table = numeric_param_table(tool);
    let t0 = text_members(m0);
    let t1 = text_members(m1);
    assert forall|k: Seq<char>| !converted_keys(table, t1).contains(k) by {
        if converted_keys(table, t1).contains(k) {
            assert(!converted_keys(table, t0).contains(k));
            assert(t0.contains_key(k) && t0[k] == t1[k]);
            assert(converted_keys(table, t0).contains(k));
        }
    }
    assert(converted_keys(table, t1) =~= Set::<Seq<char>>::empty());
    assert(t1.remove_keys(converted_keys(table, t1)) =~= t1);
    assert(integer_members(m1).union_prefer_right(converted_values(table, t1)) =~= integer_members(
        m1,
    ));
}

/// The arguments a call with argument text `text` runs with: an object
/// without members for empty text, else the value the text holds,
/// normalized for `tool`.
pub open spec fn arguments_value(tool: Seq<char>, text: Seq<char>, v: serde_json::Value) -> bool {
    if text.len() == 0 {
        object_members(v) matches Some(m) && empty_members(m)
    } else {
        arguments_normalized(tool, json_value_of(text), v)
    }
}

/// The text before the parser's message when arguments are not JSON.
pub open spec fn parse_error_prefix() -> Seq<char> {
    "Error parsing tool arguments: "@
}

/// Argument text that parses: none at all, which stands for no arguments,
/// or one JSON value.
pub open spec fn arguments_parse(text: Seq<char>) -> bool {
    text.len() == 0 || is_json_text(text)
}

/// Parses a tool call's argument text and normalizes it for `tool_name`;
/// empty text stands for an object without members. Where the text is not
/// JSON, the error message names the parse failure.
pub fn parse_tool_arguments(tool_name: &str, text: &str) -> (r: Result<serde_json::Value, String>)
    ensures
        r.is_ok() == arguments_parse(text@),
        r matches Ok(v) ==> arguments_value(tool_name@, text@, v),
        r matches Err(msg) ==> msg@.take(parse_error_prefix().len() as int) == parse_error_prefix(),
{
    if text.is_empty() {
        return Ok(empty_object());
    }
    match parse_json(text) {
        Ok(v) => Ok(normalize_tool_arguments(tool_name, v)),
        Err(e) => {
            let detail = e.to_string();
            let msg = crate::text::joined("Error parsing tool arguments: ", detail.as_str());
            proof {
                reveal_strlit("Error parsing tool arguments: ");
                assert(msg@.take(parse_error_prefix().len() as int) =~= parse_error_prefix());
            }
            Err(msg)
        },
    }
}

} // verus!
