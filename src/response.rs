use std::collections::BTreeMap;

use serde_json::value::RawValue;
use vstd::prelude::*;

use crate::error::CoreError;
use crate::output::texts_of;

verus! {

/// The members of a JSON object, each key with the text of its value, as
/// serde_json reads the text into an ordered map; `None` where the text is
/// no JSON object.
pub uninterp spec fn json_members(text: Seq<char>) -> Option<Seq<(Seq<char>, Seq<char>)>>;

/// The texts of the items of a JSON array, in order, as serde_json reads
/// them; `None` where the text is no JSON array.
pub uninterp spec fn json_items(text: Seq<char>) -> Option<Seq<Seq<char>>>;

/// The characters a JSON string literal stands for, as serde_json reads
/// them; `None` where the text is no JSON string.
pub uninterp spec fn json_string(text: Seq<char>) -> Option<Seq<char>>;

pub open spec fn opt_text(o: Option<String>) -> Option<Seq<char>> {
    match o {
        Some(s) => Some(s@),
        None => None,
    }
}

pub open spec fn pairs_view(v: Seq<(String, String)>) -> Seq<(Seq<char>, Seq<char>)> {
    v.map_values(|p: (String, String)| (p.0@, p.1@))
}

/// Relies on serde_json::from_str into a `BTreeMap` of raw values: the
/// members of an object with the unparsed text of each value.
#[verifier::external_body]
fn object_members(text: &str) -> (r: Option<Vec<(String, String)>>)
    ensures
        match r {
            Some(v) => json_members(text@) == Some(pairs_view(v@)),
            None => json_members(text@) is None,
        },
{
    serde_json::from_str::<BTreeMap<String, Box<RawValue>>>(text).ok().map(
        |m| m.into_iter().map(|(k, v)| (k, v.get().to_owned())).collect(),
    )
}

/// Relies on serde_json::from_str into a `Vec` of raw values: the items of
/// an array with the unparsed text of each.
#[verifier::external_body]
fn array_items(text: &str) -> (r: Option<Vec<String>>)
    ensures
        match r {
            Some(v) => json_items(text@) == Some(texts_of(v@)),
            None => json_items(text@) is None,
        },
{
    serde_json::from_str::<Vec<Box<RawValue>>>(text).ok().map(
        |v| v.into_iter().map(|x| x.get().to_owned()).collect(),
    )
}

/// Relies on serde_json::from_str into a `String`: the text a JSON string
/// literal stands for.
#[verifier::external_body]
fn string_value(text: &str) -> (r: Option<String>)
    ensures
        opt_text(r) == json_string(text@),
{
    serde_json::from_str::<String>(text).ok()
}

/// The value of the first member named `key`.
pub open spec fn member(ms: Seq<(Seq<char>, Seq<char>)>, key: Seq<char>) -> Option<Seq<char>>
    decreases ms.len(),
{
    if ms.len() == 0 {
        None
    } else if ms[0].0 == key {
        Some(ms[0].1)
    } else {
        member(ms.drop_first(), key)
    }
}

/// The text of member `key` of the object `text`.
pub open spec fn field(text: Seq<char>, key: Seq<char>) -> Option<Seq<char>> {
    match json_members(text) {
        Some(ms) => member(ms, key),
        None => None,
    }
}

/// The string at member `key` of the object `text`.
pub open spec fn string_field(text: Seq<char>, key: Seq<char>) -> Option<Seq<char>> {
    match field(text, key) {
        Some(v) => json_string(v),
        None => None,
    }
}

/// The content of one choice: `message.content`.
pub open spec fn choice_content(item: Seq<char>) -> Option<Seq<char>> {
    match field(item, "message"@) {
        Some(m) => string_field(m, "content"@),
        None => None,
    }
}

/// The contents of all choices, or `None` if one lacks it.
pub open spec fn contents(items: Seq<Seq<char>>) -> Option<Seq<Seq<char>>>
    decreases items.len(),
{
    if items.len() == 0 {
        Some(Seq::empty())
    } else {
        match (contents(items.drop_last()), choice_content(items.last())) {
            (Some(a), Some(c)) => Some(a.push(c)),
            _ => None,
        }
    }
}

/// The completions of a chat-completion response, in order: the
/// `message.content` of each item of `choices`.
pub open spec fn completions_of(body: Seq<char>) -> Option<Seq<Seq<char>>> {
    match field(body, "choices"@) {
        Some(c) => match json_items(c) {
            Some(items) => contents(items),
            None => None,
        },
        None => None,
    }
}

/// The newest version in a registry listing: `num` of the first item of
/// `versions`.
pub open spec fn latest_version_of(body: Seq<char>) -> Option<Seq<char>> {
    match field(body, "versions"@) {
        Some(v) => match json_items(v) {
            Some(items) => if items.len() > 0 {
                string_field(items[0], "num"@)
            } else {
                None
            },
            None => None,
        },
        None => None,
    }
}

fn find_member(ms: &Vec<(String, String)>, key: &str) -> (r: Option<String>)
    ensures
        opt_text(r) == member(pairs_view(ms@), key@),
{
    let ghost pv = pairs_view(ms@);
    let k = String::from_str(key);
    let mut i: usize = 0;
    assert(pv.subrange(0, pv.len() as int) =~= pv);
    while i < ms.len()
        invariant
            i <= ms@.len(),
            pv == pairs_view(ms@),
            k@ == key@,
            member(pv, key@) == member(pv.subrange(i as int, pv.len() as int), key@),
        decreases ms@.len() - i,
    {
        let ghost rest = pv.subrange(i as int, pv.len() as int);
        assert(rest[0] == pv[i as int]);
        if ms[i].0 == k {
            return Some(ms[i].1.clone());
        }
        assert(rest.drop_first() =~= pv.subrange(i + 1, pv.len() as int));
        i = i + 1;
    }
    None
}

/// The text of member `key` of the object `text`.
fn get_field(text: &str, key: &str) -> (r: Option<String>)
    ensures
        opt_text(r) == field(text@, key@),
{
    match object_members(text) {
        Some(ms) => find_member(&ms, key),
        None => None,
    }
}

/// The string at member `key` of the object `text`.
fn get_string_field(text: &str, key: &str) -> (r: Option<String>)
    ensures
        opt_text(r) == string_field(text@, key@),
{
    match get_field(text, key) {
        Some(v) => string_value(v.as_str()),
        None => None,
    }
}

fn get_choice_content(item: &str) -> (r: Option<String>)
    ensures
        opt_text(r) == choice_content(item@),
{
    match get_field(item, "message") {
        Some(m) => get_string_field(m.as_str(), "content"),
        None => None,
    }
}

proof fn contents_none_extends(items: Seq<Seq<char>>, k: int)
    requires
        0 <= k <= items.len(),
        contents(items.subrange(0, k)) is None,
    ensures
        contents(items) is None,
    decreases items.len(),
{
    if k == items.len() {
        assert(items.subrange(0, k) =~= items);
    } else {
        assert(items.drop_last().subrange(0, k) =~= items.subrange(0, k));
        contents_none_extends(items.drop_last(), k);
    }
}

/// Decodes the completions of a chat-completion response. Members other
/// than the ones read are ignored; a body without them is malformed.
pub fn parse_completions(body: &str) -> (r: Result<Vec<String>, CoreError>)
    ensures
        match completions_of(body@) {
            Some(ts) => r matches Ok(v) && texts_of(v@) == ts,
            None => r matches Err(e) && e is MalformedResponse,
        },
{
    let choices = match get_field(body, "choices") {
        Some(c) => c,
        None => return Err(CoreError::MalformedResponse(String::from_str("no choices"))),
    };
    let items = match array_items(choices.as_str()) {
        Some(v) => v,
        None => return Err(CoreError::MalformedResponse(String::from_str("choices is no list"))),
    };
    let ghost iv = texts_of(items@);
    let mut out: Vec<String> = Vec::new();
    let mut i: usize = 0;
    while i < items.len()
        invariant
            i <= items@.len(),
            iv == texts_of(items@),
            field(body@, "choices"@) == Some(choices@),
            json_items(choices@) == Some(iv),
            contents(iv.subrange(0, i as int)) == Some(texts_of(out@)),
        decreases items@.len() - i,
    {
        let ghost pre = iv.subrange(0, i as int + 1);
        assert(pre.drop_last() =~= iv.subrange(0, i as int));
        assert(pre.last() == items@[i as int]@);
        match get_choice_content(items[i].as_str()) {
            Some(c) => {
                let ghost prev = texts_of(out@);
                out.push(c);
                assert(texts_of(out@) =~= prev.push(c@));
            },
            None => {
                proof {
                    assert(contents(pre) is None);
                    contents_none_extends(iv, i as int + 1);
                }
                return Err(CoreError::MalformedResponse(String::from_str("a choice has no content")));
            },
        }
        i = i + 1;
    }
    assert(iv.subrange(0, items@.len() as int) =~= iv);
    Ok(out)
}

/// The newest version number in a registry listing, if the listing has one.
pub fn parse_latest_version(body: &str) -> (r: Option<String>)
    ensures
        opt_text(r) == latest_version_of(body@),
{
    let versions = get_field(body, "versions")?;
    let items = array_items(versions.as_str())?;
    if items.len() == 0 {
        return None;
    }
    assert(texts_of(items@)[0] == items@[0]@);
    get_string_field(items[0].as_str(), "num")
}

/// The items of `choices` of a response.
pub open spec fn choice_items(body: Seq<char>) -> Option<Seq<Seq<char>>> {
    match field(body, "choices"@) {
        Some(c) => json_items(c),
        None => None,
    }
}

proof fn contents_agree(i1: Seq<Seq<char>>, i2: Seq<Seq<char>>)
    requires
        i1.len() == i2.len(),
        forall|j: int| 0 <= j < i1.len() ==> choice_content(i1[j]) == choice_content(i2[j]),
    ensures
        contents(i1) == contents(i2),
    decreases i1.len(),
{
    if i1.len() > 0 {
        contents_agree(i1.drop_last(), i2.drop_last());
        assert(choice_content(i1.last()) == choice_content(i2[i2.len() - 1]));
    }
}

/// Members under other keys, wherever they stand, do not change what a
/// lookup of `key` finds: unknown fields of an object are ignored.
pub proof fn other_members_ignored(
    a: Seq<(Seq<char>, Seq<char>)>,
    extra: Seq<(Seq<char>, Seq<char>)>,
    b: Seq<(Seq<char>, Seq<char>)>,
    key: Seq<char>,
)
    requires
        forall|j: int| 0 <= j < extra.len() ==> extra[j].0 != key,
    ensures
        member(a + extra + b, key) == member(a + b, key),
    decreases a.len() + extra.len(),
{
    if a.len() > 0 {
        assert((a + extra + b).drop_first() =~= a.drop_first() + extra + b);
        assert((a + b).drop_first() =~= a.drop_first() + b);
        assert((a + extra + b)[0] == a[0]);
        assert((a + b)[0] == a[0]);
        other_members_ignored(a.drop_first(), extra, b, key);
    } else if extra.len() > 0 {
        assert((a + extra + b).drop_first() =~= a + extra.drop_first() + b);
        assert((a + extra + b)[0] == extra[0]);
        other_members_ignored(a, extra.drop_first(), b, key);
    } else {
        assert(a + extra + b =~= a + b);
    }
}

/// Two responses whose choices agree, one for one, on `message.content`
/// give the same completions, whatever else either response or any of its
/// choices holds.
pub proof fn only_contents_read(b1: Seq<char>, b2: Seq<char>, i1: Seq<Seq<char>>, i2: Seq<Seq<char>>)
    requires
        choice_items(b1) == Some(i1),
        choice_items(b2) == Some(i2),
        i1.len() == i2.len(),
        forall|j: int| 0 <= j < i1.len() ==> choice_content(i1[j]) == choice_content(i2[j]),
    ensures
        completions_of(b1) == completions_of(b2),
{
    contents_agree(i1, i2);
}

} // verus!
