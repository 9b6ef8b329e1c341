//! Parsing the extracted array text into risk records.
//!
//! The array text is handed to a JSON decoder that accepts exactly an array
//! of objects whose values are all strings; everything else is a parse
//! failure. The decoded objects are then turned into `RiskItem` records by
//! verified code: each object must carry the keys `severity`, `category` and
//! `mitigation`.

use vstd::prelude::*;

use crate::model::{RiskItem, RiskItemView};

verus! {

/// What the JSON decoder yields on the array text: `None` when the text is
/// not a JSON array of string-valued objects, otherwise each object as its
/// key–value pairs. The result is a function of the text alone.
pub uninterp spec fn json_string_objects(s: Seq<char>) -> Option<
    Seq<Seq<(Seq<char>, Seq<char>)>>,
>;

/// Relies on serde_json::from_str: decodes the text as a JSON array of
/// objects with string values (`Vec<BTreeMap<String, String>>`), failing on
/// any other shape; the outcome depends on the text alone.
#[verifier::external_body]
pub(crate) fn parse_string_objects(s: &str) -> (r: Option<Vec<Vec<(String, String)>>>)
    ensures
        (r is Some) <==> (json_string_objects(s@) is Some),
        r matches Some(v) ==> Some(v.deep_view()) == json_string_objects(s@),
{
    match serde_json::from_str::<Vec<std::collections::BTreeMap<String, String>>>(s) {
        Ok(maps) => Some(maps.into_iter().map(|m| m.into_iter().collect()).collect()),
        Err(_) => None,
    }
}

/// The value under `key` in one decoded object: the first pair carrying that
/// key, if any.
pub open spec fn lookup(obj: Seq<(Seq<char>, Seq<char>)>, key: Seq<char>) -> Option<Seq<char>>
    decreases obj.len(),
{
    if obj.len() == 0 {
        None
    } else if obj[0].0 == key {
        Some(obj[0].1)
    } else {
        lookup(obj.drop_first(), key)
    }
}

/// Pairs before `i` that miss `key` do not change the lookup: it equals the
/// lookup over the remaining suffix.
proof fn lemma_lookup_skip(obj: Seq<(Seq<char>, Seq<char>)>, key: Seq<char>, i: int)
    requires
        0 <= i <= obj.len(),
        forall|m: int| 0 <= m < i ==> (#[trigger] obj[m]).0 != key,
    ensures
        lookup(obj, key) == lookup(obj.skip(i), key),
    decreases i,
{
    if i == 0 {
        assert(obj.skip(0) =~= obj);
    } else {
        assert(obj[0].0 != key);
        assert(obj.drop_first().skip(i - 1) =~= obj.skip(i));
        assert(forall|m: int|
            0 <= m < i - 1 ==> (#[trigger] obj.drop_first()[m]).0 != key) by {
            assert(forall|m: int|
                0 <= m < i - 1 ==> obj.drop_first()[m] == obj[m + 1]);
        }
        lemma_lookup_skip(obj.drop_first(), key, i - 1);
    }
}

/// Find the value under `key` in one decoded object.
pub fn lookup_value(obj: &Vec<(String, String)>, key: &String) -> (r: Option<String>)
    ensures
        match r {
            Some(v) => lookup(obj.deep_view(), key@) == Some(v@),
            None => lookup(obj.deep_view(), key@) is None,
        },
{
    let n = obj.len();
    let mut i: usize = 0;
    while i < n
        invariant
            0 <= i <= n,
            n == obj.len(),
            forall|m: int| 0 <= m < i ==> (#[trigger] obj.deep_view()[m]).0 != key@,
        decreases n - i,
    {
        if obj[i].0 == *key {
            proof {
                lemma_lookup_skip(obj.deep_view(), key@, i as int);
                assert(obj.deep_view().skip(i as int)[0] == obj.deep_view()[i as int]);
            }
            return Some(obj[i].1.clone());
        }
        proof {
            assert(obj.deep_view()[i as int].0 == obj[i as int].0@);
        }
        i = i + 1;
    }
    proof {
        lemma_lookup_skip(obj.deep_view(), key@, n as int);
        assert(obj.deep_view().skip(n as int) =~= Seq::<(Seq<char>, Seq<char>)>::empty());
    }
    None
}

/// The risk record held by one decoded object, if it carries all three keys.
pub open spec fn risk_of_object(obj: Seq<(Seq<char>, Seq<char>)>) -> Option<RiskItemView> {
    match (lookup(obj, "severity"@), lookup(obj, "category"@), lookup(obj, "mitigation"@)) {
        (Some(s), Some(c), Some(m)) => Some(
            (RiskItemView { severity: s, category: c, mitigation: m }),
        ),
        _ => None,
    }
}

/// The risk records held by the decoded objects, in order; `None` as soon as
/// one object misses a key.
pub open spec fn risks_of_objects(objs: Seq<Seq<(Seq<char>, Seq<char>)>>) -> Option<
    Seq<RiskItemView>,
> {
    if forall|k: int| 0 <= k < objs.len() ==> (#[trigger] risk_of_object(objs[k])) is Some {
        Some(Seq::new(objs.len(), |k: int| risk_of_object(objs[k])->0))
    } else {
        None
    }
}

/// Turn the decoded objects into risk records, in order; fail if any object
/// misses one of the three keys.
pub fn risks_from_objects(objs: &Vec<Vec<(String, String)>>) -> (r: Option<Vec<RiskItem>>)
    ensures
        (r is Some) <==> (risks_of_objects(objs.deep_view()) is Some),
        r matches Some(v) ==> Some(v.deep_view()) == risks_of_objects(objs.deep_view()),
{
    let severity_key: String = "severity".to_owned();
    let category_key: String = "category".to_owned();
    let mitigation_key: String = "mitigation".to_owned();
    let n = objs.len();
    let mut out: Vec<RiskItem> = Vec::new();
    let mut i: usize = 0;
    while i < n
        invariant
            0 <= i <= n,
            n == objs.len(),
            out.len() == i,
            severity_key@ == "severity"@,
            category_key@ == "category"@,
            mitigation_key@ == "mitigation"@,
            forall|k: int| 0 <= k < i ==> (#[trigger] risk_of_object(objs.deep_view()[k])) is Some,
            forall|k: int|
                0 <= k < i ==> #[trigger] out.deep_view()[k] == risk_of_object(
                    objs.deep_view()[k],
                )->0,
        decreases n - i,
    {
        let severity = match lookup_value(&objs[i], &severity_key) {
            Some(v) => v,
            None => {
                proof {
                    assert(risk_of_object(objs.deep_view()[i as int]) is None);
                }
                return None;
            },
        };
        let category = match lookup_value(&objs[i], &category_key) {
            Some(v) => v,
            None => {
                proof {
                    assert(risk_of_object(objs.deep_view()[i as int]) is None);
                }
                return None;
            },
        };
        let mitigation = match lookup_value(&objs[i], &mitigation_key) {
            Some(v) => v,
            None => {
                proof {
                    assert(risk_of_object(objs.deep_view()[i as int]) is None);
                }
                return None;
            },
        };
        let item = RiskItem { severity, category, mitigation };
        let ghost itemv = item.deep_view();
        let ghost prev = out.deep_view();
        proof {
            assert(objs.deep_view()[i as int] == objs[i as int].deep_view());
            assert(risk_of_object(objs.deep_view()[i as int]) == Some(itemv));
        }
        out.push(item);
        proof {
            assert forall|k: int|
                0 <= k < i + 1 implies #[trigger] out.deep_view()[k] == risk_of_object(
                objs.deep_view()[k],
            )->0 by {
                if k < i {
                    assert(out.deep_view()[k] == prev[k]);
                } else {
                    assert(out.deep_view()[k] == itemv);
                }
            }
        }
        i = i + 1;
    }
    proof {
        assert(out.deep_view() =~= risks_of_objects(objs.deep_view())->0);
    }
    Some(out)
}

} // verus!
