//! Argument lists of a version descriptor: each element is a literal or a
//! value that rules guard.

use vstd::prelude::*;
use crate::json::Json;
use crate::platform::PlatformInfo;
use crate::text::views;
use crate::version::checks::{check_allowed, rules_allow};

verus! {

/// The texts of the elements of `items`, where all of them are strings.
pub open spec fn texts_of(items: Seq<Json>) -> Option<Seq<Seq<char>>> {
    if forall|i: int| 0 <= i < items.len() ==> (#[trigger] items[i]) is Text {
        Some(Seq::new(items.len(), |i: int| items[i]->Text_0@))
    } else {
        None
    }
}

/// What the `value` of a guarded argument contributes: its text, or its
/// texts where it is an array of strings, else nothing.
pub open spec fn value_texts(argument: Json) -> Seq<Seq<char>> {
    match argument.member("value"@) {
        Some(Json::Array(items)) => match texts_of(items@) {
            Some(texts) => texts,
            None => Seq::empty(),
        },
        Some(Json::Text(text)) => seq![text@],
        _ => Seq::empty(),
    }
}

/// What one element of an argument list contributes: a literal itself, a
/// guarded value where its rules allow, else nothing.
pub open spec fn resolve_argument_spec(
    argument: Json,
    platform: PlatformInfo,
    enabled: Seq<Seq<char>>,
) -> Seq<Seq<char>> {
    match argument {
        Json::Text(text) => seq![text@],
        _ => match argument.member("rules"@) {
            Some(Json::Array(rules)) => if rules_allow(rules@, platform, enabled) {
                value_texts(argument)
            } else {
                Seq::empty()
            },
            _ => Seq::empty(),
        },
    }
}

/// What an argument list contributes: the contributions of its elements, in
/// order.
pub open spec fn resolve_arguments_spec(
    arguments: Seq<Json>,
    platform: PlatformInfo,
    enabled: Seq<Seq<char>>,
) -> Seq<Seq<char>>
    decreases arguments.len(),
{
    if arguments.len() == 0 {
        Seq::empty()
    } else {
        resolve_arguments_spec(arguments.drop_last(), platform, enabled) + resolve_argument_spec(
            arguments.last(),
            platform,
            enabled,
        )
    }
}

/// The texts of an array of strings; nothing where an element is no string.
pub fn strings_of(items: &Vec<Json>) -> (r: Option<Vec<String>>)
    ensures
        match r {
            Some(texts) => texts_of(items@) == Some(views(texts@)),
            None => texts_of(items@) is None,
        },
{
    let mut out: Vec<String> = Vec::new();
    let mut i: usize = 0;
    while i < items.len()
        invariant
            i <= items.len(),
            out@.len() == i,
            forall|j: int| 0 <= j < i ==> (#[trigger] items@[j]) is Text,
            forall|j: int| 0 <= j < i ==> (#[trigger] out@[j])@ == items@[j]->Text_0@,
        decreases items.len() - i,
    {
        match &items[i] {
            Json::Text(text) => {
                out.push(text.clone());
            },
            _ => {
                return None;
            },
        }
        i += 1;
    }
    proof {
        assert(views(out@) =~= texts_of(items@)->0);
    }
    Some(out)
}

/// Resolves one element of an argument list.
pub fn resolve_argument(argument: &Json, platform: &PlatformInfo, enabled_features: &Vec<String>) -> (r:
    Vec<String>)
    ensures
        views(r@) == resolve_argument_spec(*argument, *platform, views(enabled_features@)),
{
    if let Json::Text(text) = argument {
        let mut out: Vec<String> = Vec::new();
        out.push(text.clone());
        proof {
            assert(views(out@) =~= seq![text@]);
        }
        return out;
    }
    let rules = match argument.get("rules") {
        Some(Json::Array(rules)) => rules,
        _ => {
            let out: Vec<String> = Vec::new();
            proof {
                assert(views(out@) =~= Seq::<Seq<char>>::empty());
            }
            return out;
        },
    };
    let mut out: Vec<String> = Vec::new();
    proof {
        assert(views(out@) =~= Seq::<Seq<char>>::empty());
    }
    if check_allowed(rules, platform, enabled_features) {
        match argument.get("value") {
            Some(Json::Array(items)) => {
                match strings_of(items) {
                    Some(texts) => {
                        return texts;
                    },
                    None => {},
                }
            },
            Some(Json::Text(text)) => {
                out.push(text.clone());
                proof {
                    assert(views(out@) =~= seq![text@]);
                }
            },
            _ => {},
        }
    }
    out
}

/// Resolves an argument list into the flat list of its texts.
pub fn resolve_arguments(arguments: &Vec<Json>, platform: &PlatformInfo, enabled_features: &Vec<String>) -> (r:
    Vec<String>)
    ensures
        views(r@) == resolve_arguments_spec(arguments@, *platform, views(enabled_features@)),
{
    let mut out: Vec<String> = Vec::new();
    let mut i: usize = 0;
    proof {
        assert(views(out@) =~= Seq::<Seq<char>>::empty());
    }
    while i < arguments.len()
        invariant
            i <= arguments.len(),
            views(out@) == resolve_arguments_spec(
                arguments@.take(i as int),
                *platform,
                views(enabled_features@),
            ),
        decreases arguments.len() - i,
    {
        proof {
            assert(arguments@.take(i + 1).drop_last() == arguments@.take(i as int));
            assert(arguments@.take(i + 1).last() == arguments@[i as int]);
        }
        let mut piece = resolve_argument(&arguments[i], platform, enabled_features);
        let ghost before = out@;
        let ghost added = piece@;
        out.append(&mut piece);
        proof {
            assert(views(out@) =~= views(before) + views(added));
        }
        i += 1;
    }
    proof {
        assert(arguments@.take(arguments@.len() as int) == arguments@);
    }
    out
}

} // verus!
