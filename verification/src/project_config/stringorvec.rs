//! Decodes a value that is a string or a list of strings.
use super::error::{decoded, ProjectParseError};
use crate::yaml::YamlValue;
use vstd::prelude::*;

verus! {

/// The reason given for a value that is neither a string nor a list of strings.
pub const EXPECTED_STRING_OR_LIST: &'static str =
    "invalid type: expected a string or a list of strings";

/// The text of a scalar string; empty for any other node.
pub open spec fn text_of(node: YamlValue) -> Seq<char> {
    match node {
        YamlValue::String(text) => text@,
        _ => Seq::empty(),
    }
}

/// True when every item is a scalar string.
pub open spec fn all_strings(items: Seq<YamlValue>) -> bool {
    forall|i: int| 0 <= i < items.len() ==> (#[trigger] items[i]) is String
}

/// The texts of the items, in order.
pub open spec fn texts_of(items: Seq<YamlValue>) -> Seq<Seq<char>> {
    Seq::new(items.len(), |i: int| text_of(items[i]))
}

/// What an optional string or list of strings decodes to: nothing for null, a list of
/// one for a string, the list itself for a sequence of strings. Anything else is refused.
pub open spec fn optional_strings_of(value: YamlValue) -> Result<
    Option<Seq<Seq<char>>>,
    Seq<char>,
> {
    match value {
        YamlValue::Null => Ok(None),
        YamlValue::String(text) => Ok(Some(seq![text@])),
        YamlValue::Sequence(items) => if all_strings(items@) {
            Ok(Some(texts_of(items@)))
        } else {
            Err(EXPECTED_STRING_OR_LIST@)
        },
        _ => Err(EXPECTED_STRING_OR_LIST@),
    }
}

/// Decodes an optional string (to a list of that single string) or an optional
/// list of strings.
pub fn deserialize_optional_vec_or_string(value: &YamlValue) -> (result: Result<
    Option<Vec<String>>,
    ProjectParseError,
>)
    ensures
        decoded(result) == optional_strings_of(*value),
{
    match value {
        YamlValue::Null => Ok(None),
        YamlValue::String(text) => {
            let mut list: Vec<String> = Vec::new();
            list.push(text.clone());
            assert(list.deep_view() =~= seq![text@]);
            Ok(Some(list))
        },
        YamlValue::Sequence(items) => {
            let mut list: Vec<String> = Vec::new();
            let mut i: usize = 0;
            while i < items.len()
                invariant
                    i <= items.len(),
                    list.len() == i,
                    *value == YamlValue::Sequence(*items),
                    all_strings(items@.take(i as int)),
                    forall|k: int| 0 <= k < i ==> list[k]@ == text_of(items[k]),
                decreases items.len() - i,
            {
                match &items[i] {
                    YamlValue::String(text) => {
                        list.push(text.clone());
                    },
                    _ => {
                        assert(!(items@[i as int] is String));
                        return Err(ProjectParseError::new(EXPECTED_STRING_OR_LIST));
                    },
                }
                assert forall|k: int| 0 <= k < i + 1 implies (#[trigger] items@.take(
                    i + 1,
                )[k]) is String by {
                    if k < i {
                        assert(items@.take(i as int)[k] is String);
                    }
                }
                i += 1;
            }
            assert(items@.take(i as int) =~= items@);
            assert(list.deep_view() =~= texts_of(items@));
            Ok(Some(list))
        },
        _ => Err(ProjectParseError::new(EXPECTED_STRING_OR_LIST)),
    }
}

} // verus!
