//! The tags of an operation as one string, parted by `|`.

use vstd::prelude::*;
use vstd::string::StringExecFns;
use crate::document::{Json, Node, items_view};
use crate::error::{FilterError, FilterErrorView, Shape, result_view};
use crate::text::{join, join_strings, strings_view};

verus! {

/// The index of the first element that is not a string.
pub open spec fn first_non_string(tags: Seq<Json>) -> Option<int>
    decreases tags.len(),
{
    if tags.len() == 0 {
        None
    } else {
        match first_non_string(tags.drop_last()) {
            Some(index) => Some(index),
            None => if tags.last() is Text {
                None
            } else {
                Some(tags.len() - 1)
            },
        }
    }
}

/// The characters of each element of a list of strings.
pub open spec fn texts(tags: Seq<Json>) -> Seq<Seq<char>> {
    tags.map_values(|tag: Json| tag->Text_0)
}

/// What the filter `tags_to_pipe_separated` returns.
pub open spec fn tags_to_pipe_separated_result(value: Json) -> Result<Json, FilterErrorView> {
    match value.as_array() {
        None => Err(FilterErrorView::InvalidInputShape(Shape::TagsNotArray)),
        Some(tags) => match first_non_string(tags) {
            Some(index) => Err(
                FilterErrorView::InvalidInputShape(Shape::TagNotString { index: index as usize }),
            ),
            None => Ok(Json::Text(join(texts(tags), "|"@))),
        },
    }
}

/// The filter `tags_to_pipe_separated`: the tags `value` joined by `|`. The
/// value must be an array of strings; the error for an element that is not a
/// string holds the index of the first such element.
pub fn tags_to_pipe_separated_filter(value: &Node, args: &Vec<(String, Node)>) -> (r: Result<
    Node,
    FilterError,
>)
    ensures
        result_view(r) == tags_to_pipe_separated_result(value@),
{
    let tags_array = match value.as_array() {
        Some(tags) => tags,
        None => {
            return Err(FilterError::InvalidInputShape(Shape::TagsNotArray));
        },
    };
    let ghost all = items_view(tags_array@);
    let mut tag_strings: Vec<String> = Vec::new();
    let mut idx: usize = 0;
    assert(strings_view(tag_strings@) =~= texts(all.take(0)));
    while idx < tags_array.len()
        invariant
            idx <= tags_array.len(),
            all == items_view(tags_array@),
            value@ == Json::Array(all),
            first_non_string(all.take(idx as int)) is None,
            strings_view(tag_strings@) == texts(all.take(idx as int)),
        decreases tags_array.len() - idx,
    {
        proof {
            assert(all.take(idx + 1).drop_last() =~= all.take(idx as int));
            assert(all.take(idx + 1).last() == tags_array@[idx as int]@);
        }
        match tags_array[idx].as_str() {
            Some(tag) => {
                let ghost before = strings_view(tag_strings@);
                tag_strings.push(String::from_str(tag));
                proof {
                    assert(strings_view(tag_strings@) =~= before.push(tag@));
                    assert(texts(all.take(idx + 1)) =~= texts(all.take(idx as int)).push(tag@));
                }
            },
            None => {
                proof {
                    assert(!(all.take(idx + 1).last() is Text));
                    assert(first_non_string(all.take(idx + 1)) == Some(idx as int));
                    lemma_first_non_string_prefix(all, idx + 1);
                }
                return Err(FilterError::InvalidInputShape(Shape::TagNotString { index: idx }));
            },
        }
        idx = idx + 1;
    }
    proof {
        assert(all.take(tags_array.len() as int) =~= all);
    }
    Ok(Node::Text(join_strings(&tag_strings, "|")))
}

/// An element that is not a string in a prefix of the list is the first such
/// element of the whole list too.
pub proof fn lemma_first_non_string_prefix(tags: Seq<Json>, n: int)
    requires
        0 <= n <= tags.len(),
        first_non_string(tags.take(n)) is Some,
    ensures
        first_non_string(tags) == first_non_string(tags.take(n)),
    decreases tags.len() - n,
{
    if n < tags.len() {
        assert(tags.take(n + 1).drop_last() =~= tags.take(n));
        lemma_first_non_string_prefix(tags, n + 1);
    } else {
        assert(tags.take(n) =~= tags);
    }
}

} // verus!
