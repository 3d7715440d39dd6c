//! The function name of an operation, made of its method and its path.
//!
//! The method comes first, in upper case. The literal segments of the path
//! follow in path order, and the path parameters come last, behind `By`. Every
//! segment is written in Pascal case.

use vstd::prelude::*;
use vstd::string::StringExecFns;
use crate::document::{Json, Node, entries_view, lookup, lookup_entry};
use crate::error::{Argument, FilterError, FilterErrorView, Shape, result_view};
use crate::filter::Filter;
use crate::text::{
    char_is_uppercase, char_uppercase, chars_of, join, join_strings, pieces_view, slice_of, split,
    split_chars, str_uppercase, strings_view, uppercase_of_char,
};

verus! {

/// The characters that part the words of a segment.
pub open spec fn is_word_separator(c: char) -> bool {
    c == '_' || c == '-'
}

/// What the character at index `i` of `s` gives to the Pascal case of `s`: a
/// separator gives nothing; an uppercase character stays; any other character
/// is mapped to upper case where it begins a word, that is at the start of
/// `s` and behind a separator, and stays as it is elsewhere.
pub open spec fn pascal_piece(s: Seq<char>, i: int) -> Seq<char> {
    let c = s[i];
    if is_word_separator(c) {
        Seq::empty()
    } else if char_is_uppercase(c) {
        seq![c]
    } else if i == 0 || is_word_separator(s[i - 1]) {
        char_uppercase(c)
    } else {
        seq![c]
    }
}

/// What the first `n` characters of `s` give to its Pascal case.
pub open spec fn pascal_prefix(s: Seq<char>, n: nat) -> Seq<char>
    decreases n,
{
    if n == 0 {
        Seq::empty()
    } else {
        pascal_prefix(s, (n - 1) as nat) + pascal_piece(s, n - 1)
    }
}

/// The Pascal case of `s`.
pub open spec fn pascal_case(s: Seq<char>) -> Seq<char> {
    pascal_prefix(s, s.len())
}

/// `s` without its leading occurrences of `c`.
pub open spec fn strip_leading(s: Seq<char>, c: char) -> Seq<char>
    decreases s.len(),
{
    if s.len() > 0 && s.first() == c {
        strip_leading(s.drop_first(), c)
    } else {
        s
    }
}

/// The segments of a path: what stands between its slashes, once the leading
/// ones are gone. Some of them may be empty.
pub open spec fn path_segments(path: Seq<char>) -> Seq<Seq<char>> {
    split(strip_leading(path, '/'), '/')
}

/// Whether a segment is wrapped in braces.
pub open spec fn is_braced(segment: Seq<char>) -> bool {
    segment.len() >= 2 && segment.first() == '{' && segment.last() == '}'
}

/// The text between the braces of a braced segment.
pub open spec fn braced_text(segment: Seq<char>) -> Seq<char> {
    segment.subrange(1, segment.len() - 1)
}

/// The names of the literal segments, in path order: the Pascal case of every
/// segment that is neither empty nor wrapped in braces.
pub open spec fn literal_names(segments: Seq<Seq<char>>) -> Seq<Seq<char>>
    decreases segments.len(),
{
    if segments.len() == 0 {
        Seq::empty()
    } else {
        let before = literal_names(segments.drop_last());
        let segment = segments.last();
        if segment.len() > 0 && !is_braced(segment) {
            before.push(pascal_case(segment))
        } else {
            before
        }
    }
}

/// The names of the path parameters, in path order: the Pascal case of the
/// text between the braces of every braced segment, where that text is not
/// empty.
pub open spec fn parameter_names(segments: Seq<Seq<char>>) -> Seq<Seq<char>>
    decreases segments.len(),
{
    if segments.len() == 0 {
        Seq::empty()
    } else {
        let before = parameter_names(segments.drop_last());
        let segment = segments.last();
        if is_braced(segment) && braced_text(segment).len() > 0 {
            before.push(pascal_case(braced_text(segment)))
        } else {
            before
        }
    }
}

/// `lead` and the names joined by `_`, or nothing where there is no name.
pub open spec fn name_group(lead: Seq<char>, names: Seq<Seq<char>>) -> Seq<char> {
    if names.len() > 0 {
        lead + join(names, "_"@)
    } else {
        Seq::empty()
    }
}

/// The function name for a path, given the method in upper case.
pub open spec fn func_name_from(method_upper: Seq<char>, path: Seq<char>) -> Seq<char> {
    let segments = path_segments(path);
    method_upper + name_group("_"@, literal_names(segments)) + name_group(
        "_By_"@,
        parameter_names(segments),
    )
}

/// The function name for a path and a method.
pub open spec fn func_name(path: Seq<char>, method: Seq<char>) -> Seq<char> {
    func_name_from(str_uppercase(method), path)
}

/// The string argument `method`, if the arguments hold one.
pub open spec fn method_argument(args: Seq<(Seq<char>, Json)>) -> Option<Seq<char>> {
    match lookup(args, "method"@) {
        Some(method) => method.as_str(),
        None => None,
    }
}

/// What the filter `path_to_func_name` returns.
pub open spec fn path_to_func_name_result(value: Json, args: Seq<(Seq<char>, Json)>) -> Result<
    Json,
    FilterErrorView,
> {
    match value.as_str() {
        None => Err(FilterErrorView::InvalidInputShape(Shape::PathNotString)),
        Some(path) => match method_argument(args) {
            None => Err(
                FilterErrorView::MissingRequiredArgument {
                    filter: Filter::PathToFuncName,
                    argument: Argument::Method,
                },
            ),
            Some(method) => Ok(Json::Text(func_name(path, method))),
        },
    }
}

/// The Pascal case of the characters `chars[from..to]`.
fn pascal_case_of(chars: &Vec<char>, from: usize, to: usize) -> (r: String)
    requires
        from <= to <= chars.len(),
    ensures
        r@ == pascal_case(chars@.subrange(from as int, to as int)),
{
    let ghost s = chars@.subrange(from as int, to as int);
    let mut r = String::new();
    let mut capitalize_next = true;
    let mut i: usize = from;
    while i < to
        invariant
            from <= i <= to <= chars.len(),
            s == chars@.subrange(from as int, to as int),
            r@ == pascal_prefix(s, (i - from) as nat),
            capitalize_next == (i == from || is_word_separator(s[i - from - 1])),
        decreases to - i,
    {
        let c = chars[i];
        assert(c == s[i - from]);
        if c == '_' || c == '-' {
            capitalize_next = true;
        } else if c.is_uppercase() {
            r.push(c);
            capitalize_next = false;
        } else if capitalize_next {
            let upper = uppercase_of_char(c);
            r.append(upper.as_str());
            capitalize_next = false;
        } else {
            r.push(c);
        }
        i = i + 1;
    }
    r
}

/// The Pascal case of `input`: `_` and `-` part the words and are dropped, the
/// first character of each word is mapped to upper case, and every other
/// character stays as it is.
pub fn convert_to_pascal_case(input: &str) -> (r: String)
    ensures
        r@ == pascal_case(input@),
{
    let chars = chars_of(input);
    proof {
        assert(chars@.subrange(0, chars.len() as int) =~= chars@);
    }
    pascal_case_of(&chars, 0, chars.len())
}

/// The segments of `path`.
fn split_path(path: &str) -> (r: Vec<Vec<char>>)
    ensures
        pieces_view(r@) == path_segments(path@),
{
    let chars = chars_of(path);
    let mut start: usize = 0;
    proof {
        assert(chars@.subrange(0, chars.len() as int) =~= chars@);
    }
    while start < chars.len() && chars[start] == '/'
        invariant
            start <= chars.len(),
            strip_leading(chars@, '/') == strip_leading(
                chars@.subrange(start as int, chars.len() as int),
                '/',
            ),
        decreases chars.len() - start,
    {
        proof {
            let cur = chars@.subrange(start as int, chars.len() as int);
            assert(cur.drop_first() =~= chars@.subrange(start + 1, chars.len() as int));
        }
        start = start + 1;
    }
    let stripped = slice_of(&chars, start, chars.len());
    let mut slash: Vec<char> = Vec::new();
    slash.push('/');
    assert(slash@ =~= seq!['/']);
    split_chars(&stripped, &slash)
}

/// The function name for `path`, given the method in upper case: the method,
/// then `_` and the literal segments joined by `_` where there is one, then
/// `_By_` and the path parameters joined by `_` where there is one.
pub fn compose_func_name(method_upper: &str, path: &str) -> (r: String)
    ensures
        r@ == func_name_from(method_upper@, path@),
{
    let segments = split_path(path);
    let mut regular_segments: Vec<String> = Vec::new();
    let mut parameters: Vec<String> = Vec::new();
    let ghost all = pieces_view(segments@);
    let mut i: usize = 0;
    while i < segments.len()
        invariant
            i <= segments.len(),
            all == pieces_view(segments@),
            strings_view(regular_segments@) == literal_names(all.take(i as int)),
            strings_view(parameters@) == parameter_names(all.take(i as int)),
        decreases segments.len() - i,
    {
        let part = &segments[i];
        let n = part.len();
        proof {
            assert(all.take(i + 1).drop_last() =~= all.take(i as int));
            assert(all.take(i + 1).last() == part@);
        }
        if n > 0 {
            if part[0] == '{' && part[n - 1] == '}' {
                if n > 2 {
                    let name = pascal_case_of(part, 1, n - 1);
                    let ghost before = strings_view(parameters@);
                    parameters.push(name);
                    assert(strings_view(parameters@) =~= before.push(name@));
                }
            } else {
                proof {
                    assert(part@.subrange(0, n as int) =~= part@);
                }
                let name = pascal_case_of(part, 0, n);
                let ghost before = strings_view(regular_segments@);
                regular_segments.push(name);
                assert(strings_view(regular_segments@) =~= before.push(name@));
            }
        }
        i = i + 1;
    }
    proof {
        assert(all.take(segments.len() as int) =~= all);
    }
    let mut func_name = String::from_str(method_upper);
    if regular_segments.len() > 0 {
        func_name.append("_");
        let joined = join_strings(&regular_segments, "_");
        func_name.append(joined.as_str());
    }
    if parameters.len() > 0 {
        func_name.append("_By_");
        let joined = join_strings(&parameters, "_");
        func_name.append(joined.as_str());
    }
    func_name
}

/// The function name for a path and a method, such as `GET_User_Posts_By_UserId`
/// for `/user/{user_id}/posts` and `get`.
pub fn path_to_func_name(path: &str, method: &str) -> (r: String)
    ensures
        r@ == func_name(path@, method@),
{
    let method_upper = method.to_uppercase();
    compose_func_name(method_upper.as_str(), path)
}

/// The filter `path_to_func_name`: the function name for the path `value` and
/// the argument `method`. The path must be a string, and `method` must be
/// there and be a string.
pub fn path_to_func_name_filter(value: &Node, args: &Vec<(String, Node)>) -> (r: Result<
    Node,
    FilterError,
>)
    ensures
        result_view(r) == path_to_func_name_result(value@, entries_view(args@)),
{
    let path = match value.as_str() {
        Some(path) => path,
        None => {
            return Err(FilterError::InvalidInputShape(Shape::PathNotString));
        },
    };
    let method = match lookup_entry(args, "method") {
        Some(method) => method.as_str(),
        None => None,
    };
    match method {
        Some(method) => Ok(Node::Text(path_to_func_name(path, method))),
        None => Err(
            FilterError::MissingRequiredArgument {
                filter: Filter::PathToFuncName,
                argument: Argument::Method,
            },
        ),
    }
}

} // verus!
