//! The include directives of a configuration string.
//!
//! The string either holds directives that already begin with `#include`, one
//! behind the other, or names of header files parted by `;`. The keyword
//! anywhere in the string decides for the first form. Every directive that
//! comes out ends with `;`.

use vstd::prelude::*;
use vstd::string::StringExecFns;
use crate::text::{
    chars_of, contains, find, pieces_view, push_range, split, split_chars, split_on, strings_view,
    trim, trim_bounds,
};

verus! {

/// The directive with `;` behind it, unless it ends with one.
pub open spec fn terminated(directive: Seq<char>) -> Seq<char> {
    if directive.len() > 0 && directive.last() == ';' {
        directive
    } else {
        directive.push(';')
    }
}

/// The directive for what follows the keyword in the string.
pub open spec fn full_directive(text: Seq<char>) -> Seq<char> {
    terminated("#include "@ + text)
}

/// The directive for the bare name of a header file.
pub open spec fn bare_directive(name: Seq<char>) -> Seq<char> {
    "#include \""@ + name + "\";"@
}

/// The directives for the pieces of a string, in their order. A piece that is
/// empty once its leading and trailing whitespace is gone gives none.
pub open spec fn directives(pieces: Seq<Seq<char>>, full: bool) -> Seq<Seq<char>>
    decreases pieces.len(),
{
    if pieces.len() == 0 {
        Seq::empty()
    } else {
        let before = directives(pieces.drop_last(), full);
        let text = trim(pieces.last());
        if text.len() == 0 {
            before
        } else if full {
            before.push(full_directive(text))
        } else {
            before.push(bare_directive(text))
        }
    }
}

/// The include directives of a configuration string.
pub open spec fn include_directives(input: Seq<char>) -> Seq<Seq<char>> {
    if contains(input, "#include"@) {
        directives(split_on(input, "#include"@), true)
    } else {
        directives(split(input, ';'), false)
    }
}

/// Every directive ends with `;`.
pub proof fn lemma_directives_terminated(pieces: Seq<Seq<char>>, full: bool, i: int)
    requires
        0 <= i < directives(pieces, full).len(),
    ensures
        directives(pieces, full)[i].len() > 0,
        directives(pieces, full)[i].last() == ';',
    decreases pieces.len(),
{
    reveal_strlit("\";");
    if pieces.len() > 0 {
        let before = directives(pieces.drop_last(), full);
        if i < before.len() {
            lemma_directives_terminated(pieces.drop_last(), full, i);
        }
    }
}

/// The include directives of `input`, each one ending with `;`.
///
/// Where `input` holds `#include`, what follows each occurrence of the keyword
/// is a directive. Else `input` is a list of header names parted by `;`, and
/// each name is put between double quotes. Whitespace around a piece is
/// dropped, and a piece with nothing else gives no directive, so an empty
/// input gives an empty list.
pub fn parse_include_headers(input: &str) -> (r: Vec<String>)
    ensures
        strings_view(r@) == include_directives(input@),
        input@.len() == 0 ==> r@.len() == 0,
        forall|i: int| 0 <= i < r@.len() ==> (#[trigger] r@[i])@.len() > 0 && r@[i]@.last() == ';',
{
    let chars = chars_of(input);
    let keyword = chars_of("#include");
    let mut semicolon: Vec<char> = Vec::new();
    semicolon.push(';');
    proof {
        reveal_strlit("#include");
        assert(semicolon@ =~= seq![';']);
    }
    let full = find(&chars, &keyword, 0).is_some();
    let pieces = if full {
        split_chars(&chars, &keyword)
    } else {
        split_chars(&chars, &semicolon)
    };
    let ghost all = pieces_view(pieces@);
    let mut headers: Vec<String> = Vec::new();
    let mut i: usize = 0;
    assert(strings_view(headers@) =~= Seq::empty());
    while i < pieces.len()
        invariant
            i <= pieces.len(),
            all == pieces_view(pieces@),
            strings_view(headers@) == directives(all.take(i as int), full),
        decreases pieces.len() - i,
    {
        let piece = &pieces[i];
        proof {
            assert(all.take(i + 1).drop_last() =~= all.take(i as int));
            assert(all.take(i + 1).last() == piece@);
        }
        let (from, to) = trim_bounds(piece);
        if from < to {
            let mut header = String::from_str("#include ");
            if full {
                push_range(&mut header, piece, from, to);
                if piece[to - 1] != ';' {
                    header.push(';');
                }
            } else {
                header.push('"');
                push_range(&mut header, piece, from, to);
                header.append("\";");
                proof {
                    reveal_strlit("#include ");
                    reveal_strlit("#include \"");
                    reveal_strlit("\";");
                    assert(header@ =~= bare_directive(trim(piece@)));
                }
            }
            let ghost before = strings_view(headers@);
            headers.push(header);
            assert(strings_view(headers@) =~= before.push(header@));
        }
        i = i + 1;
    }
    proof {
        assert(all.take(pieces.len() as int) =~= all);
        assert forall|k: int| 0 <= k < headers@.len() implies (#[trigger] headers@[k])@.len() > 0
            && headers@[k]@.last() == ';' by {
            lemma_directives_terminated(all, full, k);
            assert(strings_view(headers@)[k] == headers@[k]@);
        }
        if input@.len() == 0 {
            assert(!full);
            assert(all =~= seq![chars@]);
            assert(all.drop_last() =~= Seq::<Seq<char>>::empty());
            assert(trim(all.last()).len() == 0);
            assert(directives(all.drop_last(), full).len() == 0);
            assert(directives(all, full).len() == 0);
            assert(strings_view(headers@).len() == headers@.len());
        }
    }
    headers
}

} // verus!
