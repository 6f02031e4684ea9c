//! Tables of tokens. A token's index in its table is its tag, so one table
//! serves both directions of an enumeration's codec.

use vstd::prelude::*;
use crate::text::same_text;

verus! {

/// The character sequences of a table's tokens, in the table's order.
pub open spec fn texts(names: Seq<&'static str>) -> Seq<Seq<char>> {
    names.map_values(|name: &'static str| name@)
}

/// The token that stands at `tag`, where the table has such an index.
pub open spec fn token_of(tokens: Seq<Seq<char>>, tag: int) -> Option<Seq<char>> {
    if 0 <= tag < tokens.len() {
        Some(tokens[tag])
    } else {
        None
    }
}

/// The index at which `token` stands, where it stands in the table at all.
/// In a table without duplicates there is one such index.
pub open spec fn tag_of(tokens: Seq<Seq<char>>, token: Seq<char>) -> Option<int> {
    if tokens.contains(token) {
        Some(tokens.index_of(token))
    } else {
        None
    }
}

/// Looks up the token of a tag.
pub fn token_at(names: &[&'static str], tag: i32) -> (found: Option<&'static str>)
    ensures
        match token_of(texts(names@), tag as int) {
            Some(token) => found matches Some(name) && name@ == token,
            None => found is None,
        },
{
    if 0 <= tag && (tag as usize) < names.len() {
        Some(names[tag as usize])
    } else {
        None
    }
}

/// Looks up the first index at which a token stands.
pub fn position(names: &[&'static str], token: &str) -> (found: Option<usize>)
    ensures
        match found {
            Some(index) => {
                &&& index < names@.len()
                &&& names@[index as int]@ == token@
                &&& forall|earlier: int| 0 <= earlier < index ==> names@[earlier]@ != token@
            },
            None => !texts(names@).contains(token@),
        },
{
    let mut index: usize = 0;
    while index < names.len()
        invariant
            index <= names@.len(),
            forall|earlier: int| 0 <= earlier < index ==> names@[earlier]@ != token@,
        decreases names@.len() - index,
    {
        if same_text(names[index], token) {
            return Some(index);
        }
        index += 1;
    }
    None
}

/// In a table without duplicates, the tag of the token at an index is that
/// index.
pub proof fn tag_of_token_at(tokens: Seq<Seq<char>>, tag: int)
    requires
        tokens.no_duplicates(),
        0 <= tag < tokens.len(),
    ensures
        tag_of(tokens, tokens[tag]) == Some(tag),
{
}

/// The token at the tag of a token of the table is that token.
pub proof fn token_at_tag_of(tokens: Seq<Seq<char>>, token: Seq<char>)
    requires
        tokens.contains(token),
    ensures
        tag_of(tokens, token) matches Some(tag) && token_of(tokens, tag) == Some(token),
{
}

} // verus!
