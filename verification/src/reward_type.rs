//! The reward type field: an integer tag on the wire, a token in text.

use vstd::prelude::*;
use vstd::string::*;
use crate::error::{DecodeFailure, EncodeFailure};
use crate::table;

verus! {

/// The tokens of the reward type enumeration. A token's index is its tag.
pub const TOKENS: [&'static str; 6] = [
    "securities",
    "data_credits",
    "poc_challengees",
    "poc_challengers",
    "poc_witnesses",
    "consensus",
];

/// The table as character sequences.
pub open spec fn tokens() -> Seq<Seq<char>> {
    table::texts(TOKENS@)
}

/// The token of `tag`: the entry of the table at that index. The integers
/// from 0 to 5 have one, and no other.
pub open spec fn token_of(tag: int) -> Option<Seq<char>> {
    table::token_of(tokens(), tag)
}

/// The tag of `token`: the index at which the table holds exactly that
/// text, with no trimming or folding of case. Only the six tokens have one.
pub open spec fn tag_of(token: Seq<char>) -> Option<int> {
    table::tag_of(tokens(), token)
}

/// The table holds the six tokens in the order of their tags, and no token
/// twice.
pub proof fn tokens_differ()
    ensures
        tokens() == seq![
            "securities"@,
            "data_credits"@,
            "poc_challengees"@,
            "poc_challengers"@,
            "poc_witnesses"@,
            "consensus"@,
        ],
        tokens().no_duplicates(),
{
    reveal_strlit("securities");
    reveal_strlit("data_credits");
    reveal_strlit("poc_challengees");
    reveal_strlit("poc_challengers");
    reveal_strlit("poc_witnesses");
    reveal_strlit("consensus");
    assert(tokens() =~= seq![
        "securities"@,
        "data_credits"@,
        "poc_challengees"@,
        "poc_challengers"@,
        "poc_witnesses"@,
        "consensus"@,
    ]);
    assert("securities"@.len() == 10);
    assert("data_credits"@.len() == 12);
    assert("poc_challengees"@.len() == 15);
    assert("poc_challengers"@.len() == 15);
    assert("poc_witnesses"@.len() == 13);
    assert("consensus"@.len() == 9);
    assert("poc_challengees"@[13] == 'e' && "poc_challengers"@[13] == 'r');
}

/// Whether `token` is one of the six tokens.
pub open spec fn is_token(token: Seq<char>) -> bool {
    ||| token == "securities"@
    ||| token == "data_credits"@
    ||| token == "poc_challengees"@
    ||| token == "poc_challengers"@
    ||| token == "poc_witnesses"@
    ||| token == "consensus"@
}

/// The tags are the integers from 0 to 5, and the tokens are the six of
/// the table, each at its tag.
pub proof fn domain(tag: int, token: Seq<char>)
    ensures
        token_of(tag) is Some <==> 0 <= tag <= 5,
        tag_of(token) is Some <==> is_token(token),
        token_of(0) == Some("securities"@),
        token_of(1) == Some("data_credits"@),
        token_of(2) == Some("poc_challengees"@),
        token_of(3) == Some("poc_challengers"@),
        token_of(4) == Some("poc_witnesses"@),
        token_of(5) == Some("consensus"@),
        tag_of("securities"@) == Some(0int),
        tag_of("data_credits"@) == Some(1int),
        tag_of("poc_challengees"@) == Some(2int),
        tag_of("poc_challengers"@) == Some(3int),
        tag_of("poc_witnesses"@) == Some(4int),
        tag_of("consensus"@) == Some(5int),
{
    tokens_differ();
    assert(tokens()[0] == "securities"@);
    assert(tokens()[1] == "data_credits"@);
    assert(tokens()[2] == "poc_challengees"@);
    assert(tokens()[3] == "poc_challengers"@);
    assert(tokens()[4] == "poc_witnesses"@);
    assert(tokens()[5] == "consensus"@);
}

/// Decoding the token of a tag gives the tag back.
pub proof fn tag_round_trip(tag: int)
    requires
        token_of(tag) is Some,
    ensures
        tag_of(token_of(tag).unwrap()) == Some(tag),
{
    tokens_differ();
    table::tag_of_token_at(tokens(), tag);
}

/// Encoding the tag of a token gives the token back.
pub proof fn token_round_trip(token: Seq<char>)
    requires
        tag_of(token) is Some,
    ensures
        token_of(tag_of(token).unwrap()) == Some(token),
{
    table::token_at_tag_of(tokens(), token);
}

/// The token of a tag of the enumeration: the table's entry at that index.
/// Any integer outside 0 to 5 is refused as an unknown tag.
pub fn integer_to_str(input: &i32) -> (r: Result<&'static str, EncodeFailure>)
    ensures
        match token_of(*input as int) {
            Some(token) => r matches Ok(text) && text@ == token,
            None => r == Err::<&'static str, EncodeFailure>(EncodeFailure::UnknownTag),
        },
        r is Ok <==> 0 <= *input <= 5,
{
    match table::token_at(&TOKENS, *input) {
        Some(text) => Ok(text),
        None => Err(EncodeFailure::UnknownTag),
    }
}

/// The textual form of the field: the token of its tag, as an owned string.
/// Any integer outside 0 to 5 is refused as an unknown tag.
pub fn serialize(input: &i32) -> (r: Result<String, EncodeFailure>)
    ensures
        match token_of(*input as int) {
            Some(token) => r matches Ok(text) && text@ == token,
            None => r == Err::<String, EncodeFailure>(EncodeFailure::UnknownTag),
        },
        r is Ok <==> 0 <= *input <= 5,
{
    match integer_to_str(input) {
        Ok(text) => Ok(text.to_owned()),
        Err(failure) => Err(failure),
    }
}

/// The wire form of the field: the tag of its token. Any text but the six
/// tokens is refused as an unknown token.
pub fn deserialize(token: &str) -> (r: Result<i32, DecodeFailure>)
    ensures
        r == match tag_of(token@) {
            Some(tag) => Ok::<i32, DecodeFailure>(tag as i32),
            None => Err::<i32, DecodeFailure>(DecodeFailure::UnknownToken),
        },
        r is Ok <==> is_token(token@),
{
    proof {
        tokens_differ();
        domain(0, token@);
    }
    match table::position(&TOKENS, token) {
        Some(index) => {
            assert(tokens()[index as int] == token@);
            Ok(index as i32)
        },
        None => Err(DecodeFailure::UnknownToken),
    }
}

} // verus!
