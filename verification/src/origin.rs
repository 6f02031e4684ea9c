//! The origin field: an integer tag on the wire, a token in text.

use vstd::prelude::*;
use vstd::string::*;
use crate::error::{DecodeFailure, EncodeFailure};
use crate::table;

verus! {

/// The tokens of the origin enumeration. A token's index is its tag.
pub const TOKENS: [&'static str; 2] = ["p2p", "radio"];

/// The table as character sequences.
pub open spec fn tokens() -> Seq<Seq<char>> {
    table::texts(TOKENS@)
}

/// The token of `tag`: that of 0 is `p2p`, that of 1 is `radio`, and no
/// other integer has one.
pub open spec fn token_of(tag: int) -> Option<Seq<char>> {
    table::token_of(tokens(), tag)
}

/// The tag of `token`: that of `p2p` is 0, that of `radio` is 1, and no
/// other text has one. The match is exact, with no trimming or folding of
/// case.
pub open spec fn tag_of(token: Seq<char>) -> Option<int> {
    table::tag_of(tokens(), token)
}

/// The table holds `p2p` and `radio`, in this order, and no token twice.
pub proof fn tokens_differ()
    ensures
        tokens() == seq!["p2p"@, "radio"@],
        tokens().no_duplicates(),
{
    reveal_strlit("p2p");
    reveal_strlit("radio");
    assert(tokens() =~= seq!["p2p"@, "radio"@]);
    assert("p2p"@.len() == 3 && "radio"@.len() == 5);
}

/// The tags are 0 and 1, and the tokens are `p2p` and `radio`.
pub proof fn domain(tag: int, token: Seq<char>)
    ensures
        token_of(tag) is Some <==> tag == 0 || tag == 1,
        tag_of(token) is Some <==> token == "p2p"@ || token == "radio"@,
        token_of(0) == Some("p2p"@),
        token_of(1) == Some("radio"@),
        tag_of("p2p"@) == Some(0int),
        tag_of("radio"@) == Some(1int),
{
    tokens_differ();
    assert(tokens()[0] == "p2p"@ && tokens()[1] == "radio"@);
}

/// Decoding the token of a tag gives the tag back.
pub proof fn tag_round_trip(tag: int)
    requires
        token_of(tag) is Some,
    ensures
        tag_of(token_of(tag).unwrap()) == Some(tag),
{
    tokens_differ();
    table::tag_of_token_at(tokens(), tag);
}

/// Encoding the tag of a token gives the token back.
pub proof fn token_round_trip(token: Seq<char>)
    requires
        tag_of(token) is Some,
    ensures
        token_of(tag_of(token).unwrap()) == Some(token),
{
    table::token_at_tag_of(tokens(), token);
}

/// The token of a tag of the enumeration: `p2p` for 0 and `radio` for 1.
/// Any other integer is refused as an unknown tag.
pub fn integer_to_str(input: &i32) -> (r: Result<&'static str, EncodeFailure>)
    ensures
        match token_of(*input as int) {
            Some(token) => r matches Ok(text) && text@ == token,
            None => r == Err::<&'static str, EncodeFailure>(EncodeFailure::UnknownTag),
        },
        r is Ok <==> *input == 0 || *input == 1,
{
    match table::token_at(&TOKENS, *input) {
        Some(text) => Ok(text),
        None => Err(EncodeFailure::UnknownTag),
    }
}

/// The textual form of the field: the token of its tag, as an owned string.
/// Any integer but 0 and 1 is refused as an unknown tag.
pub fn serialize(input: &i32) -> (r: Result<String, EncodeFailure>)
    ensures
        match token_of(*input as int) {
            Some(token) => r matches Ok(text) && text@ == token,
            None => r == Err::<String, EncodeFailure>(EncodeFailure::UnknownTag),
        },
        r is Ok <==> *input == 0 || *input == 1,
{
    match integer_to_str(input) {
        Ok(text) => Ok(text.to_owned()),
        Err(failure) => Err(failure),
    }
}

/// The wire form of the field: the tag of its token, 0 for `p2p` and 1 for
/// `radio`. Any other text is refused as an unknown token.
pub fn deserialize(token: &str) -> (r: Result<i32, DecodeFailure>)
    ensures
        r == match tag_of(token@) {
            Some(tag) => Ok::<i32, DecodeFailure>(tag as i32),
            None => Err::<i32, DecodeFailure>(DecodeFailure::UnknownToken),
        },
        r is Ok <==> token@ == "p2p"@ || token@ == "radio"@,
{
    proof {
        tokens_differ();
        domain(0, token@);
    }
    match table::position(&TOKENS, token) {
        Some(index) => {
            assert(tokens()[index as int] == token@);
            Ok(index as i32)
        },
        None => Err(DecodeFailure::UnknownToken),
    }
}

} // verus!
