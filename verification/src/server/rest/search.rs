//! Searching for users.

use vstd::prelude::*;
use crate::schema::users::User;
use crate::server::rest::error;
use crate::server::rest::middlewares::is_whitespace;
use crate::server::rest::middlewares::lemma_token_span;
use crate::server::rest::middlewares::span_end;
use crate::server::rest::middlewares::spec_token_span;
use crate::server::rest::middlewares::whiteness;
use crate::server::rest::GeneralSearchResponse;
use crate::server::rest::IrisError;
use crate::server::rest::StandardUser;
use crate::server::rest::StandardUserView;
use crate::server::rest::BAD_REQUEST;
use crate::server::rest::INTERNAL_SERVER_ERROR;
use vstd::string::StringExecFns;

verus! {

/// What a search asks for.
#[derive(Clone, Debug, PartialEq, Eq)]
pub struct Params {
    pub term: String,
}

/// How many characters of white space a text starts with.
pub open spec fn leading_white(text: Seq<char>) -> int
    decreases text.len(),
{
    if text.len() == 0 || !is_whitespace(text.first()) {
        0
    } else {
        1 + leading_white(text.drop_first())
    }
}

/// A text without the white space at its start and at its end. A text of
/// white space alone leaves nothing.
pub open spec fn trimmed(text: Seq<char>) -> Seq<char> {
    let start = leading_white(text);
    let end = span_end(whiteness(text));
    if start < end {
        text.subrange(start, end)
    } else {
        Seq::empty()
    }
}

/// The white space that a text starts with ends inside the text, and ends
/// at the first character that is none.
proof fn lemma_leading_white(text: Seq<char>)
    ensures
        0 <= leading_white(text) <= text.len(),
        forall|i: int| 0 <= i < leading_white(text) ==> is_whitespace(#[trigger] text[i]),
        leading_white(text) < text.len() ==> !is_whitespace(text[leading_white(text)]),
    decreases text.len(),
{
    if text.len() > 0 && is_whitespace(text.first()) {
        let rest = text.drop_first();
        lemma_leading_white(rest);
        assert forall|i: int| 0 <= i < leading_white(text) implies is_whitespace(
            #[trigger] text[i],
        ) by {
            if i > 0 {
                assert(rest[i - 1] == text[i]);
            }
        }
        if leading_white(text) < text.len() {
            assert(rest[leading_white(rest)] == text[leading_white(text)]);
        }
    }
}

/// What trimming leaves neither starts nor ends with white space, and
/// what it takes away is white space only: nothing is left exactly of a
/// text that is white space throughout.
pub proof fn lemma_trimmed(text: Seq<char>)
    ensures
        trimmed(text).len() > 0 ==> !is_whitespace(trimmed(text).first()) && !is_whitespace(
            trimmed(text).last(),
        ),
        trimmed(text).len() == 0 <==> forall|i: int|
            0 <= i < text.len() ==> is_whitespace(#[trigger] text[i]),
        exists|start: int, end: int|
            0 <= start <= end <= text.len() && trimmed(text) == text.subrange(start, end) && (
            forall|i: int|
                0 <= i < start || end <= i < text.len() ==> is_whitespace(#[trigger] text[i])),
{
    let white = whiteness(text);
    let start = leading_white(text);
    let end = span_end(white);
    lemma_leading_white(text);
    lemma_token_span(white);
    assert forall|i: int| end <= i < text.len() implies is_whitespace(#[trigger] text[i]) by {
        assert(white[i]);
    }
    if start < end {
        assert(spec_token_span(white) is Some);
        assert(!white[end - 1]);
        assert(trimmed(text).first() == text[start]);
        assert(trimmed(text).last() == text[end - 1]);
        assert(!is_whitespace(text[start]));
    } else {
        assert forall|i: int| 0 <= i < text.len() implies is_whitespace(#[trigger] text[i]) by {
            if i >= start {
                assert(white[i]);
            }
        }
        assert(trimmed(text) =~= text.subrange(start, start));
    }
}

/// `str::trim`: the text without the white space at its start and at its
/// end, where white space is what has the Unicode property `White_Space`.
#[verifier::external_body]
fn trim(text: &str) -> (inner: &str)
    ensures
        inner@ == trimmed(text@),
{
    text.trim()
}

/// The pattern that matches every text that `term` is a part of.
pub open spec fn spec_like_pattern(term: Seq<char>) -> Seq<char> {
    "%"@ + term + "%"@
}

/// The pattern to search names for, given a term that is trimmed already.
/// An empty term is refused.
pub fn like_pattern(term: &str) -> (pattern: Result<String, IrisError>)
    ensures
        match pattern {
            Ok(text) => term@.len() > 0 && text@ == spec_like_pattern(term@),
            Err(failure) => term@.len() == 0 && failure.status == BAD_REQUEST && failure.message@
                == "Empty search term"@,
        },
{
    if term.is_empty() {
        Err(error(BAD_REQUEST, "Empty search term"))
    } else {
        let mut pattern = String::from_str("%");
        pattern.append(term);
        pattern.append("%");
        Ok(pattern)
    }
}

/// The pattern to search names for: the term of `params` without the white
/// space around it, between two wildcards. A term of white space alone is
/// refused.
pub fn search_pattern(params: &Params) -> (pattern: Result<String, IrisError>)
    ensures
        match pattern {
            Ok(text) => trimmed(params.term@).len() > 0 && text@ == spec_like_pattern(
                trimmed(params.term@),
            ),
            Err(failure) => trimmed(params.term@).len() == 0 && failure.status == BAD_REQUEST
                && failure.message@ == "Empty search term"@,
        },
{
    like_pattern(trim(params.term.as_str()))
}

/// The users of a list as others see them, user by user.
pub open spec fn spec_standard_users(found: Seq<User>, users: Seq<StandardUser>) -> bool {
    &&& users.len() == found.len()
    &&& forall|i: int|
        0 <= i < found.len() ==> (#[trigger] users[i])@ == (StandardUserView {
            id: found[i].user_id,
            name: found[i].name@,
            username: found[i].username@,
        })
}

/// The users that a search found, as others see them, in the order found.
/// `found` is what the store found, or nothing where the store failed:
/// then the search has failed.
pub fn search(found: Option<&Vec<User>>) -> (response: Result<GeneralSearchResponse, IrisError>)
    ensures
        match response {
            Ok(listing) => found matches Some(rows) && spec_standard_users(rows@, listing.users@),
            Err(failure) => found is None && failure.status == INTERNAL_SERVER_ERROR
                && failure.message@ == "Failed to search users"@,
        },
{
    let rows = match found {
        Some(rows) => rows,
        None => {
            return Err(error(INTERNAL_SERVER_ERROR, "Failed to search users"));
        },
    };
    let mut users: Vec<StandardUser> = Vec::new();
    let mut i: usize = 0;
    while i < rows.len()
        invariant
            i <= rows.len(),
            spec_standard_users(rows@.take(i as int), users@),
        decreases rows.len() - i,
    {
        users.push(StandardUser::from_user(&rows[i]));
        i = i + 1;
    }
    proof {
        assert(rows@.take(i as int) =~= rows@);
    }
    Ok(GeneralSearchResponse { users })
}

} // verus!
