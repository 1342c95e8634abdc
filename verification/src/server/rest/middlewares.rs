//! Reading the token of a request.
//!
//! Checking the token and finding its user are for the caller.

use vstd::prelude::*;
use crate::server::rest::error;
use crate::server::rest::IrisError;
use crate::server::rest::UNAUTHORIZED;
use vstd::string::StrSliceExecFns;

verus! {

/// Whether a character is white space: whether it is one of the twenty-five
/// code points that have the Unicode property `White_Space`.
pub open spec fn is_whitespace(c: char) -> bool {
    let code = c as u32;
    ||| 0x09 <= code <= 0x0d
    ||| code == 0x20
    ||| code == 0x85
    ||| code == 0xa0
    ||| code == 0x1680
    ||| 0x2000 <= code <= 0x200a
    ||| code == 0x2028
    ||| code == 0x2029
    ||| code == 0x202f
    ||| code == 0x205f
    ||| code == 0x3000
}

/// Whether `c` is white space.
pub fn whitespace(c: char) -> (white: bool)
    ensures
        white == is_whitespace(c),
{
    let code: u32 = c as u32;
    (0x09 <= code && code <= 0x0d) || code == 0x20 || code == 0x85 || code == 0xa0 || code
        == 0x1680 || (0x2000 <= code && code <= 0x200a) || code == 0x2028 || code == 0x2029
        || code == 0x202f || code == 0x205f || code == 0x3000
}

/// Where a text ends once the white space at its end is left out, where
/// `white[i]` says whether its character `i` is white space.
pub open spec fn span_end(white: Seq<bool>) -> int
    decreases white.len(),
{
    if white.len() == 0 {
        0
    } else if white.last() {
        span_end(white.drop_last())
    } else {
        white.len() as int
    }
}

/// Where the last run of other characters than white space starts in a
/// text that ends with such a run.
pub open spec fn span_start(white: Seq<bool>) -> int
    decreases white.len(),
{
    if white.len() == 0 {
        0
    } else if white.last() {
        white.len() as int
    } else {
        span_start(white.drop_last())
    }
}

/// Where the last of the parts that white space divides a text into starts
/// and ends, if there is a part.
pub open spec fn spec_token_span(white: Seq<bool>) -> Option<(int, int)> {
    let end = span_end(white);
    if end == 0 {
        None
    } else {
        Some((span_start(white.take(end)), end))
    }
}

/// The last part is not empty, has no white space in it, follows white
/// space or nothing, and is followed by white space only.
pub proof fn lemma_token_span(white: Seq<bool>)
    ensures
        spec_token_span(white) matches Some((start, end)) ==> {
            &&& 0 <= start < end <= white.len()
            &&& forall|i: int| start <= i < end ==> !#[trigger] white[i]
            &&& start > 0 ==> white[start - 1]
        },
        forall|i: int| span_end(white) <= i < white.len() ==> #[trigger] white[i],
        spec_token_span(white) is None <==> forall|i: int|
            0 <= i < white.len() ==> #[trigger] white[i],
{
    lemma_span_end(white);
    let end = span_end(white);
    if end > 0 {
        let prefix = white.take(end);
        lemma_span_start(prefix);
        assert(prefix.last() == white[end - 1]);
        let start = span_start(prefix);
        assert forall|i: int| start <= i < end implies !#[trigger] white[i] by {
            assert(prefix[i] == white[i]);
        }
        if start > 0 {
            assert(prefix[start - 1] == white[start - 1]);
        }
    }
}

proof fn lemma_span_end(white: Seq<bool>)
    ensures
        0 <= span_end(white) <= white.len(),
        span_end(white) > 0 ==> !white[span_end(white) - 1],
        forall|i: int| span_end(white) <= i < white.len() ==> #[trigger] white[i],
    decreases white.len(),
{
    if white.len() > 0 && white.last() {
        let front = white.drop_last();
        lemma_span_end(front);
        assert forall|i: int| span_end(white) <= i < white.len() implies #[trigger] white[i] by {
            if i < front.len() {
                assert(front[i] == white[i]);
            }
        }
    }
}

proof fn lemma_span_start(white: Seq<bool>)
    ensures
        0 <= span_start(white) <= white.len(),
        white.len() > 0 && !white.last() ==> span_start(white) < white.len(),
        forall|i: int| span_start(white) <= i < white.len() ==> !#[trigger] white[i],
        span_start(white) > 0 ==> white[span_start(white) - 1],
    decreases white.len(),
{
    if white.len() > 0 && !white.last() {
        let front = white.drop_last();
        lemma_span_start(front);
        assert forall|i: int| span_start(white) <= i < white.len() implies !#[trigger] white[i] by {
            if i < front.len() {
                assert(front[i] == white[i]);
            }
        }
        if span_start(white) > 0 {
            assert(front[span_start(white) - 1] == white[span_start(white) - 1]);
        }
    }
}

/// Where the last of the parts that white space divides a text into starts
/// and ends, given for each character of the text whether it is white
/// space. A text of white space alone has no part.
pub fn token_span(white: &Vec<bool>) -> (span: Option<(usize, usize)>)
    ensures
        match span {
            Some((start, end)) => spec_token_span(white@) == Some((start as int, end as int)),
            None => spec_token_span(white@) is None,
        },
{
    let mut end: usize = white.len();
    proof {
        assert(white@.take(end as int) =~= white@);
    }
    while end > 0 && white[end - 1]
        invariant
            end <= white.len(),
            span_end(white@) == span_end(white@.take(end as int)),
        decreases end,
    {
        proof {
            assert(white@.take(end as int).drop_last() =~= white@.take(end - 1));
        }
        end = end - 1;
    }
    if end == 0 {
        return None;
    }
    let ghost prefix = white@.take(end as int);
    let mut start: usize = end;
    proof {
        assert(prefix.take(start as int) =~= prefix);
    }
    while start > 0 && !white[start - 1]
        invariant
            start <= end <= white.len(),
            prefix == white@.take(end as int),
            span_start(prefix) == span_start(prefix.take(start as int)),
        decreases start,
    {
        proof {
            assert(prefix.take(start as int).drop_last() =~= prefix.take(start - 1));
            assert(prefix.take(start as int).last() == white@[start - 1]);
        }
        start = start - 1;
    }
    proof {
        assert(prefix.take(start as int).len() == start);
        if start > 0 {
            assert(prefix.take(start as int).last() == white@[start - 1]);
        }
        assert(prefix.last() == white@[end - 1]);
    }
    Some((start, end))
}

/// For each character of a text, whether it is white space.
pub open spec fn whiteness(text: Seq<char>) -> Seq<bool> {
    Seq::new(text.len(), |i: int| is_whitespace(text[i]))
}

/// The last of the parts that white space divides `header` into, if
/// there is a part.
pub open spec fn spec_authorize(header: Seq<char>) -> Option<Seq<char>> {
    match spec_token_span(whiteness(header)) {
        Some((start, end)) => Some(header.subrange(start, end)),
        None => None,
    }
}

/// The token of a request: the last of the parts that white space divides
/// the header `header` into, so that a scheme before the token is passed
/// over. A header of white space alone holds no token.
pub fn authorize(header: &str) -> (token: Option<String>)
    ensures
        match token {
            Some(text) => spec_authorize(header@) == Some(text@),
            None => spec_authorize(header@) is None,
        },
{
    let len = header.unicode_len();
    let mut white: Vec<bool> = Vec::new();
    let mut i: usize = 0;
    while i < len
        invariant
            i <= len == header@.len(),
            white@.len() == i,
            forall|j: int| 0 <= j < i ==> white@[j] == is_whitespace(header@[j]),
        decreases len - i,
    {
        white.push(whitespace(header.get_char(i)));
        i = i + 1;
    }
    proof {
        assert(white@ =~= whiteness(header@));
    }
    match token_span(&white) {
        Some((start, end)) => {
            proof {
                lemma_token_span(white@);
            }
            Some(header.substring_char(start, end).to_owned())
        },
        None => None,
    }
}

/// The header that carries the token of a request: the authorization
/// header, or else the header that names the sub-protocol, which is where
/// a browser puts the token of a handshake.
pub open spec fn spec_token_header(authorization: Option<&str>, protocol: Option<&str>) -> Option<
    Seq<char>,
> {
    match authorization {
        Some(header) => Some(header@),
        None => match protocol {
            Some(header) => Some(header@),
            None => None,
        },
    }
}

/// The token of a request with the authorization header `authorization`
/// and the sub-protocol header `protocol`, or why the request is refused:
/// for want of both headers, or because the header that counts holds no
/// token.
pub fn credentials(authorization: Option<&str>, protocol: Option<&str>) -> (token: Result<
    String,
    IrisError,
>)
    ensures
        match token {
            Ok(text) => {
                &&& spec_token_header(authorization, protocol) matches Some(header)
                &&& spec_authorize(header) == Some(text@)
            },
            Err(failure) => {
                &&& failure.status == UNAUTHORIZED
                &&& match spec_token_header(authorization, protocol) {
                    None => failure.message@ == "No authorization header provided"@,
                    Some(header) => spec_authorize(header) is None && failure.message@
                        == "Invalid token"@,
                }
            },
        },
{
    let header = match authorization {
        Some(header) => Some(header),
        None => protocol,
    };
    match header {
        None => Err(error(UNAUTHORIZED, "No authorization header provided")),
        Some(header) => match authorize(header) {
            Some(token) => Ok(token),
            None => Err(error(UNAUTHORIZED, "Invalid token")),
        },
    }
}

} // verus!
