//! An echo service: every line that comes in goes back with a few words
//! before it.

use vstd::prelude::*;
use crate::server::messages::decode_message;
use crate::server::messages::encode_message;
use crate::server::messages::spec_decode;
use crate::server::messages::spec_encode;
use crate::server::wire::DecodeError;
use crate::ws::messages::TextMessage;
use crate::ws::messages::TextMessageView;
use vstd::string::StringExecFns;

pub mod messages;

verus! {

/// What stands before the line in an answer.
pub const YOU_SAID: &'static str = "You said: ";

/// The answer to the line `content`.
pub open spec fn spec_reply(content: Seq<char>) -> TextMessageView {
    TextMessageView { content: YOU_SAID@ + content }
}

/// The frame that answers the frame `frame`: the line that `frame` holds,
/// behind [`YOU_SAID`]. Fails exactly when, and as, decoding `frame`
/// fails.
pub fn echo(frame: &[u8]) -> (answer: Result<Vec<u8>, DecodeError>)
    ensures
        match answer {
            Ok(bytes) => spec_decode::<TextMessage>(frame@) matches Ok(line) && bytes@
                == spec_encode::<TextMessage>(spec_reply(line.content)),
            Err(e) => spec_decode::<TextMessage>(frame@) == Err::<TextMessageView, DecodeError>(e),
        },
{
    let line = decode_message::<TextMessage>(frame)?;
    let mut content = String::from_str(YOU_SAID);
    content.append(line.content.as_str());
    Ok(encode_message(&TextMessage { content }))
}

} // verus!
