//! The message that asks a human to approve a request.

use vstd::prelude::*;
use vstd::string::StringExecFns;
use crate::event::event::{opt_text, CorrelationId};
use crate::kernel::correlation::{id_text, id_text_of};

verus! {

/// The approval message for a request: a heading, the identifier of the
/// request in its written form, and the description if there is one.
pub open spec fn approval_text(request_id: CorrelationId, description: Option<Seq<char>>) -> Seq<
    char,
> {
    "\u{26a0}\u{fe0f} *Approval Required*\n\n*ID:* `"@ + id_text_of(request_id) + "`\n\n"@
        + match description {
        Some(text) => text,
        None => Seq::empty(),
    }
}

/// Writes the approval message for a request.
pub fn format_approval(request_id: CorrelationId, description: Option<String>) -> (message: String)
    ensures
        message@ == approval_text(request_id, opt_text(description)),
{
    let mut message = String::from_str("\u{26a0}\u{fe0f} *Approval Required*\n\n*ID:* `");
    message.append(id_text(request_id).as_str());
    message.append("`\n\n");
    match description {
        Some(text) => {
            message.append(text.as_str());
        },
        None => {
            assert(message@ + Seq::<char>::empty() =~= message@);
        },
    }
    message
}

} // verus!
