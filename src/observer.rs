//! Judges the reply of the public-address lookup.
use vstd::prelude::*;
use vstd::string::StringExecFns;

use crate::provider::{is_success_status, status_is_success, Reply};
use crate::typings::{Error, ErrorView};

verus! {

/// The message of a lookup that answered outside the success range.
pub open spec fn lookup_refused_message() -> Seq<char> {
    "address lookup answered with a non-success status"@
}

/// How a reply of the address lookup is judged: the body of a success is
/// the address, as it stands; anything else is a failure, never a default.
pub open spec fn address_verdict(reply: Reply<String>) -> Result<Seq<char>, ErrorView> {
    match reply {
        Reply::Unreachable(m) => Err(ErrorView::NetworkError(m@)),
        Reply::Answered { status, body } => if !is_success_status(status) {
            Err(ErrorView::NetworkError(lookup_refused_message()))
        } else {
            match body {
                Ok(text) => Ok(text@),
                Err(m) => Err(ErrorView::ProtocolError(m@)),
            }
        },
    }
}

/// The public address that a lookup returned, or why there is none.
pub fn judge_address(reply: Reply<String>) -> (r: Result<String, Error>)
    ensures
        match r {
            Ok(a) => address_verdict(reply) == Ok::<Seq<char>, ErrorView>(a@),
            Err(e) => address_verdict(reply) == Err::<Seq<char>, ErrorView>(e@),
        },
{
    match reply {
        Reply::Unreachable(m) => Err(Error::NetworkError(m)),
        Reply::Answered { status, body } => {
            if !status_is_success(status) {
                Err(Error::NetworkError(
                    String::from_str("address lookup answered with a non-success status"),
                ))
            } else {
                match body {
                    Ok(text) => Ok(text),
                    Err(m) => Err(Error::ProtocolError(m)),
                }
            }
        },
    }
}

} // verus!
