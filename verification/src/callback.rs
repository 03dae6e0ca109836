//! What a callback tells: an authorization code with the state that came
//! back, or the provider's refusal.

use crate::request::{param_text, MapHelper, QueryParams};
use vstd::prelude::*;
use vstd::string::*;

verus! {

/// What was read from the one request that the loopback listener took.
#[derive(Debug, Clone, PartialEq, Eq)]
pub struct CallbackResult {
    /// The authorization code.
    pub code: Option<String>,
    /// The state that the provider handed back.
    pub state: Option<String>,
    /// The provider's reason for refusing.
    pub error: Option<String>,
}

/// A `CallbackResult` with its texts as sequences of characters.
pub struct CallbackResultView {
    pub code: Option<Seq<char>>,
    pub state: Option<Seq<char>>,
    pub error: Option<Seq<char>>,
}

/// The text of an optional string.
pub open spec fn option_text(s: Option<String>) -> Option<Seq<char>> {
    match s {
        Some(text) => Some(text@),
        None => None,
    }
}

impl View for CallbackResult {
    type V = CallbackResultView;

    open spec fn view(&self) -> CallbackResultView {
        CallbackResultView {
            code: option_text(self.code),
            state: option_text(self.state),
            error: option_text(self.error),
        }
    }
}

/// What the parameters of a callback tell. `error` is read first: where it
/// is there and not empty, the callback is a refusal and nothing else is
/// read. Otherwise `code` and `state` are read, each empty where absent.
pub open spec fn callback_of(params: Map<Seq<u8>, Seq<u8>>) -> CallbackResultView {
    if param_text(params, "error"@).len() > 0 {
        CallbackResultView { code: None, state: None, error: Some(param_text(params, "error"@)) }
    } else {
        CallbackResultView {
            code: Some(param_text(params, "code"@)),
            state: Some(param_text(params, "state"@)),
            error: None,
        }
    }
}

/// Reads the result of a callback from its parameters.
pub fn callback_result(query: &QueryParams) -> (r: CallbackResult)
    ensures
        r@ == callback_of(query@),
{
    let error = query.get_string("error");
    if !error.as_str().is_empty() {
        return CallbackResult { code: None, state: None, error: Some(error) };
    }
    let code = query.get_string("code");
    let state = query.get_string("state");
    CallbackResult { code: Some(code), state: Some(state), error: None }
}

} // verus!
