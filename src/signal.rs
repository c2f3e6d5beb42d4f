//! The error-signal protocol: every terminal failure becomes an
//! (action, reason) pair carried to the error-display route.

use vstd::prelude::*;
use vstd::string::*;
use crate::outside::{encode_form, form_encoded};

verus! {

/// The query of the redirect that carries `action` and `reason`.
pub open spec fn error_query_pairs(action: Seq<char>, reason: Seq<char>) -> Seq<(Seq<char>, Seq<char>)> {
    seq![("action"@, action), ("err_info"@, reason)]
}

/// The location a browser is sent to for an error signal: the
/// error-display route, with both texts URL-encoded in its query.
pub open spec fn error_location(action: Seq<char>, reason: Seq<char>) -> Seq<char> {
    "/error/info?"@ + form_encoded(error_query_pairs(action, reason))
}

/// What went wrong, as shown to the user: the attempted operation and why
/// it failed.
#[derive(Debug)]
pub struct ErrorSignal {
    pub action: String,
    pub reason: String,
}

impl ErrorSignal {
    pub fn new(action: String, reason: String) -> (r: ErrorSignal)
        ensures
            r.action@ == action@,
            r.reason@ == reason@,
    {
        ErrorSignal { action, reason }
    }

    /// The redirect location for this signal.
    pub fn location(&self) -> (r: String)
        ensures
            r@ == error_location(self.action@, self.reason@),
    {
        let pairs = vec![
            (String::from_str("action"), self.action.clone()),
            (String::from_str("err_info"), self.reason.clone()),
        ];
        assert(pairs.deep_view() =~= error_query_pairs(self.action@, self.reason@));
        let query = encode_form(&pairs).unwrap();
        let mut loc = String::from_str("/error/info?");
        loc.append(query.as_str());
        assert(loc@ =~= error_location(self.action@, self.reason@));
        loc
    }
}

/// The redirect location that reports `err_info` about `action`.
pub fn redirect_to_error_page(action: &String, err_info: &String) -> (r: String)
    ensures
        r@ == error_location(action@, err_info@),
{
    ErrorSignal::new(action.clone(), err_info.clone()).location()
}

} // verus!
