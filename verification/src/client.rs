//! Entry points that need no session.

use vstd::prelude::*;

use crate::requests::{CaptchaRequest, Ping};

verus! {

/// A reachability probe of the service.
pub fn ping() -> (r: Ping)
    ensures
        r == (Ping {  }),
{
    Ping {  }
}

/// A captcha fetch for a human-verification token.
pub fn captcha_get(token: &str, force_web: bool) -> (r: CaptchaRequest)
    ensures
        r.token@ == token@,
        r.force_web == force_web,
{
    CaptchaRequest::new(token, force_web)
}

} // verus!
