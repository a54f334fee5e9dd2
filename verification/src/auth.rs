//! The signup exchange's values and rules: the request target, the request
//! body, and how the backend's status codes are read. The HTTP call itself
//! lives with the caller.

use vstd::prelude::*;

verus! {

/// What the signup endpoint is sent.
#[derive(Debug)]
pub struct SignupBody {
    pub two_factor_key: String,
    pub hostname: String,
    pub hardware_uuid: String,
}

/// A successful signup's answer.
#[derive(Debug)]
pub struct SignupResponse {
    pub access_token: String,
}

/// A rejected signup's answer.
#[derive(Debug)]
pub struct SignupResponseError {
    pub error: String,
}

/// How a signup response status is to be read.
#[derive(Clone, Copy, Debug, PartialEq, Eq, Structural)]
pub enum SignupStatus {
    /// The body carries the access token.
    Accepted,
    /// The body carries an error message to surface.
    RejectedWithMessage,
    /// Anything else: fail without reading the body.
    Unexpected,
}

pub struct AuthManager {}

impl AuthManager {
    /// The signup endpoint on the configured backend.
    pub fn signup_url(backend_hostname: &str) -> (r: String)
        ensures
            r@ == "https://"@ + backend_hostname@ + "/machines/@signup"@,
    {
        let mut s = String::from_str("https://");
        s.append(backend_hostname);
        s.append("/machines/@signup");
        proof {
            assert(s@ =~= "https://"@ + backend_hostname@ + "/machines/@signup"@);
        }
        s
    }

    /// The request body for one signup attempt.
    pub fn signup_body(two_factor_key: &str, hostname: &str, hardware_uuid: &str) -> (b:
        SignupBody)
        ensures
            b.two_factor_key@ == two_factor_key@,
            b.hostname@ == hostname@,
            b.hardware_uuid@ == hardware_uuid@,
    {
        SignupBody {
            two_factor_key: two_factor_key.to_owned(),
            hostname: hostname.to_owned(),
            hardware_uuid: hardware_uuid.to_owned(),
        }
    }

    /// How each status code is treated: 200 carries the token, the three
    /// known failure codes carry a message, anything else is unexpected.
    pub fn classify_status(status: u16) -> (r: SignupStatus)
        ensures
            status == 200 ==> r == SignupStatus::Accepted,
            status == 400 || status == 404 || status == 500 ==> r
                == SignupStatus::RejectedWithMessage,
            status != 200 && status != 400 && status != 404 && status != 500 ==> r
                == SignupStatus::Unexpected,
    {
        if status == 200 {
            SignupStatus::Accepted
        } else if status == 400 || status == 404 || status == 500 {
            SignupStatus::RejectedWithMessage
        } else {
            SignupStatus::Unexpected
        }
    }
}

} // verus!
