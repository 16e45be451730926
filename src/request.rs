use vstd::prelude::*;

verus! {

/// The full address of one endpoint for one request: the endpoint's base,
/// a `?`, then the signed query parameters.
pub open spec fn url_of(api_host: Seq<char>, query: Seq<char>) -> Seq<char> {
    api_host + seq!['?'] + query
}

/// One signed verification request. It is built once per verification and
/// sent unchanged to every endpoint.
#[derive(Debug, Clone, PartialEq, Eq)]
pub struct VerificationRequest {
    /// The passcode being checked.
    pub otp: String,
    /// The nonce the endpoints must echo back.
    pub nonce: String,
    /// The signed, already encoded query parameters.
    pub query: String,
}

impl VerificationRequest {
    pub fn new(otp: String, nonce: String, query: String) -> (r: VerificationRequest)
        ensures
            r.otp@ == otp@,
            r.nonce@ == nonce@,
            r.query@ == query@,
    {
        VerificationRequest { otp, nonce, query }
    }

    /// The address to send this request to at `api_host`.
    pub fn build_url(&self, api_host: &str) -> (r: String)
        ensures
            r@ == url_of(api_host@, self.query@),
    {
        let mut url = api_host.to_owned();
        url.append("?");
        url.append(self.query.as_str());
        proof {
            reveal_strlit("?");
        }
        url
    }
}

} // verus!
