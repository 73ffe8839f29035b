use vstd::prelude::*;

verus! {

/// The ways a lookup can fail, as carried in the failure envelope.
#[derive(Debug)]
pub enum GatewayError {
    /// The caller handed a malformed hash, signature or public key.
    InvalidInput(String),
    /// The upstream explorer or RPC node failed, or returned an unreadable body.
    Upstream(String),
    /// A required configuration value was missing when the request was handled.
    Config(String),
}

impl GatewayError {
    /// The textual description that the failure envelope carries as its message.
    pub open spec fn text(&self) -> Seq<char> {
        match self {
            GatewayError::InvalidInput(d) => "invalid input: "@ + d@,
            GatewayError::Upstream(d) => "upstream failure: "@ + d@,
            GatewayError::Config(d) => "missing configuration: "@ + d@,
        }
    }

    /// Every failure carries a non-empty description.
    pub proof fn lemma_text_nonempty(&self)
        ensures
            self.text().len() > 0,
    {
        reveal_strlit("invalid input: ");
        reveal_strlit("upstream failure: ");
        reveal_strlit("missing configuration: ");
    }

    /// Renders the description as an owned string.
    pub fn describe(&self) -> (r: String)
        ensures
            r@ == self.text(),
            r@.len() > 0,
    {
        proof {
            self.lemma_text_nonempty();
        }
        match self {
            GatewayError::InvalidInput(d) => {
                let mut s = "invalid input: ".to_owned();
                s.append(d.as_str());
                s
            },
            GatewayError::Upstream(d) => {
                let mut s = "upstream failure: ".to_owned();
                s.append(d.as_str());
                s
            },
            GatewayError::Config(d) => {
                let mut s = "missing configuration: ".to_owned();
                s.append(d.as_str());
                s
            },
        }
    }
}

} // verus!
