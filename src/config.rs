use vstd::prelude::*;

verus! {

/// Settings of one run: the record name, the zone it lives in, which
/// address families to keep in step, and the provider credential.
#[derive(Debug, Clone)]
pub struct Config {
    pub domain: String,
    pub root_domain: String,
    pub ipv4: bool,
    pub ipv6: bool,
    pub token: String,
}

impl Config {
    /// Builds a configuration from the values a source provided, falling back
    /// to the defaults for absent ones: empty strings, and both families on.
    pub fn new(
        domain: Option<String>,
        root_domain: Option<String>,
        ipv4: Option<bool>,
        ipv6: Option<bool>,
        token: Option<String>,
    ) -> (r: Config)
        ensures
            r.domain@ == (match domain { Some(d) => d@, None => Seq::<char>::empty() }),
            r.root_domain@ == (match root_domain {
                Some(d) => d@,
                None => Seq::<char>::empty(),
            }),
            r.ipv4 == (match ipv4 { Some(b) => b, None => true }),
            r.ipv6 == (match ipv6 { Some(b) => b, None => true }),
            r.token@ == (match token { Some(t) => t@, None => Seq::<char>::empty() }),
    {
        let domain = match domain {
            Some(d) => d,
            None => String::new(),
        };
        let root_domain = match root_domain {
            Some(d) => d,
            None => String::new(),
        };
        let ipv4 = match ipv4 {
            Some(b) => b,
            None => true,
        };
        let ipv6 = match ipv6 {
            Some(b) => b,
            None => true,
        };
        let token = match token {
            Some(t) => t,
            None => String::new(),
        };
        Config { domain, root_domain, ipv4, ipv6, token }
    }

    pub open spec fn complete(&self) -> bool {
        self.token@.len() > 0 && self.domain@.len() > 0 && self.root_domain@.len() > 0
    }

    /// Whether the settings a run cannot start without (token, domain and
    /// root domain) are all non-empty.
    pub fn is_complete(&self) -> (r: bool)
        ensures
            r == self.complete(),
    {
        self.token.as_str().unicode_len() > 0 && self.domain.as_str().unicode_len() > 0
            && self.root_domain.as_str().unicode_len() > 0
    }
}

} // verus!
