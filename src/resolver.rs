use vstd::prelude::*;
use vstd::string::*;
use crate::ip::{IpFamily, is_literal, is_literal_of};

verus! {

/// The string field `ip` of `body` read as a JSON object, if `body` is one
/// and has such a field.
pub uninterp spec fn json_ip_of(body: Seq<char>) -> Option<Seq<char>>;

/// `body` without its leading and trailing whitespace.
pub uninterp spec fn trim_of(body: Seq<char>) -> Seq<char>;

/// Relies on serde_json::from_str, Value::get and Value::as_str: `Some` with
/// the field `ip` exactly when `body` is a JSON object whose `ip` is a string.
#[verifier::external_body]
fn json_ip_field(body: &str) -> (r: Option<String>)
    ensures
        match r {
            Some(ip) => json_ip_of(body@) == Some(ip@),
            None => json_ip_of(body@) is None,
        },
{
    serde_json::from_str::<serde_json::Value>(body).ok().and_then(
        |v| v.get("ip").and_then(|f| f.as_str()).map(|s| s.to_string()),
    )
}

/// Relies on str::trim: the text with surrounding whitespace removed; the
/// result depends on the characters alone.
#[verifier::external_body]
fn trimmed(body: &str) -> (r: String)
    ensures
        r@ == trim_of(body@),
{
    body.trim().to_string()
}

/// The address an IP-echo answer gives: the JSON field when the answer is a
/// JSON object with a string `ip`, else the trimmed text; kept only if it is
/// a literal of `family`.
pub open spec fn candidate_of(
    json_ip: Option<Seq<char>>,
    text: Seq<char>,
    family: IpFamily,
) -> Option<Seq<char>> {
    match json_ip {
        Some(ip) => if is_literal_of(ip, family) {
            Some(ip)
        } else {
            None
        },
        None => if is_literal_of(text, family) {
            Some(text)
        } else {
            None
        },
    }
}

/// What an IP-echo service's answer yields: nothing when the call failed.
pub open spec fn accepted(response: Option<Seq<char>>, family: IpFamily) -> Option<Seq<char>> {
    match response {
        Some(body) => candidate_of(json_ip_of(body), trim_of(body), family),
        None => None,
    }
}

/// The first answer in service order that yields an address, with its place.
pub open spec fn first_accepted(responses: Seq<Option<Seq<char>>>, family: IpFamily) -> Option<
    (int, Seq<char>),
>
    decreases responses.len(),
{
    if responses.len() == 0 {
        None
    } else {
        match first_accepted(responses.drop_last(), family) {
            Some(found) => Some(found),
            None => match accepted(responses.last(), family) {
                Some(ip) => Some(((responses.len() - 1) as int, ip)),
                None => None,
            },
        }
    }
}

pub open spec fn responses_view(responses: Seq<Option<String>>) -> Seq<Option<Seq<char>>> {
    responses.map_values(|r: Option<String>| match r {
        Some(b) => Some(b@),
        None => None,
    })
}

/// Picks the address out of an answer whose JSON field and trimmed text are
/// already at hand.
pub fn candidate(json_ip: Option<String>, text: &str, family: IpFamily) -> (r: Option<String>)
    ensures
        (match r {
            Some(s) => Some(s@),
            None => None,
        }) == candidate_of(
            match json_ip {
                Some(s) => Some(s@),
                None => None,
            },
            text@,
            family,
        ),
{
    match json_ip {
        Some(ip) => if is_literal(ip.as_str(), family) {
            Some(ip)
        } else {
            None
        },
        None => if is_literal(text, family) {
            Some(text.to_string())
        } else {
            None
        },
    }
}

/// The address an IP-echo service's answer `body` gives for `family`, if any.
pub fn interpret_body(body: &str, family: IpFamily) -> (r: Option<String>)
    ensures
        (match r {
            Some(s) => Some(s@),
            None => None,
        }) == accepted(Some(body@), family),
{
    let json_ip = json_ip_field(body);
    let text = trimmed(body);
    candidate(json_ip, text.as_str(), family)
}

/// A validated address and the service that gave it.
#[derive(Debug, Clone)]
pub struct ResolvedAddress {
    pub ip: String,
    pub service: String,
}

/// What to do next while walking a fallback chain of IP-echo services.
#[derive(Debug, Clone)]
pub enum ResolveStep {
    /// ask the service at this place in the chain
    Fetch(usize),
    /// an address was found
    Resolved(ResolvedAddress),
    /// every service of the chain failed
    AllServicesFailed,
}

/// Decides the next step of a resolution over `services`, given the answers
/// of the services asked so far, in order (`None` for a failed call).
pub fn next_step(family: IpFamily, services: &Vec<String>, responses: &Vec<Option<String>>) -> (r:
    ResolveStep)
    ensures
        match first_accepted(responses_view(responses@), family) {
            Some((i, ip)) => i < responses@.len() && (r matches ResolveStep::Resolved(a) && a.ip@
                == ip && (i < services@.len() ==> a.service@ == services@[i]@)),
            None => if responses@.len() < services@.len() {
                r matches ResolveStep::Fetch(k) && k == responses@.len()
            } else {
                r is AllServicesFailed
            },
        },
{
    let ghost rv = responses_view(responses@);
    let mut i: usize = 0;
    while i < responses.len()
        invariant
            i <= responses@.len(),
            rv == responses_view(responses@),
            first_accepted(rv.take(i as int), family) is None,
        decreases responses@.len() - i,
    {
        assert(rv.take(i as int + 1).drop_last() =~= rv.take(i as int));
        let found = match &responses[i] {
            Some(body) => interpret_body(body.as_str(), family),
            None => None,
        };
        match found {
            Some(ip) => {
                proof {
                    lemma_first_accepted_extends(rv, family, i as int + 1);
                }
                let service = if i < services.len() {
                    services[i].clone()
                } else {
                    String::new()
                };
                return ResolveStep::Resolved(ResolvedAddress { ip, service });
            },
            None => {},
        }
        i = i + 1;
    }
    assert(rv.take(responses@.len() as int) =~= rv);
    if responses.len() < services.len() {
        ResolveStep::Fetch(responses.len())
    } else {
        ResolveStep::AllServicesFailed
    }
}

/// Once an answer in a prefix yields an address, no later answer changes the
/// outcome.
pub proof fn lemma_first_accepted_extends(responses: Seq<Option<Seq<char>>>, family: IpFamily, k: int)
    requires
        0 <= k <= responses.len(),
        first_accepted(responses.take(k), family) is Some,
    ensures
        first_accepted(responses, family) == first_accepted(responses.take(k), family),
    decreases responses.len() - k,
{
    if k < responses.len() {
        assert(responses.take(k + 1).drop_last() =~= responses.take(k));
        lemma_first_accepted_extends(responses, family, k + 1);
    } else {
        assert(responses.take(k) =~= responses);
    }
}

/// The fallback chain of IP-echo services for `family`, in priority order.
pub fn services(family: IpFamily) -> (r: Vec<String>)
    ensures
        family == IpFamily::V4 ==> r@.len() == 4 && r@[0]@ == "https://api.ipify.org?format=json"@
            && r@[1]@ == "https://ipinfo.io/ip"@ && r@[2]@ == "https://icanhazip.com"@
            && r@[3]@ == "https://checkip.amazonaws.com"@,
        family == IpFamily::V6 ==> r@.len() == 3 && r@[0]@ == "https://api64.ipify.org?format=json"@
            && r@[1]@ == "https://ipv6.icanhazip.com"@ && r@[2]@ == "https://v6.ident.me"@,
{
    match family {
        IpFamily::V4 => vec![
            String::from_str("https://api.ipify.org?format=json"),
            String::from_str("https://ipinfo.io/ip"),
            String::from_str("https://icanhazip.com"),
            String::from_str("https://checkip.amazonaws.com"),
        ],
        IpFamily::V6 => vec![
            String::from_str("https://api64.ipify.org?format=json"),
            String::from_str("https://ipv6.icanhazip.com"),
            String::from_str("https://v6.ident.me"),
        ],
    }
}

/// Fallback order and short-circuit: when every answer before place `i`
/// yields nothing and the answer at `i` yields `ip`, the resolution is `ip`
/// from place `i`, whatever the later answers are; so the services after `i`
/// are never asked.
pub proof fn lemma_fallback_first_success(
    responses: Seq<Option<Seq<char>>>,
    family: IpFamily,
    i: int,
    ip: Seq<char>,
)
    requires
        0 <= i < responses.len(),
        forall|j: int| 0 <= j < i ==> accepted(#[trigger] responses[j], family) is None,
        accepted(responses[i], family) == Some(ip),
    ensures
        forall|k: int|
            i < k <= responses.len() ==> first_accepted(#[trigger] responses.take(k), family)
                == Some((i, ip)),
{
    lemma_all_rejected(responses.take(i), family);
    let p = responses.take(i + 1);
    assert(p.drop_last() =~= responses.take(i));
    assert forall|k: int| i < k <= responses.len() implies first_accepted(
        #[trigger] responses.take(k),
        family,
    ) == Some((i, ip)) by {
        assert(responses.take(k).take(i + 1) =~= p);
        lemma_first_accepted_extends(responses.take(k), family, i + 1);
    }
}

/// When no answer yields an address, the chain has no resolution: with every
/// service asked, the next step is `AllServicesFailed`.
pub proof fn lemma_all_rejected(responses: Seq<Option<Seq<char>>>, family: IpFamily)
    requires
        forall|j: int| 0 <= j < responses.len() ==> accepted(#[trigger] responses[j], family) is None,
    ensures
        first_accepted(responses, family) is None,
    decreases responses.len(),
{
    if responses.len() > 0 {
        let d = responses.drop_last();
        assert forall|j: int| 0 <= j < d.len() implies accepted(#[trigger] d[j], family) is None by {
            assert(d[j] == responses[j]);
        }
        lemma_all_rejected(d, family);
    }
}

} // verus!
