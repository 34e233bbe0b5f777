use vstd::prelude::*;
use vstd::string::*;
use crate::ip::IpFamily;

verus! {

/// Time to live, in seconds, of every record this library writes.
pub const RECORD_TTL: u32 = 300;

/// Address record types.
#[derive(Debug, Clone, Copy, PartialEq, Eq, Structural)]
pub enum RecordType {
    A,
    AAAA,
}

pub open spec fn wire_name(t: RecordType) -> Seq<char> {
    match t {
        RecordType::A => "A"@,
        RecordType::AAAA => "AAAA"@,
    }
}

pub open spec fn family_of(t: RecordType) -> IpFamily {
    match t {
        RecordType::A => IpFamily::V4,
        RecordType::AAAA => IpFamily::V6,
    }
}

impl RecordType {
    /// The type's name on the wire.
    pub fn as_str(&self) -> (r: &'static str)
        ensures
            r@ == wire_name(*self),
    {
        match self {
            RecordType::A => "A",
            RecordType::AAAA => "AAAA",
        }
    }

    /// The address family a record of this type holds.
    pub fn family(&self) -> (r: IpFamily)
        ensures
            r == family_of(*self),
    {
        match self {
            RecordType::A => IpFamily::V4,
            RecordType::AAAA => IpFamily::V6,
        }
    }
}

/// A provider zone: the administrative unit of a registered domain.
#[derive(Debug, Clone)]
pub struct Zone {
    pub id: String,
    pub name: String,
}

/// A DNS record as the provider holds it; `id` is absent until created.
#[derive(Debug, Clone)]
pub struct DnsRecord {
    pub id: Option<String>,
    pub record_type: String,
    pub name: String,
    pub content: String,
    pub ttl: u32,
}

/// Plain-value picture of a record.
pub struct RecordView {
    pub id: Option<Seq<char>>,
    pub record_type: Seq<char>,
    pub name: Seq<char>,
    pub content: Seq<char>,
    pub ttl: u32,
}

pub open spec fn opt_view(o: Option<String>) -> Option<Seq<char>> {
    match o {
        Some(s) => Some(s@),
        None => None,
    }
}

impl View for DnsRecord {
    type V = RecordView;

    open spec fn view(&self) -> RecordView {
        RecordView {
            id: opt_view(self.id),
            record_type: self.record_type@,
            name: self.name@,
            content: self.content@,
            ttl: self.ttl,
        }
    }
}

/// The record written for `name` of type `t` with `content`: every field is
/// sent, the ttl is the fixed one.
pub open spec fn payload_of(
    id: Option<Seq<char>>,
    name: Seq<char>,
    t: RecordType,
    content: Seq<char>,
) -> RecordView {
    RecordView { id, record_type: wire_name(t), name, content, ttl: RECORD_TTL }
}

/// One entry of the provider's structured error list.
#[derive(Debug, Clone)]
pub struct ApiError {
    pub code: u32,
    pub message: String,
}

/// Failures of the provider client.
#[derive(Debug, Clone)]
pub enum DnsError {
    /// no zone of the provider has exactly this name
    ZoneNotFound(String),
    /// a transport failure, a malformed answer or an error the provider reported
    Provider(String),
}

/// Builds the record sent to create or replace a record.
pub fn record_payload(id: Option<String>, name: &str, t: RecordType, content: &str) -> (r: DnsRecord)
    ensures
        r@ == payload_of(opt_view(id), name@, t, content@),
{
    DnsRecord {
        id,
        record_type: String::from_str(t.as_str()),
        name: String::from_str(name),
        content: String::from_str(content),
        ttl: RECORD_TTL,
    }
}

/// Character-wise equality of two strings.
pub fn same_text(a: &str, b: &str) -> (r: bool)
    ensures
        r == (a@ == b@),
{
    let n = a.unicode_len();
    if n != b.unicode_len() {
        return false;
    }
    let mut i: usize = 0;
    while i < n
        invariant
            n == a@.len(),
            n == b@.len(),
            i <= n,
            forall|j: int| 0 <= j < i ==> a@[j] == b@[j],
        decreases n - i,
    {
        if a.get_char(i) != b.get_char(i) {
            return false;
        }
        i = i + 1;
    }
    assert(a@ =~= b@);
    true
}

/// The first zone, in the provider's order, whose name is exactly `domain`.
pub open spec fn zone_match(zones: Seq<Zone>, domain: Seq<char>, i: int) -> bool {
    0 <= i < zones.len() && zones[i].name@ == domain && forall|j: int|
        0 <= j < i ==> zones[j].name@ != domain
}

/// The id of the first zone named exactly `domain`; `ZoneNotFound` when no
/// zone has that name.
pub fn select_zone(zones: &Vec<Zone>, domain: &str) -> (r: Result<String, DnsError>)
    ensures
        match r {
            Ok(id) => exists|i: int| zone_match(zones@, domain@, i) && id@ == zones@[i].id@,
            Err(e) => (forall|i: int| 0 <= i < zones@.len() ==> zones@[i].name@ != domain@) && (e
                matches DnsError::ZoneNotFound(d) && d@ == domain@),
        },
{
    let mut i: usize = 0;
    while i < zones.len()
        invariant
            i <= zones@.len(),
            forall|j: int| 0 <= j < i ==> zones@[j].name@ != domain@,
        decreases zones@.len() - i,
    {
        if same_text(zones[i].name.as_str(), domain) {
            assert(zone_match(zones@, domain@, i as int));
            return Ok(zones[i].id.clone());
        }
        i = i + 1;
    }
    Err(DnsError::ZoneNotFound(String::from_str(domain)))
}

/// The record treated as canonical among those the provider returned for a
/// name and type: the first in the provider's order.
pub fn first_record(records: Vec<DnsRecord>) -> (r: Option<DnsRecord>)
    ensures
        records@.len() == 0 ==> r is None,
        records@.len() > 0 ==> (r matches Some(rec) && rec@ == records@[0]@),
{
    let mut records = records;
    if records.len() == 0 {
        None
    } else {
        Some(records.swap_remove(0))
    }
}

pub open spec fn digit_char(d: nat) -> char {
    if d == 0 { '0' }
    else if d == 1 { '1' }
    else if d == 2 { '2' }
    else if d == 3 { '3' }
    else if d == 4 { '4' }
    else if d == 5 { '5' }
    else if d == 6 { '6' }
    else if d == 7 { '7' }
    else if d == 8 { '8' }
    else { '9' }
}

/// Decimal digits of `n`, without leading zeros.
pub open spec fn decimal_of(n: nat) -> Seq<char>
    decreases n,
{
    if n < 10 {
        seq![digit_char(n)]
    } else {
        decimal_of(n / 10).push(digit_char(n % 10))
    }
}

fn digit_text(d: u32) -> (r: &'static str)
    requires
        d < 10,
    ensures
        r@ == seq![digit_char(d as nat)],
{
    proof {
        reveal_strlit("0");
        reveal_strlit("1");
        reveal_strlit("2");
        reveal_strlit("3");
        reveal_strlit("4");
        reveal_strlit("5");
        reveal_strlit("6");
        reveal_strlit("7");
        reveal_strlit("8");
        reveal_strlit("9");
    }
    if d == 0 { "0" }
    else if d == 1 { "1" }
    else if d == 2 { "2" }
    else if d == 3 { "3" }
    else if d == 4 { "4" }
    else if d == 5 { "5" }
    else if d == 6 { "6" }
    else if d == 7 { "7" }
    else if d == 8 { "8" }
    else { "9" }
}

/// `n` written in decimal.
pub fn decimal(n: u32) -> (r: String)
    ensures
        r@ == decimal_of(n as nat),
    decreases n,
{
    if n < 10 {
        String::from_str(digit_text(n))
    } else {
        let mut s = decimal(n / 10);
        s.append(digit_text(n % 10));
        proof {
            assert(s@ =~= decimal_of(n as nat));
        }
        s
    }
}

pub open spec fn error_entry(e: ApiError) -> Seq<char> {
    "Code "@ + decimal_of(e.code as nat) + ": "@ + e.message@
}

/// The provider's errors, each as `Code <code>: <message>`, joined by `, `.
pub open spec fn errors_text(errors: Seq<ApiError>) -> Seq<char>
    decreases errors.len(),
{
    if errors.len() == 0 {
        Seq::empty()
    } else if errors.len() == 1 {
        error_entry(errors[0])
    } else {
        errors_text(errors.drop_last()) + ", "@ + error_entry(errors.last())
    }
}

/// The message of a `Provider` error for an answer that reported failure.
pub open spec fn failure_message(errors: Seq<ApiError>) -> Seq<char> {
    "Cloudflare API error: "@ + errors_text(errors)
}

/// The message of a `Provider` error for a successful answer without result.
pub open spec fn missing_result_message() -> Seq<char> {
    "No result in response"@
}

/// Joins the provider's error list into one line.
pub fn error_text(errors: &Vec<ApiError>) -> (r: String)
    ensures
        r@ == errors_text(errors@),
{
    let mut out = String::new();
    let mut i: usize = 0;
    while i < errors.len()
        invariant
            i <= errors@.len(),
            out@ == errors_text(errors@.take(i as int)),
        decreases errors@.len() - i,
    {
        let e = &errors[i];
        proof {
            assert(errors@.take(i as int + 1).drop_last() =~= errors@.take(i as int));
        }
        if i > 0 {
            out.append(", ");
        }
        out.append("Code ");
        let code = decimal(e.code);
        out.append(code.as_str());
        out.append(": ");
        out.append(e.message.as_str());
        proof {
            assert(out@ =~= errors_text(errors@.take(i as int + 1)));
        }
        i = i + 1;
    }
    proof {
        assert(errors@.take(errors@.len() as int) =~= errors@);
    }
    out
}

/// Opens the provider's response envelope: its result when the answer
/// reports success and carries one; otherwise a `Provider` error naming the
/// reported errors, or saying that the result is missing.
pub fn open_envelope<T>(success: bool, errors: &Vec<ApiError>, result: Option<T>) -> (r: Result<
    T,
    DnsError,
>)
    ensures
        success && result is Some ==> r == Ok::<T, DnsError>(result->Some_0),
        !success ==> (r matches Err(DnsError::Provider(m)) && m@ == failure_message(errors@)),
        success && result is None ==> (r matches Err(DnsError::Provider(m)) && m@
            == missing_result_message()),
{
    if !success {
        let mut m = String::from_str("Cloudflare API error: ");
        let t = error_text(errors);
        m.append(t.as_str());
        return Err(DnsError::Provider(m));
    }
    match result {
        Some(v) => Ok(v),
        None => Err(DnsError::Provider(String::from_str("No result in response"))),
    }
}

/// HTTP methods the provider's API is called with.
#[derive(Debug, Clone, Copy, PartialEq, Eq, Structural)]
pub enum Method {
    Get,
    Post,
    Put,
}

/// One call of the provider's API: method, address and the record sent.
#[derive(Debug, Clone)]
pub struct ApiRequest {
    pub method: Method,
    pub url: String,
    pub body: Option<DnsRecord>,
}

pub open spec fn api_base() -> Seq<char> {
    "https://api.cloudflare.com/client/v4"@
}

pub open spec fn zones_url(domain: Seq<char>) -> Seq<char> {
    api_base() + "/zones?name="@ + domain
}

pub open spec fn records_url(zone_id: Seq<char>) -> Seq<char> {
    api_base() + "/zones/"@ + zone_id + "/dns_records"@
}

pub open spec fn record_query_url(zone_id: Seq<char>, name: Seq<char>, t: RecordType) -> Seq<
    char,
> {
    records_url(zone_id) + "?name="@ + name + "&type="@ + wire_name(t)
}

pub open spec fn record_url(zone_id: Seq<char>, record_id: Seq<char>) -> Seq<char> {
    records_url(zone_id) + "/"@ + record_id
}

fn concat2(a: &str, b: &str) -> (r: String)
    ensures
        r@ == a@ + b@,
{
    let mut s = String::from_str(a);
    s.append(b);
    s
}

fn records_address(zone_id: &str) -> (r: String)
    ensures
        r@ == records_url(zone_id@),
{
    let mut s = String::from_str("https://api.cloudflare.com/client/v4/zones/");
    s.append(zone_id);
    s.append("/dns_records");
    proof {
        reveal_strlit("https://api.cloudflare.com/client/v4/zones/");
        reveal_strlit("https://api.cloudflare.com/client/v4");
        reveal_strlit("/zones/");
        assert(s@ =~= records_url(zone_id@));
    }
    s
}

/// Builds the provider API calls; holds the bearer credential, which it
/// never shows but in the authorization header.
pub struct ProviderClient {
    token: String,
}

impl ProviderClient {
    pub closed spec fn token(&self) -> Seq<char> {
        self.token@
    }

    pub fn new(token: String) -> (r: ProviderClient)
        ensures
            r.token() == token@,
    {
        ProviderClient { token }
    }

    /// The value of the authorization header sent with every call.
    pub fn authorization(&self) -> (r: String)
        ensures
            r@ == "Bearer "@ + self.token(),
    {
        concat2("Bearer ", self.token.as_str())
    }

    /// Looks up the zones named `domain`.
    pub fn zone_lookup(&self, domain: &str) -> (r: ApiRequest)
        ensures
            r.method == Method::Get,
            r.url@ == zones_url(domain@),
            r.body is None,
    {
        let url = concat2("https://api.cloudflare.com/client/v4/zones?name=", domain);
        proof {
            reveal_strlit("https://api.cloudflare.com/client/v4/zones?name=");
            reveal_strlit("https://api.cloudflare.com/client/v4");
            reveal_strlit("/zones?name=");
            assert(url@ =~= zones_url(domain@));
        }
        ApiRequest { method: Method::Get, url, body: None }
    }

    /// Looks up the records of zone `zone_id` with this name and type.
    pub fn record_lookup(&self, zone_id: &str, name: &str, t: RecordType) -> (r: ApiRequest)
        ensures
            r.method == Method::Get,
            r.url@ == record_query_url(zone_id@, name@, t),
            r.body is None,
    {
        let mut url = records_address(zone_id);
        url.append("?name=");
        url.append(name);
        url.append("&type=");
        url.append(t.as_str());
        proof {
            assert(url@ =~= record_query_url(zone_id@, name@, t));
        }
        ApiRequest { method: Method::Get, url, body: None }
    }

    /// Creates a record of this name, type and content, with the fixed ttl.
    pub fn create_request(&self, zone_id: &str, name: &str, t: RecordType, content: &str) -> (r:
        ApiRequest)
        ensures
            r.method == Method::Post,
            r.url@ == records_url(zone_id@),
            r.body matches Some(b) && b@ == payload_of(None, name@, t, content@),
    {
        let url = records_address(zone_id);
        let body = record_payload(None, name, t, content);
        ApiRequest { method: Method::Post, url, body: Some(body) }
    }

    /// Replaces record `record_id` whole: every field is sent again.
    pub fn update_request(
        &self,
        zone_id: &str,
        record_id: &str,
        name: &str,
        t: RecordType,
        content: &str,
    ) -> (r: ApiRequest)
        ensures
            r.method == Method::Put,
            r.url@ == record_url(zone_id@, record_id@),
            r.body matches Some(b) && b@ == payload_of(Some(record_id@), name@, t, content@),
    {
        let mut url = records_address(zone_id);
        url.append("/");
        url.append(record_id);
        let body = record_payload(Some(String::from_str(record_id)), name, t, content);
        ApiRequest { method: Method::Put, url, body: Some(body) }
    }
}

} // verus!
