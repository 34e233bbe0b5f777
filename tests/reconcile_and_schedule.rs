use cf_ddns::config::Config;
use cf_ddns::provider::{
    first_record, select_zone, ApiRequest, DnsError, DnsRecord, Method, ProviderClient,
    RecordType, Zone,
};
use cf_ddns::reconcile::{plan, ReconcileOutcome};
use cf_ddns::scheduler::{Action, Event, Phase, Scheduler, MAX_DELAY, MIN_DELAY};

/// A stand-in for the provider: the records it holds and the writes it got.
struct FakeProvider {
    records: Vec<DnsRecord>,
    writes: Vec<ApiRequest>,
    next_id: u32,
}

impl FakeProvider {
    fn new(records: Vec<DnsRecord>) -> FakeProvider {
        FakeProvider { records, writes: vec![], next_id: 1 }
    }

    fn lookup(&self, name: &str, t: RecordType) -> Option<DnsRecord> {
        let found: Vec<DnsRecord> = self
            .records
            .iter()
            .filter(|r| r.name == name && r.record_type == t.as_str())
            .cloned()
            .collect();
        first_record(found)
    }

    fn write(&mut self, w: ApiRequest) {
        let mut body = w.body.clone().unwrap();
        match w.method {
            Method::Post => {
                body.id = Some(format!("new{}", self.next_id));
                self.next_id += 1;
                self.records.push(body);
            }
            Method::Put => {
                let id = body.id.clone();
                for r in self.records.iter_mut() {
                    if r.id == id {
                        *r = body.clone();
                    }
                }
            }
            Method::Get => panic!("a lookup is no write"),
        }
        self.writes.push(w);
    }

    fn reconcile(
        &mut self,
        client: &ProviderClient,
        zone_id: &str,
        name: &str,
        t: RecordType,
        desired: &str,
    ) -> Result<ReconcileOutcome, DnsError> {
        let existing = self.lookup(name, t);
        let p = plan(client, zone_id, existing, name, t, desired)?;
        if let Some(w) = p.write {
            self.write(w);
        }
        Ok(p.outcome)
    }
}

fn a_record(id: &str, content: &str) -> DnsRecord {
    DnsRecord {
        id: Some(id.to_string()),
        record_type: "A".to_string(),
        name: "host.example.com".to_string(),
        content: content.to_string(),
        ttl: 300,
    }
}

#[test]
fn unchanged_record_gets_no_write() {
    let client = ProviderClient::new("t".to_string());
    let mut provider = FakeProvider::new(vec![a_record("r1", "1.2.3.4")]);
    let outcome = provider.reconcile(&client, "z1", "host.example.com", RecordType::A, "1.2.3.4");
    assert_eq!(outcome.unwrap(), ReconcileOutcome::Unchanged);
    assert_eq!(provider.writes.len(), 0);
}

#[test]
fn changed_record_gets_one_update() {
    let client = ProviderClient::new("t".to_string());
    let mut provider = FakeProvider::new(vec![a_record("r1", "1.2.3.4")]);
    let outcome = provider.reconcile(&client, "z1", "host.example.com", RecordType::A, "5.6.7.8");
    assert_eq!(outcome.unwrap(), ReconcileOutcome::Updated);
    assert_eq!(provider.writes.len(), 1);
    let w = &provider.writes[0];
    assert_eq!(w.method, Method::Put);
    assert_eq!(w.url, "https://api.cloudflare.com/client/v4/zones/z1/dns_records/r1");
    let b = w.body.as_ref().unwrap();
    assert_eq!(b.id, Some("r1".to_string()));
    assert_eq!(b.content, "5.6.7.8");
    assert_eq!(b.ttl, 300);
}

#[test]
fn reconcile_twice_settles() {
    let client = ProviderClient::new("t".to_string());
    for start in [vec![], vec![a_record("r1", "1.2.3.4")]] {
        let mut provider = FakeProvider::new(start);
        let first = provider.reconcile(&client, "z1", "host.example.com", RecordType::A, "9.8.7.6");
        let first = first.unwrap();
        assert!(first == ReconcileOutcome::Created || first == ReconcileOutcome::Updated);
        let second = provider.reconcile(&client, "z1", "host.example.com", RecordType::A, "9.8.7.6");
        assert_eq!(second.unwrap(), ReconcileOutcome::Unchanged);
        assert_eq!(provider.writes.len(), 1);
    }
}

#[test]
fn differing_record_without_id_is_an_error() {
    let client = ProviderClient::new("t".to_string());
    let mut rec = a_record("r1", "1.2.3.4");
    rec.id = None;
    let r = plan(&client, "z1", Some(rec), "host.example.com", RecordType::A, "5.6.7.8");
    assert!(matches!(r, Err(DnsError::Provider(_))));
}

#[test]
fn first_tick_creates_missing_a_record_only() {
    let config = Config::new(
        Some("host.example.com".to_string()),
        Some("example.com".to_string()),
        Some(true),
        Some(false),
        Some("t".to_string()),
    );
    assert!(config.is_complete());
    let client = ProviderClient::new(config.token.clone());
    let zones = vec![Zone { id: "z1".to_string(), name: "example.com".to_string() }];
    let zone_id = select_zone(&zones, &config.root_domain).unwrap();
    assert_eq!(zone_id, "z1");

    let mut provider = FakeProvider::new(vec![]);
    let mut sched = Scheduler::new(config.ipv4, config.ipv6);
    let mut event = Event::Ready;
    let mut reconciled: Vec<RecordType> = vec![];
    loop {
        match sched.step(event, 60) {
            Action::Reconcile(t) => {
                reconciled.push(t);
                let ip = if t == RecordType::A { "203.0.113.9" } else { "2001:db8::9" };
                let outcome = provider.reconcile(&client, &zone_id, &config.domain, t, ip);
                assert_eq!(outcome.unwrap(), ReconcileOutcome::Created);
                event = Event::Ready;
            }
            Action::Sleep(d) => {
                assert_eq!(d, 60);
                break;
            }
            Action::Stop => panic!("nothing cancelled the loop"),
        }
    }
    assert_eq!(reconciled, vec![RecordType::A]);
    assert_eq!(provider.writes.len(), 1);
    let w = &provider.writes[0];
    assert_eq!(w.method, Method::Post);
    assert_eq!(w.url, "https://api.cloudflare.com/client/v4/zones/z1/dns_records");
    let b = w.body.as_ref().unwrap();
    assert_eq!(b.record_type, "A");
    assert_eq!(b.name, "host.example.com");
    assert_eq!(b.content, "203.0.113.9");
    assert_eq!(b.ttl, 300);
}

#[test]
fn tick_order_and_wait() {
    let mut s = Scheduler::new(true, true);
    assert_eq!(s.step(Event::Ready, 120), Action::Reconcile(RecordType::A));
    assert_eq!(s.step(Event::Ready, 120), Action::Reconcile(RecordType::AAAA));
    assert_eq!(s.step(Event::Ready, 120), Action::Sleep(120));
    assert_eq!(s.phase, Phase::Sleeping);
    assert_eq!(s.step(Event::Elapsed(20), 5), Action::Sleep(100));
    assert_eq!(s.step(Event::Elapsed(100), 5), Action::Reconcile(RecordType::A));
    assert_eq!(s.phase, Phase::Running);
}

#[test]
fn cancel_during_sleep_stops_early() {
    let mut s = Scheduler::new(true, false);
    assert_eq!(s.step(Event::Ready, 300), Action::Reconcile(RecordType::A));
    assert_eq!(s.step(Event::Ready, 300), Action::Sleep(300));
    assert_eq!(s.step(Event::Elapsed(10), 300), Action::Sleep(290));
    assert_eq!(s.step(Event::Cancelled, 300), Action::Stop);
    assert_eq!(s.phase, Phase::Stopped);
    assert_eq!(s.remaining, 290);
    assert_eq!(s.step(Event::Elapsed(290), 300), Action::Stop);
    assert_eq!(s.step(Event::Ready, 300), Action::Stop);
}

#[test]
fn cancel_before_work_skips_it() {
    let mut s = Scheduler::new(true, true);
    assert_eq!(s.step(Event::Ready, 5), Action::Reconcile(RecordType::A));
    assert_eq!(s.step(Event::Cancelled, 5), Action::Stop);
    assert_eq!(s.step(Event::Ready, 5), Action::Stop);
}

#[test]
fn no_family_enabled_only_waits() {
    let mut s = Scheduler::new(false, false);
    assert_eq!(s.step(Event::Ready, 1), Action::Sleep(1));
    assert_eq!(s.step(Event::Elapsed(1), 7), Action::Sleep(7));
}

#[test]
fn random_waits_within_bounds() {
    for _ in 0..200 {
        let mut s = Scheduler::new(false, false);
        match s.next(Event::Ready) {
            Action::Sleep(d) => assert!(MIN_DELAY <= d && d <= MAX_DELAY),
            other => panic!("expected a wait, got {:?}", other),
        }
    }
}
