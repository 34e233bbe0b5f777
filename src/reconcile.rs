use vstd::prelude::*;
use vstd::string::*;
use crate::provider::{
    ApiRequest, DnsError, DnsRecord, Method, ProviderClient, RecordType, RecordView, payload_of,
    record_url, records_url, same_text,
};

verus! {

/// What one reconciliation did to the record.
#[derive(Debug, Clone, Copy, PartialEq, Eq, Structural)]
pub enum ReconcileOutcome {
    Unchanged,
    Updated,
    Created,
}

/// A reconciliation decided: its outcome and the write it takes, if any.
#[derive(Debug, Clone)]
pub struct Plan {
    pub outcome: ReconcileOutcome,
    pub write: Option<ApiRequest>,
}

/// The outcome owed for the record found (`None` when there is none) and the
/// desired content; `None` when the found record differs but carries no id.
pub open spec fn planned_outcome(existing: Option<RecordView>, desired: Seq<char>) -> Option<
    ReconcileOutcome,
> {
    match existing {
        None => Some(ReconcileOutcome::Created),
        Some(rec) => if rec.content == desired {
            Some(ReconcileOutcome::Unchanged)
        } else if rec.id is Some {
            Some(ReconcileOutcome::Updated)
        } else {
            None
        },
    }
}

pub open spec fn record_opt_view(o: Option<DnsRecord>) -> Option<RecordView> {
    match o {
        Some(r) => Some(r@),
        None => None,
    }
}

/// Decides how to bring the record `name` of type `t` in zone `zone_id` to
/// `desired`, given the record the provider returned for them: create it
/// when absent, leave it when its content already matches, else replace it
/// under its id. The read and the write are not guarded against a change
/// made by someone else in between.
pub fn plan(
    client: &ProviderClient,
    zone_id: &str,
    existing: Option<DnsRecord>,
    name: &str,
    t: RecordType,
    desired: &str,
) -> (r: Result<Plan, DnsError>)
    ensures
        match planned_outcome(record_opt_view(existing), desired@) {
            None => r matches Err(DnsError::Provider(_)),
            Some(o) => r matches Ok(p) && p.outcome == o && (match o {
                ReconcileOutcome::Unchanged => p.write is None,
                ReconcileOutcome::Created => p.write matches Some(w) && w.method == Method::Post
                    && w.url@ == records_url(zone_id@) && (w.body matches Some(b) && b@
                    == payload_of(None, name@, t, desired@)),
                ReconcileOutcome::Updated => p.write matches Some(w) && w.method == Method::Put
                    && (existing matches Some(e) && (e.id matches Some(id) && w.url@ == record_url(
                    zone_id@,
                    id@,
                ) && (w.body matches Some(b) && b@ == payload_of(
                    Some(id@),
                    name@,
                    t,
                    desired@,
                )))),
            }),
        },
{
    match existing {
        None => {
            let w = client.create_request(zone_id, name, t, desired);
            Ok(Plan { outcome: ReconcileOutcome::Created, write: Some(w) })
        },
        Some(rec) => {
            if same_text(rec.content.as_str(), desired) {
                Ok(Plan { outcome: ReconcileOutcome::Unchanged, write: None })
            } else {
                match &rec.id {
                    Some(id) => {
                        let w = client.update_request(zone_id, id.as_str(), name, t, desired);
                        Ok(Plan { outcome: ReconcileOutcome::Updated, write: Some(w) })
                    },
                    None => Err(DnsError::Provider(String::from_str("record has no id"))),
                }
            }
        },
    }
}

/// Reconciling twice settles: when the record is absent or differs (and has
/// an id), the first reconciliation creates or updates it; once the provider
/// holds the content that was written, the second finds it unchanged.
pub proof fn lemma_reconcile_settles(
    existing: Option<RecordView>,
    name: Seq<char>,
    t: RecordType,
    desired: Seq<char>,
    stored: RecordView,
)
    requires
        match existing {
            None => true,
            Some(rec) => rec.content != desired && rec.id is Some,
        },
        stored.content == payload_of(None, name, t, desired).content,
    ensures
        planned_outcome(existing, desired) == Some(ReconcileOutcome::Created) || planned_outcome(
            existing,
            desired,
        ) == Some(ReconcileOutcome::Updated),
        planned_outcome(Some(stored), desired) == Some(ReconcileOutcome::Unchanged),
{
}

/// A record that already holds the desired content is left as it is: the
/// outcome is `Unchanged`, which comes with no write.
pub proof fn lemma_current_record_unchanged(existing: RecordView, desired: Seq<char>)
    requires
        existing.content == desired,
    ensures
        planned_outcome(Some(existing), desired) == Some(ReconcileOutcome::Unchanged),
{
}

} // verus!
