//! When passes run: the requeue delays of the event-driven mode, and the
//! address watch of the polling mode, which starts passes only when the
//! public address has changed.
use vstd::prelude::*;
use vstd::string::StringExecFns;

use crate::reconciler::{Outcome, Phase, Reconciliation};
use crate::matcher::{check_distinct_keys, keys_distinct};
use crate::typings::{records_view, same_key, DNSRecordSpec, Error, RecordView};

verus! {

/// The delays, in seconds, after which a record is looked at again.
pub struct RequeuePolicy {
    /// After `Created`, `Updated` or `Unchanged`: the steady re-check.
    pub steady_secs: u64,
    /// After `Failed`: the earlier retry.
    pub retry_secs: u64,
}

impl RequeuePolicy {
    /// A policy with the given delays.
    pub fn new(steady_secs: u64, retry_secs: u64) -> (r: RequeuePolicy)
        ensures
            r.steady_secs == steady_secs,
            r.retry_secs == retry_secs,
    {
        RequeuePolicy { steady_secs, retry_secs }
    }

    /// Five minutes after a pass that succeeded, one after one that failed.
    pub fn standard() -> (r: RequeuePolicy)
        ensures
            r.steady_secs == 300,
            r.retry_secs == 60,
    {
        RequeuePolicy { steady_secs: 300, retry_secs: 60 }
    }

    /// The delay before the next pass over a record whose last pass came to
    /// `outcome`.
    pub fn requeue_after(&self, outcome: &Outcome) -> (secs: u64)
        ensures
            secs == if outcome is Failed {
                self.retry_secs
            } else {
                self.steady_secs
            },
    {
        match outcome {
            Outcome::Failed(_) => self.retry_secs,
            _ => self.steady_secs,
        }
    }
}

/// The address record that points `host` at `address`, proxied, not yet
/// known to the provider.
pub open spec fn address_record(host: Seq<char>, address: Seq<char>) -> RecordView {
    RecordView {
        id: Seq::empty(),
        record_type: "A"@,
        name: host,
        content: address,
        proxied: true,
    }
}

/// The address record of `host` for `address`.
pub fn address_record_for(host: &String, address: &String) -> (r: DNSRecordSpec)
    ensures
        r@ == address_record(host@, address@),
{
    DNSRecordSpec {
        id: String::new(),
        record_type: String::from_str("A"),
        name: host.clone(),
        content: address.clone(),
        proxied: true,
    }
}

/// The address differs from the last one seen, or none has been seen.
pub open spec fn address_changed(last: Option<String>, address: Seq<char>) -> bool {
    match last {
        Some(a) => a@ != address,
        None => true,
    }
}

/// No host is named twice.
pub open spec fn hosts_distinct(hosts: Seq<String>) -> bool {
    forall|i: int, j: int| 0 <= i < j < hosts.len() ==> (#[trigger] hosts[i])@ != (#[trigger] hosts[j])@
}

/// The polling mode: a zone, the hosts that point at this machine, and the
/// last public address seen, which is `None` before the first.
pub struct StaticPoll {
    pub zone: String,
    pub hosts: Vec<String>,
    pub last_address: Option<String>,
}

impl StaticPoll {
    /// A poll that has seen no address yet. A host named twice is a
    /// configuration error.
    pub fn new(zone: String, hosts: Vec<String>) -> (r: Result<StaticPoll, Error>)
        ensures
            r is Ok <==> hosts_distinct(hosts@),
            r matches Ok(p) ==> p.zone == zone && p.hosts == hosts && p.last_address is None,
            r matches Err(e) ==> e is ConfigurationError,
    {
        let unset = String::new();
        let mut records: Vec<DNSRecordSpec> = Vec::new();
        let mut i: usize = 0;
        while i < hosts.len()
            invariant
                0 <= i <= hosts.len(),
                records.len() == i,
                forall|k: int| 0 <= k < i ==> (#[trigger] records[k])@ == address_record(hosts[k]@, unset@),
            decreases hosts.len() - i,
        {
            records.push(address_record_for(&hosts[i], &unset));
            i = i + 1;
        }
        let ghost s = records_view(records@);
        assert forall|a: int, b: int| 0 <= a < b < hosts.len() implies (same_key(
            #[trigger] s[a],
            #[trigger] s[b],
        ) <==> hosts[a]@ == hosts[b]@) by {
            assert(s[a] == records[a]@);
            assert(s[b] == records[b]@);
        }
        assert(hosts_distinct(hosts@) ==> keys_distinct(s)) by {
            if hosts_distinct(hosts@) {
                assert forall|a: int, b: int| 0 <= a < b < s.len() implies !same_key(
                    #[trigger] s[a],
                    #[trigger] s[b],
                ) by {
                    assert(hosts[a]@ != hosts[b]@);
                }
            }
        }
        assert(keys_distinct(s) ==> hosts_distinct(hosts@)) by {
            if keys_distinct(s) {
                assert forall|a: int, b: int| 0 <= a < b < hosts.len() implies (#[trigger] hosts[a])@
                    != (#[trigger] hosts[b])@ by {
                    assert(!same_key(s[a], s[b]));
                }
            }
        }
        match check_distinct_keys(&records) {
            Ok(()) => Ok(StaticPoll { zone, hosts, last_address: None }),
            Err(e) => Err(e),
        }
    }

    /// Takes the public address just observed. An address equal to the last
    /// one starts nothing, so no call is made to the provider; another one
    /// is remembered and starts one pass per host, each for the host's
    /// address record.
    pub fn on_address(&mut self, address: String) -> (passes: Vec<Reconciliation>)
        ensures
            final(self).zone == old(self).zone,
            final(self).hosts == old(self).hosts,
            !address_changed(old(self).last_address, address@) ==> {
                &&& passes.len() == 0
                &&& final(self).last_address == old(self).last_address
            },
            address_changed(old(self).last_address, address@) ==> {
                &&& final(self).last_address == Some(address)
                &&& passes.len() == old(self).hosts.len()
                &&& forall|i: int| 0 <= i < passes.len() ==> {
                    &&& (#[trigger] passes[i]).phase == Phase::Ready
                    &&& passes[i].zone == old(self).zone
                    &&& passes[i].desired@ == address_record(old(self).hosts[i]@, address@)
                }
            },
    {
        let changed = match &self.last_address {
            Some(a) => *a != address,
            None => true,
        };
        let mut passes: Vec<Reconciliation> = Vec::new();
        if !changed {
            return passes;
        }
        let mut i: usize = 0;
        while i < self.hosts.len()
            invariant
                0 <= i <= self.hosts.len(),
                passes.len() == i,
                forall|k: int| 0 <= k < i ==> {
                    &&& (#[trigger] passes[k]).phase == Phase::Ready
                    &&& passes[k].zone == self.zone
                    &&& passes[k].desired@ == address_record(self.hosts[k]@, address@)
                },
            decreases self.hosts.len() - i,
        {
            passes.push(Reconciliation::new(self.zone.clone(), address_record_for(&self.hosts[i], &address)));
            i = i + 1;
        }
        self.last_address = Some(address);
        passes
    }
}

} // verus!
