//! The endpoints to probe.
//!
//! A scan record names one address and the ports found open on it. Each
//! port of each record is one endpoint.

use vstd::prelude::*;

verus! {

/// One open port of a scan record.
#[derive(Clone, Debug, PartialEq, Eq)]
pub struct IPPortEntry {
    pub port: u16,
    pub proto: String,
    pub status: String,
    pub reason: String,
    pub ttl: i16,
}

/// One scan record: an address and its open ports, in the order found.
#[derive(Clone, Debug, PartialEq, Eq)]
pub struct IPEntry {
    pub ip: String,
    pub timestamp: String,
    pub ports: Vec<IPPortEntry>,
}

/// A candidate server.
#[derive(Clone, Debug, PartialEq, Eq)]
pub struct Endpoint {
    pub host: String,
    pub port: u16,
}

/// The endpoints of one record: its address with each of its ports, in
/// their order.
pub open spec fn entry_endpoints(entry: IPEntry) -> Seq<Endpoint> {
    Seq::new(
        entry.ports@.len(),
        |j: int| Endpoint { host: entry.ip, port: entry.ports@[j].port },
    )
}

/// The endpoints of a list of records: those of each record, record after
/// record.
pub open spec fn endpoints_of(entries: Seq<IPEntry>) -> Seq<Endpoint>
    decreases entries.len(),
{
    if entries.len() == 0 {
        Seq::empty()
    } else {
        endpoints_of(entries.drop_last()) + entry_endpoints(entries.last())
    }
}

/// Lists the endpoints of `entries`: one for each port of each record, in
/// the order of the records and of their ports.
pub fn endpoints(entries: &Vec<IPEntry>) -> (out: Vec<Endpoint>)
    ensures
        out@ == endpoints_of(entries@),
{
    let mut out: Vec<Endpoint> = Vec::new();
    let mut i: usize = 0;
    while i < entries.len()
        invariant
            i <= entries@.len(),
            out@ == endpoints_of(entries@.take(i as int)),
        decreases entries@.len() - i,
    {
        let entry = &entries[i];
        let ghost before = out@;
        let mut j: usize = 0;
        while j < entry.ports.len()
            invariant
                j <= entry.ports@.len(),
                out@ == before + entry_endpoints(*entry).take(j as int),
            decreases entry.ports@.len() - j,
        {
            out.push(Endpoint { host: entry.ip.clone(), port: entry.ports[j].port });
            proof {
                assert(entry_endpoints(*entry).take(j + 1) =~= entry_endpoints(*entry).take(
                    j as int,
                ).push(entry_endpoints(*entry)[j as int]));
            }
            j = j + 1;
        }
        proof {
            assert(entry_endpoints(*entry).take(j as int) =~= entry_endpoints(*entry));
            assert(entries@.take(i + 1).drop_last() =~= entries@.take(i as int));
            assert(entries@.take(i + 1).last() == *entry);
        }
        i = i + 1;
    }
    proof {
        assert(entries@.take(i as int) =~= entries@);
    }
    out
}

} // verus!
