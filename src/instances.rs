use vstd::prelude::*;
use vstd::string::StringExecFns;

verus! {

/// The software block of a peer's metadata document.
#[derive(Clone, Debug, PartialEq, Eq)]
pub struct NodeInfoSoftware {
    pub name: Option<String>,
    pub version: Option<String>,
}

/// A peer's metadata document; every field is optional.
#[derive(Clone, Debug, PartialEq, Eq)]
pub struct NodeInfo {
    pub software: Option<NodeInfoSoftware>,
}

/// A known federation peer.
#[derive(Clone, Debug, PartialEq, Eq)]
pub struct Instance {
    pub id: i32,
    pub domain: String,
    pub software: Option<String>,
    pub version: Option<String>,
    pub updated: Option<i64>,
}

pub open spec fn software_name(info: NodeInfo) -> Option<String> {
    match info.software {
        Some(s) => s.name,
        None => None,
    }
}

pub open spec fn software_version(info: NodeInfo) -> Option<String> {
    match info.software {
        Some(s) => s.version,
        None => None,
    }
}

/// The peer after one poll at `now`: a failed poll leaves the row as it was;
/// a document overwrites software, version and the update time, storing
/// nothing for a field the document omits.
pub open spec fn refreshed(i: Instance, fetched: Option<NodeInfo>, now: i64) -> Instance {
    match fetched {
        None => i,
        Some(info) => Instance {
            software: software_name(info),
            version: software_version(info),
            updated: Some(now),
            ..i
        },
    }
}

/// The address of a peer's metadata document.
pub open spec fn nodeinfo_url_of(domain: Seq<char>) -> Seq<char> {
    "https://"@ + domain + "/nodeinfo/2.0.json"@
}

/// The address of the metadata document of the peer at `domain`.
pub fn nodeinfo_url(domain: &str) -> (r: String)
    ensures
        r@ == nodeinfo_url_of(domain@),
{
    let mut r = String::from_str("https://");
    r.append(domain);
    r.append("/nodeinfo/2.0.json");
    r
}

impl Instance {
    /// Records the outcome of one poll of this peer.
    pub fn apply_node_info(&mut self, fetched: Option<NodeInfo>, now: i64)
        ensures
            *final(self) == refreshed(*old(self), fetched, now),
    {
        match fetched {
            None => {},
            Some(info) => {
                match info.software {
                    Some(s) => {
                        self.software = s.name;
                        self.version = s.version;
                    },
                    None => {
                        self.software = None;
                        self.version = None;
                    },
                }
                self.updated = Some(now);
            },
        }
    }
}

/// Records the outcome of polling every peer, `fetched[i]` being that of
/// `instances[i]`: each peer is updated from its own outcome alone.
pub fn update_instance_software(instances: &mut Vec<Instance>, fetched: Vec<Option<NodeInfo>>, now: i64)
    requires
        old(instances)@.len() == fetched@.len(),
    ensures
        final(instances)@.len() == old(instances)@.len(),
        forall|i: int|
            0 <= i < old(instances)@.len() ==> #[trigger] final(instances)@[i] == refreshed(
                old(instances)@[i],
                fetched@[i],
                now,
            ),
{
    let ghost before = instances@;
    let ghost outcomes = fetched@;
    let mut fetched = fetched;
    let mut i: usize = instances.len();
    while i > 0
        invariant
            before.len() == outcomes.len(),
            instances@.len() == before.len(),
            0 <= i <= before.len(),
            fetched@ == outcomes.subrange(0, i as int),
            forall|j: int|
                i <= j < before.len() ==> #[trigger] instances@[j] == refreshed(before[j], outcomes[j], now),
            forall|j: int| 0 <= j < i ==> #[trigger] instances@[j] == before[j],
        decreases i,
    {
        i = i - 1;
        let f = fetched.pop();
        match f {
            Some(outcome) => {
                instances[i].apply_node_info(outcome, now);
            },
            None => {},
        }
    }
}

} // verus!
