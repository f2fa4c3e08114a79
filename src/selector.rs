use vstd::prelude::*;

verus! {

/// The network a node attaches to when no other network is visible.
pub const DEFAULT_SSID: &'static str = "FB-WLAN-OG";

/// A hardware fault reported by the radio during a scan.
#[derive(Copy, Clone, Debug, PartialEq, Eq, Structural)]
pub struct RadioError;

/// One network seen by a scan.
#[derive(Clone, Debug)]
pub struct ApRecord {
    pub ssid: String,
    /// Received signal strength; higher is stronger.
    pub signal_strength: i8,
    pub channel: u8,
}

/// Index `i` is the record that the election picks: no record is stronger, and
/// every later record is strictly weaker (a stable ascending sort puts it last).
pub open spec fn is_elected(s: Seq<ApRecord>, i: int) -> bool {
    &&& 0 <= i < s.len()
    &&& forall|j: int| 0 <= j < s.len() ==> s[j].signal_strength <= s[i].signal_strength
    &&& forall|j: int| i < j < s.len() ==> s[j].signal_strength < s[i].signal_strength
}

/// The elected record is unique: the election is a function of the scan.
pub proof fn lemma_elected_unique(s: Seq<ApRecord>, i: int, k: int)
    requires
        is_elected(s, i),
        is_elected(s, k),
    ensures
        i == k,
{
    if i < k {
        assert(s[k].signal_strength < s[i].signal_strength);
        assert(s[i].signal_strength <= s[k].signal_strength);
    } else if k < i {
        assert(s[i].signal_strength < s[k].signal_strength);
        assert(s[k].signal_strength <= s[i].signal_strength);
    }
}

/// The identity of the parent a node attaches to after a scan: the elected
/// record's name, or the default network when the scan saw nothing.
pub open spec fn parent_ssid_of(s: Seq<ApRecord>) -> Seq<char> {
    if s.len() == 0 {
        DEFAULT_SSID@
    } else {
        s[choose|i: int| is_elected(s, i)].ssid@
    }
}

/// Position of the strongest record; among equally strong ones, the last.
pub fn strongest_index(records: &Vec<ApRecord>) -> (r: Option<usize>)
    ensures
        r is None <==> records@.len() == 0,
        r matches Some(i) ==> is_elected(records@, i as int),
{
    if records.len() == 0 {
        return None;
    }
    let mut best: usize = 0;
    let mut i: usize = 1;
    while i < records.len()
        invariant
            1 <= i <= records@.len(),
            best < i,
            forall|j: int| 0 <= j < i ==> records@[j].signal_strength <= records@[best as int].signal_strength,
            forall|j: int| best < j < i ==> records@[j].signal_strength < records@[best as int].signal_strength,
        decreases records@.len() - i,
    {
        if records[i].signal_strength >= records[best].signal_strength {
            best = i;
        }
        i = i + 1;
    }
    Some(best)
}

/// The parent identity chosen from one scan.
pub fn parent_ssid(records: &Vec<ApRecord>) -> (r: String)
    ensures
        r@ == parent_ssid_of(records@),
{
    match strongest_index(records) {
        None => String::from_str(DEFAULT_SSID),
        Some(i) => {
            proof {
                let k = choose|k: int| is_elected(records@, k);
                lemma_elected_unique(records@, i as int, k);
            }
            records[i].ssid.clone()
        },
    }
}

} // verus!
