//! The registry: a table from device name to communication endpoints, with
//! registration as its only operation. Its abstract model is a map from the
//! name (a sequence of characters) to the kind of device registered under it.

use vstd::prelude::*;

use drmem_api::{device, driver};
use tokio::sync::broadcast;

use crate::channels::{clone_value_sender, new_setting_channel, new_value_channel};

verus! {

/// How many undelivered values each subscriber of a device's value channel
/// may buffer before its oldest one is dropped, and how many pending setting
/// requests a read-write device's queue may hold.
pub const CHANNEL_BACKLOG: usize = 20;

/// What endpoints a registered device owns: a read-only device only
/// broadcasts values; a read-write device also accepts settings.
#[derive(PartialEq, Eq, Structural, Clone, Copy, Debug)]
pub enum DeviceKind {
    ReadOnly,
    ReadWrite,
}

/// One registered device: the send half of its value-broadcast channel and,
/// only for read-write devices, the send half of its setting queue.
struct DeviceEntry {
    name: String,
    tx_value: broadcast::Sender<device::Value>,
    tx_setting: Option<driver::TxDeviceSetting>,
}

impl DeviceEntry {
    spec fn kind(&self) -> DeviceKind {
        if self.tx_setting is Some {
            DeviceKind::ReadWrite
        } else {
            DeviceKind::ReadOnly
        }
    }
}

/// The table after serving one registration request for name `n` of kind
/// `k`: an insert when the name is new, and no change at all when the name
/// is already defined.
pub open spec fn step_table(
    m: Map<Seq<char>, DeviceKind>,
    n: Seq<char>,
    k: DeviceKind,
) -> Map<Seq<char>, DeviceKind> {
    if m.dom().contains(n) {
        m
    } else {
        m.insert(n, k)
    }
}

/// Whether a registration request for name `n` succeeds against table `m`.
pub open spec fn step_succeeds(m: Map<Seq<char>, DeviceKind>, n: Seq<char>) -> bool {
    !m.dom().contains(n)
}

/// The table after a whole sequence of registration requests, served in
/// their order of arrival.
pub open spec fn run_table(
    m: Map<Seq<char>, DeviceKind>,
    reqs: Seq<(Seq<char>, DeviceKind)>,
) -> Map<Seq<char>, DeviceKind>
    decreases reqs.len(),
{
    if reqs.len() == 0 {
        m
    } else {
        run_table(step_table(m, reqs[0].0, reqs[0].1), reqs.drop_first())
    }
}

/// A request that names an already-defined device leaves the table exactly
/// as it was: a failed registration makes no partial change.
pub proof fn lemma_duplicate_leaves_table_unchanged(
    m: Map<Seq<char>, DeviceKind>,
    n: Seq<char>,
    k: DeviceKind,
)
    requires
        m.dom().contains(n),
    ensures
        step_table(m, n, k) == m,
{
}

/// Once a name is registered, any sequence of later requests leaves it
/// registered, with the kind it was registered under: an entry is never
/// removed, and never changes kind.
pub proof fn lemma_registration_is_permanent(
    m: Map<Seq<char>, DeviceKind>,
    reqs: Seq<(Seq<char>, DeviceKind)>,
    n: Seq<char>,
)
    requires
        m.dom().contains(n),
    ensures
        run_table(m, reqs).dom().contains(n),
        run_table(m, reqs)[n] == m[n],
    decreases reqs.len(),
{
    if reqs.len() > 0 {
        let m1 = step_table(m, reqs[0].0, reqs[0].1);
        assert(m1.dom().contains(n) && m1[n] == m[n]);
        lemma_registration_is_permanent(m1, reqs.drop_first(), n);
    }
}

/// For every device name, at most one registration ever succeeds: a
/// successful one puts the name in the table with its kind, and from then
/// on every attempt on that name, whatever requests come between, fails and
/// leaves the kind as it is.
pub proof fn lemma_at_most_one_success(
    m: Map<Seq<char>, DeviceKind>,
    n: Seq<char>,
    k: DeviceKind,
    reqs: Seq<(Seq<char>, DeviceKind)>,
)
    requires
        step_succeeds(m, n),
    ensures
        step_table(m, n, k).dom().contains(n),
        step_table(m, n, k)[n] == k,
        !step_succeeds(run_table(step_table(m, n, k), reqs), n),
        run_table(step_table(m, n, k), reqs)[n] == k,
{
    lemma_registration_is_permanent(step_table(m, n, k), reqs, n);
}

/// Registrations of distinct fresh names are independent: after the first
/// one succeeds, the second still succeeds, and the table ends up holding
/// both names with their own kinds.
pub proof fn lemma_distinct_names_both_succeed(
    m: Map<Seq<char>, DeviceKind>,
    n1: Seq<char>,
    k1: DeviceKind,
    n2: Seq<char>,
    k2: DeviceKind,
)
    requires
        n1 != n2,
        step_succeeds(m, n1),
        step_succeeds(m, n2),
    ensures
        step_succeeds(step_table(m, n1, k1), n2),
        step_table(step_table(m, n1, k1), n2, k2) == m.insert(n1, k1).insert(n2, k2),
        step_table(step_table(m, n1, k1), n2, k2)[n1] == k1,
        step_table(step_table(m, n1, k1), n2, k2)[n2] == k2,
{
}

/// The abstract table described by a sequence of entries: every entry's name
/// maps to its kind.
spec fn table_of(s: Seq<DeviceEntry>) -> Map<Seq<char>, DeviceKind>
    decreases s.len(),
{
    if s.len() == 0 {
        Map::empty()
    } else {
        table_of(s.drop_last()).insert(s.last().name@, s.last().kind())
    }
}

/// A name is in the abstract table exactly when some entry carries it.
proof fn lemma_table_of_contains(s: Seq<DeviceEntry>, n: Seq<char>)
    ensures
        table_of(s).dom().contains(n) <==> (exists|i: int|
            0 <= i < s.len() && s[i].name@ == n),
    decreases s.len(),
{
    if s.len() > 0 {
        lemma_table_of_contains(s.drop_last(), n);
        if table_of(s).dom().contains(n) {
            if s.last().name@ != n {
                let i = choose|i: int| 0 <= i < s.drop_last().len() && s.drop_last()[i].name@ == n;
                assert(s[i].name@ == n);
            }
        }
        if exists|i: int| 0 <= i < s.len() && s[i].name@ == n {
            let i = choose|i: int| 0 <= i < s.len() && s[i].name@ == n;
            if i < s.len() - 1 {
                assert(s.drop_last()[i].name@ == n);
            }
        }
    }
}

/// Stores information associated with devices. The key is the full name of
/// the device; a name is registered at most once, and an entry, once made,
/// is never changed or removed.
pub struct DeviceMap {
    entries: Vec<DeviceEntry>,
}

impl View for DeviceMap {
    type V = Map<Seq<char>, DeviceKind>;

    closed spec fn view(&self) -> Map<Seq<char>, DeviceKind> {
        table_of(self.entries@)
    }
}

impl DeviceMap {
    /// The entries carry pairwise distinct names: the check-before-insert
    /// discipline of the two registration operations keeps this so.
    pub closed spec fn wf(&self) -> bool {
        forall|i: int, j: int|
            0 <= i < j < self.entries@.len() ==> self.entries@[i].name@ != self.entries@[j].name@
    }

    /// An empty registry.
    pub fn new() -> (r: DeviceMap)
        ensures
            r@ == Map::<Seq<char>, DeviceKind>::empty(),
            r.wf(),
    {
        DeviceMap { entries: Vec::new() }
    }

    /// Whether `name` is already registered.
    pub fn is_defined(&self, name: &String) -> (r: bool)
        ensures
            r == self@.dom().contains(name@),
    {
        let n = self.entries.len();
        let mut i: usize = 0;
        while i < n
            invariant
                n == self.entries@.len(),
                i <= n,
                forall|j: int| 0 <= j < i ==> self.entries@[j].name@ != name@,
            decreases n - i,
        {
            if self.entries[i].name == *name {
                proof {
                    lemma_table_of_contains(self.entries@, name@);
                    assert(exists|j: int|
                        0 <= j < self.entries@.len() && self.entries@[j].name@ == name@) by {
                        assert(self.entries@[i as int].name@ == name@);
                    }
                }
                return true;
            }
            i = i + 1;
        }
        proof {
            lemma_table_of_contains(self.entries@, name@);
        }
        false
    }

    /// Registers `device_name` as a read-only device: when the name is new,
    /// a fresh value-broadcast channel is created, the registry keeps one
    /// send half, and the other is returned for the driver; when the name is
    /// already defined, nothing at all changes and no endpoint is handed
    /// out. The table gains the name with kind `ReadOnly` exactly on
    /// success.
    pub fn insert_ro_device(
        &mut self,
        device_name: String,
    ) -> (r: Option<broadcast::Sender<device::Value>>)
        ensures
            final(self)@ == step_table(old(self)@, device_name@, DeviceKind::ReadOnly),
            r is Some <==> !old(self)@.dom().contains(device_name@),
            old(self)@.dom().contains(device_name@) ==> *final(self) == *old(self),
            old(self).wf() ==> final(self).wf(),
    {
        if self.is_defined(&device_name) {
            None
        } else {
            let tx = new_value_channel(CHANNEL_BACKLOG);
            let handed_out = clone_value_sender(&tx);
            let ghost entries0 = self.entries@;
            let entry = DeviceEntry { name: device_name, tx_value: tx, tx_setting: None };
            self.entries.push(entry);
            proof {
                Self::lemma_push(entries0, self.entries@);
                if old(self).wf() {
                    Self::lemma_push_distinct(entries0, self.entries@, self.entries@.last().name@);
                }
            }
            Some(handed_out)
        }
    }

    /// Registers `device_name` as a read-write device: when the name is new,
    /// a value-broadcast channel and a bounded setting queue are created,
    /// the registry keeps a send half of each, and the driver receives the
    /// other value-send half together with the setting-receive half,
    /// atomically. When the name is already defined, nothing at all changes.
    /// The table gains the name with kind `ReadWrite` exactly on success.
    pub fn insert_rw_device(
        &mut self,
        device_name: String,
    ) -> (r: Option<(broadcast::Sender<device::Value>, driver::RxDeviceSetting)>)
        ensures
            final(self)@ == step_table(old(self)@, device_name@, DeviceKind::ReadWrite),
            r is Some <==> !old(self)@.dom().contains(device_name@),
            old(self)@.dom().contains(device_name@) ==> *final(self) == *old(self),
            old(self).wf() ==> final(self).wf(),
    {
        if self.is_defined(&device_name) {
            None
        } else {
            let tx_val = new_value_channel(CHANNEL_BACKLOG);
            let handed_out = clone_value_sender(&tx_val);
            proof {
                vstd::bits::lemma_usize_shr_is_div(usize::MAX, 3);
                vstd::arithmetic::power2::lemma2_to64();
                vstd::arithmetic::div_mod::lemma_div_is_ordered(160, usize::MAX as int, 8);
                assert(20 <= usize::MAX >> 3);
            }
            let (tx_setting, rx_setting) = new_setting_channel(CHANNEL_BACKLOG);
            let ghost entries0 = self.entries@;
            let entry = DeviceEntry {
                name: device_name,
                tx_value: tx_val,
                tx_setting: Some(tx_setting),
            };
            self.entries.push(entry);
            proof {
                Self::lemma_push(entries0, self.entries@);
                if old(self).wf() {
                    Self::lemma_push_distinct(entries0, self.entries@, self.entries@.last().name@);
                }
            }
            Some((handed_out, rx_setting))
        }
    }

    /// Pushing an entry inserts its name, with its kind, into the abstract
    /// table.
    proof fn lemma_push(s0: Seq<DeviceEntry>, s1: Seq<DeviceEntry>)
        requires
            s1 == s0.push(s1.last()),
            s1.len() == s0.len() + 1,
        ensures
            table_of(s1) == table_of(s0).insert(s1.last().name@, s1.last().kind()),
    {
        assert(s1.drop_last() =~= s0);
    }

    /// Pushing an entry whose name no earlier entry carries keeps the
    /// entries' names pairwise distinct.
    proof fn lemma_push_distinct(s0: Seq<DeviceEntry>, s1: Seq<DeviceEntry>, n: Seq<char>)
        requires
            s1 == s0.push(s1.last()),
            s1.len() == s0.len() + 1,
            s1.last().name@ == n,
            !table_of(s0).dom().contains(n),
            forall|i: int, j: int| 0 <= i < j < s0.len() ==> s0[i].name@ != s0[j].name@,
        ensures
            forall|i: int, j: int| 0 <= i < j < s1.len() ==> s1[i].name@ != s1[j].name@,
    {
        lemma_table_of_contains(s0, n);
        assert forall|i: int, j: int|
            0 <= i < j < s1.len() implies s1[i].name@ != s1[j].name@ by {
            if j == s1.len() - 1 {
                assert(s1[i] == s0[i]);
                if s1[i].name@ == n {
                    assert(exists|x: int| 0 <= x < s0.len() && s0[x].name@ == n) by {
                        assert(0 <= i < s0.len() && s0[i].name@ == n);
                    }
                }
            } else {
                assert(s1[i] == s0[i]);
                assert(s1[j] == s0[j]);
            }
        }
    }
}

} // verus!
