//! The connection manager: the list of links that were discovered, which of
//! them are live, and which one a caller gets when it claims one.

use vstd::prelude::*;
use crate::client::UsbIO;
use crate::protocol::{Command, DeviceFilter, DeviceIdentity, DriverError, Event};

verus! {

/// What the manager keeps of an open link: the number under which the caller
/// holds the transport handle and the queues of its worker, the peer, and
/// the packet size that was negotiated for the link.
#[derive(Clone, Copy, Debug, PartialEq, Eq, Structural)]
pub struct DeviceHandle {
    pub id: u64,
    pub identity: DeviceIdentity,
    pub max_packet_size: usize,
}

/// One entry of the manager's list.
#[derive(Clone, Copy, Debug, PartialEq, Eq, Structural)]
pub enum Connection {
    /// A live link.
    Usb { handle: DeviceHandle },
    /// A link that is gone, with the peer it had.
    UsbDisconnected { identity: DeviceIdentity },
}

/// What the discovery layer reports.
#[derive(Clone, Copy, Debug, PartialEq, Eq, Structural)]
pub enum DeviceManagerEvent {
    Opened(DeviceHandle),
    DeviceConnected,
    DeviceDisconnected,
}

pub struct DeviceManager {
    connections: Vec<Connection>,
    scan: Option<DeviceFilter>,
}

pub open spec fn is_live(c: Connection) -> bool {
    c is Usb
}

/// The number of the link of a live entry.
pub open spec fn live_id(c: Connection) -> Option<u64> {
    match c {
        Connection::Usb { handle } => Some(handle.id),
        Connection::UsbDisconnected { .. } => None,
    }
}

/// Whether a live entry of the list has the number `id`.
pub open spec fn has_live_id(s: Seq<Connection>, id: u64) -> bool {
    exists|i: int| 0 <= i < s.len() && live_id(#[trigger] s[i]) == Some(id)
}

/// No two live entries have the same number: each live entry stands for a
/// link of its own, with a worker of its own.
pub open spec fn distinct_live_ids(s: Seq<Connection>) -> bool {
    forall|i: int, j: int|
        0 <= i < j < s.len() && is_live(#[trigger] s[i]) && is_live(#[trigger] s[j]) ==> live_id(
            s[i],
        ) != live_id(s[j])
}

/// Whether the worker of link `id` reported `Disconnected` among `events`.
pub open spec fn saw_disconnect(id: u64, events: Seq<(u64, Event)>) -> bool {
    exists|k: int|
        0 <= k < events.len() && (#[trigger] events[k]).0 == id && events[k].1 is Disconnected
}

/// An entry after the events of the workers: a live link whose worker
/// reported `Disconnected` is gone, every other entry stays as it is.
pub open spec fn demoted(c: Connection, events: Seq<(u64, Event)>) -> Connection {
    match c {
        Connection::Usb { handle } => if saw_disconnect(handle.id, events) {
            Connection::UsbDisconnected { identity: handle.identity }
        } else {
            c
        },
        Connection::UsbDisconnected { .. } => c,
    }
}

/// The list after one report of the discovery layer: an opened link is
/// appended as a live entry, unless a live entry has its number already;
/// the other reports change nothing.
pub open spec fn polled_one(s: Seq<Connection>, report: DeviceManagerEvent) -> Seq<Connection> {
    match report {
        DeviceManagerEvent::Opened(handle) => if has_live_id(s, handle.id) {
            s
        } else {
            s.push(Connection::Usb { handle })
        },
        _ => s,
    }
}

/// The list after the pending reports of the discovery layer, taken in
/// order.
pub open spec fn polled(s: Seq<Connection>, reports: Seq<DeviceManagerEvent>) -> Seq<Connection>
    decreases reports.len(),
{
    if reports.len() == 0 {
        s
    } else {
        polled_one(polled(s, reports.drop_last()), reports.last())
    }
}

/// The list after the events of the workers, entry by entry.
pub open spec fn drained(s: Seq<Connection>, events: Seq<(u64, Event)>) -> Seq<Connection> {
    Seq::new(s.len(), |i: int| demoted(s[i], events))
}

/// Whether the first `n` events of a queue are what is taken from it: all
/// of them where none is `Disconnected`, else those up to and including the
/// first `Disconnected`.
pub open spec fn cut_at(queued: Seq<Event>, n: int) -> bool {
    &&& 0 <= n <= queued.len()
    &&& forall|i: int| 0 <= i < n - 1 ==> !((#[trigger] queued[i]) is Disconnected)
    &&& n < queued.len() ==> n >= 1 && queued[n - 1] is Disconnected
}

/// The position of the live entry that was opened last, or -1 where no
/// entry is live.
pub open spec fn last_live(s: Seq<Connection>) -> int
    decreases s.len(),
{
    if s.len() == 0 {
        -1
    } else if is_live(s.last()) {
        s.len() - 1
    } else {
        last_live(s.drop_last())
    }
}

/// `Close` for the worker of each live link, in the order of the list,
/// each with the number of its link.
pub open spec fn close_requests(s: Seq<Connection>) -> Seq<(u64, Command)>
    decreases s.len(),
{
    if s.len() == 0 {
        Seq::empty()
    } else {
        match s.last() {
            Connection::Usb { handle } => close_requests(s.drop_last()).push(
                (handle.id, Command::Close),
            ),
            Connection::UsbDisconnected { .. } => close_requests(s.drop_last()),
        }
    }
}

/// `last_live` is the greatest position of a live entry.
pub proof fn lemma_last_live(s: Seq<Connection>)
    ensures
        -1 <= last_live(s) < s.len(),
        last_live(s) >= 0 ==> is_live(s[last_live(s)]),
        forall|j: int| last_live(s) < j < s.len() ==> !is_live(#[trigger] s[j]),
    decreases s.len(),
{
    if s.len() > 0 && !is_live(s.last()) {
        lemma_last_live(s.drop_last());
        assert forall|j: int| last_live(s) < j < s.len() implies !is_live(#[trigger] s[j]) by {
            if j < s.len() - 1 {
                assert(s[j] == s.drop_last()[j]);
            }
        }
    }
}

/// Only one length cuts a queue: what is taken from it is fixed.
pub proof fn lemma_cut_is_unique(queued: Seq<Event>, n: int, m: int)
    requires
        cut_at(queued, n),
        cut_at(queued, m),
    ensures
        n == m,
{
    if n < m {
        assert(queued[n - 1] is Disconnected);
    }
    if m < n {
        assert(queued[m - 1] is Disconnected);
    }
}

/// The pending reports are taken in order: each opened link whose number is
/// new comes after the entries that were there, and no report changes or
/// removes an entry.
pub proof fn lemma_polled_extends(s: Seq<Connection>, reports: Seq<DeviceManagerEvent>)
    ensures
        s.len() <= polled(s, reports).len() <= s.len() + reports.len(),
        forall|i: int| 0 <= i < s.len() ==> polled(s, reports)[i] == s[i],
        forall|i: int| s.len() <= i < polled(s, reports).len() ==> is_live(polled(s, reports)[i]),
    decreases reports.len(),
{
    if reports.len() > 0 {
        lemma_polled_extends(s, reports.drop_last());
    }
}

/// Reports of links that are all new, each `Opened`, are all appended, in
/// the order in which they came.
pub proof fn lemma_polled_appends_all(s: Seq<Connection>, reports: Seq<DeviceManagerEvent>)
    requires
        forall|k: int| 0 <= k < reports.len() ==> (#[trigger] reports[k]) is Opened,
        forall|k: int|
            0 <= k < reports.len() ==> !has_live_id(s, (#[trigger] reports[k])->Opened_0.id),
        forall|k: int, l: int|
            0 <= k < l < reports.len() ==> (#[trigger] reports[k])->Opened_0.id
                != (#[trigger] reports[l])->Opened_0.id,
    ensures
        polled(s, reports).len() == s.len() + reports.len(),
        forall|i: int| 0 <= i < s.len() ==> polled(s, reports)[i] == s[i],
        forall|k: int|
            0 <= k < reports.len() ==> polled(s, reports)[s.len() + k] == (Connection::Usb {
                handle: (#[trigger] reports[k])->Opened_0,
            }),
    decreases reports.len(),
{
    if reports.len() > 0 {
        let head = reports.drop_last();
        let last = reports.last();
        assert forall|k: int| 0 <= k < head.len() implies (#[trigger] head[k]) is Opened
            && !has_live_id(s, head[k]->Opened_0.id) by {
            assert(head[k] == reports[k]);
        }
        assert forall|k: int, l: int| 0 <= k < l < head.len() implies (#[trigger] head[k])->Opened_0.id
            != (#[trigger] head[l])->Opened_0.id by {
            assert(head[k] == reports[k]);
            assert(head[l] == reports[l]);
        }
        lemma_polled_appends_all(s, head);
        let before = polled(s, head);
        let id = last->Opened_0.id;
        assert(!has_live_id(before, id)) by {
            if has_live_id(before, id) {
                let i = choose|i: int| 0 <= i < before.len() && live_id(#[trigger] before[i]) == Some(id);
                if i < s.len() {
                    assert(before[i] == s[i]);
                    assert(has_live_id(s, id));
                } else {
                    let k = i - s.len();
                    assert(before[s.len() + k] == (Connection::Usb { handle: head[k]->Opened_0 }));
                    assert(head[k] == reports[k]);
                    assert(reports[k]->Opened_0.id != reports[reports.len() - 1]->Opened_0.id);
                }
            }
        }
        assert forall|k: int| 0 <= k < reports.len() implies polled(s, reports)[s.len() + k] == (
        Connection::Usb { handle: (#[trigger] reports[k])->Opened_0 }) by {
            if k < head.len() {
                assert(head[k] == reports[k]);
            }
        }
    }
}

/// Reports never give two live entries the same number.
pub proof fn lemma_polled_keeps_distinct(s: Seq<Connection>, reports: Seq<DeviceManagerEvent>)
    requires
        distinct_live_ids(s),
    ensures
        distinct_live_ids(polled(s, reports)),
    decreases reports.len(),
{
    if reports.len() > 0 {
        lemma_polled_keeps_distinct(s, reports.drop_last());
        let before = polled(s, reports.drop_last());
        let after = polled(s, reports);
        assert forall|i: int, j: int|
            0 <= i < j < after.len() && is_live(#[trigger] after[i]) && is_live(
                #[trigger] after[j],
            ) implies live_id(after[i]) != live_id(after[j]) by {
            if j < before.len() {
                assert(after[i] == before[i] && after[j] == before[j]);
            } else {
                assert(after[i] == before[i]);
            }
        }
    }
}

/// Events never give two live entries the same number.
pub proof fn lemma_drained_keeps_distinct(s: Seq<Connection>, events: Seq<(u64, Event)>)
    requires
        distinct_live_ids(s),
    ensures
        distinct_live_ids(drained(s, events)),
{
    let after = drained(s, events);
    assert forall|i: int, j: int|
        0 <= i < j < after.len() && is_live(#[trigger] after[i]) && is_live(
            #[trigger] after[j],
        ) implies live_id(after[i]) != live_id(after[j]) by {
        assert(after[i] == s[i] && after[j] == s[j]);
    }
}

/// Taking an entry out never gives two live entries the same number.
pub proof fn lemma_remove_keeps_distinct(s: Seq<Connection>, at: int)
    requires
        distinct_live_ids(s),
        0 <= at < s.len(),
    ensures
        distinct_live_ids(s.remove(at)),
{
    let after = s.remove(at);
    assert forall|i: int, j: int|
        0 <= i < j < after.len() && is_live(#[trigger] after[i]) && is_live(
            #[trigger] after[j],
        ) implies live_id(after[i]) != live_id(after[j]) by {
        let a = if i < at { i } else { i + 1 };
        let b = if j < at { j } else { j + 1 };
        assert(after[i] == s[a] && after[j] == s[b]);
    }
}

/// An entry that is gone stays gone: no events and no reports of the
/// discovery layer make it live again. A peripheral that is found again gets
/// an entry of its own at the end of the list.
pub proof fn lemma_disconnected_is_terminal(
    s: Seq<Connection>,
    reports: Seq<DeviceManagerEvent>,
    events: Seq<(u64, Event)>,
    i: int,
)
    requires
        0 <= i < s.len(),
        !is_live(s[i]),
    ensures
        drained(s, events)[i] == s[i],
        polled(s, reports)[i] == s[i],
        drained(polled(s, reports), events)[i] == s[i],
{
    lemma_polled_extends(s, reports);
}

/// Events never bring a link to life and never change the length of the
/// list: an entry that is live afterwards was live before.
pub proof fn lemma_drain_only_demotes(s: Seq<Connection>, events: Seq<(u64, Event)>, i: int)
    requires
        0 <= i < s.len(),
    ensures
        drained(s, events).len() == s.len(),
        is_live(drained(s, events)[i]) ==> drained(s, events)[i] == s[i],
{
}

/// Where no two live entries share a number, the `Disconnected` of one
/// worker changes exactly one entry: the live entry of its link is gone and
/// keeps the peer it had, and every other entry stays as it is.
pub proof fn lemma_disconnect_changes_one(
    s: Seq<Connection>,
    events: Seq<(u64, Event)>,
    id: u64,
    i: int,
)
    requires
        distinct_live_ids(s),
        0 <= i < s.len(),
        live_id(s[i]) == Some(id),
        saw_disconnect(id, events),
        forall|k: int|
            0 <= k < events.len() && (#[trigger] events[k]).1 is Disconnected ==> events[k].0
                == id,
    ensures
        drained(s, events)[i] == (Connection::UsbDisconnected {
            identity: s[i]->handle.identity,
        }),
        forall|j: int| 0 <= j < s.len() && j != i ==> drained(s, events)[j] == s[j],
{
    assert forall|j: int| 0 <= j < s.len() && j != i implies drained(s, events)[j] == s[j] by {
        if is_live(s[j]) {
            if j < i {
                assert(live_id(s[j]) != live_id(s[i]));
            } else {
                assert(live_id(s[i]) != live_id(s[j]));
            }
        }
    }
}

/// `close_requests` holds one request for each live entry and none for the
/// others.
pub proof fn lemma_close_requests_len(s: Seq<Connection>)
    ensures
        close_requests(s).len() <= s.len(),
        (forall|j: int| 0 <= j < s.len() ==> !is_live(#[trigger] s[j])) ==> close_requests(s).len()
            == 0,
        (forall|j: int| 0 <= j < s.len() ==> is_live(#[trigger] s[j])) ==> close_requests(s).len()
            == s.len(),
        forall|k: int|
            0 <= k < close_requests(s).len() ==> (#[trigger] close_requests(s)[k]).1
                == Command::Close,
    decreases s.len(),
{
    if s.len() > 0 {
        let t = s.drop_last();
        lemma_close_requests_len(t);
        assert(forall|j: int| 0 <= j < t.len() ==> t[j] == s[j]);
        if forall|j: int| 0 <= j < s.len() ==> !is_live(#[trigger] s[j]) {
            assert(!is_live(s[s.len() - 1]));
            assert(forall|j: int| 0 <= j < t.len() ==> !is_live(#[trigger] t[j]));
        }
        if forall|j: int| 0 <= j < s.len() ==> is_live(#[trigger] s[j]) {
            assert(is_live(s[s.len() - 1]));
            assert(forall|j: int| 0 <= j < t.len() ==> is_live(#[trigger] t[j]));
        }
    }
}

/// What is taken from the queue of the worker of link `id`: the events up to
/// and including the first `Disconnected`, or all of them where there is
/// none, each with the number of the link. Nothing that a worker sent after
/// `Disconnected` is looked at.
pub fn take_until_disconnect(id: u64, queued: Vec<Event>) -> (taken: Vec<(u64, Event)>)
    ensures
        cut_at(queued@, taken@.len() as int),
        forall|i: int| 0 <= i < taken@.len() ==> taken@[i] == (id, queued@[i]),
{
    let ghost all = queued@;
    let mut pending = queued;
    let mut rest: Vec<Event> = Vec::new();
    while pending.len() > 0
        invariant
            rest@.len() + pending@.len() == all.len(),
            forall|k: int| 0 <= k < rest@.len() ==> rest@[k] == all[all.len() - 1 - k],
            forall|k: int| 0 <= k < pending@.len() ==> pending@[k] == all[k],
        decreases pending@.len(),
    {
        let last = pending.pop().unwrap();
        rest.push(last);
    }
    let mut taken: Vec<(u64, Event)> = Vec::new();
    while rest.len() > 0
        invariant
            all == queued@,
            taken@.len() + rest@.len() == all.len(),
            forall|k: int| 0 <= k < rest@.len() ==> rest@[k] == all[all.len() - 1 - k],
            forall|i: int| 0 <= i < taken@.len() ==> taken@[i] == (id, all[i]),
            forall|i: int| 0 <= i < taken@.len() ==> !((#[trigger] all[i]) is Disconnected),
        decreases rest@.len(),
    {
        let ghost at = taken@.len() as int;
        assert(rest@[rest@.len() - 1] == all[at]);
        let event = rest.pop().unwrap();
        let last = match &event {
            Event::Disconnected => true,
            _ => false,
        };
        taken.push((id, event));
        if last {
            assert(all[at] is Disconnected);
            return taken;
        }
    }
    taken
}

fn disconnect_seen(id: u64, events: &Vec<(u64, Event)>) -> (r: bool)
    ensures
        r == saw_disconnect(id, events@),
{
    let mut k: usize = 0;
    while k < events.len()
        invariant
            k <= events@.len(),
            forall|j: int|
                0 <= j < k ==> !((#[trigger] events@[j]).0 == id && events@[j].1 is Disconnected),
        decreases events@.len() - k,
    {
        if events[k].0 == id {
            match &events[k].1 {
                Event::Disconnected => {
                    return true;
                },
                _ => {},
            }
        }
        k += 1;
    }
    false
}

impl DeviceManager {
    /// The list of entries, oldest first.
    pub closed spec fn view(&self) -> Seq<Connection> {
        self.connections@
    }

    /// The filter of the discovery that was asked for last.
    pub closed spec fn scan(&self) -> Option<DeviceFilter> {
        self.scan
    }

    pub fn new() -> (m: DeviceManager)
        ensures
            m@ == Seq::<Connection>::empty(),
            m.scan() is None,
            distinct_live_ids(m@),
    {
        DeviceManager { connections: Vec::new(), scan: None }
    }

    /// The number of entries.
    pub fn len(&self) -> (n: usize)
        ensures
            n == self@.len(),
    {
        self.connections.len()
    }

    /// The entry at position `i`.
    pub fn get(&self, i: usize) -> (c: Option<Connection>)
        ensures
            c == (if i < self@.len() {
                Some(self@[i as int])
            } else {
                None
            }),
    {
        if i < self.connections.len() {
            Some(self.connections[i])
        } else {
            None
        }
    }

    /// The filter of the discovery that was asked for last.
    pub fn requested_scan(&self) -> (f: Option<DeviceFilter>)
        ensures
            f == self.scan(),
    {
        self.scan
    }

    fn live_id_seen(&self, id: u64) -> (r: bool)
        ensures
            r == has_live_id(self@, id),
    {
        let mut i: usize = 0;
        while i < self.connections.len()
            invariant
                i <= self.connections@.len(),
                forall|j: int| 0 <= j < i ==> live_id(#[trigger] self.connections@[j]) != Some(id),
            decreases self.connections@.len() - i,
        {
            match self.connections[i] {
                Connection::Usb { handle } => {
                    if handle.id == id {
                        return true;
                    }
                },
                Connection::UsbDisconnected { .. } => {},
            }
            i += 1;
        }
        false
    }

    /// Folds the pending reports of the discovery layer into the list, in
    /// the order in which they came.
    pub fn poll(&mut self, reports: Vec<DeviceManagerEvent>)
        ensures
            final(self)@ == polled(old(self)@, reports@),
            final(self).scan() == old(self).scan(),
            distinct_live_ids(old(self)@) ==> distinct_live_ids(final(self)@),
    {
        let mut i: usize = 0;
        while i < reports.len()
            invariant
                i <= reports@.len(),
                self.scan == old(self).scan,
                self.connections@ == polled(old(self)@, reports@.take(i as int)),
            decreases reports@.len() - i,
        {
            proof {
                assert(reports@.take(i + 1).drop_last() =~= reports@.take(i as int));
            }
            match reports[i] {
                DeviceManagerEvent::Opened(handle) => {
                    if !self.live_id_seen(handle.id) {
                        self.connections.push(Connection::Usb { handle });
                    }
                },
                _ => {},
            }
            i += 1;
        }
        proof {
            assert(reports@.take(i as int) =~= reports@);
            if distinct_live_ids(old(self)@) {
                lemma_polled_keeps_distinct(old(self)@, reports@);
            }
        }
    }

    /// Folds the events that were taken from the workers' queues into the
    /// list. Each event comes with the number of the link whose worker sent
    /// it.
    pub fn drain_events(&mut self, events: &Vec<(u64, Event)>)
        ensures
            final(self)@ == drained(old(self)@, events@),
            final(self).scan() == old(self).scan(),
            distinct_live_ids(old(self)@) ==> distinct_live_ids(final(self)@),
    {
        let ghost before = self.connections@;
        let mut i: usize = 0;
        while i < self.connections.len()
            invariant
                i <= self.connections@.len(),
                self.connections@.len() == before.len(),
                self.scan == old(self).scan,
                forall|k: int| 0 <= k < i ==> self.connections@[k] == demoted(before[k], events@),
                forall|k: int| i <= k < before.len() ==> self.connections@[k] == before[k],
            decreases self.connections@.len() - i,
        {
            let c = self.connections[i];
            match c {
                Connection::Usb { handle } => {
                    if disconnect_seen(handle.id, events) {
                        self.connections.set(
                            i,
                            Connection::UsbDisconnected { identity: handle.identity },
                        );
                    }
                },
                Connection::UsbDisconnected { .. } => {},
            }
            i += 1;
        }
        proof {
            assert(self.connections@ =~= drained(before, events@));
            if distinct_live_ids(before) {
                lemma_drained_keeps_distinct(before, events@);
            }
        }
    }

    /// Folds the pending reports of the discovery layer, then the events of
    /// the workers, into the list.
    pub fn handle_events(&mut self, reports: Vec<DeviceManagerEvent>, events: &Vec<(u64, Event)>)
        ensures
            final(self)@ == drained(polled(old(self)@, reports@), events@),
            final(self).scan() == old(self).scan(),
            distinct_live_ids(old(self)@) ==> distinct_live_ids(final(self)@),
    {
        self.poll(reports);
        self.drain_events(events);
    }

    /// Notes that a discovery restricted by `filter` is asked for. No
    /// connection comes of it here: an opened link arrives through `poll`.
    pub fn connect_auto(&mut self, filter: DeviceFilter)
        ensures
            final(self)@ == old(self)@,
            final(self).scan() == Some(filter),
    {
        self.scan = Some(filter);
    }

    /// What is to be queued to close every link: `Close` for each live one,
    /// in the order of the list. Nothing is waited for, and the list itself
    /// stays as it is until the workers report.
    pub fn disconnect(&self) -> (ids: Vec<(u64, Command)>)
        ensures
            ids@ == close_requests(self@),
    {
        let mut ids: Vec<(u64, Command)> = Vec::new();
        let mut i: usize = 0;
        while i < self.connections.len()
            invariant
                i <= self.connections@.len(),
                ids@ == close_requests(self.connections@.take(i as int)),
            decreases self.connections@.len() - i,
        {
            proof {
                assert(self.connections@.take(i + 1).drop_last() =~= self.connections@.take(
                    i as int,
                ));
            }
            match self.connections[i] {
                Connection::Usb { handle } => {
                    ids.push((handle.id, Command::Close));
                },
                Connection::UsbDisconnected { .. } => {},
            }
            i += 1;
        }
        assert(self.connections@.take(i as int) =~= self.connections@);
        ids
    }

    /// Removes the live entry that was opened last and hands it out, with
    /// the packet size of its link. Fails with `NoDeviceAvailable`, and
    /// changes nothing, exactly where no entry is live.
    pub fn connect_result(&mut self) -> (r: Result<UsbIO, DriverError>)
        ensures
            match r {
                Ok(io) => {
                    &&& 0 <= last_live(old(self)@) < old(self)@.len()
                    &&& io@ == old(self)@[last_live(old(self)@)]
                    &&& io@ matches Connection::Usb { handle } && io.limit()
                        == handle.max_packet_size
                    &&& final(self)@ == old(self)@.remove(last_live(old(self)@))
                },
                Err(e) => {
                    &&& e == DriverError::NoDeviceAvailable
                    &&& final(self)@ == old(self)@
                },
            },
            r is Err <==> (forall|j: int| 0 <= j < old(self)@.len() ==> !is_live(old(self)@[j])),
            final(self).scan() == old(self).scan(),
            distinct_live_ids(old(self)@) ==> distinct_live_ids(final(self)@),
    {
        let mut i: usize = self.connections.len();
        while i > 0
            invariant
                i <= self.connections@.len(),
                *self == *old(self),
                forall|j: int| i <= j < self.connections@.len() ==> !is_live(self.connections@[j]),
            decreases i,
        {
            i -= 1;
            match self.connections[i] {
                Connection::Usb { handle } => {
                    proof {
                        let s = self.connections@;
                        lemma_last_live(s);
                        assert(is_live(s[i as int]));
                        if last_live(s) >= 0 {
                            assert(is_live(s[last_live(s)]));
                        }
                        assert(last_live(s) == i);
                        if distinct_live_ids(s) {
                            lemma_remove_keeps_distinct(s, i as int);
                        }
                    }
                    let c = self.connections.remove(i);
                    return Ok(UsbIO::new(c, handle.max_packet_size));
                },
                Connection::UsbDisconnected { .. } => {},
            }
        }
        Err(DriverError::NoDeviceAvailable)
    }
}

} // verus!
