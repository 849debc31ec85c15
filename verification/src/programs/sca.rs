//! SCA (Socket Communication Analyzer): hop discovery and latency reporting.
//!
//! Hop endpoints are keyed by (pid << 32) | fd, which is unambiguous because
//! fd numbers are per-process. Each hop has a sender endpoint (its connected
//! fd) and a receiver endpoint (its accepted fd), both discovered from the
//! established Unix stream sockets by peer-inode pairing. A PID's moving
//! average is reported only while new samples keep arriving: once its
//! (sum, count) stop changing between display ticks it is dropped from the
//! output, and its series is removed exactly once.

pub mod helpers;

use std::collections::HashMap;

pub use helpers::{parse_ss_unix_stream, parse_ss_users, paths_by_inode, UnixSockRec};

use vstd::prelude::*;

use crate::seqs::{lemma_push_contains, lemma_push_no_duplicates, lemma_take_next};
use crate::text::{
    chars_of, decimal_text, push_all, push_decimal, str_eq, string_from_chars, text_map, utf8_bytes,
};
use crate::sca_common::{key_high, pair_key, pair_value, HopEndpoint};
use helpers::{inode_paths, sock_views, UnixSockView};
use vstd::std_specs::iter::IteratorSpec;

verus! {

broadcast use vstd::std_specs::hash::group_hash_axioms;

/// Freshness state of a PID's latency samples, tracked across display ticks.
#[derive(Debug, Copy, Clone, PartialEq, Eq, Structural)]
pub enum SampleState {
    /// Reported on the previous tick; holds the last seen (sum, count).
    Fresh(u64, u64),
    /// Already dropped from the output and metrics; holds the last seen
    /// (sum, count).
    Cleared(u64, u64),
}

/// The ledger entry of `pid`, if any.
pub open spec fn ledger_entry(ledger: Map<u32, SampleState>, pid: u32) -> Option<SampleState> {
    if ledger.contains_key(pid) {
        Some(ledger[pid])
    } else {
        None
    }
}

/// The state a PID moves to on a tick where its counters read `current`:
/// unchanged counters (whether it was fresh or already cleared) leave it
/// cleared, anything else (new samples, a window reset, a new PID) makes it
/// fresh.
pub open spec fn next_sample_state(prev: Option<SampleState>, current: (u64, u64)) -> SampleState {
    if prev == Some(SampleState::Fresh(current.0, current.1)) || prev == Some(
        SampleState::Cleared(current.0, current.1),
    ) {
        SampleState::Cleared(current.0, current.1)
    } else {
        SampleState::Fresh(current.0, current.1)
    }
}

/// The ledger after a tick: exactly the PIDs present in `samples`, each in
/// its next state.
pub open spec fn next_ledger(ledger: Map<u32, SampleState>, samples: Map<u32, (u64, u64)>) -> Map<
    u32,
    SampleState,
> {
    Map::new(
        |pid: u32| samples.contains_key(pid),
        |pid: u32| next_sample_state(ledger_entry(ledger, pid), samples[pid]),
    )
}

/// PIDs with new samples since the previous tick.
pub open spec fn fresh_pids(ledger: Map<u32, SampleState>, samples: Map<u32, (u64, u64)>) -> Set<
    u32,
> {
    Set::new(
        |pid: u32|
            samples.contains_key(pid) && next_sample_state(
                ledger_entry(ledger, pid),
                samples[pid],
            ) is Fresh,
    )
}

/// PIDs that just went quiet: fresh on the previous tick with the same
/// counters as now.
pub open spec fn newly_stale_pids(
    ledger: Map<u32, SampleState>,
    samples: Map<u32, (u64, u64)>,
) -> Set<u32> {
    Set::new(
        |pid: u32|
            samples.contains_key(pid) && ledger_entry(ledger, pid) == Some(
                SampleState::Fresh(samples[pid].0, samples[pid].1),
            ),
    )
}

/// The keys of a map, each once.
fn key_list<V>(m: &HashMap<u32, V>) -> (keys: Vec<u32>)
    ensures
        keys@.no_duplicates(),
        forall|k: u32| #[trigger] keys@.contains(k) <==> m@.contains_key(k),
{
    let mut keys: Vec<u32> = Vec::new();
    for k in it: m.keys()
        invariant
            keys@ == it.seq().take(it.index() as int).map_values(|r: &u32| *r),
            it.seq() == m.keys().remaining(),
    {
        keys.push(*k);
        proof {
            assert(it.seq().take(it.index() + 1).map_values(|r: &u32| *r) =~= keys@);
        }
    }
    proof {
        let s = m.keys().remaining();
        assert(keys@ =~= s.unref());
        assert forall|k: u32| #[trigger] keys@.contains(k) <==> m@.contains_key(k) by {
            assert(s.unref().to_set().contains(k) <==> keys@.contains(k));
        }
        assert forall|i: int, j: int|
            0 <= i < keys@.len() && 0 <= j < keys@.len() && i != j implies keys@[i]
            != keys@[j] by {
            assert(s.no_duplicates());
            assert(keys@[i] == *s[i] && keys@[j] == *s[j]);
        }
    }
    keys
}

/// Split latency samples into PIDs with new samples since the previous tick
/// (fresh) and PIDs that just went quiet (newly stale: their counters did
/// not change since a tick where they were still fresh), updating the
/// ledger. PIDs that stay quiet across further ticks remain in the ledger as
/// cleared and are reported in neither list, so their series is removed
/// exactly once. Ledger entries for PIDs no longer present are dropped.
/// Both lists follow the iteration order of `samples`.
pub fn partition_fresh(
    ledger: &mut HashMap<u32, SampleState>,
    samples: &HashMap<u32, (u64, u64)>,
) -> (lists: (Vec<u32>, Vec<u32>))
    ensures
        final(ledger)@ == next_ledger(old(ledger)@, samples@),
        lists.0@.no_duplicates(),
        lists.1@.no_duplicates(),
        lists.0@.to_set() == fresh_pids(old(ledger)@, samples@),
        lists.1@.to_set() == newly_stale_pids(old(ledger)@, samples@),
{
    let ghost before = ledger@;
    let pids = key_list(samples);
    let mut next: HashMap<u32, SampleState> = HashMap::new();
    let mut fresh: Vec<u32> = Vec::new();
    let mut newly_stale: Vec<u32> = Vec::new();
    let mut i: usize = 0;
    while i < pids.len()
        invariant
            i <= pids.len(),
            ledger@ == before,
            pids@.no_duplicates(),
            forall|k: u32| #[trigger] pids@.contains(k) <==> samples@.contains_key(k),
            forall|k: u32| #[trigger] next@.contains_key(k) <==> pids@.take(i as int).contains(k),
            forall|k: u32|
                #[trigger] next@.contains_key(k) ==> next@[k] == next_sample_state(
                    ledger_entry(before, k),
                    samples@[k],
                ),
            forall|k: u32|
                #[trigger] fresh@.contains(k) <==> (pids@.take(i as int).contains(k)
                    && next_sample_state(ledger_entry(before, k), samples@[k]) is Fresh),
            forall|k: u32|
                #[trigger] newly_stale@.contains(k) <==> (pids@.take(i as int).contains(k)
                    && ledger_entry(before, k) == Some(
                    SampleState::Fresh(samples@[k].0, samples@[k].1),
                )),
            fresh@.no_duplicates(),
            newly_stale@.no_duplicates(),
        decreases pids.len() - i,
    {
        let pid = pids[i];
        let ghost old_fresh = fresh@;
        let ghost old_stale = newly_stale@;
        proof {
            assert(pids@.contains(pid));
            lemma_take_next(pids@, i as int);
            lemma_push_contains(pids@.take(i as int), pid);
            lemma_push_contains(old_fresh, pid);
            lemma_push_contains(old_stale, pid);
            if !old_fresh.contains(pid) {
                lemma_push_no_duplicates(old_fresh, pid);
            }
            if !old_stale.contains(pid) {
                lemma_push_no_duplicates(old_stale, pid);
            }
        }
        let current = *samples.get(&pid).unwrap();
        let prev: Option<SampleState> = match ledger.get(&pid) {
            Some(st) => Some(*st),
            None => None,
        };
        let state = match prev {
            Some(SampleState::Fresh(sum, count)) if sum == current.0 && count == current.1 => {
                newly_stale.push(pid);
                SampleState::Cleared(current.0, current.1)
            },
            Some(SampleState::Cleared(sum, count)) if sum == current.0 && count == current.1 => {
                SampleState::Cleared(current.0, current.1)
            },
            _ => {
                fresh.push(pid);
                SampleState::Fresh(current.0, current.1)
            },
        };
        next.insert(pid, state);
        i = i + 1;
    }
    proof {
        assert(pids@.take(pids.len() as int) =~= pids@);
        assert(next@ =~= next_ledger(before, samples@));
        assert(fresh@.to_set() =~= fresh_pids(before, samples@));
        assert(newly_stale@.to_set() =~= newly_stale_pids(before, samples@));
    }
    *ledger = next;
    (fresh, newly_stale)
}

/// `unknown`, the name shown for a PID with no known process name.
pub open spec fn unknown_name() -> Seq<char> {
    seq!['u', 'n', 'k', 'n', 'o', 'w', 'n']
}

/// The name recorded for `pid`, or `unknown`.
pub open spec fn process_name_of(names: Map<u32, String>, pid: u32) -> Seq<char> {
    if names.contains_key(pid) {
        names[pid]@
    } else {
        unknown_name()
    }
}

/// Series label for a PID: `<process name> (PID <pid>)`.
pub open spec fn pid_label(name: Seq<char>, pid: u32) -> Seq<char> {
    name + seq![' ', '(', 'P', 'I', 'D', ' '] + decimal_text(pid as nat) + seq![')']
}

/// The process name shown for `pid`: its recorded name, or `unknown`.
pub fn process_name(socket_pid_map: &HashMap<u32, String>, pid: u32) -> (name: String)
    ensures
        name@ == process_name_of(socket_pid_map@, pid),
{
    match socket_pid_map.get(&pid) {
        Some(name) => name.clone(),
        None => {
            let unknown = vec!['u', 'n', 'k', 'n', 'o', 'w', 'n'];
            string_from_chars(&unknown)
        },
    }
}

/// Series label for a PID: "<process name> (PID <pid>)".
pub fn latency_label(socket_pid_map: &HashMap<u32, String>, pid: u32) -> (label: String)
    ensures
        label@ == pid_label(process_name_of(socket_pid_map@, pid), pid),
{
    let name = process_name(socket_pid_map, pid);
    let mut text: Vec<char> = Vec::new();
    let mut i: usize = 0;
    let name_chars = crate::text::chars_of(name.as_str());
    while i < name_chars.len()
        invariant
            i <= name_chars.len(),
            text@ == name_chars@.take(i as int),
        decreases name_chars.len() - i,
    {
        text.push(name_chars[i]);
        i = i + 1;
        assert(text@ =~= name_chars@.take(i as int));
    }
    assert(name_chars@.take(i as int) =~= name@);
    let ghost prefix = text@;
    text.push(' ');
    text.push('(');
    text.push('P');
    text.push('I');
    text.push('D');
    text.push(' ');
    assert(text@ =~= prefix + seq![' ', '(', 'P', 'I', 'D', ' ']);
    push_decimal(&mut text, pid as u64);
    text.push(')');
    string_from_chars(&text)
}

/// Moving average latency of a PID in microseconds: the nanosecond sum over
/// the sample count (0 without samples), truncated to whole microseconds.
pub fn pid_avg_latency_us(sum: u64, count: u64) -> (avg: u64)
    ensures
        avg == (if count == 0 {
            0
        } else {
            sum / count / 1000
        }),
{
    match sum.checked_div(count) {
        Some(q) => q / 1000,
        None => 0,
    }
}

/// The role of `sock` in the hop between `s_pid` and `r_pid` on `path`:
/// `Some(0)` for the receiver's accepted socket, which carries the path;
/// `Some(1)` for the sender's path-less connected socket whose peer inode
/// is indexed under the path; `None` for any other socket.
pub open spec fn role_of(
    sock: UnixSockView,
    s_pid: u32,
    r_pid: u32,
    path: Seq<char>,
    index: Map<u64, Seq<char>>,
) -> Option<u32> {
    if sock.pid == r_pid && sock.path == Some(path) {
        Some(0u32)
    } else if sock.pid == s_pid && sock.path is None && index.contains_key(sock.peer_inode)
        && index[sock.peer_inode] == path {
        Some(1u32)
    } else {
        None
    }
}

/// The path index of a map of string slices, by value.
pub open spec fn index_view(index: Map<u64, &str>) -> Map<u64, Seq<char>> {
    Map::new(|k: u64| index.contains_key(k), |k: u64| index[k]@)
}

/// Decide whether `sock` is an endpoint of the hop between `s_pid` and `r_pid`
/// on `path`, and if so, with which role.
///
/// Returns Some(1) for the sender endpoint and Some(0) for the receiver:
/// the receiver's accepted socket carries the hop path directly, while the
/// sender's connected socket has no path of its own and is resolved via its
/// peer inode (the receiver's accepted socket).
pub fn endpoint_role(
    sock: &UnixSockRec,
    s_pid: u32,
    r_pid: u32,
    path: &str,
    path_by_inode: &HashMap<u64, &str>,
) -> (role: Option<u32>)
    ensures
        role == role_of(sock@, s_pid, r_pid, path@, index_view(path_by_inode@)),
{
    let receiver_path = match &sock.path {
        Some(p) => sock.pid == r_pid && str_eq(p.as_str(), path),
        None => false,
    };
    if receiver_path {
        return Some(0);
    }
    if sock.pid == s_pid && sock.path.is_none() {
        match path_by_inode.get(&sock.peer_inode) {
            Some(p) => {
                if str_eq(*p, path) {
                    return Some(1);
                }
            },
            None => {},
        }
    }
    None
}


/// One (pid, fd) -> endpoint entry of the socket hops map.
pub struct HopEntry {
    /// Hop the endpoint belongs to
    pub hop_index: u32,
    /// Process owning the socket
    pub pid: u32,
    /// File descriptor of the socket in that process
    pub fd: u32,
    /// Map key: (pid << 32) | fd
    pub key: u64,
    /// Map value
    pub endpoint: HopEndpoint,
}

/// Mathematical value of a [`HopEntry`].
pub struct HopEntryView {
    pub hop_index: u32,
    pub pid: u32,
    pub fd: u32,
    pub key: u64,
    pub is_sender: u32,
    /// Hop index stored in the map value, which the kernel program reads
    pub endpoint_hop: u32,
    pub path: Seq<u8>,
}

impl View for HopEntry {
    type V = HopEntryView;

    open spec fn view(&self) -> HopEntryView {
        HopEntryView {
            hop_index: self.hop_index,
            pid: self.pid,
            fd: self.fd,
            key: self.key,
            is_sender: self.is_sender(),
            endpoint_hop: self.endpoint.hop_index,
            path: self.endpoint.path@,
        }
    }
}

impl HopEntry {
    /// The role stored in the entry.
    pub open spec fn is_sender(&self) -> u32 {
        self.endpoint.is_sender
    }
}

/// The values of a sequence of entries.
pub open spec fn entry_views(v: Seq<HopEntry>) -> Seq<HopEntryView> {
    v.map_values(|e: HopEntry| e@)
}

/// The fixed 32-byte path field: the first 32 bytes of the path, padded
/// with zeros.
pub open spec fn path_field(bytes: Seq<u8>) -> Seq<u8> {
    Seq::new(32, |i: int| if i < bytes.len() { bytes[i] } else { 0u8 })
}

/// The entry for socket `sock` acting with `role` in hop `hop_index` on
/// `path`.
pub open spec fn entry_of(hop_index: u32, sock: UnixSockView, role: u32, path: Seq<u8>) -> HopEntryView {
    HopEntryView {
        hop_index,
        pid: sock.pid,
        fd: sock.fd,
        key: pair_value(sock.pid, sock.fd) as u64,
        is_sender: role,
        endpoint_hop: hop_index,
        path: path_field(path),
    }
}

/// The entries of one hop: every socket with a role in it, in socket order.
pub open spec fn hop_socket_entries(
    socks: Seq<UnixSockView>,
    hop_index: u32,
    s_pid: u32,
    r_pid: u32,
    path: &str,
    index: Map<u64, Seq<char>>,
) -> Seq<HopEntryView>
    decreases socks.len(),
{
    if socks.len() == 0 {
        Seq::empty()
    } else {
        let before = hop_socket_entries(socks.drop_last(), hop_index, s_pid, r_pid, path, index);
        match role_of(socks.last(), s_pid, r_pid, path@, index) {
            Some(role) => before.push(entry_of(hop_index, socks.last(), role, utf8_bytes(path))),
            None => before,
        }
    }
}

/// Build the socket hops map entry for `sock` acting with `role` in hop
/// `hop_index` on `path`: the key packs (pid, fd), the value carries the
/// hop, the role and the path truncated to 32 bytes.
pub fn hop_entry(hop_index: u32, sock: &UnixSockRec, role: u32, path: &str) -> (entry: HopEntry)
    ensures
        entry@ == entry_of(hop_index, sock@, role, utf8_bytes(path)),
        entry.hop_index == hop_index,
        entry.endpoint.hop_index == hop_index,
        entry.endpoint.is_sender == role,
        entry.pid == sock.pid,
        entry.fd == sock.fd,
{
    let key = pair_key(sock.pid, sock.fd);
    let bytes = path.as_bytes();
    let n: usize = if bytes.len() < 32 {
        bytes.len()
    } else {
        32
    };
    let mut field = [0u8; 32];
    let mut i: usize = 0;
    while i < n
        invariant
            i <= n,
            n <= 32,
            n <= bytes@.len(),
            bytes@ == utf8_bytes(path),
            forall|j: int| 0 <= j < i ==> field@[j] == bytes@[j],
            forall|j: int| i <= j < 32 ==> field@[j] == 0u8,
            field@.len() == 32,
        decreases n - i,
    {
        field[i] = bytes[i];
        i = i + 1;
    }
    let entry = HopEntry {
        hop_index,
        pid: sock.pid,
        fd: sock.fd,
        key,
        endpoint: HopEndpoint { hop_index, is_sender: role, path: field },
    };
    assert(field@ =~= path_field(utf8_bytes(path)));
    entry
}

/// Every entry of one hop belongs to that hop and names it in its map
/// value, whatever the socket's role, and carries the role and the process
/// and descriptor of a socket of the list.
pub proof fn lemma_hop_entries_name_their_hop(
    socks: Seq<UnixSockView>,
    hop_index: u32,
    s_pid: u32,
    r_pid: u32,
    path: &str,
    index: Map<u64, Seq<char>>,
)
    ensures
        forall|i: int|
            0 <= i < hop_socket_entries(socks, hop_index, s_pid, r_pid, path, index).len() ==> {
                let e = #[trigger] hop_socket_entries(socks, hop_index, s_pid, r_pid, path, index)[i];
                &&& e.hop_index == hop_index
                &&& e.endpoint_hop == hop_index
                &&& (e.is_sender == 0 || e.is_sender == 1)
                &&& exists|j: int| 0 <= j < socks.len() && socks[j].pid == e.pid && socks[j].fd == e.fd
            },
    decreases socks.len(),
{
    if socks.len() > 0 {
        let before = hop_socket_entries(socks.drop_last(), hop_index, s_pid, r_pid, path, index);
        lemma_hop_entries_name_their_hop(socks.drop_last(), hop_index, s_pid, r_pid, path, index);
        let all = hop_socket_entries(socks, hop_index, s_pid, r_pid, path, index);
        assert forall|i: int| 0 <= i < all.len() implies {
            let e = #[trigger] all[i];
            &&& e.hop_index == hop_index
            &&& e.endpoint_hop == hop_index
            &&& (e.is_sender == 0 || e.is_sender == 1)
            &&& exists|j: int| 0 <= j < socks.len() && socks[j].pid == e.pid && socks[j].fd == e.fd
        } by {
            if i < before.len() {
                assert(all[i] == before[i]);
                let e = before[i];
                let j = choose|j: int|
                    0 <= j < socks.drop_last().len() && socks.drop_last()[j].pid == e.pid
                        && socks.drop_last()[j].fd == e.fd;
                assert(socks[j] == socks.drop_last()[j]);
            } else {
                let last = socks.len() - 1;
                assert(socks[last] == socks.last());
            }
        }
    }
}

/// Every planned entry names in its map value the hop it was discovered
/// in, whatever the socket's role: the kernel program matches a reply under
/// the key of that hop.
pub proof fn lemma_planned_entries_name_their_hop(
    flow: Seq<(&str, &str, &str)>,
    pids: Seq<(&str, u32)>,
    socks: Seq<UnixSockView>,
    n: nat,
)
    ensures
        forall|i: int|
            0 <= i < plan_entries(flow, pids, socks, n).len() ==> (#[trigger] plan_entries(
                flow,
                pids,
                socks,
                n,
            )[i]).endpoint_hop == plan_entries(flow, pids, socks, n)[i].hop_index,
    decreases n,
{
    if n > 0 {
        let h = n - 1;
        lemma_planned_entries_name_their_hop(flow, pids, socks, h as nat);
        let before = plan_entries(flow, pids, socks, h as nat);
        match hop_pids(flow, pids, h) {
            Some((s_pid, r_pid)) => {
                let added = hop_socket_entries(
                    socks,
                    h as u32,
                    s_pid,
                    r_pid,
                    flow[h].0,
                    inode_paths(socks),
                );
                lemma_hop_entries_name_their_hop(socks, h as u32, s_pid, r_pid, flow[h].0, inode_paths(socks));
                let all = plan_entries(flow, pids, socks, n);
                assert(all == before + added);
                assert forall|i: int| 0 <= i < all.len() implies (#[trigger] all[i]).endpoint_hop
                    == all[i].hop_index by {
                    if i < before.len() {
                        assert(all[i] == before[i]);
                    } else {
                        assert(all[i] == added[i - before.len()]);
                    }
                }
            },
            None => {},
        }
    }
}

/// Append the entries of one hop to `entries`.
fn push_hop_entries(
    hop_index: u32,
    s_pid: u32,
    r_pid: u32,
    path: &str,
    sockets: &Vec<UnixSockRec>,
    path_by_inode: &HashMap<u64, &str>,
    entries: &mut Vec<HopEntry>,
)
    ensures
        entry_views(final(entries)@) == entry_views(old(entries)@) + hop_socket_entries(
            sock_views(sockets@),
            hop_index,
            s_pid,
            r_pid,
            path,
            index_view(path_by_inode@),
        ),
{
    let ghost start = entry_views(entries@);
    let ghost index = index_view(path_by_inode@);
    let mut i: usize = 0;
    while i < sockets.len()
        invariant
            i <= sockets.len(),
            index == index_view(path_by_inode@),
            entry_views(entries@) == start + hop_socket_entries(
                sock_views(sockets@.take(i as int)),
                hop_index,
                s_pid,
                r_pid,
                path,
                index,
            ),
        decreases sockets.len() - i,
    {
        let sock = &sockets[i];
        proof {
            let next = sock_views(sockets@.take(i + 1));
            assert(next.drop_last() =~= sock_views(sockets@.take(i as int)));
            assert(next.last() == sock@);
        }
        match endpoint_role(sock, s_pid, r_pid, path, path_by_inode) {
            Some(role) => {
                let entry = hop_entry(hop_index, sock, role, path);
                let ghost before = entries@;
                entries.push(entry);
                assert(entry_views(entries@) =~= entry_views(before).push(entry@));
            },
            None => {},
        }
        i = i + 1;
    }
    assert(sockets@.take(sockets.len() as int) =~= sockets@);
}


/// The pid recorded for `name` among the resolved processes (the first
/// match), if the process was found running.
pub open spec fn pid_of(pids: Seq<(&str, u32)>, name: Seq<char>) -> Option<u32>
    decreases pids.len(),
{
    if pids.len() == 0 {
        None
    } else {
        match pid_of(pids.drop_last(), name) {
            Some(pid) => Some(pid),
            None => if pids.last().0@ == name {
                Some(pids.last().1)
            } else {
                None
            },
        }
    }
}

/// The (sender, receiver) pids of hop `h`, when both processes run.
pub open spec fn hop_pids(flow: Seq<(&str, &str, &str)>, pids: Seq<(&str, u32)>, h: int) -> Option<
    (u32, u32),
> {
    match (pid_of(pids, flow[h].1@), pid_of(pids, flow[h].2@)) {
        (Some(s_pid), Some(r_pid)) => Some((s_pid, r_pid)),
        _ => None,
    }
}

/// The endpoint entries of the first `n` hops of `flow`, hop by hop; a hop
/// whose sender or receiver is not running contributes none.
pub open spec fn plan_entries(
    flow: Seq<(&str, &str, &str)>,
    pids: Seq<(&str, u32)>,
    socks: Seq<UnixSockView>,
    n: nat,
) -> Seq<HopEntryView>
    decreases n,
{
    if n == 0 {
        Seq::empty()
    } else {
        let h = n - 1;
        let before = plan_entries(flow, pids, socks, h as nat);
        match hop_pids(flow, pids, h) {
            Some((s_pid, r_pid)) => before + hop_socket_entries(
                socks,
                h as u32,
                s_pid,
                r_pid,
                flow[h].0,
                inode_paths(socks),
            ),
            None => before,
        }
    }
}

/// The hops among the first `n` whose sender or receiver is not running.
pub open spec fn skipped_hops(flow: Seq<(&str, &str, &str)>, pids: Seq<(&str, u32)>, n: nat) -> Seq<
    u32,
>
    decreases n,
{
    if n == 0 {
        Seq::empty()
    } else {
        let h = n - 1;
        let before = skipped_hops(flow, pids, h as nat);
        match hop_pids(flow, pids, h) {
            Some(_) => before,
            None => before.push(h as u32),
        }
    }
}

/// The pid -> process name map after the first `n` hops: each running hop
/// records its sender's and then its receiver's name.
pub open spec fn names_after(
    names: Map<u32, Seq<char>>,
    flow: Seq<(&str, &str, &str)>,
    pids: Seq<(&str, u32)>,
    n: nat,
) -> Map<u32, Seq<char>>
    decreases n,
{
    if n == 0 {
        names
    } else {
        let h = n - 1;
        let before = names_after(names, flow, pids, h as nat);
        match hop_pids(flow, pids, h) {
            Some((s_pid, r_pid)) => before.insert(s_pid, flow[h].1@).insert(r_pid, flow[h].2@),
            None => before,
        }
    }
}

/// `a, b`: a hop path added to the paths a process already receives on.
pub open spec fn joined_paths(existing: Seq<char>, path: Seq<char>) -> Seq<char> {
    if existing.len() == 0 {
        path
    } else {
        existing + seq![',', ' '] + path
    }
}

/// The pid -> hop paths map after the first `n` hops: each running hop adds
/// its path to its receiver's entry.
pub open spec fn paths_after(
    paths: Map<u32, Seq<char>>,
    flow: Seq<(&str, &str, &str)>,
    pids: Seq<(&str, u32)>,
    n: nat,
) -> Map<u32, Seq<char>>
    decreases n,
{
    if n == 0 {
        paths
    } else {
        let h = n - 1;
        let before = paths_after(paths, flow, pids, h as nat);
        match hop_pids(flow, pids, h) {
            Some((_, r_pid)) => before.insert(
                r_pid,
                if before.contains_key(r_pid) {
                    joined_paths(before[r_pid], flow[h].0@)
                } else {
                    flow[h].0@
                },
            ),
            None => before,
        }
    }
}

/// The pid of the process named `name` among the resolved processes.
pub fn lookup_pid(pids: &Vec<(&str, u32)>, name: &str) -> (pid: Option<u32>)
    ensures
        pid == pid_of(pids@, name@),
{
    let mut found: Option<u32> = None;
    let mut i: usize = 0;
    while i < pids.len()
        invariant
            i <= pids.len(),
            found == pid_of(pids@.take(i as int), name@),
        decreases pids.len() - i,
    {
        proof {
            let next = pids@.take(i + 1);
            assert(next.drop_last() =~= pids@.take(i as int));
            assert(next.last() == pids@[i as int]);
        }
        if found.is_none() && str_eq(pids[i].0, name) {
            found = Some(pids[i].1);
        }
        i = i + 1;
    }
    assert(pids@.take(pids.len() as int) =~= pids@);
    found
}

/// `existing, path`, or `path` alone when `existing` is empty.
fn join_paths(existing: &String, path: &str) -> (joined: String)
    ensures
        joined@ == joined_paths(existing@, path@),
{
    if existing.as_str().is_empty() {
        return path.to_owned();
    }
    let mut text = chars_of(existing.as_str());
    text.push(',');
    text.push(' ');
    let tail = chars_of(path);
    push_all(&mut text, &tail);
    string_from_chars(&text)
}

/// The endpoint entries to insert for hop discovery, and the hops skipped
/// because their sender or receiver is not running.
pub struct HopPlan {
    pub entries: Vec<HopEntry>,
    pub skipped: Vec<u32>,
}

/// Plan the socket hops map from the data flow, the resolved process pids
/// and the established Unix stream sockets: for every hop whose sender and
/// receiver both run, record their names and the receiver's hop path for
/// display, and list one entry per socket with a role in the hop (see
/// [`endpoint_role`]), in hop order and then socket order.
pub fn plan_socket_hops(
    flow: &Vec<(&str, &str, &str)>,
    pids: &Vec<(&str, u32)>,
    sockets: &Vec<UnixSockRec>,
    socket_path_map: &mut HashMap<u32, String>,
    socket_pid_map: &mut HashMap<u32, String>,
) -> (plan: HopPlan)
    requires
        flow.len() <= u32::MAX,
    ensures
        entry_views(plan.entries@) == plan_entries(
            flow@,
            pids@,
            sock_views(sockets@),
            flow.len() as nat,
        ),
        plan.skipped@ == skipped_hops(flow@, pids@, flow.len() as nat),
        forall|i: int|
            0 <= i < plan.entries@.len() ==> (#[trigger] plan.entries@[i]).endpoint.hop_index
                == plan.entries@[i].hop_index,
        text_map(final(socket_pid_map)@) == names_after(
            text_map(old(socket_pid_map)@),
            flow@,
            pids@,
            flow.len() as nat,
        ),
        text_map(final(socket_path_map)@) == paths_after(
            text_map(old(socket_path_map)@),
            flow@,
            pids@,
            flow.len() as nat,
        ),
{
    let ghost names0 = text_map(socket_pid_map@);
    let ghost paths0 = text_map(socket_path_map@);
    let ghost socks = sock_views(sockets@);
    let path_by_inode = paths_by_inode(sockets.as_slice());
    assert(index_view(path_by_inode@) =~= inode_paths(socks));
    let mut entries: Vec<HopEntry> = Vec::new();
    let mut skipped: Vec<u32> = Vec::new();
    let mut h: usize = 0;
    while h < flow.len()
        invariant
            h <= flow.len(),
            flow.len() <= u32::MAX,
            socks == sock_views(sockets@),
            index_view(path_by_inode@) == inode_paths(socks),
            entry_views(entries@) == plan_entries(flow@, pids@, socks, h as nat),
            skipped@ == skipped_hops(flow@, pids@, h as nat),
            text_map(socket_pid_map@) == names_after(names0, flow@, pids@, h as nat),
            text_map(socket_path_map@) == paths_after(paths0, flow@, pids@, h as nat),
        decreases flow.len() - h,
    {
        let (path, sending, receiving) = flow[h];
        let s = lookup_pid(pids, sending);
        let r = lookup_pid(pids, receiving);
        let ghost names_before = text_map(socket_pid_map@);
        let ghost paths_before = text_map(socket_path_map@);
        match (s, r) {
            (Some(s_pid), Some(r_pid)) => {
                socket_pid_map.insert(s_pid, sending.to_owned());
                socket_pid_map.insert(r_pid, receiving.to_owned());
                assert(text_map(socket_pid_map@) =~= names_before.insert(s_pid, sending@).insert(
                    r_pid,
                    receiving@,
                ));
                let joined = match socket_path_map.get(&r_pid) {
                    Some(existing) => join_paths(existing, path),
                    None => path.to_owned(),
                };
                socket_path_map.insert(r_pid, joined);
                assert(text_map(socket_path_map@) =~= paths_before.insert(
                    r_pid,
                    if paths_before.contains_key(r_pid) {
                        joined_paths(paths_before[r_pid], path@)
                    } else {
                        path@
                    },
                ));
                push_hop_entries(h as u32, s_pid, r_pid, path, sockets, &path_by_inode, &mut entries);
            },
            _ => {
                skipped.push(h as u32);
            },
        }
        h = h + 1;
    }
    proof {
        lemma_planned_entries_name_their_hop(flow@, pids@, socks, flow.len() as nat);
        assert forall|i: int| 0 <= i < entries@.len() implies (#[trigger] entries@[i]).endpoint.hop_index
            == entries@[i].hop_index by {
            assert(entry_views(entries@)[i] == entries@[i]@);
        }
    }
    HopPlan { entries, skipped }
}


/// `names` with `name` added unless a name with the same text is already in it.
pub open spec fn add_name(names: Seq<Seq<char>>, name: Seq<char>) -> Seq<Seq<char>> {
    if names.contains(name) {
        names
    } else {
        names.push(name)
    }
}

/// The process names of the first `n` hops, each once, in order of first
/// appearance (each hop's sender before its receiver).
pub open spec fn flow_names(flow: Seq<(&str, &str, &str)>, n: nat) -> Seq<Seq<char>>
    decreases n,
{
    if n == 0 {
        Seq::empty()
    } else {
        let h = n - 1;
        add_name(add_name(flow_names(flow, h as nat), flow[h].1@), flow[h].2@)
    }
}

/// The texts of a sequence of string slices.
pub open spec fn str_texts(v: Seq<&str>) -> Seq<Seq<char>> {
    v.map_values(|s: &str| s@)
}

/// Add `name` to `names` unless it is already there.
fn add_name_exec<'a>(names: &mut Vec<&'a str>, name: &'a str)
    ensures
        str_texts(final(names)@) == add_name(str_texts(old(names)@), name@),
{
    let mut i: usize = 0;
    while i < names.len()
        invariant
            i <= names.len(),
            forall|j: int| 0 <= j < i ==> names@[j]@ != name@,
        decreases names.len() - i,
    {
        if str_eq(names[i], name) {
            assert(str_texts(names@)[i as int] == name@);
            return;
        }
        i = i + 1;
    }
    assert(!str_texts(names@).contains(name@));
    let ghost before = names@;
    names.push(name);
    assert(str_texts(names@) =~= str_texts(before).push(name@));
}

/// The names of all processes of the data flow, each once, in order of
/// first appearance: the processes whose pids hop discovery resolves.
pub fn flow_process_names<'a>(flow: &Vec<(&'a str, &'a str, &'a str)>) -> (names: Vec<&'a str>)
    ensures
        str_texts(names@) == flow_names(flow@, flow.len() as nat),
{
    let mut names: Vec<&'a str> = Vec::new();
    let mut h: usize = 0;
    while h < flow.len()
        invariant
            h <= flow.len(),
            str_texts(names@) == flow_names(flow@, h as nat),
        decreases flow.len() - h,
    {
        let (_, sending, receiving) = flow[h];
        add_name_exec(&mut names, sending);
        add_name_exec(&mut names, receiving);
        h = h + 1;
    }
    names
}

/// Whether the endpoint key `key` belongs to a process outside `live`.
pub open spec fn key_is_stale(live: Seq<u32>, key: u64) -> bool {
    !live.contains((key / 0x1_0000_0000) as u32)
}

/// The endpoint keys of processes outside `live`.
pub open spec fn stale_key(live: Seq<u32>) -> spec_fn(u64) -> bool {
    |k: u64| key_is_stale(live, k)
}

/// The pids outside `live`.
pub open spec fn stale_pid(live: Seq<u32>) -> spec_fn(u32) -> bool {
    |p: u32| !live.contains(p)
}

/// The endpoint keys owned by processes that are no longer running: keys
/// whose pid (upper 32 bits) is not among the live pids, in order.
pub fn stale_endpoint_keys(keys: &Vec<u64>, live: &Vec<u32>) -> (stale: Vec<u64>)
    ensures
        stale@ == keys@.filter(stale_key(live@)),
{
    let mut stale: Vec<u64> = Vec::new();
    let mut i: usize = 0;
    assert(keys@.take(0).filter(stale_key(live@)) == Seq::<u64>::empty()) by {
        reveal(Seq::filter);
    }
    while i < keys.len()
        invariant
            i <= keys.len(),
            stale@ == keys@.take(i as int).filter(stale_key(live@)),
        decreases keys.len() - i,
    {
        let key = keys[i];
        let pid = key_high(key);
        proof {
            let next = keys@.take(i + 1);
            assert(next.drop_last() =~= keys@.take(i as int));
            assert(next.last() == key);
        }
        if !contains_u32(live, pid) {
            stale.push(key);
        }
        assert(keys@.take(i + 1).filter(stale_key(live@)) == stale@) by {
            reveal(Seq::filter);
        }
        i = i + 1;
    }
    assert(keys@.take(keys.len() as int) =~= keys@);
    stale
}

/// The pids that are no longer running, in order.
pub fn stale_pids(pids: &Vec<u32>, live: &Vec<u32>) -> (stale: Vec<u32>)
    ensures
        stale@ == pids@.filter(stale_pid(live@)),
{
    let mut stale: Vec<u32> = Vec::new();
    let mut i: usize = 0;
    assert(pids@.take(0).filter(stale_pid(live@)) == Seq::<u32>::empty()) by {
        reveal(Seq::filter);
    }
    while i < pids.len()
        invariant
            i <= pids.len(),
            stale@ == pids@.take(i as int).filter(stale_pid(live@)),
        decreases pids.len() - i,
    {
        let pid = pids[i];
        proof {
            let next = pids@.take(i + 1);
            assert(next.drop_last() =~= pids@.take(i as int));
            assert(next.last() == pid);
        }
        if !contains_u32(live, pid) {
            stale.push(pid);
        }
        assert(pids@.take(i + 1).filter(stale_pid(live@)) == stale@) by {
            reveal(Seq::filter);
        }
        i = i + 1;
    }
    assert(pids@.take(pids.len() as int) =~= pids@);
    stale
}

/// Whether `v` holds `x`.
pub fn contains_u32(v: &Vec<u32>, x: u32) -> (found: bool)
    ensures
        found == v@.contains(x),
{
    let mut i: usize = 0;
    while i < v.len()
        invariant
            i <= v.len(),
            forall|j: int| 0 <= j < i ==> v@[j] != x,
        decreases v.len() - i,
    {
        if v[i] == x {
            assert(v@[i as int] == x);
            return true;
        }
        i = i + 1;
    }
    false
}


/// Minimum time between endpoint rediscovery attempts while no fresh
/// latency samples arrive (the likely sign of restarted processes), in
/// nanoseconds.
pub const REPOPULATION_INTERVAL_NS: u64 = 5_000_000_000;

/// The hop paths recorded for `pid`, or nothing.
pub open spec fn path_text_of(paths: Map<u32, String>, pid: u32) -> Seq<char> {
    if paths.contains_key(pid) {
        paths[pid]@
    } else {
        Seq::empty()
    }
}

/// What one display tick reports for a PID with fresh samples.
pub struct PidReport {
    pub pid: u32,
    /// Process name, or `unknown`
    pub name: String,
    /// Hop paths the process receives on, or empty
    pub path: String,
    /// Series label, see [`latency_label`]
    pub label: String,
    /// Moving average latency in microseconds
    pub avg_latency_us: u64,
    /// Samples in the current window
    pub count: u64,
}

/// The outcome of one display tick of the SCA latency report.
pub struct LatencyTick {
    /// PIDs with new samples, each reported in `reports`
    pub fresh: Vec<u32>,
    /// PIDs that just went quiet
    pub newly_stale: Vec<u32>,
    /// Series labels of the newly stale PIDs, to be removed
    pub stale_labels: Vec<String>,
    /// One report per fresh PID, in the same order
    pub reports: Vec<PidReport>,
    /// Whether endpoint discovery should run again now
    pub rediscover: bool,
}

/// Whether endpoint rediscovery is due: no PID has fresh samples and the
/// last rediscovery (if any) was at least the rate limit ago.
pub open spec fn rediscovery_due(no_fresh: bool, since_last_ns: Option<u64>) -> bool {
    no_fresh && match since_last_ns {
        None => true,
        Some(t) => t >= REPOPULATION_INTERVAL_NS,
    }
}

/// The report of a fresh PID.
pub open spec fn report_matches(
    r: PidReport,
    pid: u32,
    sample: (u64, u64),
    names: Map<u32, String>,
    paths: Map<u32, String>,
) -> bool {
    &&& r.pid == pid
    &&& r.name@ == process_name_of(names, pid)
    &&& r.path@ == path_text_of(paths, pid)
    &&& r.label@ == pid_label(process_name_of(names, pid), pid)
    &&& r.avg_latency_us == (if sample.1 == 0 {
        0
    } else {
        sample.0 / sample.1 / 1000
    })
    &&& r.count == sample.1
}

/// One display tick of the SCA latency report: update the freshness ledger
/// from the current (sum, count) per PID, name the series of PIDs that just
/// went quiet, report every PID with fresh samples, and decide whether
/// endpoint rediscovery is due (`since_last_rediscovery_ns` is the time
/// since the last one, `None` if it never ran).
pub fn latency_tick(
    ledger: &mut HashMap<u32, SampleState>,
    samples: &HashMap<u32, (u64, u64)>,
    socket_pid_map: &HashMap<u32, String>,
    socket_path_map: &HashMap<u32, String>,
    since_last_rediscovery_ns: Option<u64>,
) -> (tick: LatencyTick)
    ensures
        final(ledger)@ == next_ledger(old(ledger)@, samples@),
        tick.fresh@.no_duplicates(),
        tick.newly_stale@.no_duplicates(),
        tick.fresh@.to_set() == fresh_pids(old(ledger)@, samples@),
        tick.newly_stale@.to_set() == newly_stale_pids(old(ledger)@, samples@),
        tick.stale_labels.len() == tick.newly_stale.len(),
        forall|i: int|
            0 <= i < tick.newly_stale.len() ==> #[trigger] tick.stale_labels@[i]@ == pid_label(
                process_name_of(socket_pid_map@, tick.newly_stale@[i]),
                tick.newly_stale@[i],
            ),
        tick.reports.len() == tick.fresh.len(),
        forall|i: int|
            0 <= i < tick.fresh.len() ==> report_matches(
                #[trigger] tick.reports@[i],
                tick.fresh@[i],
                samples@[tick.fresh@[i]],
                socket_pid_map@,
                socket_path_map@,
            ),
        tick.rediscover == rediscovery_due(tick.fresh.len() == 0, since_last_rediscovery_ns),
{
    let (fresh, newly_stale) = partition_fresh(ledger, samples);
    let mut stale_labels: Vec<String> = Vec::new();
    let mut i: usize = 0;
    while i < newly_stale.len()
        invariant
            i <= newly_stale.len(),
            stale_labels.len() == i,
            forall|j: int|
                0 <= j < i ==> #[trigger] stale_labels@[j]@ == pid_label(
                    process_name_of(socket_pid_map@, newly_stale@[j]),
                    newly_stale@[j],
                ),
        decreases newly_stale.len() - i,
    {
        let label = latency_label(socket_pid_map, newly_stale[i]);
        stale_labels.push(label);
        i = i + 1;
    }
    let mut reports: Vec<PidReport> = Vec::new();
    let mut k: usize = 0;
    assert forall|p: u32| #[trigger] fresh@.contains(p) implies samples@.contains_key(p) by {
        assert(fresh@.to_set().contains(p));
    }
    while k < fresh.len()
        invariant
            k <= fresh.len(),
            reports.len() == k,
            forall|p: u32| #[trigger] fresh@.contains(p) ==> samples@.contains_key(p),
            forall|j: int|
                0 <= j < k ==> report_matches(
                    #[trigger] reports@[j],
                    fresh@[j],
                    samples@[fresh@[j]],
                    socket_pid_map@,
                    socket_path_map@,
                ),
        decreases fresh.len() - k,
    {
        let pid = fresh[k];
        assert(fresh@.contains(pid));
        let (sum, count) = *samples.get(&pid).unwrap();
        let path = match socket_path_map.get(&pid) {
            Some(p) => p.clone(),
            None => String::new(),
        };
        let report = PidReport {
            pid,
            name: process_name(socket_pid_map, pid),
            path,
            label: latency_label(socket_pid_map, pid),
            avg_latency_us: pid_avg_latency_us(sum, count),
            count,
        };
        reports.push(report);
        k = k + 1;
    }
    let rediscover = fresh.len() == 0 && match since_last_rediscovery_ns {
        None => true,
        Some(t) => t >= REPOPULATION_INTERVAL_NS,
    };
    LatencyTick { fresh, newly_stale, stale_labels, reports, rediscover }
}


/// A tick never reports a PID both fresh and newly stale, only reports PIDs
/// that have samples, and keeps exactly those PIDs in the ledger.
pub proof fn lemma_tick_partition(ledger: Map<u32, SampleState>, samples: Map<u32, (u64, u64)>)
    ensures
        fresh_pids(ledger, samples).disjoint(newly_stale_pids(ledger, samples)),
        forall|pid: u32| #[trigger]
            fresh_pids(ledger, samples).contains(pid) ==> samples.contains_key(pid),
        forall|pid: u32| #[trigger]
            newly_stale_pids(ledger, samples).contains(pid) ==> samples.contains_key(pid),
        next_ledger(ledger, samples).dom() == samples.dom(),
{
    assert(next_ledger(ledger, samples).dom() =~= samples.dom());
}

/// A PID whose counters stop changing goes stale on exactly one tick: a
/// PID fresh on one tick is newly stale on the next tick with the same
/// counters, and on every further such tick it is neither fresh nor newly
/// stale (its series is removed once).
pub proof fn lemma_stale_exactly_once(
    ledger: Map<u32, SampleState>,
    samples: Map<u32, (u64, u64)>,
    pid: u32,
)
    requires
        samples.contains_key(pid),
    ensures
        fresh_pids(ledger, samples).contains(pid) ==> newly_stale_pids(
            next_ledger(ledger, samples),
            samples,
        ).contains(pid),
        newly_stale_pids(ledger, samples).contains(pid) ==> {
            let after = next_ledger(ledger, samples);
            &&& !newly_stale_pids(after, samples).contains(pid)
            &&& !fresh_pids(after, samples).contains(pid)
            &&& after[pid] == SampleState::Cleared(samples[pid].0, samples[pid].1)
            &&& next_ledger(after, samples)[pid] == after[pid]
        },
{
}

/// New samples make a PID fresh again: whenever its counters differ from
/// the ones recorded in the ledger (a new PID, more samples, or a window
/// reset to smaller values), the tick reports it fresh.
pub proof fn lemma_changed_counters_are_fresh(
    ledger: Map<u32, SampleState>,
    samples: Map<u32, (u64, u64)>,
    pid: u32,
)
    requires
        samples.contains_key(pid),
        ledger_entry(ledger, pid) != Some(SampleState::Fresh(samples[pid].0, samples[pid].1)),
        ledger_entry(ledger, pid) != Some(SampleState::Cleared(samples[pid].0, samples[pid].1)),
    ensures
        fresh_pids(ledger, samples).contains(pid),
        next_ledger(ledger, samples)[pid] == SampleState::Fresh(samples[pid].0, samples[pid].1),
{
}


/// The pids present in either latency map, each once: those of the sum map
/// in order, then those of the count map not seen yet.
pub fn pids_in_either(sum_pids: &Vec<u32>, count_pids: &Vec<u32>) -> (pids: Vec<u32>)
    ensures
        pids@.no_duplicates(),
        forall|p: u32| #[trigger] pids@.contains(p) <==> (sum_pids@.contains(p) || count_pids@.contains(p)),
{
    let mut pids: Vec<u32> = Vec::new();
    let mut i: usize = 0;
    while i < sum_pids.len()
        invariant
            i <= sum_pids.len(),
            pids@.no_duplicates(),
            forall|p: u32| #[trigger] pids@.contains(p) <==> sum_pids@.take(i as int).contains(p),
        decreases sum_pids.len() - i,
    {
        let p = sum_pids[i];
        proof {
            lemma_push_contains(sum_pids@.take(i as int), p);
            assert(sum_pids@.take(i + 1) =~= sum_pids@.take(i as int).push(p));
            lemma_push_contains(pids@, p);
            if !pids@.contains(p) {
                lemma_push_no_duplicates(pids@, p);
            }
        }
        if !contains_u32(&pids, p) {
            pids.push(p);
        }
        i = i + 1;
    }
    assert(sum_pids@.take(i as int) =~= sum_pids@);
    let mut j: usize = 0;
    while j < count_pids.len()
        invariant
            j <= count_pids.len(),
            pids@.no_duplicates(),
            forall|p: u32| #[trigger]
                pids@.contains(p) <==> (sum_pids@.contains(p) || count_pids@.take(j as int).contains(p)),
        decreases count_pids.len() - j,
    {
        let p = count_pids[j];
        proof {
            lemma_push_contains(count_pids@.take(j as int), p);
            assert(count_pids@.take(j + 1) =~= count_pids@.take(j as int).push(p));
            lemma_push_contains(pids@, p);
            if !pids@.contains(p) {
                lemma_push_no_duplicates(pids@, p);
            }
        }
        if !contains_u32(&pids, p) {
            pids.push(p);
        }
        j = j + 1;
    }
    assert(count_pids@.take(j as int) =~= count_pids@);
    pids
}

/// The 16-byte process name key (a kernel `comm`): the first 16 bytes of the
/// name, padded with zeros.
pub fn process_name_key(name: &str) -> (key: [u8; 16])
    ensures
        key@ == Seq::new(
            16,
            |i: int| if i < utf8_bytes(name).len() {
                utf8_bytes(name)[i]
            } else {
                0u8
            },
        ),
{
    let bytes = name.as_bytes();
    let n: usize = if bytes.len() < 16 {
        bytes.len()
    } else {
        16
    };
    let mut key = [0u8; 16];
    let mut i: usize = 0;
    while i < n
        invariant
            i <= n,
            n <= 16,
            n <= bytes@.len(),
            bytes@ == utf8_bytes(name),
            key@.len() == 16,
            forall|j: int| 0 <= j < i ==> key@[j] == bytes@[j],
            forall|j: int| i <= j < 16 ==> key@[j] == 0u8,
        decreases n - i,
    {
        key[i] = bytes[i];
        i = i + 1;
    }
    assert(key@ =~= Seq::new(
        16,
        |i: int| if i < utf8_bytes(name).len() {
            utf8_bytes(name)[i]
        } else {
            0u8
        },
    ));
    key
}


/// Only sockets of the hop's own processes are endpoints: a socket owned by
/// any other process (even with the same fd number or the hop's path) has
/// no role, the receiver role needs the hop path on the socket itself, and
/// the sender role needs a path-less socket whose peer is indexed under the
/// hop path.
pub proof fn lemma_role_needs_hop_process(
    sock: UnixSockView,
    s_pid: u32,
    r_pid: u32,
    path: Seq<char>,
    index: Map<u64, Seq<char>>,
)
    ensures
        sock.pid != s_pid && sock.pid != r_pid ==> role_of(sock, s_pid, r_pid, path, index) is None,
        role_of(sock, s_pid, r_pid, path, index) == Some(0u32) ==> sock.pid == r_pid && sock.path
            == Some(path),
        role_of(sock, s_pid, r_pid, path, index) == Some(1u32) ==> sock.pid == s_pid && sock.path
            is None && index.contains_key(sock.peer_inode) && index[sock.peer_inode] == path,
{
}


/// An endpoint entry is evicted on rediscovery exactly when the process
/// owning its socket is no longer running: the key of (pid, fd) is stale
/// for the live pids just when `pid` is not among them.
pub proof fn lemma_stale_entry_owner(live: Seq<u32>, pid: u32, fd: u32)
    ensures
        key_is_stale(live, pair_value(pid, fd) as u64) <==> !live.contains(pid),
{
    crate::sca_common::lemma_pair_key_halves(pid, fd);
    assert(pair_value(pid, fd) <= u64::MAX);
}


/// The pids of the scanned processes whose command name is `name`, in scan
/// order.
pub open spec fn named_pids(processes: Seq<(u32, String)>, name: Seq<char>) -> Seq<u32>
    decreases processes.len(),
{
    if processes.len() == 0 {
        Seq::empty()
    } else {
        let before = named_pids(processes.drop_last(), name);
        if processes.last().1@ == name {
            before.push(processes.last().0)
        } else {
            before
        }
    }
}

/// The pids of the processes named `name` among the scanned (pid, command
/// name) pairs.
pub fn pids_named(processes: &Vec<(u32, String)>, name: &str) -> (pids: Vec<u32>)
    ensures
        pids@ == named_pids(processes@, name@),
{
    let mut pids: Vec<u32> = Vec::new();
    let mut i: usize = 0;
    while i < processes.len()
        invariant
            i <= processes.len(),
            pids@ == named_pids(processes@.take(i as int), name@),
        decreases processes.len() - i,
    {
        proof {
            let next = processes@.take(i + 1);
            assert(next.drop_last() =~= processes@.take(i as int));
            assert(next.last() == processes@[i as int]);
        }
        if str_eq(processes[i].1.as_str(), name) {
            pids.push(processes[i].0);
        }
        i = i + 1;
    }
    assert(processes@.take(i as int) =~= processes@);
    pids
}

/// The descriptors that refer to sockets, in order.
pub open spec fn socket_descriptors(fds: Seq<(u32, bool)>) -> Seq<u32>
    decreases fds.len(),
{
    if fds.len() == 0 {
        Seq::empty()
    } else {
        let before = socket_descriptors(fds.drop_last());
        if fds.last().1 {
            before.push(fds.last().0)
        } else {
            before
        }
    }
}

/// The socket descriptors of a process, from its (fd, refers to a socket)
/// pairs.
pub fn socket_fds(fds: &Vec<(u32, bool)>) -> (sockets: Vec<u32>)
    ensures
        sockets@ == socket_descriptors(fds@),
{
    let mut sockets: Vec<u32> = Vec::new();
    let mut i: usize = 0;
    while i < fds.len()
        invariant
            i <= fds.len(),
            sockets@ == socket_descriptors(fds@.take(i as int)),
        decreases fds.len() - i,
    {
        proof {
            let next = fds@.take(i + 1);
            assert(next.drop_last() =~= fds@.take(i as int));
            assert(next.last() == fds@[i as int]);
        }
        if fds[i].1 {
            sockets.push(fds[i].0);
        }
        i = i + 1;
    }
    assert(fds@.take(i as int) =~= fds@);
    sockets
}

} // verus!
