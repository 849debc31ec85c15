//! SCA hop discovery helpers: parsing of `ss -xpH` output into established
//! Unix stream socket records, and the inode -> path index built from them.

use std::collections::HashMap;

use vstd::prelude::*;

use crate::text::{
    chars_of, digit_run, digit_run_at, digits_u32, find_at_or_after, find_from,
    join_spaced, join_words_from, lemma_digit_run, lemma_find_from_bounds, line_state, lines_of,
    parse_decimal_u64, parse_digit_run_u32, same_chars, split_lines, split_words,
    string_from_chars, texts, words_of, decimal_u64,
};

verus! {

broadcast use vstd::std_specs::hash::group_hash_axioms;

/// One established Unix stream socket parsed from `ss -xpH` output.
pub struct UnixSockRec {
    pub pid: u32,
    pub fd: u32,
    pub inode: u64,
    pub peer_inode: u64,
    /// Bound path if the socket has one; the connected (client) side has none
    pub path: Option<String>,
}

/// Mathematical value of a [`UnixSockRec`].
pub struct UnixSockView {
    pub pid: u32,
    pub fd: u32,
    pub inode: u64,
    pub peer_inode: u64,
    pub path: Option<Seq<char>>,
}

impl View for UnixSockRec {
    type V = UnixSockView;

    open spec fn view(&self) -> UnixSockView {
        UnixSockView {
            pid: self.pid,
            fd: self.fd,
            inode: self.inode,
            peer_inode: self.peer_inode,
            path: match self.path {
                Some(p) => Some(p@),
                None => None,
            },
        }
    }
}

/// The values of a sequence of socket records.
pub open spec fn sock_views(v: Seq<UnixSockRec>) -> Seq<UnixSockView> {
    v.map_values(|r: UnixSockRec| r@)
}

/// `pid=`, the tag in front of a process id in the users column.
pub open spec fn pid_tag() -> Seq<char> {
    seq!['p', 'i', 'd', '=']
}

/// `fd=`, the tag in front of a file descriptor in the users column.
pub open spec fn fd_tag() -> Seq<char> {
    seq!['f', 'd', '=']
}

/// The digits of `s` that start at `at`, read as a `u32`.
pub open spec fn u32_at(s: Seq<char>, at: int) -> Option<u32> {
    digits_u32(s.subrange(at, at + digit_run(s, at)))
}

/// The (pid, fd) pairs of a users column, read from index `start` on: each
/// pair is the number after the next `pid=` and the number after the first
/// `fd=` that follows that `pid=`; reading stops at the first tag that is
/// missing or not followed by a number that fits in a `u32`.
pub open spec fn user_pairs_from(s: Seq<char>, start: int) -> Seq<(u32, u32)>
    decreases s.len() + 1 - start,
{
    if start < 0 {
        Seq::empty()
    } else {
        match find_from(s, pid_tag(), start) {
            None => Seq::empty(),
            Some(p) => {
                let a = p + 4;
                match u32_at(s, a) {
                    None => Seq::empty(),
                    Some(pid) => match find_from(s, fd_tag(), a) {
                        None => Seq::empty(),
                        Some(q) => {
                            let b = q + 3;
                            match u32_at(s, b) {
                                None => Seq::empty(),
                                Some(fd) => {
                                    proof {
                                        lemma_find_from_bounds(s, pid_tag(), start);
                                        lemma_find_from_bounds(s, fd_tag(), a);
                                    }
                                    seq![(pid, fd)] + user_pairs_from(s, b)
                                },
                            }
                        },
                    },
                }
            },
        }
    }
}

/// `u_str`, the socket type column of a Unix stream socket.
pub open spec fn stream_kind() -> Seq<char> {
    seq!['u', '_', 's', 't', 'r']
}

/// `ESTAB`, the state column of an established socket.
pub open spec fn established_state() -> Seq<char> {
    seq!['E', 'S', 'T', 'A', 'B']
}

/// `*`, the address column of a socket without a bound path.
pub open spec fn no_address() -> Seq<char> {
    seq!['*']
}

/// The records of one line of `ss -xpH` output, given as its words:
/// `u_str ESTAB <recv-q> <send-q> <path|*> <inode> * <peer-inode> users:(...)`.
/// A line with fewer than nine words, another type or state, or inodes that
/// are not `u64` numbers yields nothing; otherwise one record per (pid, fd)
/// pair of the users column (the words from the ninth on, joined by spaces).
pub open spec fn line_records(t: Seq<Seq<char>>) -> Seq<UnixSockView> {
    if t.len() < 9 || t[0] != stream_kind() || t[1] != established_state() {
        Seq::empty()
    } else {
        match (decimal_u64(t[5]), decimal_u64(t[7])) {
            (Some(inode), Some(peer_inode)) => {
                let path = if t[4] == no_address() {
                    None
                } else {
                    Some(t[4])
                };
                user_pairs_from(join_spaced(t.subrange(8, t.len() as int)), 0).map_values(
                    |p: (u32, u32)|
                        UnixSockView { pid: p.0, fd: p.1, inode, peer_inode, path },
                )
            },
            _ => Seq::empty(),
        }
    }
}

/// The records of a sequence of lines, in order.
pub open spec fn lines_records(lines: Seq<Seq<char>>) -> Seq<UnixSockView>
    decreases lines.len(),
{
    if lines.len() == 0 {
        Seq::empty()
    } else {
        lines_records(lines.drop_last()) + line_records(words_of(lines.last()))
    }
}

/// The established Unix stream socket records of a whole `ss -xpH` output.
pub open spec fn ss_records(output: Seq<char>) -> Seq<UnixSockView> {
    lines_records(lines_of(output))
}

/// The inode -> path index of a sequence of records: every record with a
/// path maps its inode to that path, a later record overriding an earlier one.
pub open spec fn inode_paths(socks: Seq<UnixSockView>) -> Map<u64, Seq<char>>
    decreases socks.len(),
{
    if socks.len() == 0 {
        Map::empty()
    } else {
        let m = inode_paths(socks.drop_last());
        match socks.last().path {
            Some(p) => m.insert(socks.last().inode, p),
            None => m,
        }
    }
}

/// The digits at `at`, read as a `u32`.
fn read_u32_at(s: &Vec<char>, at: usize) -> (r: Option<u32>)
    requires
        at <= s.len(),
    ensures
        r == u32_at(s@, at as int),
{
    proof {
        lemma_digit_run(s@, at as int);
    }
    let n = digit_run_at(s, at);
    parse_digit_run_u32(s, at, n)
}

/// Parse the users:((...)) column of ss output into (pid, fd) pairs.
/// Format: users:(("NAME",pid=123,fd=4),("NAME2",pid=456,fd=7))
pub fn parse_ss_users(users: &str) -> (pairs: Vec<(u32, u32)>)
    ensures
        pairs@ == user_pairs_from(users@, 0),
{
    let s = chars_of(users);
    let pid = vec!['p', 'i', 'd', '='];
    let fd = vec!['f', 'd', '='];
    assert(pid@ == pid_tag());
    assert(fd@ == fd_tag());
    let mut out: Vec<(u32, u32)> = Vec::new();
    let mut start: usize = 0;
    loop
        invariant
            start <= s.len(),
            s@ == users@,
            pid@ == pid_tag(),
            fd@ == fd_tag(),
            user_pairs_from(s@, 0) == out@ + user_pairs_from(s@, start as int),
        decreases s.len() - start,
    {
        proof {
            lemma_find_from_bounds(s@, pid_tag(), start as int);
        }
        let p = match find_at_or_after(&s, &pid, start) {
            None => {
                assert(out@ + user_pairs_from(s@, start as int) == out@);
                return out;
            },
            Some(p) => p,
        };
        let a = p + 4;
        let pid_value = match read_u32_at(&s, a) {
            None => {
                assert(out@ + user_pairs_from(s@, start as int) == out@);
                return out;
            },
            Some(v) => v,
        };
        proof {
            lemma_find_from_bounds(s@, fd_tag(), a as int);
        }
        let q = match find_at_or_after(&s, &fd, a) {
            None => {
                assert(out@ + user_pairs_from(s@, start as int) == out@);
                return out;
            },
            Some(q) => q,
        };
        let b = q + 3;
        let fd_value = match read_u32_at(&s, b) {
            None => {
                assert(out@ + user_pairs_from(s@, start as int) == out@);
                return out;
            },
            Some(v) => v,
        };
        let ghost before = out@;
        out.push((pid_value, fd_value));
        assert(user_pairs_from(s@, start as int) == seq![(pid_value, fd_value)]
            + user_pairs_from(s@, b as int));
        assert(out@ + user_pairs_from(s@, b as int) =~= before + user_pairs_from(
            s@,
            start as int,
        ));
        start = b;
    }
}

/// Append the records of one line, given as its words, to `recs`.
fn push_line_records(t: &Vec<Vec<char>>, recs: &mut Vec<UnixSockRec>)
    ensures
        sock_views(final(recs)@) == sock_views(old(recs)@) + line_records(texts(t@)),
{
    let ghost tv = texts(t@);
    let ghost start_recs = sock_views(recs@);
    let kind = vec!['u', '_', 's', 't', 'r'];
    let state = vec!['E', 'S', 'T', 'A', 'B'];
    let star = vec!['*'];
    assert(kind@ == stream_kind());
    assert(state@ == established_state());
    assert(star@ == no_address());
    if t.len() < 9 || !same_chars(&t[0], &kind) || !same_chars(&t[1], &state) {
        assert(line_records(tv) == Seq::<UnixSockView>::empty());
        assert(sock_views(recs@) + line_records(tv) =~= sock_views(recs@));
        return;
    }
    assert(tv[0] == t@[0]@ && tv[1] == t@[1]@ && tv[4] == t@[4]@ && tv[5] == t@[5]@ && tv[7]
        == t@[7]@);
    let inode = match parse_decimal_u64(&t[5]) {
        Some(v) => v,
        None => {
            assert(sock_views(recs@) + line_records(tv) =~= sock_views(recs@));
            return;
        },
    };
    let peer_inode = match parse_decimal_u64(&t[7]) {
        Some(v) => v,
        None => {
            assert(sock_views(recs@) + line_records(tv) =~= sock_views(recs@));
            return;
        },
    };
    let has_path = !same_chars(&t[4], &star);
    let ghost path_view: Option<Seq<char>> = if has_path {
        Some(tv[4])
    } else {
        None
    };
    let users = join_words_from(t, 8);
    assert(texts(t@).subrange(8, t.len() as int) == tv.subrange(8, tv.len() as int));
    let users_str = string_from_chars(&users);
    let pairs = parse_ss_users(users_str.as_str());
    let ghost expected = pairs@.map_values(
        |p: (u32, u32)| UnixSockView { pid: p.0, fd: p.1, inode, peer_inode, path: path_view },
    );
    assert(line_records(tv) == expected);
    let mut k: usize = 0;
    while k < pairs.len()
        invariant
            k <= pairs.len(),
            sock_views(recs@) == start_recs + expected.take(k as int),
            expected.len() == pairs@.len(),
            forall|j: int|
                0 <= j < pairs@.len() ==> #[trigger] expected[j] == (UnixSockView {
                    pid: pairs@[j].0,
                    fd: pairs@[j].1,
                    inode,
                    peer_inode,
                    path: path_view,
                }),
            has_path ==> path_view == Some(t@[4]@),
            !has_path ==> path_view is None,
            4 < t.len(),
        decreases pairs.len() - k,
    {
        let path = if has_path {
            Some(string_from_chars(&t[4]))
        } else {
            None
        };
        let rec = UnixSockRec { pid: pairs[k].0, fd: pairs[k].1, inode, peer_inode, path };
        let ghost before = recs@;
        recs.push(rec);
        assert(rec@ == expected[k as int]);
        assert(sock_views(recs@) =~= sock_views(before).push(rec@));
        assert(expected.take(k + 1) =~= expected.take(k as int).push(expected[k as int]));
        k = k + 1;
    }
    assert(expected.take(pairs.len() as int) == expected);
}

/// A record of a line has no path exactly when the line's address column is
/// `*`; any other address column, whatever its first character (a path, or
/// an abstract name starting with `@`), is the record's path verbatim. The
/// inodes are the line's inode and peer inode columns.
pub proof fn lemma_line_record_path(t: Seq<Seq<char>>)
    ensures
        forall|i: int|
            0 <= i < line_records(t).len() ==> {
                let r = #[trigger] line_records(t)[i];
                &&& t.len() >= 9
                &&& (r.path is None <==> t[4] == seq!['*'])
                &&& (r.path is Some ==> r.path->0 == t[4])
                &&& Some(r.inode) == decimal_u64(t[5])
                &&& Some(r.peer_inode) == decimal_u64(t[7])
            },
{
    assert(no_address() =~= seq!['*']);
}

/// Parse `ss -xpH` output into established Unix stream socket records.
///
/// Line format (9+ whitespace-separated fields):
/// u_str ESTAB Recv-Q Send-Q <path|*> <inode> * <peer-inode> users:((...))
pub fn parse_ss_unix_stream(output: &str) -> (recs: Vec<UnixSockRec>)
    ensures
        sock_views(recs@) == ss_records(output@),
{
    let s = chars_of(output);
    let lines = split_lines(&s);
    let ghost lv = texts(lines@);
    let mut recs: Vec<UnixSockRec> = Vec::new();
    let mut i: usize = 0;
    while i < lines.len()
        invariant
            i <= lines.len(),
            lv == texts(lines@),
            lv == lines_of(output@),
            sock_views(recs@) == lines_records(lv.take(i as int)),
        decreases lines.len() - i,
    {
        let words = split_words(&lines[i]);
        push_line_records(&words, &mut recs);
        proof {
            let next = lv.take(i + 1);
            assert(next.drop_last() == lv.take(i as int));
            assert(next.last() == lines@[i as int]@);
        }
        i = i + 1;
    }
    assert(lv.take(lines.len() as int) == lv);
    recs
}

/// Build an inode -> path index, used to resolve the peer of path-less
/// client sockets.
pub fn paths_by_inode(sockets: &[UnixSockRec]) -> (index: HashMap<u64, &str>)
    ensures
        forall|k: u64| #[trigger]
            index@.contains_key(k) <==> inode_paths(sock_views(sockets@)).contains_key(k),
        forall|k: u64|
            index@.contains_key(k) ==> (#[trigger] index@[k])@ == inode_paths(
                sock_views(sockets@),
            )[k],
{
    let mut index: HashMap<u64, &str> = HashMap::new();
    let mut i: usize = 0;
    while i < sockets.len()
        invariant
            i <= sockets.len(),
            forall|k: u64| #[trigger]
                index@.contains_key(k) <==> inode_paths(
                    sock_views(sockets@.take(i as int)),
                ).contains_key(k),
            forall|k: u64|
                index@.contains_key(k) ==> (#[trigger] index@[k])@ == inode_paths(
                    sock_views(sockets@.take(i as int)),
                )[k],
        decreases sockets.len() - i,
    {
        let sock = &sockets[i];
        proof {
            let prefix = sock_views(sockets@.take(i + 1));
            assert(prefix.drop_last() =~= sock_views(sockets@.take(i as int)));
            assert(prefix.last() == sock@);
        }
        match &sock.path {
            Some(p) => {
                index.insert(sock.inode, p.as_str());
            },
            None => {},
        }
        i = i + 1;
    }
    assert(sockets@.take(sockets.len() as int) == sockets@);
    index
}


/// Splitting `p + s` into lines, where `p` ends with a newline, finishes the
/// lines of `p` and then splits `s` on its own.
proof fn lemma_line_state_after_newline(p: Seq<char>, s: Seq<char>)
    requires
        line_state(p).1.len() == 0,
    ensures
        line_state(p + s) == (line_state(p).0 + line_state(s).0, line_state(s).1),
    decreases s.len(),
{
    if s.len() == 0 {
        assert(p + s =~= p);
        assert(line_state(p).0 + Seq::<Seq<char>>::empty() =~= line_state(p).0);
    } else {
        lemma_line_state_after_newline(p, s.drop_last());
        assert((p + s).drop_last() =~= p + s.drop_last());
        assert((p + s).last() == s.last());
        let (done, cur) = line_state(s.drop_last());
        if s.last() == '\n' {
            assert(line_state(p).0 + done.push(cur) =~= (line_state(p).0 + done).push(cur));
        }
    }
}

/// The records of two runs of lines, one after the other.
proof fn lemma_lines_records_concat(x: Seq<Seq<char>>, y: Seq<Seq<char>>)
    ensures
        lines_records(x + y) == lines_records(x) + lines_records(y),
    decreases y.len(),
{
    if y.len() == 0 {
        assert(x + y =~= x);
        assert(lines_records(x) + Seq::<UnixSockView>::empty() =~= lines_records(x));
    } else {
        lemma_lines_records_concat(x, y.drop_last());
        assert((x + y).drop_last() =~= x + y.drop_last());
        assert((x + y).last() == y.last());
        assert(lines_records(x) + lines_records(y.drop_last()) + line_records(words_of(y.last()))
            =~= lines_records(x) + (lines_records(y.drop_last()) + line_records(
            words_of(y.last()),
        )));
    }
}

/// Parsing is line by line: the records of two outputs joined by a newline
/// are the records of the first followed by those of the second.
pub proof fn lemma_ss_records_line_by_line(a: Seq<char>, b: Seq<char>)
    ensures
        ss_records(a + seq!['\n'] + b) == ss_records(a) + ss_records(b),
{
    let p = a.push('\n');
    assert(a + seq!['\n'] + b =~= p + b);
    assert(p.drop_last() =~= a);
    assert(line_state(p) == (line_state(a).0.push(line_state(a).1), Seq::<char>::empty()));
    lemma_line_state_after_newline(p, b);
    assert(lines_of(p + b) =~= lines_of(a) + lines_of(b));
    lemma_lines_records_concat(lines_of(a), lines_of(b));
}

} // verus!
