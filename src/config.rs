//! Startup configuration: the backend list, the listen port, and the
//! settings of the listen socket.
use vstd::prelude::*;

use crate::error::BalancerError;
use crate::selector::endpoints;

verus! {

/// Receive and send buffer size of the listen socket when none is given.
pub const DEFAULT_BUFFER_SIZE: u32 = 1152;

/// Depth of the queue of connections not yet accepted.
pub const BACKLOG: u32 = 2048;

/// Port listened on when none is configured.
pub const DEFAULT_PORT: u16 = 9999;

/// The pieces of `s` split at each comma, as `(closed pieces, open piece)`.
pub open spec fn split_state(s: Seq<char>) -> (Seq<Seq<char>>, Seq<char>)
    decreases s.len(),
{
    if s.len() == 0 {
        (Seq::empty(), Seq::empty())
    } else {
        let (done, cur) = split_state(s.drop_last());
        if s.last() == ',' {
            (done.push(cur), Seq::empty())
        } else {
            (done, cur.push(s.last()))
        }
    }
}

/// `s` split at each comma: one piece more than there are commas, empty
/// pieces kept.
pub open spec fn split_commas(s: Seq<char>) -> Seq<Seq<char>> {
    split_state(s).0.push(split_state(s).1)
}

/// Relies on `String::push`: the character is appended at the end.
#[verifier::external_body]
fn push_char(s: &mut String, c: char)
    ensures
        final(s)@ == old(s)@.push(c),
{
    s.push(c)
}

/// Splits a comma-separated list of backend endpoints, in order. An empty
/// list is a configuration error.
pub fn unix_socket_backends(list: &str) -> (r: Result<Vec<String>, BalancerError>)
    ensures
        r is Ok <==> list@.len() > 0,
        r matches Ok(v) ==> endpoints(v@) == split_commas(list@) && v@.len() > 0,
        r matches Err(e) ==> e == BalancerError::Configuration,
{
    if list.is_empty() {
        return Err(BalancerError::Configuration);
    }
    let mut done: Vec<String> = Vec::new();
    let mut cur = String::new();
    for c in it: list.chars()
        invariant
            it.seq() == list@,
            endpoints(done@) == split_state(list@.take(it.index() as int)).0,
            cur@ == split_state(list@.take(it.index() as int)).1,
    {
        let ghost i = it.index() as int;
        assert(list@.take(i + 1).drop_last() == list@.take(i));
        if c == ',' {
            let piece = cur;
            cur = String::new();
            done.push(piece);
            assert(endpoints(done@) =~= split_state(list@.take(i + 1)).0);
        } else {
            push_char(&mut cur, c);
        }
    }
    assert(list@.take(list@.len() as int) == list@);
    done.push(cur);
    assert(endpoints(done@) =~= split_commas(list@));
    Ok(done)
}

/// Whether `c` is an ASCII decimal digit.
pub open spec fn is_digit(c: char) -> bool {
    '0' <= c && c <= '9'
}

/// The number that the decimal digits `s` write.
pub open spec fn decimal_value(s: Seq<char>) -> nat
    decreases s.len(),
{
    if s.len() == 0 {
        0
    } else {
        decimal_value(s.drop_last()) * 10 + (s.last() as nat - '0' as nat) as nat
    }
}

/// Whether `s` writes a port number: one or more decimal digits, leading
/// zeros allowed, of value at most 65535.
pub open spec fn is_port(s: Seq<char>) -> bool {
    &&& s.len() > 0
    &&& forall|i: int| 0 <= i < s.len() ==> is_digit(#[trigger] s[i])
    &&& decimal_value(s) <= u16::MAX
}

proof fn lemma_decimal_value_grows(s: Seq<char>, i: int)
    requires
        0 <= i <= s.len(),
        forall|j: int| 0 <= j < s.len() ==> is_digit(#[trigger] s[j]),
    ensures
        decimal_value(s.take(i)) <= decimal_value(s),
    decreases s.len(),
{
    if i < s.len() {
        let t = s.drop_last();
        assert(t.take(i) == s.take(i));
        assert forall|j: int| 0 <= j < t.len() implies is_digit(#[trigger] t[j]) by {
            assert(t[j] == s[j]);
        }
        lemma_decimal_value_grows(t, i);
    } else {
        assert(s.take(i) == s);
    }
}

/// The port to listen on: `DEFAULT_PORT` when none is configured, else the
/// number that `port` writes in decimal; anything else is a configuration
/// error.
pub fn listen_port(port: Option<&str>) -> (r: Result<u16, BalancerError>)
    ensures
        port is None ==> r == Ok::<u16, BalancerError>(DEFAULT_PORT),
        port matches Some(s) ==> (r is Ok <==> is_port(s@)),
        port matches Some(s) ==> (is_port(s@) ==> r == Ok::<u16, BalancerError>(
            decimal_value(s@) as u16,
        )),
        r matches Err(e) ==> e == BalancerError::Configuration,
{
    let s = match port {
        None => {
            return Ok(DEFAULT_PORT);
        },
        Some(s) => s,
    };
    if s.is_empty() {
        return Err(BalancerError::Configuration);
    }
    let mut value: u32 = 0;
    for c in it: s.chars()
        invariant
            port == Some(s),
            it.seq() == s@,
            0 <= it.index() <= s@.len(),
            forall|j: int| 0 <= j < it.index() ==> is_digit(#[trigger] s@[j]),
            value == decimal_value(s@.take(it.index() as int)),
            value <= u16::MAX,
    {
        let ghost i = it.index() as int;
        assert(s@.take(i + 1).drop_last() == s@.take(i));
        if c < '0' || c > '9' {
            assert(!is_digit(s@[i]));
            return Err(BalancerError::Configuration);
        }
        let next = value * 10 + (c as u32 - '0' as u32);
        if next > 65535 {
            proof {
                if forall|j: int| 0 <= j < s@.len() ==> is_digit(#[trigger] s@[j]) {
                    lemma_decimal_value_grows(s@, i + 1);
                }
            }
            return Err(BalancerError::Configuration);
        }
        value = next;
    }
    assert(s@.take(s@.len() as int) == s@);
    Ok(value as u16)
}

/// How the listen socket is set up.
pub struct ListenConfig {
    /// Port on all IPv4 interfaces.
    pub port: u16,
    /// Size of both the receive and the send buffer, in bytes.
    pub buffer_size: u32,
    /// Depth of the queue of connections not yet accepted.
    pub backlog: u32,
    /// TCP keepalive.
    pub keepalive: bool,
    /// Address reuse.
    pub reuse_address: bool,
    /// Port reuse, so that several processes can share the port.
    pub reuse_port: bool,
}

impl ListenConfig {
    /// The listen socket's settings: keepalive, address reuse and port reuse
    /// on, both buffers of `buffer_size` bytes (`DEFAULT_BUFFER_SIZE` when
    /// none is given), and a backlog of `BACKLOG`.
    pub fn new(port: u16, buffer_size: Option<u32>) -> (r: ListenConfig)
        ensures
            r.port == port,
            r.buffer_size == match buffer_size {
                Some(b) => b,
                None => DEFAULT_BUFFER_SIZE,
            },
            r.backlog == BACKLOG,
            r.keepalive && r.reuse_address && r.reuse_port,
    {
        let buffer_size = match buffer_size {
            Some(b) => b,
            None => DEFAULT_BUFFER_SIZE,
        };
        ListenConfig {
            port,
            buffer_size,
            backlog: BACKLOG,
            keepalive: true,
            reuse_address: true,
            reuse_port: true,
        }
    }
}

} // verus!
