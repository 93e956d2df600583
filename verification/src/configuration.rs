//! The settings of the server and the defaults that stand in for what was not given.

use crate::text::{
    field_end, find_field_end, parse_decimal, parse_decimal_range, trim_range, trimmed, Trim,
};
use vstd::prelude::*;

verus! {

/// Length of the preamble that every message starts with.
pub const HEADER_LENGTH: usize = 48;

/// Seconds between two "alive" messages in the log: four hours.
pub const ALIVE_MSG_INTERVALL: u64 = 60 * 60 * 4;

/// Everything the server needs to know before it starts.
#[derive(Debug, Clone, PartialEq)]
pub struct Configuration {
    /// Ports for weather stations, ascending, each once.
    pub ports: Vec<u16>,
    /// Log level: error, info or debug.
    pub log_level: String,
    /// Connection properties for the database.
    pub hostname: String,
    pub db_name: String,
    pub username: String,
    pub password: String,
    /// A file of binary data to read in place of serving.
    pub binary_filename: Option<String>,
}

/// The ports that are served when none is configured.
pub open spec fn spec_default_ports() -> Seq<u16> {
    seq![2001u16, 2002u16, 2003u16]
}

/// The port that `s` is the decimal form of: an optional plus sign, then at least one
/// digit, the value no more than 65535.
pub open spec fn parse_port(s: Seq<char>) -> Option<u16> {
    match parse_decimal(s, 0xFFFF) {
        Some(value) => Some(value as u16),
        None => None,
    }
}

/// The ports that one colon-separated field gives: one if it parses, none if not.
pub open spec fn field_ports(field: Seq<char>) -> Set<u16> {
    match parse_port(trimmed(field, Trim::Whitespace)) {
        Some(port) => set![port],
        None => Set::empty(),
    }
}

/// The ports that the fields of `s` from position `start` on give.
pub open spec fn ports_from(s: Seq<char>, start: int) -> Set<u16>
    decreases s.len() - start,
{
    if start < 0 || start > s.len() {
        Set::empty()
    } else {
        let end = field_end(s, ':', start);
        field_ports(s.subrange(start, end)).union(
            if end < s.len() {
                ports_from(s, end + 1)
            } else {
                Set::empty()
            },
        )
    }
}

/// The ports that a colon-separated list names. Fields that are no port count for
/// nothing.
pub open spec fn spec_ports(s: Seq<char>) -> Set<u16> {
    ports_from(s, 0)
}

/// Ascending with no value twice.
pub open spec fn strictly_increasing(v: Seq<u16>) -> bool {
    forall|i: int, j: int| 0 <= i < j < v.len() ==> v[i] < v[j]
}

/// Whether `list` is the port list that the text `s` stands for: the ports it names,
/// ascending and each once, or the default ports where it names none.
pub open spec fn is_port_list(s: Seq<char>, list: Seq<u16>) -> bool {
    if spec_ports(s) =~= Set::<u16>::empty() {
        list == spec_default_ports()
    } else {
        strictly_increasing(list) && list.to_set() =~= spec_ports(s)
    }
}

/// Two ascending lists without repetition that hold the same ports are one list.
pub proof fn lemma_increasing_lists_equal(a: Seq<u16>, b: Seq<u16>)
    requires
        strictly_increasing(a),
        strictly_increasing(b),
        a.to_set() =~= b.to_set(),
    ensures
        a == b,
    decreases a.len(),
{
    if a.len() == 0 {
        if b.len() > 0 {
            assert(b.to_set().contains(b[0]));
            assert(a.contains(b[0]));
        }
        assert(a =~= b);
    } else {
        // The last of `a` is its greatest, and so it is the last of `b`.
        assert(a.to_set().contains(a.last()));
        assert(b.contains(a.last()));
        let j = choose|j: int| 0 <= j < b.len() && b[j] == a.last();
        assert(b.to_set().contains(b.last()));
        assert(a.contains(b.last()));
        let i = choose|i: int| 0 <= i < a.len() && a[i] == b.last();
        assert(a.last() == b.last());
        let a0 = a.drop_last();
        let b0 = b.drop_last();
        assert forall|p: u16| a0.to_set().contains(p) <==> b0.to_set().contains(p) by {
            if a0.contains(p) {
                let x = choose|x: int| 0 <= x < a0.len() && a0[x] == p;
                assert(a[x] == p && p < a.last());
                assert(a.to_set().contains(p));
                assert(b.contains(p));
                let y = choose|y: int| 0 <= y < b.len() && b[y] == p;
                assert(y < b.len() - 1);
                assert(b0[y] == p);
            }
            if b0.contains(p) {
                let y = choose|y: int| 0 <= y < b0.len() && b0[y] == p;
                assert(b[y] == p && p < b.last());
                assert(b.to_set().contains(p));
                assert(a.contains(p));
                let x = choose|x: int| 0 <= x < a.len() && a[x] == p;
                assert(x < a.len() - 1);
                assert(a0[x] == p);
            }
        }
        lemma_increasing_lists_equal(a0, b0);
        assert(a =~= a0.push(a.last()));
        assert(b =~= b0.push(b.last()));
    }
}

/// A text stands for one port list and no other: whatever two runs of
/// [`string_to_ports`] give for the same text is the same list.
pub proof fn lemma_port_list_unique(s: Seq<char>, a: Seq<u16>, b: Seq<u16>)
    requires
        is_port_list(s, a),
        is_port_list(s, b),
    ensures
        a == b,
{
    if !(spec_ports(s) =~= Set::<u16>::empty()) {
        lemma_increasing_lists_equal(a, b);
    }
}

/// The ports that are served when none is configured.
pub fn default_ports() -> (r: Vec<u16>)
    ensures
        r@ == spec_default_ports(),
{
    let mut r: Vec<u16> = Vec::new();
    r.push(2001);
    r.push(2002);
    r.push(2003);
    assert(r@ =~= spec_default_ports());
    r
}

/// Parses the field that lies in `s` from `start` up to `end` as a port, whitespace
/// around it set aside.
fn parse_port_field(s: &str, start: usize, end: usize) -> (r: Option<u16>)
    requires
        start <= end <= s@.len(),
    ensures
        r == parse_port(trimmed(s@.subrange(start as int, end as int), Trim::Whitespace)),
{
    let (a, b) = trim_range(s, start, end, Trim::Whitespace);
    match parse_decimal_range(s, a, b, 0xFFFF) {
        Some(value) => Some(value as u16),
        None => None,
    }
}

/// Puts `port` in its place in an ascending list, unless the list has it already.
fn insert_port(list: &mut Vec<u16>, port: u16)
    requires
        strictly_increasing(old(list)@),
    ensures
        strictly_increasing(final(list)@),
        final(list)@.to_set() =~= old(list)@.to_set().insert(port),
{
    let mut i: usize = 0;
    while i < list.len() && list[i] < port
        invariant
            i <= list@.len(),
            list@ == old(list)@,
            forall|j: int| 0 <= j < i ==> list@[j] < port,
        decreases list@.len() - i,
    {
        i += 1;
    }
    if i < list.len() && list[i] == port {
        assert(list@.contains(port));
        assert(list@.to_set() =~= list@.to_set().insert(port));
        return;
    }
    let ghost before = list@;
    list.insert(i, port);
    proof {
        let after = list@;
        assert(after == before.insert(i as int, port));
        assert forall|x: int, y: int| 0 <= x < y < after.len() implies after[x] < after[y] by {
            if y < i {
                assert(after[x] == before[x] && after[y] == before[y]);
            } else if y == i {
                assert(after[x] == before[x]);
            } else if x < i {
                assert(after[x] == before[x] && after[y] == before[y - 1]);
            } else if x == i {
                assert(after[y] == before[y - 1]);
            } else {
                assert(after[x] == before[x - 1] && after[y] == before[y - 1]);
            }
        }
        assert forall|p: u16| after.to_set().contains(p) <==> before.to_set().insert(
            port,
        ).contains(p) by {
            if after.contains(p) {
                let x = choose|x: int| 0 <= x < after.len() && after[x] == p;
                if x < i {
                    assert(before[x] == p);
                } else if x > i {
                    assert(before[x - 1] == p);
                }
            }
            if before.contains(p) {
                let x = choose|x: int| 0 <= x < before.len() && before[x] == p;
                if x < i {
                    assert(after[x] == p);
                } else {
                    assert(after[x + 1] == p);
                }
            }
            if p == port {
                assert(after[i as int] == p);
            }
        }
    }
}

/// Reads a colon-separated list of ports, as in `2001:2002: 2003`.
///
/// Whitespace around a field is set aside, and a field that is no port is passed over.
/// The ports come back ascending, each once. Where the text names no port at all, the
/// default ports come back.
pub fn string_to_ports(input_string: &str) -> (r: Vec<u16>)
    ensures
        is_port_list(input_string@, r@),
{
    let n = input_string.unicode_len();
    let mut result: Vec<u16> = Vec::new();
    let mut start: usize = 0;
    assert(result@.to_set() =~= Set::<u16>::empty());
    loop
        invariant_except_break
            start <= n,
            result@.to_set().union(ports_from(input_string@, start as int)) =~= spec_ports(
                input_string@,
            ),
        invariant
            n == input_string@.len(),
            strictly_increasing(result@),
        ensures
            result@.to_set() =~= spec_ports(input_string@),
        decreases n - start,
    {
        let end = find_field_end(input_string, ':', start);
        let ghost earlier = result@.to_set();
        match parse_port_field(input_string, start, end) {
            Some(port) => {
                insert_port(&mut result, port);
            },
            None => {},
        }
        assert(result@.to_set() =~= earlier.union(
            field_ports(input_string@.subrange(start as int, end as int)),
        ));
        if end == n {
            break;
        }
        start = end + 1;
    }
    if result.len() == 0 {
        assert(result@.to_set() =~= Set::<u16>::empty());
        default_ports()
    } else {
        assert(result@.to_set().contains(result@[0]));
        result
    }
}

/// Makes the configuration from what the command line gave. Each setting that was not
/// given takes its default.
pub fn setup_configuration(
    ports: Option<&str>,
    log_level: Option<&str>,
    hostname: Option<&str>,
    db_name: Option<&str>,
    username: Option<&str>,
    password: Option<&str>,
    binary_filename: Option<&str>,
) -> (c: Configuration)
    ensures
        match ports {
            Some(text) => is_port_list(text@, c.ports@),
            None => c.ports@ == spec_default_ports(),
        },
        c.log_level@ == (match log_level {
            Some(text) => text@,
            None => "info"@,
        }),
        c.hostname@ == (match hostname {
            Some(text) => text@,
            None => "localhost"@,
        }),
        c.db_name@ == (match db_name {
            Some(text) => text@,
            None => "weatherstation"@,
        }),
        c.username@ == (match username {
            Some(text) => text@,
            None => "root"@,
        }),
        c.password@ == (match password {
            Some(text) => text@,
            None => "none"@,
        }),
        match binary_filename {
            Some(text) => c.binary_filename is Some && c.binary_filename->0@ == text@,
            None => c.binary_filename is None,
        },
{
    let ports = match ports {
        Some(text) => string_to_ports(text),
        None => default_ports(),
    };
    let log_level = match log_level {
        Some(text) => text,
        None => "info",
    };
    let hostname = match hostname {
        Some(text) => text,
        None => "localhost",
    };
    let db_name = match db_name {
        Some(text) => text,
        None => "weatherstation",
    };
    let username = match username {
        Some(text) => text,
        None => "root",
    };
    let password = match password {
        Some(text) => text,
        None => "none",
    };
    let binary_filename = match binary_filename {
        Some(text) => Some(String::from_str(text)),
        None => None,
    };
    Configuration {
        ports,
        log_level: String::from_str(log_level),
        hostname: String::from_str(hostname),
        db_name: String::from_str(db_name),
        username: String::from_str(username),
        password: String::from_str(password),
        binary_filename,
    }
}

} // verus!
