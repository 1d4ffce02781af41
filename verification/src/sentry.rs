//! Parsing for the port sentry: which processes hold the fixed port.
//!
//! At startup the bridge asks the OS which processes listen on its port —
//! through the standard listing utility on UNIX, the netstat utility
//! elsewhere — and terminates the stale ones.  The utilities run outside
//! the library; what they print is parsed here, exactly.

use vstd::prelude::*;

use crate::text::{
    contains_sub, dec_digits, int_of_digits, last_token, last_token_str, parse_i32, parse_i32_val,
    parse_u32, parse_u32_ok, push_char, split_on, split_str, str_contains, trim_str, trimmed,
    u64_to_dec,
};

verus! {

/// A line without its trailing carriage return, if it has one.
pub open spec fn strip_cr(l: Seq<char>) -> Seq<char> {
    if l.len() > 0 && l.last() == '\r' {
        l.drop_last()
    } else {
        l
    }
}

/// The lines of `s`: split on line feeds, one trailing carriage return
/// removed per line, and a final empty line (from a trailing line feed)
/// dropped.
pub open spec fn lines_of(s: Seq<char>) -> Seq<Seq<char>> {
    let p = split_on(s, '\n');
    let q = if p.len() > 0 && p.last().len() == 0 {
        p.drop_last()
    } else {
        p
    };
    q.map_values(|l: Seq<char>| strip_cr(l))
}

/// Splits `s` into lines.
pub fn lines_str(s: &str) -> (r: Vec<String>)
    ensures
        r.deep_view() == lines_of(s@),
{
    let mut parts = split_str(s, '\n');
    let ghost p = split_on(s@, '\n');
    if parts.len() > 0 {
        let lastlen = parts[parts.len() - 1].as_str().unicode_len();
        if lastlen == 0 {
            let _ = parts.pop();
        }
    }
    let ghost q = if p.len() > 0 && p.last().len() == 0 {
        p.drop_last()
    } else {
        p
    };
    proof {
        assert(parts.deep_view() =~= q);
    }
    let mut out: Vec<String> = Vec::new();
    let ghost target = q.map_values(|l: Seq<char>| strip_cr(l));
    let mut i: usize = 0;
    while i < parts.len()
        invariant
            i <= parts@.len(),
            parts.deep_view() == q,
            target == q.map_values(|l: Seq<char>| strip_cr(l)),
            out.deep_view() == target.subrange(0, i as int),
        decreases parts@.len() - i,
    {
        let line = &parts[i];
        let n = line.as_str().unicode_len();
        let stripped: String = if n > 0 && line.as_str().get_char(n - 1) == '\r' {
            line.as_str().substring_char(0, n - 1).to_owned()
        } else {
            line.clone()
        };
        let ghost pre_dv = out.deep_view();
        let ghost sv = stripped@;
        proof {
            assert(q[i as int] == parts@[i as int]@);
            assert(sv =~= strip_cr(q[i as int]));
        }
        out.push(stripped);
        proof {
            assert(out.deep_view() =~= pre_dv.push(sv));
            assert(out.deep_view() =~= target.subrange(0, i + 1));
        }
        i += 1;
    }
    proof {
        assert(out.deep_view() =~= target);
    }
    out
}

/// The process identifiers named by the port-listing utility's output: one
/// per line, trimmed, parsed as a signed number, the current process's own
/// identifier left out.
pub open spec fn lsof_pids_of(ls: Seq<Seq<char>>, self_pid: int) -> Seq<int>
    decreases ls.len(),
{
    if ls.len() == 0 {
        Seq::empty()
    } else {
        let rest = lsof_pids_of(ls.drop_last(), self_pid);
        match parse_i32_val(trimmed(ls.last())) {
            Some(v) => if v != self_pid {
                rest.push(v)
            } else {
                rest
            },
            None => rest,
        }
    }
}

/// Parses the port-listing utility's output into the identifiers of the
/// other processes on the port.
pub fn parse_listener_pids(output: &str, self_pid: i32) -> (r: Vec<i32>)
    ensures
        r@.map_values(|p: i32| p as int) == lsof_pids_of(lines_of(output@), self_pid as int),
{
    let lines = lines_str(output);
    let ghost ls = lines_of(output@);
    let mut r: Vec<i32> = Vec::new();
    let mut i: usize = 0;
    proof {
        assert(ls.subrange(0, 0) =~= Seq::<Seq<char>>::empty());
        assert(r@.map_values(|p: i32| p as int) =~= lsof_pids_of(ls.subrange(0, 0), self_pid as int));
    }
    while i < lines.len()
        invariant
            i <= lines@.len(),
            lines.deep_view() == ls,
            r@.map_values(|p: i32| p as int) == lsof_pids_of(
                ls.subrange(0, i as int),
                self_pid as int,
            ),
        decreases lines@.len() - i,
    {
        let line = &lines[i];
        let t = trim_str(line.as_str());
        let ghost pre = r@;
        let ghost sub = ls.subrange(0, i as int);
        let ghost sub2 = ls.subrange(0, i + 1);
        proof {
            assert(sub2.drop_last() =~= sub);
            assert(sub2.last() == ls[i as int]);
            assert(ls[i as int] == lines@[i as int]@);
        }
        match parse_i32(t.as_str()) {
            Some(pid) => {
                if pid != self_pid {
                    r.push(pid);
                    proof {
                        assert(r@.map_values(|p: i32| p as int) =~= pre.map_values(
                            |p: i32| p as int,
                        ).push(pid as int));
                    }
                }
            },
            None => {},
        }
        proof {
            assert(r@.map_values(|p: i32| p as int) =~= lsof_pids_of(sub2, self_pid as int));
        }
        i += 1;
    }
    proof {
        assert(ls.subrange(0, ls.len() as int) =~= ls);
    }
    r
}

/// The process identifiers named by the netstat utility's output for a
/// port: the lines naming both the port pattern and the listening state,
/// their last whitespace-separated token parsed as an unsigned number, the
/// current process's own identifier left out.
pub open spec fn netstat_pids_of(ls: Seq<Seq<char>>, pattern: Seq<char>, self_pid: int) -> Seq<
    int,
>
    decreases ls.len(),
{
    if ls.len() == 0 {
        Seq::empty()
    } else {
        let rest = netstat_pids_of(ls.drop_last(), pattern, self_pid);
        let l = ls.last();
        if contains_sub(l, pattern) && contains_sub(l, "LISTENING"@) && parse_u32_ok(
            last_token(l),
        ) && int_of_digits(last_token(l)) != self_pid {
            rest.push(int_of_digits(last_token(l)))
        } else {
            rest
        }
    }
}

/// The pattern a netstat line must name: a colon followed by the port in
/// decimal.
pub open spec fn port_pattern(port: u16) -> Seq<char> {
    seq![':'] + dec_digits(port as nat)
}

/// Parses the netstat utility's output into the identifiers of the other
/// processes listening on `port`.
pub fn parse_netstat_pids(output: &str, port: u16, self_pid: u32) -> (r: Vec<u32>)
    ensures
        r@.map_values(|p: u32| p as int) == netstat_pids_of(
            lines_of(output@),
            port_pattern(port),
            self_pid as int,
        ),
{
    let mut pattern = String::new();
    push_char(&mut pattern, ':');
    let digits = u64_to_dec(port as u64);
    pattern.append(digits.as_str());
    proof {
        assert(pattern@ =~= port_pattern(port));
    }
    let lines = lines_str(output);
    let ghost ls = lines_of(output@);
    let mut r: Vec<u32> = Vec::new();
    let mut i: usize = 0;
    proof {
        assert(ls.subrange(0, 0) =~= Seq::<Seq<char>>::empty());
        assert(r@.map_values(|p: u32| p as int) =~= netstat_pids_of(
            ls.subrange(0, 0),
            port_pattern(port),
            self_pid as int,
        ));
    }
    while i < lines.len()
        invariant
            i <= lines@.len(),
            lines.deep_view() == ls,
            pattern@ == port_pattern(port),
            r@.map_values(|p: u32| p as int) == netstat_pids_of(
                ls.subrange(0, i as int),
                port_pattern(port),
                self_pid as int,
            ),
        decreases lines@.len() - i,
    {
        let line = &lines[i];
        let ghost pre = r@;
        let ghost sub = ls.subrange(0, i as int);
        let ghost sub2 = ls.subrange(0, i + 1);
        proof {
            assert(sub2.drop_last() =~= sub);
            assert(sub2.last() == ls[i as int]);
            assert(ls[i as int] == lines@[i as int]@);
        }
        if str_contains(line.as_str(), pattern.as_str()) && str_contains(
            line.as_str(),
            "LISTENING",
        ) {
            let tok = last_token_str(line.as_str());
            match parse_u32(tok.as_str()) {
                Some(pid) => {
                    if pid != self_pid {
                        r.push(pid);
                        proof {
                            assert(r@.map_values(|p: u32| p as int) =~= pre.map_values(
                                |p: u32| p as int,
                            ).push(pid as int));
                        }
                    }
                },
                None => {},
            }
        }
        proof {
            assert(r@.map_values(|p: u32| p as int) =~= netstat_pids_of(
                sub2,
                port_pattern(port),
                self_pid as int,
            ));
        }
        i += 1;
    }
    proof {
        assert(ls.subrange(0, ls.len() as int) =~= ls);
    }
    r
}

} // verus!
