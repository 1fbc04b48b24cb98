//! Relay URL validation and the comma-separated relay list: splitting,
//! trimming and dropping empty entries, exactly as the command line hands
//! them over.
use vstd::prelude::*;
use vstd::string::StrSliceExecFns;

use crate::hexcode::chars_to_string;

verus! {

/// The scheme prefix of an unencrypted relay endpoint.
pub open spec fn ws_prefix() -> Seq<char> {
    seq!['w', 's', ':', '/', '/']
}

/// The scheme prefix of an encrypted relay endpoint.
pub open spec fn wss_prefix() -> Seq<char> {
    seq!['w', 's', 's', ':', '/', '/']
}

/// Does `t` start with `p`?
pub open spec fn has_prefix(t: Seq<char>, p: Seq<char>) -> bool {
    t.len() >= p.len() && t.take(p.len() as int) == p
}

/// A relay URL is accepted when it names one of the protocol's two
/// WebSocket schemes and a nonempty remainder follows the scheme.
pub open spec fn valid_relay_url(t: Seq<char>) -> bool {
    ||| (has_prefix(t, ws_prefix()) && t.len() > ws_prefix().len())
    ||| (has_prefix(t, wss_prefix()) && t.len() > wss_prefix().len())
}

/// Exec check of `valid_relay_url`.
pub fn is_valid_relay_url(url: &str) -> (r: bool)
    ensures
        r == valid_relay_url(url@),
{
    let n = url.unicode_len();
    let ws = n > 5 && url.get_char(0) == 'w' && url.get_char(1) == 's' && url.get_char(2) == ':'
        && url.get_char(3) == '/' && url.get_char(4) == '/';
    let wss = n > 6 && url.get_char(0) == 'w' && url.get_char(1) == 's' && url.get_char(2) == 's'
        && url.get_char(3) == ':' && url.get_char(4) == '/' && url.get_char(5) == '/';
    proof {
        if ws {
            assert(url@.take(5) =~= ws_prefix());
        }
        if wss {
            assert(url@.take(6) =~= wss_prefix());
        }
        if !ws && has_prefix(url@, ws_prefix()) && url@.len() > 5 {
            assert(url@[0] == ws_prefix()[0]);
            assert(url@[1] == ws_prefix()[1]);
            assert(url@[2] == ws_prefix()[2]);
            assert(url@[3] == ws_prefix()[3]);
            assert(url@[4] == ws_prefix()[4]);
        }
        if !wss && has_prefix(url@, wss_prefix()) && url@.len() > 6 {
            assert(url@[0] == wss_prefix()[0]);
            assert(url@[1] == wss_prefix()[1]);
            assert(url@[2] == wss_prefix()[2]);
            assert(url@[3] == wss_prefix()[3]);
            assert(url@[4] == wss_prefix()[4]);
            assert(url@[5] == wss_prefix()[5]);
        }
    }
    ws || wss
}

/// The pieces of `s` between commas, in order; a string without commas is
/// one piece, and every comma separates two (possibly empty) pieces.
pub open spec fn split_commas(s: Seq<char>) -> Seq<Seq<char>>
    decreases s.len(),
{
    if s.len() == 0 {
        seq![Seq::<char>::empty()]
    } else if s.last() == ',' {
        split_commas(s.drop_last()).push(Seq::<char>::empty())
    } else {
        let r = split_commas(s.drop_last());
        r.update(r.len() - 1, r.last().push(s.last()))
    }
}

/// Whitespace that trimming removes.
pub open spec fn is_space(c: char) -> bool {
    c == ' ' || c == '\t' || c == '\r' || c == '\n'
}

/// `t` with leading and trailing whitespace removed.
pub open spec fn trim_spec(t: Seq<char>) -> Seq<char>
    decreases t.len(),
{
    if t.len() == 0 {
        t
    } else if is_space(t[0]) {
        trim_spec(t.skip(1))
    } else if is_space(t.last()) {
        trim_spec(t.drop_last())
    } else {
        t
    }
}

/// The nonempty entries of `ts`, in order.
pub open spec fn nonempty_only(ts: Seq<Seq<char>>) -> Seq<Seq<char>>
    decreases ts.len(),
{
    if ts.len() == 0 {
        Seq::<Seq<char>>::empty()
    } else if ts.last().len() != 0 {
        nonempty_only(ts.drop_last()).push(ts.last())
    } else {
        nonempty_only(ts.drop_last())
    }
}

/// What a comma-separated relay list stands for: split on commas, trim
/// each piece, drop the empty ones.
pub open spec fn relay_list_spec(s: Seq<char>) -> Seq<Seq<char>> {
    nonempty_only(split_commas(s).map_values(|t: Seq<char>| trim_spec(t)))
}

fn is_space_exec(c: char) -> (r: bool)
    ensures
        r == is_space(c),
{
    c == ' ' || c == '\t' || c == '\r' || c == '\n'
}

/// `src` with leading and trailing whitespace removed.
fn trim_chars(src: &Vec<char>) -> (r: Vec<char>)
    ensures
        r@ == trim_spec(src@),
{
    proof {
        assert(src@.skip(0) =~= src@);
    }
    let mut a: usize = 0;
    while a < src.len() && is_space_exec(src[a])
        invariant
            a <= src@.len(),
            trim_spec(src@) == trim_spec(src@.skip(a as int)),
        decreases src@.len() - a,
    {
        proof {
            assert(src@.skip(a as int)[0] == src@[a as int]);
            assert(src@.skip(a as int).skip(1) =~= src@.skip(a as int + 1));
        }
        a = a + 1;
    }
    proof {
        assert(src@.skip(a as int) =~= src@.subrange(a as int, src@.len() as int));
    }
    let mut b: usize = src.len();
    while b > a && is_space_exec(src[b - 1])
        invariant
            a <= b <= src@.len(),
            a < src@.len() ==> !is_space(src@[a as int]),
            a == b || !is_space(src@[a as int]),
            trim_spec(src@) == trim_spec(src@.subrange(a as int, b as int)),
        decreases b,
    {
        proof {
            let part = src@.subrange(a as int, b as int);
            assert(part[0] == src@[a as int]);
            assert(part.last() == src@[b - 1 as int]);
            assert(part.drop_last() =~= src@.subrange(a as int, b as int - 1));
        }
        b = b - 1;
    }
    proof {
        assert(src@.skip(a as int) =~= src@.subrange(a as int, src@.len() as int));
        let part = src@.subrange(a as int, b as int);
        if part.len() != 0 {
            assert(part[0] == src@[a as int]);
            assert(part.last() == src@[b - 1 as int]);
        }
    }
    let mut out: Vec<char> = Vec::new();
    let mut j: usize = a;
    while j < b
        invariant
            a <= j <= b <= src@.len(),
            out@ =~= src@.subrange(a as int, j as int),
        decreases b - j,
    {
        out.push(src[j]);
        j = j + 1;
        proof {
            assert(out@ =~= src@.subrange(a as int, j as int));
        }
    }
    proof {
        assert(out@ =~= src@.subrange(a as int, b as int));
    }
    out
}

/// Splits a comma-separated relay list into its trimmed, nonempty entries,
/// in order: exactly `relay_list_spec` of the text.
pub fn split_relay_list(s: &str) -> (r: Vec<String>)
    ensures
        r@.len() == relay_list_spec(s@).len(),
        forall|i: int|
            0 <= i < r@.len() ==> #[trigger] r@[i]@ == relay_list_spec(s@)[i],
{
    let n = s.unicode_len();
    let mut raw: Vec<Vec<char>> = Vec::new();
    let mut cur: Vec<char> = Vec::new();
    let mut i: usize = 0;
    while i < n
        invariant
            n == s@.len(),
            i <= n,
            split_commas(s@.take(i as int)) =~= raw@.map_values(|t: Vec<char>| t@).push(cur@),
        decreases n - i,
    {
        let c = s.get_char(i);
        let ghost prev = s@.take(i as int);
        if c == ',' {
            raw.push(cur);
            cur = Vec::new();
        } else {
            cur.push(c);
        }
        i = i + 1;
        proof {
            let now = s@.take(i as int);
            assert(now.drop_last() =~= prev);
            assert(now.last() == c);
            if c == ',' {
                assert(split_commas(now) =~= raw@.map_values(|t: Vec<char>| t@).push(cur@));
            } else {
                let r0 = split_commas(prev);
                assert(split_commas(now) =~= r0.update(r0.len() - 1, r0.last().push(c)));
                assert(split_commas(now) =~= raw@.map_values(|t: Vec<char>| t@).push(cur@));
            }
        }
    }
    proof {
        assert(s@.take(n as int) =~= s@);
    }
    raw.push(cur);
    let ghost pieces = split_commas(s@);
    proof {
        assert(raw@.map_values(|t: Vec<char>| t@) =~= pieces);
    }
    let mut out: Vec<String> = Vec::new();
    let mut j: usize = 0;
    let ghost trimmed = pieces.map_values(|t: Seq<char>| trim_spec(t));
    while j < raw.len()
        invariant
            j <= raw@.len(),
            raw@.map_values(|t: Vec<char>| t@) =~= pieces,
            trimmed == pieces.map_values(|t: Seq<char>| trim_spec(t)),
            out@.map_values(|x: String| x@) =~= nonempty_only(trimmed.take(j as int)),
        decreases raw@.len() - j,
    {
        let t = trim_chars(&raw[j]);
        proof {
            assert(raw@[j as int]@ == pieces[j as int]);
            assert(trimmed.take(j as int + 1).drop_last() =~= trimmed.take(j as int));
            assert(trimmed.take(j as int + 1).last() == trim_spec(pieces[j as int]));
        }
        if t.len() != 0 {
            let entry = chars_to_string(&t);
            out.push(entry);
        }
        j = j + 1;
        proof {
            assert(out@.map_values(|x: String| x@) =~= nonempty_only(trimmed.take(j as int)));
        }
    }
    proof {
        assert(trimmed.take(raw@.len() as int) =~= trimmed);
        assert(out@.map_values(|x: String| x@) =~= relay_list_spec(s@));
        assert forall|i: int| 0 <= i < out@.len() implies #[trigger] out@[i]@ == relay_list_spec(
            s@,
        )[i] by {
            assert(out@.map_values(|x: String| x@)[i] == out@[i]@);
        }
    }
    out
}

} // verus!
