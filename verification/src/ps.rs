//! Helpers of the process listing.

use vstd::prelude::*;
use vstd::string::*;
use crate::text::{chars_of, decimal, push_char, push_chars, push_decimal};

verus! {

/// `s` cut to at most `max_len` characters: kept whole when it fits; else,
/// when there is room, its first `max_len - 3` characters and `...`; else
/// `max_len` dots.
pub open spec fn truncated(s: Seq<char>, max_len: nat) -> Seq<char> {
    if s.len() <= max_len {
        s
    } else if max_len <= 3 {
        Seq::new(max_len, |i: int| '.')
    } else {
        s.take(max_len - 3) + seq!['.', '.', '.']
    }
}

/// Cuts `s` to at most `max_len` characters (see [`truncated`]); counts
/// characters, not bytes.
pub fn truncate(s: &str, max_len: usize) -> (r: String)
    ensures
        r@ == truncated(s@, max_len as nat),
{
    let v = chars_of(s);
    if v.len() <= max_len {
        String::from_str(s)
    } else if max_len <= 3 {
        let mut r = String::new();
        let mut i: usize = 0;
        while i < max_len
            invariant
                i <= max_len,
                r@ =~= Seq::new(i as nat, |k: int| '.'),
            decreases max_len - i,
        {
            push_char(&mut r, '.');
            i = i + 1;
        }
        r
    } else {
        let mut r = String::new();
        push_chars(&mut r, &v, 0, max_len - 3);
        r.append("...");
        proof {
            reveal_strlit("...");
        }
        assert(r@ =~= truncated(s@, max_len as nat));
        r
    }
}

/// Port numbers separated by `, `.
pub open spec fn joined_ports(ports: Seq<u32>) -> Seq<char>
    decreases ports.len(),
{
    if ports.len() == 0 {
        Seq::empty()
    } else if ports.len() == 1 {
        decimal(ports[0] as nat)
    } else {
        joined_ports(ports.drop_last()) + ", "@ + decimal(ports.last() as nat)
    }
}

/// The ports column: the ports separated by `, `, or `-` when there are none.
pub open spec fn ports_column(ports: Seq<u32>) -> Seq<char> {
    if ports.len() == 0 {
        "-"@
    } else {
        joined_ports(ports)
    }
}

/// Appends the ports separated by `, ` to `s`.
pub fn push_ports(s: &mut String, ports: &[u32])
    ensures
        final(s)@ == old(s)@ + joined_ports(ports@),
{
    let mut i: usize = 0;
    while i < ports.len()
        invariant
            i <= ports@.len(),
            s@ == old(s)@ + joined_ports(ports@.take(i as int)),
        decreases ports.len() - i,
    {
        let ghost before = s@;
        if i > 0 {
            s.append(", ");
        }
        push_decimal(s, ports[i] as u64);
        proof {
            let t = ports@.take(i + 1);
            assert(t.drop_last() =~= ports@.take(i as int));
            assert(t.last() == ports@[i as int]);
            if i == 0 {
                assert(joined_ports(ports@.take(0)) =~= Seq::<char>::empty());
                assert(s@ =~= old(s)@ + joined_ports(t));
            } else {
                assert(s@ =~= old(s)@ + joined_ports(t));
            }
        }
        i = i + 1;
    }
    assert(ports@.take(ports@.len() as int) =~= ports@);
}

/// The ports column of the listing.
pub fn format_ports(ports: &[u32]) -> (r: String)
    ensures
        r@ == ports_column(ports@),
{
    if ports.len() == 0 {
        String::from_str("-")
    } else {
        let mut s = String::new();
        push_ports(&mut s, ports);
        assert(s@ =~= joined_ports(ports@));
        s
    }
}


/// A cut text never exceeds the width: it keeps `min(len, max_len)`
/// characters, and when it is cut with room for them it ends with `...`.
pub proof fn truncation_fits_width(s: Seq<char>, max_len: nat)
    ensures
        truncated(s, max_len).len() == if s.len() <= max_len {
            s.len()
        } else {
            max_len
        },
        s.len() > max_len && max_len > 3 ==> truncated(s, max_len).skip(max_len - 3) == seq![
            '.',
            '.',
            '.',
        ],
        s.len() <= max_len ==> truncated(s, max_len) == s,
{
    if s.len() > max_len && max_len > 3 {
        assert(truncated(s, max_len).skip(max_len - 3) =~= seq!['.', '.', '.']);
    }
}

} // verus!
