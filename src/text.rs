use vstd::prelude::*;
use vstd::string::*;

verus! {

/// `parts` joined with `sep` between neighbours.
pub open spec fn join(parts: Seq<Seq<char>>, sep: Seq<char>) -> Seq<char>
    decreases parts.len(),
{
    if parts.len() == 0 {
        Seq::empty()
    } else if parts.len() == 1 {
        parts[0]
    } else {
        join(parts.drop_last(), sep) + sep + parts.last()
    }
}

/// Each part followed by `suffix`.
pub open spec fn suffixed(parts: Seq<Seq<char>>, suffix: Seq<char>) -> Seq<Seq<char>> {
    parts.map_values(|p: Seq<char>| p + suffix)
}

pub open spec fn views(s: Seq<String>) -> Seq<Seq<char>> {
    s.map_values(|x: String| x@)
}

pub proof fn lemma_views_push(s: Seq<String>, x: String)
    ensures
        views(s.push(x)) == views(s).push(x@),
{
    assert(views(s.push(x)) =~= views(s).push(x@));
}

pub open spec fn digit_text(d: nat) -> Seq<char> {
    if d == 0 {
        "0"@
    } else if d == 1 {
        "1"@
    } else if d == 2 {
        "2"@
    } else if d == 3 {
        "3"@
    } else if d == 4 {
        "4"@
    } else if d == 5 {
        "5"@
    } else if d == 6 {
        "6"@
    } else if d == 7 {
        "7"@
    } else if d == 8 {
        "8"@
    } else {
        "9"@
    }
}

/// The decimal digits of `n`, most significant first, without leading zeros.
pub open spec fn decimal(n: nat) -> Seq<char>
    decreases n,
{
    if n < 10 {
        digit_text(n)
    } else {
        decimal(n / 10) + digit_text(n % 10)
    }
}

fn digit_str(d: u64) -> (r: &'static str)
    requires
        d < 10,
    ensures
        r@ == digit_text(d as nat),
{
    if d == 0 {
        "0"
    } else if d == 1 {
        "1"
    } else if d == 2 {
        "2"
    } else if d == 3 {
        "3"
    } else if d == 4 {
        "4"
    } else if d == 5 {
        "5"
    } else if d == 6 {
        "6"
    } else if d == 7 {
        "7"
    } else if d == 8 {
        "8"
    } else {
        "9"
    }
}

/// Appends the decimal form of `n`.
pub fn push_decimal(out: &mut String, n: u64)
    ensures
        final(out)@ == old(out)@ + decimal(n as nat),
    decreases n,
{
    if n >= 10 {
        push_decimal(out, n / 10);
        out.append(digit_str(n % 10));
        assert(final(out)@ =~= old(out)@ + decimal(n as nat));
    } else {
        out.append(digit_str(n));
    }
}

/// Appends `parts`, each followed by `suffix`, with `sep` between them.
pub fn push_joined(out: &mut String, parts: &Vec<String>, suffix: &str, sep: &str)
    ensures
        final(out)@ == old(out)@ + join(suffixed(views(parts@), suffix@), sep@),
{
    let ghost start = out@;
    let ghost all = suffixed(views(parts@), suffix@);
    let mut i: usize = 0;
    while i < parts.len()
        invariant
            i <= parts@.len(),
            all == suffixed(views(parts@), suffix@),
            all.len() == parts@.len(),
            out@ == start + join(all.take(i as int), sep@),
        decreases parts@.len() - i,
    {
        if i > 0 {
            out.append(sep);
        }
        out.append(parts[i].as_str());
        out.append(suffix);
        proof {
            let pre = all.take(i as int);
            let next = all.take(i + 1);
            assert(next.drop_last() =~= pre);
            assert(next.last() == parts@[i as int]@ + suffix@);
            if i == 0 {
                assert(join(pre, sep@) =~= Seq::<char>::empty());
                assert(out@ =~= start + join(next, sep@));
            } else {
                assert(out@ =~= start + join(next, sep@));
            }
        }
        i = i + 1;
    }
    assert(all.take(i as int) =~= all);
}

/// The text `"?"` repeated `n` times.
pub open spec fn placeholders(n: nat) -> Seq<Seq<char>> {
    Seq::new(n, |i: int| "?"@)
}

/// Appends `n` placeholders separated by commas.
pub fn push_placeholders(out: &mut String, n: usize)
    ensures
        final(out)@ == old(out)@ + join(placeholders(n as nat), ","@),
{
    let ghost start = out@;
    let mut i: usize = 0;
    while i < n
        invariant
            i <= n,
            out@ == start + join(placeholders(i as nat), ","@),
        decreases n - i,
    {
        if i > 0 {
            out.append(",");
        }
        out.append("?");
        proof {
            let next = placeholders((i + 1) as nat);
            assert(next.drop_last() =~= placeholders(i as nat));
            if i == 0 {
                assert(join(placeholders(0), ","@) =~= Seq::<char>::empty());
            }
            assert(out@ =~= start + join(next, ","@));
        }
        i = i + 1;
    }
}

} // verus!
