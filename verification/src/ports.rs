//! Choosing free ports in a range.

use vstd::prelude::*;

verus! {

/// The ports `lo, lo + 1, ..., hi - 1`.
pub open spec fn port_range(lo: int, hi: int) -> Seq<u16> {
    Seq::new((hi - lo) as nat, |i: int| (lo + i) as u16)
}

/// The ports of `[lo, hi)` that are not in `used`, in increasing order.
pub open spec fn free_ports(lo: int, hi: int, used: Seq<u16>) -> Seq<u16> {
    port_range(lo, hi).filter(|p: u16| !used.contains(p))
}

proof fn lemma_range_push(lo: int, hi: int)
    requires
        0 <= lo <= hi < 0x10000,
    ensures
        port_range(lo, hi + 1) == port_range(lo, hi).push(hi as u16),
{
    assert(port_range(lo, hi + 1) =~= port_range(lo, hi).push(hi as u16));
}

fn contains_port(used: &Vec<u16>, p: u16) -> (r: bool)
    ensures
        r == used@.contains(p),
{
    let n: usize = used.len();
    let mut i: usize = 0;
    while i < n
        invariant
            n == used@.len(),
            i <= n,
            forall|k: int| 0 <= k < i ==> used@[k] != p,
        decreases n - i,
    {
        if used[i] == p {
            assert(used@[i as int] == p);
            return true;
        }
        i = i + 1;
    }
    false
}

/// The ports of `[lo, hi)` that are not in `used`, in increasing order.
pub fn free_ports_between(lo: u16, hi: u16, used: &Vec<u16>) -> (r: Vec<u16>)
    requires
        lo <= hi,
    ensures
        r@ == free_ports(lo as int, hi as int, used@),
{
    let mut r: Vec<u16> = Vec::new();
    let mut p: u16 = lo;
    proof {
        assert(port_range(lo as int, lo as int) =~= Seq::<u16>::empty());
        reveal_with_fuel(Seq::filter, 1);
        assert(r@ =~= free_ports(lo as int, lo as int, used@));
    }
    while p < hi
        invariant
            lo <= p <= hi,
            r@ == free_ports(lo as int, p as int, used@),
        decreases hi - p,
    {
        let taken: bool = contains_port(used, p);
        proof {
            lemma_range_push(lo as int, p as int);
            let s = port_range(lo as int, p as int);
            assert(s.push(p).drop_last() =~= s);
            reveal_with_fuel(Seq::filter, 1);
        }
        if !taken {
            r.push(p);
        }
        p = p + 1;
    }
    r
}

/// A port is free in `[lo, hi)` exactly when it lies in the range and is not used.
pub proof fn lemma_free_ports_members(lo: int, hi: int, used: Seq<u16>, p: u16)
    requires
        0 <= lo <= hi <= 0x10000,
    ensures
        free_ports(lo, hi, used).contains(p) <==> (lo <= p < hi && !used.contains(p)),
    decreases hi - lo,
{
    if hi == lo {
        assert(port_range(lo, hi) =~= Seq::<u16>::empty());
        reveal_with_fuel(Seq::filter, 1);
        assert(free_ports(lo, hi, used) =~= Seq::<u16>::empty());
    } else {
        lemma_free_ports_members(lo, hi - 1, used, p);
        lemma_range_push(lo, hi - 1);
        let s = port_range(lo, hi - 1);
        assert(s.push((hi - 1) as u16).drop_last() =~= s);
        reveal_with_fuel(Seq::filter, 1);
        let f = free_ports(lo, hi - 1, used);
        if !used.contains((hi - 1) as u16) {
            assert(free_ports(lo, hi, used) == f.push((hi - 1) as u16));
            let g = f.push((hi - 1) as u16);
            if g.contains(p) {
                let k = choose|k: int| 0 <= k < g.len() && #[trigger] g[k] == p;
                if k < f.len() {
                    assert(f[k] == p);
                    assert(f.contains(p));
                }
            }
            if f.contains(p) {
                let k = choose|k: int| 0 <= k < f.len() && #[trigger] f[k] == p;
                assert(f.push((hi - 1) as u16)[k] == p);
            }
            if p == hi - 1 {
                assert(f.push((hi - 1) as u16)[f.len() as int] == p);
            }
        } else {
            assert(free_ports(lo, hi, used) == f);
        }
    }
}

/// The free ports come in strictly increasing order.
pub proof fn lemma_free_ports_increasing(lo: int, hi: int, used: Seq<u16>, i: int, j: int)
    requires
        0 <= lo <= hi <= 0x10000,
        0 <= i < j < free_ports(lo, hi, used).len(),
    ensures
        free_ports(lo, hi, used)[i] < free_ports(lo, hi, used)[j],
    decreases hi - lo,
{
    if hi > lo {
        lemma_range_push(lo, hi - 1);
        let s = port_range(lo, hi - 1);
        assert(s.push((hi - 1) as u16).drop_last() =~= s);
        reveal_with_fuel(Seq::filter, 1);
        let f = free_ports(lo, hi - 1, used);
        if !used.contains((hi - 1) as u16) {
            assert(free_ports(lo, hi, used) == f.push((hi - 1) as u16));
            if j < f.len() {
                lemma_free_ports_increasing(lo, hi - 1, used, i, j);
            } else {
                assert(f.contains(f[i]));
                lemma_free_ports_members(lo, hi - 1, used, f[i]);
            }
        } else {
            assert(free_ports(lo, hi, used) == f);
            lemma_free_ports_increasing(lo, hi - 1, used, i, j);
        }
    }
}

} // verus!
