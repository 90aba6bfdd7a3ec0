use vstd::prelude::*;

verus! {

/// 256 raised to the power `n`: the number of distinct `n`-byte strings.
pub open spec fn pow256(n: nat) -> nat
    decreases n,
{
    if n == 0 {
        1
    } else {
        256 * pow256((n - 1) as nat)
    }
}

/// The value of a byte string read as one big-endian unsigned integer.
pub open spec fn be_val(b: Seq<u8>) -> nat
    decreases b.len(),
{
    if b.len() == 0 {
        0
    } else {
        be_val(b.drop_last()) * 256 + (b.last() as nat)
    }
}

/// The `len`-byte big-endian encoding of `x mod 256^len`.
pub open spec fn be_bytes(x: nat, len: nat) -> Seq<u8>
    decreases len,
{
    if len == 0 {
        Seq::empty()
    } else {
        be_bytes(x / 256, (len - 1) as nat).push((x % 256) as u8)
    }
}

pub proof fn lemma_be_val_bound(b: Seq<u8>)
    ensures
        be_val(b) < pow256(b.len()),
    decreases b.len(),
{
    if b.len() > 0 {
        lemma_be_val_bound(b.drop_last());
    }
}

pub proof fn lemma_be_bytes_len(x: nat, len: nat)
    ensures
        be_bytes(x, len).len() == len,
    decreases len,
{
    if len > 0 {
        lemma_be_bytes_len(x / 256, (len - 1) as nat);
    }
}

pub proof fn lemma_be_bytes_val(x: nat, len: nat)
    requires
        x < pow256(len),
    ensures
        be_val(be_bytes(x, len)) == x,
    decreases len,
{
    if len > 0 {
        let inner = be_bytes(x / 256, (len - 1) as nat);
        assert(x / 256 < pow256((len - 1) as nat)) by (nonlinear_arith)
            requires
                x < pow256(len),
                pow256(len) == 256 * pow256((len - 1) as nat),
        {}
        lemma_be_bytes_val(x / 256, (len - 1) as nat);
        assert(be_bytes(x, len).drop_last() =~= inner);
        assert(((x % 256) as u8) as nat == x % 256);
        assert(be_val(be_bytes(x, len)) == (x / 256) * 256 + x % 256);
    }
}

/// Reading a byte string big-endian splits as: first byte times the weight of
/// its position, plus the value of the rest.
pub proof fn lemma_be_val_head(b: Seq<u8>)
    requires
        b.len() >= 1,
    ensures
        be_val(b) == (b[0] as nat) * pow256((b.len() - 1) as nat) + be_val(
            b.subrange(1, b.len() as int),
        ),
    decreases b.len(),
{
    if b.len() == 1 {
        assert(b.drop_last() =~= Seq::<u8>::empty());
        assert(b.subrange(1, 1) =~= Seq::<u8>::empty());
        assert(be_val(Seq::<u8>::empty()) == 0);
        assert(be_val(b) == be_val(b.drop_last()) * 256 + (b.last() as nat));
        assert(pow256(0) == 1);
        assert(b.last() == b[0]);
        assert(be_val(b) == (b[0] as nat) * pow256((b.len() - 1) as nat) + be_val(
            b.subrange(1, b.len() as int),
        ));
    } else {
        let t = b.drop_last();
        let tb = b.subrange(1, b.len() as int);
        lemma_be_val_head(t);
        assert(tb.drop_last() =~= t.subrange(1, t.len() as int));
        assert(tb.last() == b.last());
        assert(be_val(tb) == be_val(t.subrange(1, t.len() as int)) * 256 + (b.last() as nat));
        let p_small = pow256((t.len() - 1) as nat);
        assert(pow256((b.len() - 1) as nat) == 256 * p_small);
        assert(t[0] == b[0]);
        assert(be_val(b) == (b[0] as nat) * pow256((b.len() - 1) as nat) + be_val(tb))
            by (nonlinear_arith)
            requires
                be_val(b) == be_val(t) * 256 + (b.last() as nat),
                be_val(t) == (t[0] as nat) * p_small + be_val(t.subrange(1, t.len() as int)),
                be_val(tb) == be_val(t.subrange(1, t.len() as int)) * 256 + (b.last() as nat),
                t[0] == b[0],
                pow256((b.len() - 1) as nat) == 256 * p_small,
        {}
    }
}

/// If two equally long byte strings agree on a prefix and the first differs
/// below the second right after it, the first reads as the smaller integer.
pub proof fn lemma_be_prefix_lt(a: Seq<u8>, b: Seq<u8>, i: int)
    requires
        a.len() == b.len(),
        0 <= i < a.len(),
        forall|j: int| 0 <= j < i ==> a[j] == b[j],
        a[i] < b[i],
    ensures
        be_val(a) < be_val(b),
    decreases i,
{
    lemma_be_val_head(a);
    lemma_be_val_head(b);
    let p = pow256((a.len() - 1) as nat);
    let ta = a.subrange(1, a.len() as int);
    let tb = b.subrange(1, b.len() as int);
    if i == 0 {
        lemma_be_val_bound(ta);
        assert(be_val(a) < be_val(b)) by (nonlinear_arith)
            requires
                be_val(a) == (a[0] as nat) * p + be_val(ta),
                be_val(b) == (b[0] as nat) * p + be_val(tb),
                be_val(ta) < p,
                (a[0] as nat) < (b[0] as nat),
        {}
    } else {
        assert forall|j: int| 0 <= j < i - 1 implies ta[j] == tb[j] by {
            assert(a[j + 1] == b[j + 1]);
        }
        assert(ta[i - 1] < tb[i - 1]);
        lemma_be_prefix_lt(ta, tb, i - 1);
    }
}

/// A byte string reads as zero exactly when every one of its bytes is zero.
pub proof fn lemma_be_val_zero(b: Seq<u8>)
    ensures
        (be_val(b) == 0) <==> (forall|i: int| 0 <= i < b.len() ==> b[i] == 0),
    decreases b.len(),
{
    if b.len() > 0 {
        let t = b.drop_last();
        lemma_be_val_zero(t);
        if be_val(b) == 0 {
            assert(be_val(t) == 0 && b.last() == 0);
            assert forall|i: int| 0 <= i < b.len() implies b[i] == 0 by {
                if i < b.len() - 1 {
                    assert(t[i] == 0);
                }
            }
        }
        if forall|i: int| 0 <= i < b.len() ==> b[i] == 0 {
            assert forall|i: int| 0 <= i < t.len() implies t[i] == 0 by {
                assert(b[i] == 0);
            }
            assert(be_val(t) == 0);
            assert(b.last() == 0);
        }
    }
}

/// Compares two equally long byte strings as big-endian integers.
pub fn be_less(a: &[u8], b: &[u8]) -> (r: bool)
    requires
        a@.len() == b@.len(),
    ensures
        r == (be_val(a@) < be_val(b@)),
{
    let n: usize = a.len();
    let mut i: usize = 0;
    while i < n
        invariant
            a@.len() == n,
            b@.len() == n,
            i <= n,
            forall|j: int| 0 <= j < i ==> a@[j] == b@[j],
        decreases n - i,
    {
        if a[i] < b[i] {
            proof {
                lemma_be_prefix_lt(a@, b@, i as int);
            }
            return true;
        }
        if a[i] > b[i] {
            proof {
                lemma_be_prefix_lt(b@, a@, i as int);
            }
            return false;
        }
        i = i + 1;
    }
    proof {
        assert(a@ =~= b@);
    }
    false
}

/// Reports whether a byte string reads as the integer zero.
pub fn is_zero_bytes(b: &[u8]) -> (r: bool)
    ensures
        r == (be_val(b@) == 0),
{
    let n: usize = b.len();
    let mut i: usize = 0;
    while i < n
        invariant
            b@.len() == n,
            i <= n,
            forall|j: int| 0 <= j < i ==> b@[j] == 0,
        decreases n - i,
    {
        if b[i] != 0 {
            proof {
                lemma_be_val_zero(b@);
            }
            return false;
        }
        i = i + 1;
    }
    proof {
        lemma_be_val_zero(b@);
    }
    true
}

} // verus!
