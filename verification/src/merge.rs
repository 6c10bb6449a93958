//! The multi-source merger: a column-major interleave of equally long entry
//! sequences.
//!
//! Round `i` of the output holds element `i` of every source, in source
//! order, so no single source dominates the front of a later truncation.
//! Sources of unequal length are rejected with a named error instead of
//! faulting.

use vstd::prelude::*;

use crate::entry::Entry;

verus! {

/// Why a merge was refused.
#[derive(Clone, Copy, Debug, PartialEq, Eq, Structural)]
pub enum MergeError {
    /// The source sequences do not all have the same length.
    UnequalLengths,
}

/// The sequence of entry sequences a vector of source vectors holds.
pub open spec fn views(vs: Seq<Vec<Entry>>) -> Seq<Seq<Entry>> {
    Seq::new(vs.len(), |j: int| vs[j]@)
}

/// The length every source must share: that of the first source, or zero
/// when there are no sources.
pub open spec fn common_len(vs: Seq<Seq<Entry>>) -> nat {
    if vs.len() == 0 {
        0
    } else {
        vs[0].len()
    }
}

/// All sources have the same length.
pub open spec fn equal_lengths(vs: Seq<Seq<Entry>>) -> bool {
    forall|j: int| 0 <= j < vs.len() ==> (#[trigger] vs[j]).len() == common_len(vs)
}

/// Round `i` of the interleave: element `i` of every source, in source
/// order.
pub open spec fn round(vs: Seq<Seq<Entry>>, i: int) -> Seq<Entry> {
    Seq::new(vs.len(), |j: int| vs[j][i])
}

/// The first `rounds` rounds of the interleave of `vs`, concatenated.
pub open spec fn interleave(vs: Seq<Seq<Entry>>, rounds: int) -> Seq<Entry>
    decreases rounds,
{
    if rounds <= 0 {
        Seq::empty()
    } else {
        interleave(vs, rounds - 1) + round(vs, rounds - 1)
    }
}

/// An interleave of `m` rounds over `n` sources holds `m * n` entries.
pub proof fn lemma_interleave_len(vs: Seq<Seq<Entry>>, m: int)
    requires
        m >= 0,
    ensures
        interleave(vs, m).len() == m * vs.len(),
    decreases m,
{
    if m > 0 {
        lemma_interleave_len(vs, m - 1);
        assert((m - 1) * vs.len() + vs.len() == m * vs.len()) by (nonlinear_arith);
    } else {
        assert(m * vs.len() == 0) by (nonlinear_arith)
            requires
                m == 0,
        ;
    }
}

/// Element `i` of source `j` stands at position `i * vs.len() + j` of the
/// interleave.
pub proof fn lemma_interleave_index(vs: Seq<Seq<Entry>>, m: int, i: int, j: int)
    requires
        0 <= i < m,
        0 <= j < vs.len(),
    ensures
        interleave(vs, m)[i * vs.len() + j] == vs[j][i],
    decreases m,
{
    let n = vs.len() as int;
    lemma_interleave_len(vs, m);
    lemma_interleave_len(vs, m - 1);
    if i == m - 1 {
        assert((m - 1) * n <= i * n + j < (m - 1) * n + n) by (nonlinear_arith)
            requires
                i == m - 1,
                0 <= j < n,
        ;
        assert(i * n + j - (m - 1) * n == j) by (nonlinear_arith)
            requires
                i == m - 1,
        ;
        assert(interleave(vs, m)[i * n + j] == round(vs, m - 1)[j]);
    } else {
        lemma_interleave_index(vs, m - 1, i, j);
        assert(0 <= i * n + j < (m - 1) * n) by (nonlinear_arith)
            requires
                0 <= i < m - 1,
                0 <= j < n,
        ;
        assert(interleave(vs, m)[i * n + j] == interleave(vs, m - 1)[i * n + j]);
    }
}

/// Merges the given source sequences into one interleaved sequence:
/// round 0 of every source, then round 1 of every source, and so on, so
/// that element `i` of source `j` stands at output position
/// `i * vs.len() + j`. Succeeds exactly when the sources all have one
/// length.
pub fn unify(vs: Vec<Vec<Entry>>) -> (r: Result<Vec<Entry>, MergeError>)
    ensures
        r is Ok <==> equal_lengths(views(vs@)),
        r matches Ok(out) ==> {
            &&& out@ == interleave(views(vs@), common_len(views(vs@)) as int)
            &&& out@.len() == vs@.len() * common_len(views(vs@))
            &&& forall|i: int, j: int|
                0 <= i < common_len(views(vs@)) && 0 <= j < vs@.len()
                    ==> #[trigger] out@[i * vs@.len() + j] == vs@[j]@[i]
        },
{
    let n = vs.len();
    let len: usize = if n == 0 {
        0
    } else {
        vs[0].len()
    };
    assert(len as nat == common_len(views(vs@)));
    for j in 0..n
        invariant
            n == vs@.len(),
            len as nat == common_len(views(vs@)),
            forall|j2: int| 0 <= j2 < j ==> (#[trigger] vs@[j2])@.len() == len,
    {
        if vs[j].len() != len {
            assert(views(vs@)[j as int].len() != common_len(views(vs@)));
            return Err(MergeError::UnequalLengths);
        }
    }
    assert(equal_lengths(views(vs@))) by {
        assert(forall|j2: int|
            0 <= j2 < vs@.len() ==> (#[trigger] views(vs@)[j2]).len() == vs@[j2]@.len());
    }
    let ghost gvs = views(vs@);
    let mut out: Vec<Entry> = Vec::new();
    let mut i: usize = 0;
    while i < len
        invariant
            n == vs@.len(),
            len as nat == common_len(gvs),
            gvs == views(vs@),
            equal_lengths(gvs),
            i <= len,
            out@ == interleave(gvs, i as int),
        decreases len - i,
    {
        let mut j: usize = 0;
        while j < n
            invariant
                n == vs@.len(),
                len as nat == common_len(gvs),
                gvs == views(vs@),
                equal_lengths(gvs),
                i < len,
                j <= n,
                out@ == interleave(gvs, i as int) + Seq::new(
                    j as nat,
                    |j2: int| gvs[j2][i as int],
                ),
            decreases n - j,
        {
            assert(gvs[j as int].len() == common_len(gvs));
            assert(vs@[j as int]@.len() == len);
            let e = vs[j][i].clone();
            out.push(e);
            j = j + 1;
            proof {
                assert(out@ =~= interleave(gvs, i as int) + Seq::new(
                    j as nat,
                    |j2: int| gvs[j2][i as int],
                ));
            }
        }
        i = i + 1;
        proof {
            assert(Seq::new(n as nat, |j2: int| gvs[j2][(i - 1) as int]) =~= round(gvs, i - 1));
            assert(out@ =~= interleave(gvs, i as int));
        }
    }
    proof {
        lemma_interleave_len(gvs, len as int);
        assert(out@.len() == vs@.len() * common_len(gvs)) by (nonlinear_arith)
            requires
                out@.len() == (len as int) * gvs.len(),
                gvs.len() == vs@.len(),
                len as nat == common_len(gvs),
        ;
        assert forall|i2: int, j2: int|
            0 <= i2 < common_len(gvs) && 0 <= j2 < vs@.len() implies #[trigger] out@[i2 * vs@.len()
            + j2] == vs@[j2]@[i2] by {
            lemma_interleave_index(gvs, len as int, i2, j2);
            assert(gvs[j2] == vs@[j2]@);
        }
    }
    Ok(out)
}

} // verus!
