use vstd::arithmetic::div_mod::{lemma_fundamental_div_mod, lemma_mod_pos_bound};
use vstd::prelude::*;

verus! {

/// Number of parts that cover `size` bytes in parts of `chunk_size` bytes:
/// `ceil(size / chunk_size)`, and none for an empty file.
pub open spec fn part_count(size: int, chunk_size: int) -> int {
    if size <= 0 || chunk_size <= 0 {
        0
    } else {
        (size + chunk_size - 1) / chunk_size
    }
}

/// Last byte (inclusive) of the part with zero-based index `i`.
pub open spec fn part_last_byte(size: int, chunk_size: int, i: int) -> int {
    if (i + 1) * chunk_size - 1 < size - 1 {
        (i + 1) * chunk_size - 1
    } else {
        size - 1
    }
}

/// The part with zero-based index `i`: (part number, first byte, last byte).
pub open spec fn planned_part(size: int, chunk_size: int, i: int) -> (int, int, int) {
    (i + 1, i * chunk_size, part_last_byte(size, chunk_size, i))
}

/// The whole plan for a file of `size` bytes.
pub open spec fn chunk_plan(size: int, chunk_size: int) -> Seq<(int, int, int)> {
    Seq::new(part_count(size, chunk_size) as nat, |i: int| planned_part(size, chunk_size, i))
}

/// A plan entry as mathematical integers.
pub open spec fn entry_view(e: (i32, u64, u64)) -> (int, int, int) {
    (e.0 as int, e.1 as int, e.2 as int)
}

/// `v` holds exactly the entries of `p`, in order.
pub open spec fn same_plan(v: Seq<(i32, u64, u64)>, p: Seq<(int, int, int)>) -> bool {
    &&& v.len() == p.len()
    &&& forall|i: int| 0 <= i < v.len() ==> entry_view(#[trigger] v[i]) == p[i]
}

/// The part numbers of the plan fit an `i32`.
pub open spec fn part_count_fits(size: int, chunk_size: int) -> bool {
    part_count(size, chunk_size) <= i32::MAX
}

/// For a non-empty file the last part ends inside the file and one part
/// fewer would not reach its end.
pub proof fn lemma_part_count_bounds(size: int, chunk_size: int)
    requires
        size > 0,
        chunk_size > 0,
    ensures
        part_count(size, chunk_size) >= 1,
        (part_count(size, chunk_size) - 1) * chunk_size < size,
        size <= part_count(size, chunk_size) * chunk_size,
{
    let x = size + chunk_size - 1;
    let n = x / chunk_size;
    lemma_fundamental_div_mod(x, chunk_size);
    lemma_mod_pos_bound(x, chunk_size);
    assert(x == chunk_size * n + x % chunk_size);
    assert((n - 1) * chunk_size == n * chunk_size - chunk_size) by (nonlinear_arith);
    assert(n * chunk_size == chunk_size * n) by (nonlinear_arith);
    if n < 1 {
        assert(n * chunk_size <= 0) by (nonlinear_arith)
            requires
                n < 1,
                chunk_size > 0,
        ;
    }
}

/// A part index lies inside the plan exactly when its first byte lies
/// inside the file.
pub proof fn lemma_index_in_plan(size: int, chunk_size: int, k: int)
    requires
        size > 0,
        chunk_size > 0,
        k >= 0,
    ensures
        k < part_count(size, chunk_size) <==> k * chunk_size < size,
{
    lemma_part_count_bounds(size, chunk_size);
    let n = part_count(size, chunk_size);
    if k < n {
        assert(k * chunk_size <= (n - 1) * chunk_size) by (nonlinear_arith)
            requires
                k <= n - 1,
                chunk_size > 0,
        ;
    } else {
        assert(k * chunk_size >= n * chunk_size) by (nonlinear_arith)
            requires
                k >= n,
                chunk_size > 0,
        ;
    }
}

/// Walks a file of `size` bytes in parts of at most `chunk_size` bytes,
/// handing out `(part number, first byte, last byte)` with part numbers
/// from 1 and inclusive byte ranges.
pub struct Chunk {
    from: u64,
    to: u64,
    part: u64,
    size: u64,
    chunk_size: u64,
}

impl Chunk {
    /// Size of the file being walked.
    pub closed spec fn spec_size(&self) -> int {
        self.size as int
    }

    /// Nominal size of one part.
    pub closed spec fn spec_chunk_size(&self) -> int {
        self.chunk_size as int
    }

    /// Zero-based index of the next part to hand out.
    pub closed spec fn next_index(&self) -> int {
        self.part - 1
    }

    /// The parts still to be handed out, in order.
    pub open spec fn remaining(&self) -> Seq<(int, int, int)> {
        chunk_plan(self.spec_size(), self.spec_chunk_size()).skip(self.next_index())
    }

    pub closed spec fn wf(&self) -> bool {
        &&& self.chunk_size > 0
        &&& part_count_fits(self.size as int, self.chunk_size as int)
        &&& 1 <= self.part
        &&& self.part - 1 <= part_count(self.size as int, self.chunk_size as int)
        &&& self.from == if self.part - 1 < part_count(self.size as int, self.chunk_size as int) {
            (self.part - 1) * self.chunk_size
        } else {
            self.size as int
        }
    }

    /// Creates a walk over a file of `size` bytes in parts of `chunk_size`
    /// bytes, positioned before the first part.
    pub fn new(size: u64, chunk_size: u64) -> (r: Self)
        requires
            chunk_size > 0,
            part_count_fits(size as int, chunk_size as int),
        ensures
            r.wf(),
            r.spec_size() == size,
            r.spec_chunk_size() == chunk_size,
            r.next_index() == 0,
            r.remaining() == chunk_plan(size as int, chunk_size as int),
    {
        let r = Chunk { from: 0, to: 0, part: 1, size, chunk_size };
        proof {
            if size > 0 {
                lemma_part_count_bounds(size as int, chunk_size as int);
            }
        }
        assert(r.remaining() =~= chunk_plan(size as int, chunk_size as int));
        r
    }

    /// Hands out the next part, or `None` once the whole file is covered.
    pub fn next(&mut self) -> (r: Option<(i32, u64, u64)>)
        requires
            old(self).wf(),
        ensures
            final(self).wf(),
            final(self).spec_size() == old(self).spec_size(),
            final(self).spec_chunk_size() == old(self).spec_chunk_size(),
            old(self).remaining().len() == 0 ==> {
                &&& r is None
                &&& final(self).remaining().len() == 0
                &&& final(self).next_index() == old(self).next_index()
            },
            old(self).remaining().len() > 0 ==> {
                &&& r is Some
                &&& entry_view(r.unwrap()) == old(self).remaining()[0]
                &&& final(self).remaining() == old(self).remaining().drop_first()
                &&& final(self).next_index() == old(self).next_index() + 1
            },
    {
        let ghost size = self.size as int;
        let ghost c = self.chunk_size as int;
        let ghost k = self.part - 1;
        if self.from >= self.size {
            proof {
                if size > 0 {
                    lemma_part_count_bounds(size, c);
                    if k < part_count(size, c) {
                        lemma_index_in_plan(size, c, k);
                    }
                }
            }
            return None;
        }
        proof {
            lemma_part_count_bounds(size, c);
            lemma_index_in_plan(size, c, k);
            lemma_index_in_plan(size, c, k + 1);
            assert((k + 1) * c == k * c + c) by (nonlinear_arith);
        }
        let rest = self.size - 1 - self.from;
        if self.chunk_size - 1 >= rest {
            self.to = self.size - 1;
        } else {
            self.to = self.from + (self.chunk_size - 1);
        }
        let result = (self.part as i32, self.from, self.to);
        self.from = self.to + 1;
        self.part = self.part + 1;
        proof {
            assert(self.remaining() =~= old(self).remaining().drop_first());
        }
        Some(result)
    }
}

/// The whole plan for a file of `size` bytes in parts of `chunk_size` bytes;
/// `None` for an empty file.
pub fn plan(size: u64, chunk_size: u64) -> (r: Option<Vec<(i32, u64, u64)>>)
    requires
        chunk_size > 0,
        part_count_fits(size as int, chunk_size as int),
    ensures
        size == 0 <==> r is None,
        r matches Some(v) ==> same_plan(v@, chunk_plan(size as int, chunk_size as int)),
{
    if size == 0 {
        return None;
    }
    let mut walk = Chunk::new(size, chunk_size);
    let mut parts: Vec<(i32, u64, u64)> = Vec::new();
    let ghost whole = chunk_plan(size as int, chunk_size as int);
    loop
        invariant
            size > 0,
            whole == chunk_plan(size as int, chunk_size as int),
            walk.wf(),
            walk.spec_size() == size,
            walk.spec_chunk_size() == chunk_size,
            0 <= walk.next_index() <= whole.len(),
            walk.remaining() == whole.skip(walk.next_index()),
            same_plan(parts@, whole.take(walk.next_index())),
        decreases whole.len() - walk.next_index(),
    {
        let ghost before = parts@;
        let ghost k = walk.next_index();
        match walk.next() {
            None => {
                assert(k == whole.len());
                assert(whole.take(k) =~= whole);
                assert(same_plan(parts@, whole.take(k)));
                return Some(parts);
            },
            Some(e) => {
                assert(entry_view(e) == whole[k]);
                parts.push(e);
                assert(parts@ == before.push(e));
                assert forall|i: int| 0 <= i < k + 1 implies entry_view(#[trigger] parts@[i])
                    == whole.take(k + 1)[i] by {
                    if i < k {
                        assert(parts@[i] == before[i]);
                    }
                }
            },
        }
    }
}

/// Plan law: for a non-empty file and a positive part size, the parts are
/// numbered from 1 upward, each is a non-empty range of at most `chunk_size`
/// bytes, the first starts at byte 0, each next one starts right after the
/// previous one ends, and the last ends at byte `size - 1`: the ranges cover
/// the file exactly once.
pub proof fn lemma_plan_partitions_file(size: int, chunk_size: int)
    requires
        size > 0,
        chunk_size > 0,
    ensures
        chunk_plan(size, chunk_size).len() == part_count(size, chunk_size) >= 1,
        chunk_plan(size, chunk_size)[0].1 == 0,
        chunk_plan(size, chunk_size).last().2 == size - 1,
        forall|i: int|
            0 <= i < chunk_plan(size, chunk_size).len() ==> {
                let e = #[trigger] chunk_plan(size, chunk_size)[i];
                &&& e.0 == i + 1
                &&& 0 <= e.1 <= e.2 < size
                &&& e.2 - e.1 + 1 <= chunk_size
            },
        forall|i: int|
            0 <= i < chunk_plan(size, chunk_size).len() - 1 ==> #[trigger] chunk_plan(
                size,
                chunk_size,
            )[i + 1].1 == chunk_plan(size, chunk_size)[i].2 + 1,
{
    let n = part_count(size, chunk_size);
    lemma_part_count_bounds(size, chunk_size);
    assert(0 * chunk_size == 0);
    assert forall|i: int| 0 <= i < n implies {
        let e = #[trigger] chunk_plan(size, chunk_size)[i];
        &&& e.0 == i + 1
        &&& 0 <= e.1 <= e.2 < size
        &&& e.2 - e.1 + 1 <= chunk_size
    } by {
        lemma_index_in_plan(size, chunk_size, i);
        assert((i + 1) * chunk_size == i * chunk_size + chunk_size) by (nonlinear_arith);
        assert(i * chunk_size >= 0) by (nonlinear_arith)
            requires
                i >= 0,
                chunk_size > 0,
        ;
    }
    assert forall|i: int| 0 <= i < n - 1 implies #[trigger] chunk_plan(size, chunk_size)[i
        + 1].1 == chunk_plan(size, chunk_size)[i].2 + 1 by {
        lemma_index_in_plan(size, chunk_size, i + 1);
        assert((i + 1) * chunk_size == i * chunk_size + chunk_size) by (nonlinear_arith);
    }
    assert(n * chunk_size == (n - 1) * chunk_size + chunk_size) by (nonlinear_arith);
}

} // verus!
