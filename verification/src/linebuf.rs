//! Splitting received bytes into lines: a line ends at `\n`, a `\r` right
//! before it is dropped, empty lines are skipped, and bytes after the last
//! `\n` wait for the rest of their line.
use vstd::prelude::*;

verus! {

/// The index of the first `\n`, if any.
pub open spec fn first_newline(b: Seq<u8>) -> Option<nat>
    decreases b.len(),
{
    if b.len() == 0 {
        None
    } else if b[0] == 10 {
        Some(0)
    } else {
        match first_newline(b.drop_first()) {
            Some(k) => Some(k + 1),
            None => None,
        }
    }
}

/// A line ended by `\n` without its `\n` and without a `\r` right before it.
pub open spec fn without_line_end(seg: Seq<u8>) -> Seq<u8> {
    if seg.len() >= 2 && seg[seg.len() - 2] == 13 {
        seg.subrange(0, seg.len() - 2)
    } else {
        seg.subrange(0, seg.len() - 1)
    }
}

/// The non-empty lines that the `\n`s in `b` end, in order.
pub open spec fn received_lines(b: Seq<u8>) -> Seq<Seq<u8>>
    decreases b.len(),
{
    match first_newline(b) {
        Some(p) => if p < b.len() {
            let seg = without_line_end(b.subrange(0, p as int + 1));
            let rest = received_lines(b.subrange(p as int + 1, b.len() as int));
            if seg.len() == 0 {
                rest
            } else {
                seq![seg] + rest
            }
        } else {
            Seq::empty()
        },
        None => Seq::empty(),
    }
}

/// The bytes after the last `\n` of `b` (all of `b` where it has none).
pub open spec fn unterminated_tail(b: Seq<u8>) -> Seq<u8>
    decreases b.len(),
{
    match first_newline(b) {
        Some(p) => if p < b.len() {
            unterminated_tail(b.subrange(p as int + 1, b.len() as int))
        } else {
            b
        },
        None => b,
    }
}

/// Where `first_newline` points, and that nothing before it is a `\n`.
pub proof fn lemma_first_newline(b: Seq<u8>)
    ensures
        match first_newline(b) {
            Some(k) => k < b.len() && b[k as int] == 10 && forall|j: int| 0 <= j < k ==> b[j] != 10,
            None => forall|j: int| 0 <= j < b.len() ==> b[j] != 10,
        },
    decreases b.len(),
{
    if b.len() > 0 && b[0] != 10 {
        lemma_first_newline(b.drop_first());
        match first_newline(b.drop_first()) {
            Some(k) => {
                assert forall|j: int| 0 <= j < k + 1 implies b[j] != 10 by {
                    if j > 0 {
                        assert(b[j] == b.drop_first()[j - 1]);
                    }
                }
            },
            None => {
                assert forall|j: int| 0 <= j < b.len() implies b[j] != 10 by {
                    if j > 0 {
                        assert(b[j] == b.drop_first()[j - 1]);
                    }
                }
            },
        }
    }
}

/// The first `\n` is the one with no `\n` before it.
pub proof fn lemma_first_newline_at(b: Seq<u8>, k: int)
    requires
        0 <= k < b.len(),
        b[k] == 10,
        forall|j: int| 0 <= j < k ==> b[j] != 10,
    ensures
        first_newline(b) == Some(k as nat),
{
    lemma_first_newline(b);
    match first_newline(b) {
        Some(q) => {
            if (q as int) < k {
                assert(b[q as int] != 10);
            }
        },
        None => {
            assert(b[k] != 10);
        },
    }
}

/// Without a `\n` there is no first one.
pub proof fn lemma_no_newline(b: Seq<u8>)
    requires
        forall|j: int| 0 <= j < b.len() ==> b[j] != 10,
    ensures
        first_newline(b) is None,
{
    lemma_first_newline(b);
    match first_newline(b) {
        Some(q) => {
            assert(b[q as int] == 10);
        },
        None => {},
    }
}

/// The bytes of `a` followed by those of `b`.
pub fn concat_bytes(a: &[u8], b: &[u8]) -> (res: Vec<u8>)
    ensures
        res@ == a@ + b@,
{
    let mut out: Vec<u8> = Vec::new();
    let n = a.len();
    let mut i: usize = 0;
    while i < n
        invariant
            n == a@.len(),
            i <= n,
            out@ =~= a@.subrange(0, i as int),
        decreases n - i,
    {
        out.push(a[i]);
        i = i + 1;
    }
    let m = b.len();
    let mut j: usize = 0;
    while j < m
        invariant
            n == a@.len(),
            m == b@.len(),
            j <= m,
            out@ =~= a@ + b@.subrange(0, j as int),
        decreases m - j,
    {
        out.push(b[j]);
        j = j + 1;
    }
    assert(b@.subrange(0, m as int) =~= b@);
    out
}

/// Splits a buffer into its complete lines and the unterminated rest.
pub fn split_lines(buf: &[u8]) -> (res: (Vec<Vec<u8>>, Vec<u8>))
    ensures
        res.0@.map_values(|l: Vec<u8>| l@) == received_lines(buf@),
        res.1@ == unterminated_tail(buf@),
{
    let n = buf.len();
    let mut lines: Vec<Vec<u8>> = Vec::new();
    let mut start: usize = 0;
    assert(buf@.subrange(0, n as int) =~= buf@);
    loop
        invariant_except_break
            n == buf@.len(),
            start <= n,
            lines@.map_values(|l: Vec<u8>| l@) + received_lines(buf@.subrange(start as int, n as int))
                == received_lines(buf@),
            unterminated_tail(buf@.subrange(start as int, n as int)) == unterminated_tail(buf@),
        ensures
            n == buf@.len(),
            start <= n,
            lines@.map_values(|l: Vec<u8>| l@) == received_lines(buf@),
            buf@.subrange(start as int, n as int) == unterminated_tail(buf@),
        decreases n - start,
    {
        let ghost sub = buf@.subrange(start as int, n as int);
        let mut q: usize = start;
        while q < n && buf[q] != 10
            invariant
                n == buf@.len(),
                start <= q <= n,
                forall|j: int| start <= j < q ==> buf@[j] != 10,
            decreases n - q,
        {
            q = q + 1;
        }
        if q == n {
            proof {
                assert forall|j: int| 0 <= j < sub.len() implies sub[j] != 10 by {
                    assert(sub[j] == buf@[start + j]);
                }
                lemma_no_newline(sub);
                assert(received_lines(sub) =~= Seq::<Seq<u8>>::empty());
                assert(lines@.map_values(|l: Vec<u8>| l@) =~= lines@.map_values(|l: Vec<u8>| l@)
                    + received_lines(sub));
            }
            break;
        }
        let ghost k = q - start;
        proof {
            assert forall|j: int| 0 <= j < k implies sub[j] != 10 by {
                assert(sub[j] == buf@[start + j]);
            }
            lemma_first_newline_at(sub, k);
            assert(sub.subrange(0, k + 1) =~= buf@.subrange(start as int, q + 1));
            assert(sub.subrange(k + 1, sub.len() as int) =~= buf@.subrange(q + 1, n as int));
        }
        let end = if q > start && buf[q - 1] == 13 {
            q - 1
        } else {
            q
        };
        let ghost seg = buf@.subrange(start as int, q + 1);
        assert(without_line_end(seg) =~= buf@.subrange(start as int, end as int));
        if end > start {
            let mut line: Vec<u8> = Vec::new();
            let mut i: usize = start;
            while i < end
                invariant
                    start <= i <= end,
                    end <= n,
                    n == buf@.len(),
                    line@ =~= buf@.subrange(start as int, i as int),
                decreases end - i,
            {
                line.push(buf[i]);
                i = i + 1;
            }
            let ghost before = lines@.map_values(|l: Vec<u8>| l@);
            lines.push(line);
            proof {
                assert(lines@.map_values(|l: Vec<u8>| l@) =~= before.push(without_line_end(seg)));
                assert(received_lines(sub) =~= seq![without_line_end(seg)] + received_lines(
                    buf@.subrange(q + 1, n as int),
                ));
                assert(before.push(without_line_end(seg)) + received_lines(buf@.subrange(q + 1, n as int))
                    =~= before + received_lines(sub));
            }
        } else {
            assert(received_lines(sub) =~= received_lines(buf@.subrange(q + 1, n as int)));
        }
        start = q + 1;
    }
    let mut rest: Vec<u8> = Vec::new();
    let mut i: usize = start;
    while i < n
        invariant
            start <= i <= n,
            n == buf@.len(),
            rest@ =~= buf@.subrange(start as int, i as int),
        decreases n - i,
    {
        rest.push(buf[i]);
        i = i + 1;
    }
    (lines, rest)
}

/// Law: every line split off is non-empty and holds no `\n`.
pub proof fn law_lines_hold_no_breaks(b: Seq<u8>)
    ensures
        forall|i: int| 0 <= i < received_lines(b).len() ==> {
            &&& (#[trigger] received_lines(b)[i]).len() > 0
            &&& forall|j: int| 0 <= j < received_lines(b)[i].len() ==> received_lines(b)[i][j] != 10
        },
    decreases b.len(),
{
    lemma_first_newline(b);
    match first_newline(b) {
        Some(p) => {
            let p = p as int;
            let rest = b.subrange(p + 1, b.len() as int);
            law_lines_hold_no_breaks(rest);
            let seg = without_line_end(b.subrange(0, p + 1));
            if seg.len() != 0 {
                assert forall|j: int| 0 <= j < seg.len() implies seg[j] != 10 by {
                    assert(seg[j] == b[j]);
                }
                assert forall|i: int| 0 <= i < received_lines(b).len() implies {
                    &&& (#[trigger] received_lines(b)[i]).len() > 0
                    &&& forall|j: int| 0 <= j < received_lines(b)[i].len() ==> received_lines(b)[i][j] != 10
                } by {
                    if i > 0 {
                        assert(received_lines(b)[i] == received_lines(rest)[i - 1]);
                    }
                }
            } else {
                assert(received_lines(b) == received_lines(rest));
            }
        },
        None => {},
    }
}

/// Law: how received bytes are split into lines does not depend on how
/// they arrive in chunks. Splitting `x` and then splitting what was left
/// over followed by `y` gives the same lines, and the same rest, as
/// splitting `x` and `y` together.
pub proof fn law_split_is_chunking_independent(x: Seq<u8>, y: Seq<u8>)
    ensures
        received_lines(x + y) == received_lines(x) + received_lines(unterminated_tail(x) + y),
        unterminated_tail(x + y) == unterminated_tail(unterminated_tail(x) + y),
    decreases x.len(),
{
    lemma_first_newline(x);
    match first_newline(x) {
        Some(p) => {
            let p = p as int;
            let xs = x.subrange(p + 1, x.len() as int);
            assert forall|j: int| 0 <= j < p implies (x + y)[j] != 10 by {
                assert((x + y)[j] == x[j]);
            }
            lemma_first_newline_at(x + y, p);
            assert((x + y).subrange(0, p + 1) =~= x.subrange(0, p + 1));
            assert((x + y).subrange(p + 1, (x + y).len() as int) =~= xs + y);
            law_split_is_chunking_independent(xs, y);
            let seg = without_line_end(x.subrange(0, p + 1));
            if seg.len() != 0 {
                assert(received_lines(x + y) =~= seq![seg] + received_lines(xs + y));
                assert(received_lines(x) =~= seq![seg] + received_lines(xs));
                assert(seq![seg] + (received_lines(xs) + received_lines(unterminated_tail(xs) + y))
                    =~= (seq![seg] + received_lines(xs)) + received_lines(unterminated_tail(xs) + y));
            }
        },
        None => {
            assert(received_lines(x) =~= Seq::<Seq<u8>>::empty());
            assert(Seq::<Seq<u8>>::empty() + received_lines(x + y) =~= received_lines(x + y));
        },
    }
}

} // verus!
