//! Batched log tailing: line splitting as a buffered reader performs it,
//! slicing the last N lines, and the backward newline scan used to pick a
//! starting offset in large files.

use vstd::prelude::*;

verus! {

/// A line with one trailing carriage return stripped, as buffered line
/// reading does.
pub open spec fn spec_strip_cr(line: Seq<u8>) -> Seq<u8> {
    if line.len() > 0 && line.last() == 13 {
        line.drop_last()
    } else {
        line
    }
}

/// The index of the first newline in `data`, assuming one exists.
pub open spec fn spec_first_nl(data: Seq<u8>) -> int {
    choose|i: int|
        0 <= i < data.len() && data[i] == 10 && (forall|j: int| 0 <= j < i ==> data[j] != 10)
}

/// Whether `data` holds a newline byte.
pub open spec fn spec_has_nl(data: Seq<u8>) -> bool {
    exists|i: int| 0 <= i < data.len() && data[i] == 10
}

/// The lines of `data`, split at newline bytes, each with one trailing
/// carriage return stripped; a trailing segment without a newline counts as
/// a line when nonempty.
pub open spec fn spec_split_lines(data: Seq<u8>) -> Seq<Seq<u8>>
    decreases data.len(),
{
    if data.len() == 0 {
        Seq::empty()
    } else if spec_has_nl(data) {
        let i = spec_first_nl(data);
        if 0 <= i < data.len() {
            seq![spec_strip_cr(data.take(i))] + spec_split_lines(data.skip(i + 1))
        } else {
            Seq::empty()
        }
    } else {
        seq![spec_strip_cr(data)]
    }
}

/// When the first newline is known to sit at `k`, the split peels exactly
/// the prefix before it.
proof fn lemma_split_at_first_nl(data: Seq<u8>, k: int)
    requires
        0 <= k < data.len(),
        data[k] == 10,
        forall|j: int| 0 <= j < k ==> data[j] != 10,
    ensures
        spec_split_lines(data) == seq![spec_strip_cr(data.take(k))] + spec_split_lines(
            data.skip(k + 1),
        ),
{
    assert(spec_has_nl(data));
    let i = spec_first_nl(data);
    assert(0 <= i < data.len() && data[i] == 10 && (forall|j: int| 0 <= j < i ==> data[j] != 10));
    if i < k {
        assert(data[i] != 10);
    }
    if k < i {
        assert(data[k] != 10);
    }
    assert(i == k);
}

fn strip_cr(mut line: Vec<u8>) -> (r: Vec<u8>)
    ensures
        r@ == spec_strip_cr(line@),
{
    if line.len() > 0 && line[line.len() - 1] == 13 {
        line.pop();
    }
    line
}

/// Splits a byte buffer into lines, exactly as a buffered line reader would.
#[verifier::rlimit(60)]
pub fn split_lines(data: &Vec<u8>) -> (r: Vec<Vec<u8>>)
    ensures
        r.deep_view() == spec_split_lines(data@),
{
    let n = data.len();
    let mut r: Vec<Vec<u8>> = Vec::new();
    let mut cur: Vec<u8> = Vec::new();
    let mut pos: usize = 0;
    proof {
        assert(cur@ + data@.skip(0) =~= data@);
    }
    while pos < n
        invariant
            pos <= n,
            n == data@.len(),
            forall|j: int| 0 <= j < cur@.len() ==> cur@[j] != 10,
            spec_split_lines(data@) == r.deep_view() + spec_split_lines(
                cur@ + data@.skip(pos as int),
            ),
        decreases n - pos,
    {
        let ghost pending = cur@ + data@.skip(pos as int);
        let b = data[pos];
        if b == 10 {
            let ghost cur_len = cur@.len() as int;
            let ghost r_dv0 = r.deep_view();
            proof {
                assert(pending[cur_len] == data@.skip(pos as int)[0]);
                assert forall|j: int| 0 <= j < cur_len implies pending[j] != 10 by {
                    assert(pending[j] == cur@[j]);
                }
                lemma_split_at_first_nl(pending, cur_len);
                assert(pending.take(cur_len) =~= cur@);
                assert(pending.skip(cur_len + 1) =~= data@.skip(pos + 1));
            }
            let line = strip_cr(cur);
            cur = Vec::new();
            r.push(line);
            proof {
                assert(cur@ + data@.skip(pos + 1) =~= data@.skip(pos + 1));
                assert(r.deep_view() =~~= r_dv0.push(spec_strip_cr(pending.take(cur_len))));
                assert(r.deep_view() + spec_split_lines(cur@ + data@.skip(pos + 1)) =~~= r_dv0
                    + spec_split_lines(pending));
            }
        } else {
            cur.push(b);
            proof {
                assert(cur@ + data@.skip(pos + 1) =~= pending);
            }
        }
        pos = pos + 1;
    }
    let ghost r_dv1 = r.deep_view();
    let ghost cur_end = cur@;
    proof {
        assert(cur@ + data@.skip(n as int) =~= cur@);
        if cur@.len() == 0 {
            assert(spec_split_lines(cur@) =~= Seq::<Seq<u8>>::empty());
            assert(r.deep_view() + spec_split_lines(cur@) =~= r.deep_view());
        } else {
            assert(!spec_has_nl(cur@)) by {
                if spec_has_nl(cur@) {
                    let i = choose|i: int| 0 <= i < cur@.len() && cur@[i] == 10;
                    assert(cur@[i] != 10);
                }
            }
            assert(spec_split_lines(cur@) == seq![spec_strip_cr(cur@)]);
        }
    }
    if cur.len() > 0 {
        let line = strip_cr(cur);
        r.push(line);
        proof {
            assert(r.deep_view() =~~= r_dv1.push(spec_strip_cr(cur_end)));
            assert(r.deep_view() =~~= r_dv1 + spec_split_lines(cur_end));
        }
    }
    proof {
        assert(r.deep_view() =~~= spec_split_lines(data@));
    }
    r
}

/// The start index of the last `n` elements: everything when there are at
/// most `n`.
pub open spec fn spec_tail_from(len: nat, n: nat) -> int {
    if len <= n {
        0
    } else {
        len - n
    }
}

/// Law: tailing the last `n` lines of a file holding `k >= n` lines yields
/// exactly `n` lines, equal to the final `n` file lines in order.
pub proof fn lemma_tail_exact<A>(lines: Seq<A>, n: nat)
    requires
        lines.len() >= n,
    ensures
        lines.skip(spec_tail_from(lines.len(), n)).len() == n,
        forall|i: int|
            0 <= i < n ==> lines.skip(spec_tail_from(lines.len(), n))[i] == lines[lines.len() - n
                + i],
{
}

/// The last `n` lines, in order. With `K >= n` lines this is exactly the
/// final `n` of them.
pub fn tail_lines(lines: &Vec<String>, n: usize) -> (r: Vec<String>)
    ensures
        r.deep_view() == lines.deep_view().skip(spec_tail_from(lines@.len(), n as nat)),
{
    let len = lines.len();
    let start: usize = if len <= n {
        0
    } else {
        len - n
    };
    let mut r: Vec<String> = Vec::new();
    let mut i: usize = start;
    while i < len
        invariant
            start <= i <= len,
            len == lines@.len(),
            r@.len() == i - start,
            forall|j: int|
                0 <= j < r@.len() ==> r.deep_view()[j] == lines.deep_view()[start + j],
        decreases len - i,
    {
        let ghost prev = r.deep_view();
        r.push(lines[i].clone());
        proof {
            assert(r.deep_view() =~~= prev.push(lines.deep_view()[i as int]));
        }
        i = i + 1;
    }
    proof {
        assert(r.deep_view() =~= lines.deep_view().skip(spec_tail_from(lines@.len(), n as nat)));
    }
    r
}

/// The last `n` byte lines, in order.
pub fn tail_byte_lines(lines: &Vec<Vec<u8>>, n: usize) -> (r: Vec<Vec<u8>>)
    ensures
        r.deep_view() == lines.deep_view().skip(spec_tail_from(lines@.len(), n as nat)),
{
    let len = lines.len();
    let start: usize = if len <= n {
        0
    } else {
        len - n
    };
    let mut r: Vec<Vec<u8>> = Vec::new();
    let mut i: usize = start;
    while i < len
        invariant
            start <= i <= len,
            len == lines@.len(),
            r@.len() == i - start,
            forall|j: int|
                0 <= j < r@.len() ==> r.deep_view()[j] == lines.deep_view()[start + j],
        decreases len - i,
    {
        let line = clone_byte_line(&lines[i]);
        let ghost prev = r.deep_view();
        r.push(line);
        proof {
            assert(r.deep_view() =~~= prev.push(lines.deep_view()[i as int]));
        }
        i = i + 1;
    }
    proof {
        assert(r.deep_view() =~= lines.deep_view().skip(
            spec_tail_from(lines@.len(), n as nat),
        ));
    }
    r
}

fn clone_byte_line(line: &Vec<u8>) -> (r: Vec<u8>)
    ensures
        r@ == line@,
{
    let mut r: Vec<u8> = Vec::new();
    let n = line.len();
    let mut i: usize = 0;
    while i < n
        invariant
            i <= n,
            n == line@.len(),
            r@ == line@.take(i as int),
        decreases n - i,
    {
        r.push(line[i]);
        proof {
            assert(r@ =~= line@.take(i + 1));
        }
        i = i + 1;
    }
    proof {
        assert(r@ =~= line@);
    }
    r
}

/// The offset the backward scan picks: just past the `n`-th newline counted
/// from the end, or the beginning when there are fewer; 0 when `n` is 0.
pub open spec fn spec_tail_start(data: Seq<u8>, n: nat) -> int
    decreases data.len(),
{
    if n == 0 {
        0
    } else if data.len() == 0 {
        0
    } else if data.last() == 10 {
        if n == 1 {
            data.len() as int
        } else {
            spec_tail_start(data.drop_last(), (n - 1) as nat)
        }
    } else {
        spec_tail_start(data.drop_last(), n)
    }
}

/// Scans backwards counting newlines and returns the byte offset to stream
/// forward from, exactly as the chunked reverse scan over the file does.
pub fn find_tail_start(data: &Vec<u8>, n: usize) -> (r: usize)
    ensures
        r == spec_tail_start(data@, n as nat),
        r <= data@.len(),
{
    if n == 0 {
        return 0;
    }
    let mut i: usize = data.len();
    let mut needed: usize = n;
    proof {
        assert(data@.take(i as int) =~= data@);
    }
    while i > 0
        invariant
            i <= data@.len(),
            needed >= 1,
            spec_tail_start(data@, n as nat) == spec_tail_start(
                data@.take(i as int),
                needed as nat,
            ),
        decreases i,
    {
        let b = data[i - 1];
        proof {
            assert(data@.take(i as int).last() == b);
            assert(data@.take(i as int).drop_last() =~= data@.take(i - 1));
        }
        if b == 10 {
            if needed == 1 {
                proof {
                    assert(spec_tail_start(data@.take(i as int), 1nat) == i as int);
                }
                return i;
            }
            needed = needed - 1;
        }
        i = i - 1;
    }
    proof {
        assert(data@.take(0) =~= Seq::<u8>::empty());
    }
    0
}

/// The batched tail response of the daemon API.
pub struct LogsResponse {
    pub instance_name: String,
    pub lines: Vec<String>,
    pub total_lines: usize,
}

/// The query parameters of the batched tail endpoint.
pub struct LogsQuery {
    pub tail: usize,
}

/// The query parameters of the streaming endpoint.
pub struct StreamLogsQuery {
    pub tail: usize,
}

/// Default batch tail depth.
pub fn default_tail() -> (r: usize)
    ensures
        r == 100,
{
    100
}

/// Default streaming tail depth.
pub fn default_stream_tail() -> (r: usize)
    ensures
        r == 20,
{
    20
}

/// Builds the batched tail response: the last `tail` of the decoded lines,
/// in file order, together with the total count.
pub fn logs_response(instance_name: String, lines: &Vec<String>, tail: usize) -> (r: LogsResponse)
    ensures
        r.instance_name == instance_name,
        r.total_lines == lines@.len(),
        r.lines.deep_view() == lines.deep_view().skip(spec_tail_from(lines@.len(), tail as nat)),
{
    let selected = tail_lines(lines, tail);
    let total = lines.len();
    LogsResponse { instance_name, lines: selected, total_lines: total }
}

} // verus!
