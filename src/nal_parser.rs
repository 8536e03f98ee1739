//! Splitting of an Annex-B byte stream into NAL units.
//!
//! Units are delimited by the start codes `00 00 01` and `00 00 00 01`. The
//! units handed out are slices of the caller's buffer, not copies.
use vstd::prelude::*;
use vstd::slice::slice_subrange;

verus! {

/// Length of the start code at the head of `s`: 3 for `00 00 01`, 4 for
/// `00 00 00 01`, and 0 where `s` does not begin with a start code.
pub open spec fn start_code_len(s: Seq<u8>) -> int {
    if s.len() >= 3 && s[0] == 0 && s[1] == 0 && s[2] == 1 {
        3
    } else if s.len() >= 4 && s[0] == 0 && s[1] == 0 && s[2] == 0 && s[3] == 1 {
        4
    } else {
        0
    }
}

/// Number of consecutive zero bytes in `b` that end just before index `i`.
pub open spec fn zeros_before(b: Seq<u8>, i: int) -> nat
    decreases i,
{
    if i <= 0 || i > b.len() {
        0
    } else if b[i - 1] == 0 {
        1 + zeros_before(b, i - 1)
    } else {
        0
    }
}

/// Index `i` of `b` holds the `01` byte of a start code: it is preceded by at
/// least two zero bytes.
pub open spec fn is_marker(b: Seq<u8>, i: int) -> bool {
    0 <= i < b.len() && b[i] == 1 && zeros_before(b, i) >= 2
}

/// The first marker of `b` at or after `i`, or `b.len()` where there is none.
pub open spec fn next_marker(b: Seq<u8>, i: int) -> int
    decreases b.len() - i,
{
    if i < 0 || i >= b.len() {
        b.len() as int
    } else if is_marker(b, i) {
        i
    } else {
        next_marker(b, i + 1)
    }
}

/// Where the unit at the head of `b` (a stream with its start code removed)
/// ends: before the two or three zero bytes of the next start code, or at the
/// end of `b` where no start code follows.
pub open spec fn unit_end(b: Seq<u8>) -> int {
    let m = next_marker(b, 0);
    if m >= b.len() {
        b.len() as int
    } else if zeros_before(b, m) == 2 {
        m - 2
    } else {
        m - 3
    }
}

/// The unit at the head of `s`, a stream that begins with a start code.
pub open spec fn head_unit(s: Seq<u8>) -> Seq<u8> {
    let b = s.subrange(start_code_len(s), s.len() as int);
    b.subrange(0, unit_end(b))
}

/// What is left of `s` once its head unit is taken.
pub open spec fn after_head_unit(s: Seq<u8>) -> Seq<u8> {
    let b = s.subrange(start_code_len(s), s.len() as int);
    b.subrange(unit_end(b), b.len() as int)
}

/// Outcome of one step of the splitter on the remaining bytes `s`.
pub enum SplitStep {
    End,
    Unit(Seq<u8>, Seq<u8>),
    Invalid,
}

/// One step of the splitter: the end of the stream, the head unit together with
/// the bytes after it, or a stream that does not begin with a start code.
pub open spec fn split_step(s: Seq<u8>) -> SplitStep {
    if s.len() == 0 {
        SplitStep::End
    } else if start_code_len(s) == 0 {
        SplitStep::Invalid
    } else {
        SplitStep::Unit(head_unit(s), after_head_unit(s))
    }
}

/// Where no marker lies in `[j, k)` and `k` is a marker or the end of `b`, the
/// first marker at or after `j` is `k`.
proof fn lemma_next_marker_is(b: Seq<u8>, j: int, k: int)
    requires
        0 <= j <= k <= b.len(),
        forall|m: int| j <= m < k ==> !is_marker(b, m),
        k == b.len() || is_marker(b, k),
    ensures
        next_marker(b, j) == k,
    decreases k - j,
{
    if j < k {
        lemma_next_marker_is(b, j + 1, k);
    }
}

/// A zero run counted in `b` up to `i` lies inside `b`.
proof fn lemma_zeros_before_bound(b: Seq<u8>, i: int)
    ensures
        zeros_before(b, i) <= if i < 0 { 0 } else { i },
    decreases i,
{
    if i > 0 && i <= b.len() && b[i - 1] == 0 {
        lemma_zeros_before_bound(b, i - 1);
    }
}

/// Proof that each step of `split_all` leaves fewer bytes than it was given.
#[via_fn]
proof fn split_all_decreases(s: Seq<u8>) {
    if s.len() != 0 && start_code_len(s) != 0 {
        let b = s.subrange(start_code_len(s), s.len() as int);
        lemma_unit_end_range(b);
    }
}

/// All units of `s` in order, or `None` where some step meets bytes that do
/// not begin with a start code.
pub open spec fn split_all(s: Seq<u8>) -> Option<Seq<Seq<u8>>>
    decreases s.len(),
    via split_all_decreases
{
    if s.len() == 0 {
        Some(Seq::empty())
    } else if start_code_len(s) == 0 {
        None
    } else {
        match split_all(after_head_unit(s)) {
            Some(us) => Some(seq![head_unit(s)] + us),
            None => None,
        }
    }
}

/// The start code of four bytes where `four`, else the one of three bytes.
pub open spec fn start_code(four: bool) -> Seq<u8> {
    if four {
        seq![0u8, 0u8, 0u8, 1u8]
    } else {
        seq![0u8, 0u8, 1u8]
    }
}

/// `p` holds the bytes `00 00 01` somewhere.
pub open spec fn contains_start_code(p: Seq<u8>) -> bool {
    exists|i: int| 2 <= i < p.len() && p[i - 2] == 0 && p[i - 1] == 0 && #[trigger] p[i] == 1
}

/// The stream made of `units` in order, each after a start code whose length
/// `four` gives.
pub open spec fn encode_units(units: Seq<Seq<u8>>, four: Seq<bool>) -> Seq<u8>
    decreases units.len(),
{
    if units.len() == 0 || four.len() == 0 {
        Seq::empty()
    } else {
        start_code(four[0]) + units[0] + encode_units(units.drop_first(), four.drop_first())
    }
}

/// No unit holds a start code of its own, and a unit that ends in a zero byte
/// is followed by a four-byte start code (after a three-byte one, its trailing
/// zero would read as the first byte of a four-byte start code).
pub open spec fn cleanly_coded(units: Seq<Seq<u8>>, four: Seq<bool>) -> bool {
    &&& units.len() == four.len()
    &&& forall|k: int| 0 <= k < units.len() ==> !contains_start_code(#[trigger] units[k])
    &&& forall|k: int|
        0 <= k < units.len() - 1 && (#[trigger] units[k]).len() > 0 && units[k].last() == 0
            ==> four[k + 1]
}

/// The first marker at or after `i` lies in `[i, b.len()]`, is a marker where
/// it is not the end, and no marker comes before it.
proof fn lemma_next_marker_range(b: Seq<u8>, i: int)
    requires
        0 <= i <= b.len(),
    ensures
        i <= next_marker(b, i) <= b.len(),
        next_marker(b, i) < b.len() ==> is_marker(b, next_marker(b, i)),
        forall|m: int| i <= m < next_marker(b, i) ==> !is_marker(b, m),
    decreases b.len() - i,
{
    if i < b.len() && !is_marker(b, i) {
        lemma_next_marker_range(b, i + 1);
    }
}

proof fn lemma_unit_end_range(b: Seq<u8>)
    ensures
        0 <= unit_end(b) <= b.len(),
{
    lemma_next_marker_range(b, 0);
    let m = next_marker(b, 0);
    if m < b.len() {
        lemma_zeros_before_bound(b, m);
        if zeros_before(b, m) != 2 {
            assert(zeros_before(b, m - 1) >= 2);
            lemma_zeros_before_bound(b, m - 1);
        }
    }
}

/// A marker is the last byte of `00 00 01`.
proof fn lemma_marker_bytes(b: Seq<u8>, m: int)
    requires
        is_marker(b, m),
    ensures
        m >= 2,
        b[m - 2] == 0,
        b[m - 1] == 0,
{
    assert(b[m - 1] == 0);
    assert(zeros_before(b, m - 1) >= 1);
}

/// One step on a start code, a clean unit `p` and then either nothing or the
/// next start code yields `p` and leaves the start code and what follows.
proof fn lemma_step_on_coded(four: bool, p: Seq<u8>, rest: Seq<u8>)
    requires
        !contains_start_code(p),
        rest.len() == 0 || start_code_len(rest) == 4 || (start_code_len(rest) == 3 && (p.len()
            == 0 || p.last() != 0)),
    ensures
        start_code_len(start_code(four) + p + rest) != 0,
        head_unit(start_code(four) + p + rest) == p,
        after_head_unit(start_code(four) + p + rest) == rest,
{
    let s = start_code(four) + p + rest;
    let h = start_code_len(s);
    assert(h == start_code(four).len());
    let b = s.subrange(h, s.len() as int);
    assert(b =~= p + rest);
    let n = p.len() as int;
    assert forall|m: int| 0 <= m < n implies !is_marker(b, m) by {
        if is_marker(b, m) {
            lemma_marker_bytes(b, m);
            assert(p[m - 2] == 0 && p[m - 1] == 0 && p[m] == 1);
        }
    }
    if rest.len() == 0 {
        lemma_next_marker_is(b, 0, n);
        assert(b.subrange(0, n) =~= p);
        assert(b.subrange(n, n) =~= rest);
    } else {
        let z0 = zeros_before(b, n);
        if n > 0 {
            assert(b[n - 1] == p.last());
        }
        assert(zeros_before(b, n + 1) == 1 + z0);
        assert(zeros_before(b, n + 2) == 2 + z0);
        if start_code_len(rest) == 3 {
            assert(z0 == 0);
            assert(is_marker(b, n + 2));
            lemma_next_marker_is(b, 0, n + 2);
        } else {
            assert(zeros_before(b, n + 3) == 3 + z0);
            assert(is_marker(b, n + 3));
            lemma_next_marker_is(b, 0, n + 3);
        }
        assert(unit_end(b) == n);
        assert(b.subrange(0, n) =~= p);
        assert(b.subrange(n, b.len() as int) =~= rest);
    }
}

proof fn lemma_start_code_len(four: bool, t: Seq<u8>)
    ensures
        start_code_len(start_code(four) + t) == start_code(four).len(),
{
    let s = start_code(four) + t;
    assert(s[0] == 0 && s[1] == 0);
    if four {
        assert(s[2] == 0 && s[3] == 1);
    } else {
        assert(s[2] == 1);
    }
}

proof fn lemma_cleanly_coded_tail(units: Seq<Seq<u8>>, four: Seq<bool>)
    requires
        cleanly_coded(units, four),
        units.len() > 0,
    ensures
        cleanly_coded(units.drop_first(), four.drop_first()),
        !contains_start_code(units[0]),
        units.len() > 1 && units[0].len() > 0 && units[0].last() == 0 ==> four[1],
{
    let tu = units.drop_first();
    let tf = four.drop_first();
    assert(!contains_start_code(units[0]));
    assert forall|k: int| 0 <= k < tu.len() implies !contains_start_code(#[trigger] tu[k]) by {
        assert(tu[k] == units[k + 1]);
    }
    assert forall|k: int|
        0 <= k < tu.len() - 1 && (#[trigger] tu[k]).len() > 0 && tu[k].last() == 0
        implies tf[k + 1] by {
        assert(tu[k] == units[k + 1]);
    }
}

/// Splitting a stream of cleanly coded units gives back exactly those units,
/// so that their concatenation is the concatenation of the payloads.
pub proof fn lemma_split_round_trip(units: Seq<Seq<u8>>, four: Seq<bool>)
    requires
        cleanly_coded(units, four),
    ensures
        split_all(encode_units(units, four)) == Some(units),
        split_all(encode_units(units, four)).unwrap().flatten() == units.flatten(),
    decreases units.len(),
{
    if units.len() > 0 {
        let tu = units.drop_first();
        let tf = four.drop_first();
        lemma_cleanly_coded_tail(units, four);
        lemma_split_round_trip(tu, tf);
        let rest = encode_units(tu, tf);
        if tu.len() > 0 {
            lemma_start_code_len(tf[0], tu[0] + encode_units(tu.drop_first(), tf.drop_first()));
            assert(rest == start_code(tf[0]) + (tu[0] + encode_units(tu.drop_first(), tf.drop_first())));
        }
        lemma_step_on_coded(four[0], units[0], rest);
        let s = encode_units(units, four);
        assert(s == start_code(four[0]) + units[0] + rest);
        assert(split_all(s) == Some(seq![units[0]] + tu));
        assert(seq![units[0]] + tu =~= units);
    }
}

/// One start code followed by bytes that hold no further start code gives
/// exactly one unit: those bytes.
pub proof fn lemma_single_unit(four: bool, p: Seq<u8>)
    requires
        !contains_start_code(p),
    ensures
        split_all(start_code(four) + p) == Some(seq![p]),
{
    lemma_step_on_coded(four, p, Seq::empty());
    assert(start_code(four) + p + Seq::<u8>::empty() =~= start_code(four) + p);
    assert(split_all(Seq::<u8>::empty()) == Some(Seq::<Seq<u8>>::empty()));
    assert(seq![p] + Seq::<Seq<u8>>::empty() =~= seq![p]);
}

/// `k` zero bytes.
pub open spec fn zero_run(k: nat) -> Seq<u8> {
    Seq::new(k, |i: int| 0u8)
}

/// A unit followed only by zero bytes, with no `01` after them, keeps those
/// zero bytes at the end of its content.
pub proof fn lemma_trailing_zeros_kept(four: bool, p: Seq<u8>, k: nat)
    requires
        !contains_start_code(p),
    ensures
        split_all(start_code(four) + p + zero_run(k)) == Some(seq![p + zero_run(k)]),
{
    let q = p + zero_run(k);
    assert(!contains_start_code(q)) by {
        if contains_start_code(q) {
            let i = choose|i: int| 2 <= i < q.len() && q[i - 2] == 0 && q[i - 1] == 0 && #[trigger] q[i] == 1;
            assert(i < p.len());
            assert(p[i - 2] == 0 && p[i - 1] == 0 && p[i] == 1);
        }
    }
    lemma_single_unit(four, q);
    assert(start_code(four) + p + zero_run(k) =~= start_code(four) + q);
}

/// Bytes that do not begin with `00 00` are refused.
pub proof fn lemma_invalid_without_leading_zeros(s: Seq<u8>)
    requires
        s.len() > 0,
        !(s.len() >= 2 && s[0] == 0 && s[1] == 0),
    ensures
        split_step(s) == SplitStep::Invalid,
        split_all(s) is None,
{
}

/// The end of the stream is a terminal state: nothing is left, and the next
/// step signals the end again.
pub proof fn lemma_end_is_terminal(s: Seq<u8>)
    requires
        split_step(s) == SplitStep::End,
    ensures
        s.len() == 0,
        split_all(s) == Some(Seq::<Seq<u8>>::empty()),
{
}

/// Error raised while splitting a byte stream.
#[derive(Debug, PartialEq, Eq, Structural)]
#[non_exhaustive]
pub enum H264ParserError {
    /// The remaining bytes do not begin with a start code.
    InvalidHeader,
}

impl H264ParserError {
    /// A short description of the error.
    pub fn message(&self) -> (r: &'static str)
        ensures
            r@ == "Invalid NAL Header"@,
    {
        match self {
            H264ParserError::InvalidHeader => "Invalid NAL Header",
        }
    }
}

/// Splits one immutable buffer into its NAL units, one call at a time.
pub struct H264Parser<'a> {
    buffer: &'a [u8],
}

impl<'a> H264Parser<'a> {
    /// The bytes not yet split.
    pub closed spec fn remaining(&self) -> Seq<u8> {
        self.buffer@
    }

    pub fn new(buffer: &'a [u8]) -> (r: Self)
        ensures
            r.remaining() == buffer@,
    {
        Self { buffer }
    }

    /// Takes the next unit off the remaining bytes.
    ///
    /// Returns `Ok(None)` once nothing remains, and keeps doing so. Fails with
    /// `InvalidHeader`, leaving the remaining bytes as they were, where they do
    /// not begin with a start code. Otherwise the start code is consumed and the
    /// unit runs up to the zero bytes of the next start code (zero bytes before
    /// those stay in the unit), or to the end of the buffer.
    pub fn next_buffer(&mut self) -> (r: Result<Option<&'a [u8]>, H264ParserError>)
        ensures
            match split_step(old(self).remaining()) {
                SplitStep::End => r == Ok::<Option<&'a [u8]>, H264ParserError>(None)
                    && final(self).remaining() == old(self).remaining(),
                SplitStep::Invalid => r == Err::<Option<&'a [u8]>, H264ParserError>(
                    H264ParserError::InvalidHeader,
                ) && final(self).remaining() == old(self).remaining(),
                SplitStep::Unit(unit, rest) => (match r {
                    Ok(Some(u)) => u@ == unit,
                    _ => false,
                }) && final(self).remaining() == rest,
            },
    {
        let len = self.buffer.len();
        if len == 0 {
            return Ok(None);
        }
        if len < 3 || self.buffer[0] != 0 || self.buffer[1] != 0 {
            return Err(H264ParserError::InvalidHeader);
        }
        let header: usize;
        if self.buffer[2] == 1 {
            header = 3;
        } else if self.buffer[2] == 0 {
            if len < 4 || self.buffer[3] != 1 {
                return Err(H264ParserError::InvalidHeader);
            }
            header = 4;
        } else {
            return Err(H264ParserError::InvalidHeader);
        }
        let body = slice_subrange(self.buffer, header, len);
        let ghost b = body@;
        let blen = body.len();
        let mut index: usize = 0;
        let mut zero_count: usize = 0;
        while index < blen
            invariant
                blen == body@.len(),
                b == body@,
                start_code_len(old(self).remaining()) == header,
                header == 3 || header == 4,
                b == old(self).remaining().subrange(header as int, old(self).remaining().len() as int),
                0 <= index <= blen,
                zero_count == zeros_before(b, index as int),
                forall|m: int| 0 <= m < index ==> !is_marker(b, m),
            decreases blen - index,
        {
            let byte = body[index];
            if byte == 0 {
                proof {
                    lemma_zeros_before_bound(b, index as int);
                }
                zero_count = zero_count + 1;
            } else if byte == 1 && zero_count >= 2 {
                proof {
                    lemma_next_marker_is(b, 0, index as int);
                    lemma_zeros_before_bound(b, index as int);
                }
                let cut: usize = if zero_count == 2 { index - 2 } else { index - 3 };
                let unit = slice_subrange(body, 0, cut);
                let rest = slice_subrange(body, cut, blen);
                self.buffer = rest;
                return Ok(Some(unit));
            } else {
                zero_count = 0;
            }
            index = index + 1;
        }
        proof {
            lemma_next_marker_is(b, 0, blen as int);
        }
        let unit = body;
        self.buffer = slice_subrange(body, blen, blen);
        Ok(Some(unit))
    }
}

} // verus!
