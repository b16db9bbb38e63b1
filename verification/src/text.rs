//! Small verified text utilities: character-wise string equality, prefix
//! tests, whitespace trimming, and splitting a comma-separated tag list.

use vstd::prelude::*;
use vstd::string::StrSliceExecFns;

verus! {

/// Relies on std's `String::push`: appends the given character to the end
/// of the string.
#[verifier::external_body]
pub(crate) fn push_char(s: &mut String, c: char)
    ensures
        final(s)@ == old(s)@.push(c),
{
    s.push(c);
}

/// Relies on std's `String::pop`: removes the last character from the
/// string and returns it, or returns `None` when the string is empty.
#[verifier::external_body]
pub(crate) fn pop_char(s: &mut String) -> (r: Option<char>)
    ensures
        old(s)@.len() == 0 ==> r is None && final(s)@ == old(s)@,
        old(s)@.len() > 0 ==> r == Some(old(s)@.last()) && final(s)@ == old(s)@.drop_last(),
{
    s.pop()
}

/// Character-for-character equality of two string slices.
pub fn str_eq(a: &str, b: &str) -> (r: bool)
    ensures
        r == (a@ == b@),
{
    let n = a.unicode_len();
    if n != b.unicode_len() {
        return false;
    }
    let mut i: usize = 0;
    while i < n
        invariant
            n == a@.len(),
            n == b@.len(),
            i <= n,
            forall|j: int| 0 <= j < i ==> a@[j] == b@[j],
        decreases n - i,
    {
        if a.get_char(i) != b.get_char(i) {
            return false;
        }
        i += 1;
    }
    proof {
        assert(a@ =~= b@);
    }
    true
}

/// `p` is a prefix of `v`.
pub open spec fn is_text_prefix(p: Seq<char>, v: Seq<char>) -> bool {
    p.len() <= v.len() && v.take(p.len() as int) == p
}

/// Character-for-character prefix test.
pub fn str_is_prefix(p: &str, v: &str) -> (r: bool)
    ensures
        r == is_text_prefix(p@, v@),
{
    let n = p.unicode_len();
    if n > v.unicode_len() {
        return false;
    }
    let mut i: usize = 0;
    while i < n
        invariant
            n == p@.len(),
            n <= v@.len(),
            i <= n,
            forall|j: int| 0 <= j < i ==> p@[j] == v@[j],
        decreases n - i,
    {
        if p.get_char(i) != v.get_char(i) {
            proof {
                assert(v@.take(n as int)[i as int] == v@[i as int]);
            }
            return false;
        }
        i += 1;
    }
    proof {
        assert(v@.take(n as int) =~= p@);
    }
    true
}

/// The whitespace characters that trimming removes.
pub open spec fn is_blank(c: char) -> bool {
    c == ' ' || c == '\t' || c == '\n' || c == '\r'
}

fn is_blank_exec(c: char) -> (r: bool)
    ensures
        r == is_blank(c),
{
    c == ' ' || c == '\t' || c == '\n' || c == '\r'
}

/// `s` with its leading blanks removed.
pub open spec fn trim_front(s: Seq<char>) -> Seq<char>
    decreases s.len(),
{
    if s.len() > 0 && is_blank(s[0]) {
        trim_front(s.skip(1))
    } else {
        s
    }
}

/// `s` with its trailing blanks removed.
pub open spec fn trim_back(s: Seq<char>) -> Seq<char>
    decreases s.len(),
{
    if s.len() > 0 && is_blank(s.last()) {
        trim_back(s.drop_last())
    } else {
        s
    }
}

/// `s` with leading and trailing blanks removed.
pub open spec fn trim_text(s: Seq<char>) -> Seq<char> {
    trim_back(trim_front(s))
}

proof fn lemma_trim_front_skip(s: Seq<char>, k: int)
    requires
        0 <= k <= s.len(),
        forall|j: int| 0 <= j < k ==> is_blank(s[j]),
        k < s.len() ==> !is_blank(s[k]),
    ensures
        trim_front(s) == s.skip(k),
    decreases k,
{
    if k == 0 {
        assert(s.skip(0) =~= s);
    } else {
        lemma_trim_front_skip(s.skip(1), k - 1);
        assert(s.skip(1).skip(k - 1) =~= s.skip(k));
    }
}

proof fn lemma_trim_back_take(s: Seq<char>, k: int)
    requires
        0 <= k <= s.len(),
        forall|j: int| k <= j < s.len() ==> is_blank(s[j]),
        k > 0 ==> !is_blank(s[k - 1]),
    ensures
        trim_back(s) == s.take(k),
    decreases s.len() - k,
{
    if k == s.len() {
        assert(s.take(k) =~= s);
    } else {
        lemma_trim_back_take(s.drop_last(), k);
        assert(s.drop_last().take(k) =~= s.take(k));
    }
}

/// The trimmed copy of `s[from..to)`.
pub fn trim_substring(s: &str, from: usize, to: usize) -> (t: String)
    requires
        from <= to <= s@.len(),
    ensures
        t@ == trim_text(s@.subrange(from as int, to as int)),
{
    let ghost piece = s@.subrange(from as int, to as int);
    let mut lo = from;
    while lo < to && is_blank_exec(s.get_char(lo))
        invariant
            from <= lo <= to <= s@.len(),
            forall|j: int| from <= j < lo ==> is_blank(s@[j]),
        decreases to - lo,
    {
        lo += 1;
    }
    let mut hi = to;
    while hi > lo && is_blank_exec(s.get_char(hi - 1))
        invariant
            from <= lo <= hi <= to <= s@.len(),
            forall|j: int| hi <= j < to ==> is_blank(s@[j]),
            hi < to ==> lo < to,
            lo < to ==> !is_blank(s@[lo as int]),
        decreases hi - lo,
    {
        hi -= 1;
    }
    proof {
        assert(forall|j: int| 0 <= j < piece.len() ==> piece[j] == s@[from + j]);
        lemma_trim_front_skip(piece, lo - from);
        let front = piece.skip(lo - from);
        assert(forall|j: int| 0 <= j < front.len() ==> front[j] == s@[lo + j]);
        lemma_trim_back_take(front, hi - lo);
        assert(front.take(hi - lo) =~= s@.subrange(lo as int, hi as int));
    }
    let out = s.substring_char(lo, hi);
    out.to_owned()
}

/// The pieces of `s` between its commas, in order. The empty text has one
/// piece (the empty piece), and each comma separates two pieces, so `n`
/// commas give `n + 1` pieces.
pub open spec fn split_commas(s: Seq<char>) -> Seq<Seq<char>>
    decreases s.len(),
{
    if s.len() == 0 {
        seq![Seq::<char>::empty()]
    } else if s[0] == ',' {
        seq![Seq::<char>::empty()] + split_commas(s.skip(1))
    } else {
        let rest = split_commas(s.skip(1));
        seq![seq![s[0]] + rest[0]] + rest.skip(1)
    }
}

pub proof fn lemma_split_commas_nonempty(s: Seq<char>)
    ensures
        split_commas(s).len() >= 1,
    decreases s.len(),
{
    if s.len() > 0 {
        lemma_split_commas_nonempty(s.skip(1));
    }
}

/// Where `s` has no comma, it is its own single piece.
proof fn lemma_split_commas_whole(s: Seq<char>)
    requires
        forall|j: int| 0 <= j < s.len() ==> s[j] != ',',
    ensures
        split_commas(s) == seq![s],
    decreases s.len(),
{
    if s.len() == 0 {
        assert(s =~= Seq::<char>::empty());
    } else {
        lemma_split_commas_whole(s.skip(1));
        assert(seq![s[0]] + s.skip(1) =~= s);
        assert(seq![seq![s[0]] + s.skip(1)] + split_commas(s.skip(1)).skip(1) =~= seq![s]);
    }
}

/// Splitting at the first comma: the piece before it, then the split of
/// what follows it.
proof fn lemma_split_commas_first(s: Seq<char>, i: int)
    requires
        0 <= i < s.len(),
        s[i] == ',',
        forall|j: int| 0 <= j < i ==> s[j] != ',',
    ensures
        split_commas(s) == seq![s.take(i)] + split_commas(s.skip(i + 1)),
    decreases i,
{
    if i == 0 {
        assert(s.take(0) =~= Seq::<char>::empty());
        assert(s.skip(1) =~= s.skip(0int + 1));
    } else {
        lemma_split_commas_first(s.skip(1), i - 1);
        lemma_split_commas_nonempty(s.skip(1).skip(i));
        assert(s.skip(1).skip(i - 1 + 1) =~= s.skip(i + 1));
        assert(s.skip(1).take(i - 1) =~= s.take(i).skip(1));
        assert(seq![s[0]] + s.take(i).skip(1) =~= s.take(i));
        assert(seq![seq![s[0]] + (seq![s.take(i).skip(1)] + split_commas(s.skip(i + 1)))[0]] + (
        seq![s.take(i).skip(1)] + split_commas(s.skip(i + 1))).skip(1) =~= seq![s.take(i)]
            + split_commas(s.skip(i + 1)));
    }
}

/// The pieces of a comma-separated tag list, each trimmed, in order.
pub open spec fn trimmed_pieces(s: Seq<char>) -> Seq<Seq<char>> {
    split_commas(s).map_values(|p: Seq<char>| trim_text(p))
}

/// Trimmed pieces around the first comma: the trimmed piece before it,
/// then the trimmed pieces of what follows it.
proof fn lemma_trimmed_pieces_first(s: Seq<char>, i: int)
    requires
        0 <= i < s.len(),
        s[i] == ',',
        forall|j: int| 0 <= j < i ==> s[j] != ',',
    ensures
        trimmed_pieces(s) == seq![trim_text(s.take(i))] + trimmed_pieces(s.skip(i + 1)),
{
    lemma_split_commas_first(s, i);
    let lhs = trimmed_pieces(s);
    let rhs = seq![trim_text(s.take(i))] + trimmed_pieces(s.skip(i + 1));
    lemma_split_commas_nonempty(s.skip(i + 1));
    assert forall|k: int| 0 <= k < lhs.len() implies lhs[k] == rhs[k] by {
        if k > 0 {
            assert(split_commas(s)[k] == split_commas(s.skip(i + 1))[k - 1]);
        }
    }
    assert(lhs =~= rhs);
}

/// Where `s` has no comma, its trimmed pieces are just `s` trimmed.
proof fn lemma_trimmed_pieces_whole(s: Seq<char>)
    requires
        forall|j: int| 0 <= j < s.len() ==> s[j] != ',',
    ensures
        trimmed_pieces(s) == seq![trim_text(s)],
{
    lemma_split_commas_whole(s);
    assert(trimmed_pieces(s) =~= seq![trim_text(s)]);
}

/// The trimmed pieces of a comma-separated tag list, in order.
pub fn parse_tag_input(s: &str) -> (tags: Vec<String>)
    ensures
        tags.deep_view() == trimmed_pieces(s@),
{
    let ghost full = s@;
    let n = s.unicode_len();
    let mut out: Vec<String> = Vec::new();
    let mut start: usize = 0;
    let mut i: usize = 0;
    proof {
        assert(full.skip(0) =~= full);
        assert(out.deep_view() + trimmed_pieces(full) =~= trimmed_pieces(full));
    }
    while i < n
        invariant
            n == full.len(),
            start <= i <= n,
            forall|j: int| start <= j < i ==> full[j] != ',',
            full == s@,
            trimmed_pieces(full) == out.deep_view() + trimmed_pieces(full.skip(start as int)),
        decreases n - i,
    {
        if s.get_char(i) == ',' {
            let piece = trim_substring(s, start, i);
            proof {
                let tail = full.skip(start as int);
                lemma_trimmed_pieces_first(tail, i - start);
                assert(tail.take(i - start) =~= full.subrange(start as int, i as int));
                assert(tail.skip(i - start + 1) =~= full.skip(i + 1));
                assert(out.deep_view() + (seq![piece@] + trimmed_pieces(full.skip(i + 1))) =~= (
                out.deep_view() + seq![piece@]) + trimmed_pieces(full.skip(i + 1)));
                assert(out.deep_view().push(piece@) =~= out.deep_view() + seq![piece@]);
            }
            out.push(piece);
            start = i + 1;
        }
        i += 1;
    }
    let last = trim_substring(s, start, n);
    proof {
        let tail = full.skip(start as int);
        lemma_trimmed_pieces_whole(tail);
        assert(tail =~= full.subrange(start as int, n as int));
        assert(out.deep_view().push(last@) =~= out.deep_view() + seq![last@]);
    }
    out.push(last);
    out
}

} // verus!
