use vstd::prelude::*;
use vstd::string::*;

verus! {

/// Whether `c` carries the Unicode `White_Space` property.
pub open spec fn is_blank(c: char) -> bool {
    let n = c as u32;
    ||| 0x09 <= n <= 0x0D
    ||| n == 0x20
    ||| n == 0x85
    ||| n == 0xA0
    ||| n == 0x1680
    ||| 0x2000 <= n <= 0x200A
    ||| n == 0x2028
    ||| n == 0x2029
    ||| n == 0x202F
    ||| n == 0x205F
    ||| n == 0x3000
}

/// Decides [`is_blank`] for one character.
pub fn blank(c: char) -> (b: bool)
    ensures
        b == is_blank(c),
{
    let n: u32 = c as u32;
    (0x09 <= n && n <= 0x0D) || n == 0x20 || n == 0x85 || n == 0xA0 || n == 0x1680 || (0x2000 <= n
        && n <= 0x200A) || n == 0x2028 || n == 0x2029 || n == 0x202F || n == 0x205F || n == 0x3000
}

/// The characters of `s`, in order.
pub fn chars_of(s: &str) -> (v: Vec<char>)
    ensures
        v@ == s@,
{
    let mut v: Vec<char> = Vec::new();
    for c in it: s.chars()
        invariant
            v@ == it.seq().take(it.index() as int),
    {
        v.push(c);
    }
    v
}

/// `s` without its leading blank characters.
pub open spec fn trim_start(s: Seq<char>) -> Seq<char>
    decreases s.len(),
{
    if s.len() > 0 && is_blank(s[0]) {
        trim_start(s.drop_first())
    } else {
        s
    }
}

/// `s` without its trailing blank characters.
pub open spec fn trim_end(s: Seq<char>) -> Seq<char>
    decreases s.len(),
{
    if s.len() > 0 && is_blank(s.last()) {
        trim_end(s.drop_last())
    } else {
        s
    }
}

/// `s` without blank characters at either end.
pub open spec fn trim(s: Seq<char>) -> Seq<char> {
    trim_end(trim_start(s))
}

/// The pieces of `s` between occurrences of `sep`, in order. There is always
/// one piece more than there are separators, so pieces may be empty.
pub open spec fn split_on(s: Seq<char>, sep: char) -> Seq<Seq<char>>
    decreases s.len(),
{
    if s.len() == 0 {
        seq![Seq::<char>::empty()]
    } else {
        let head = split_on(s.drop_last(), sep);
        if s.last() == sep {
            head.push(Seq::<char>::empty())
        } else {
            head.update(head.len() - 1, head.last().push(s.last()))
        }
    }
}

/// The pieces of `pieces` written one after another with `sep` between
/// neighbours.
pub open spec fn join_with(pieces: Seq<Seq<char>>, sep: char) -> Seq<char>
    decreases pieces.len(),
{
    if pieces.len() == 0 {
        Seq::<char>::empty()
    } else if pieces.len() == 1 {
        pieces[0]
    } else {
        join_with(pieces.drop_last(), sep).push(sep) + pieces.last()
    }
}

/// Dropping `k` leading blanks, where the next character is not blank, is
/// what `trim_start` does.
pub proof fn lemma_trim_start_is_skip(s: Seq<char>, k: int)
    requires
        0 <= k <= s.len(),
        forall|i: int| 0 <= i < k ==> is_blank(#[trigger] s[i]),
        k < s.len() ==> !is_blank(s[k]),
    ensures
        trim_start(s) == s.skip(k),
    decreases k,
{
    if k == 0 {
        assert(s.skip(0) =~= s);
    } else {
        let t = s.drop_first();
        assert forall|i: int| 0 <= i < k - 1 implies is_blank(#[trigger] t[i]) by {
            assert(t[i] == s[i + 1]);
        }
        lemma_trim_start_is_skip(t, k - 1);
        assert(t.skip(k - 1) =~= s.skip(k));
    }
}

/// Keeping the first `k` characters, where all behind them are blank and the
/// last kept one is not, is what `trim_end` does.
pub proof fn lemma_trim_end_is_take(s: Seq<char>, k: int)
    requires
        0 <= k <= s.len(),
        forall|i: int| k <= i < s.len() ==> is_blank(#[trigger] s[i]),
        0 < k ==> !is_blank(s[k - 1]),
    ensures
        trim_end(s) == s.take(k),
    decreases s.len() - k,
{
    if k == s.len() {
        assert(s.take(k) =~= s);
    } else {
        let t = s.drop_last();
        lemma_trim_end_is_take(t, k);
        assert(t.take(k) =~= s.take(k));
    }
}

/// The bounds of `trim(v@)` inside `v`.
pub fn trim_bounds(v: &Vec<char>) -> (r: (usize, usize))
    ensures
        r.0 <= r.1 <= v.len(),
        v@.subrange(r.0 as int, r.1 as int) == trim(v@),
{
    let n = v.len();
    let mut lo: usize = 0;
    while lo < n && blank(v[lo])
        invariant
            lo <= n,
            n == v.len(),
            forall|i: int| 0 <= i < lo ==> is_blank(#[trigger] v@[i]),
        decreases n - lo,
    {
        lo += 1;
    }
    let mut hi: usize = n;
    while hi > lo && blank(v[hi - 1])
        invariant
            lo <= hi <= n,
            n == v.len(),
            forall|i: int| hi <= i < n ==> is_blank(#[trigger] v@[i]),
        decreases hi,
    {
        hi -= 1;
    }
    proof {
        let rest = v@.skip(lo as int);
        lemma_trim_start_is_skip(v@, lo as int);
        assert forall|i: int| hi - lo <= i < rest.len() implies is_blank(#[trigger] rest[i]) by {
            assert(rest[i] == v@[i + lo]);
        }
        lemma_trim_end_is_take(rest, hi - lo);
        assert(rest.take(hi - lo) =~= v@.subrange(lo as int, hi as int));
    }
    (lo, hi)
}

/// Cuts `content`, with the blanks at its ends removed, at every single
/// space. The pieces come in the order in which they stand in `content`, and
/// equal pieces all stay.
pub fn parse_tokens(content: &str) -> (tokens: Vec<String>)
    ensures
        tokens.deep_view() == split_on(trim(content@), ' '),
        tokens.len() >= 1,
        forall|i: int| 0 <= i < tokens.len() ==> free_of(#[trigger] tokens[i]@, ' '),
        join_with(tokens.deep_view(), ' ') == trim(content@),
{
    let chars = chars_of(content);
    let (lo, hi) = trim_bounds(&chars);
    let ghost body = chars@.subrange(lo as int, hi as int);
    let mut tokens: Vec<String> = Vec::new();
    let mut start: usize = lo;
    let mut i: usize = lo;
    assert(chars@.subrange(lo as int, lo as int) =~= Seq::<char>::empty());
    assert(tokens.deep_view() =~= Seq::<Seq<char>>::empty());
    assert(split_on(Seq::<char>::empty(), ' ') =~= Seq::<Seq<char>>::empty().push(
        Seq::<char>::empty(),
    ));
    while i < hi
        invariant
            lo <= start <= i <= hi <= chars.len(),
            chars@ == content@,
            split_on(chars@.subrange(lo as int, i as int), ' ') == tokens.deep_view().push(
                chars@.subrange(start as int, i as int),
            ),
        decreases hi - i,
    {
        let ghost before = chars@.subrange(lo as int, i as int);
        let ghost after = chars@.subrange(lo as int, i + 1);
        let ghost done = tokens.deep_view();
        let ghost piece = chars@.subrange(start as int, i as int);
        assert(after.drop_last() =~= before);
        assert(after.last() == chars@[i as int]);
        if chars[i] == ' ' {
            let token = content.substring_char(start, i).to_owned();
            tokens.push(token);
            assert(tokens.deep_view() =~= done.push(piece));
            start = i + 1;
            assert(chars@.subrange(start as int, i + 1) =~= Seq::<char>::empty());
        } else {
            assert(chars@.subrange(start as int, i + 1) =~= piece.push(chars@[i as int]));
            assert(done.push(piece).update(done.len() as int, piece.push(chars@[i as int]))
                =~= done.push(piece.push(chars@[i as int])));
        }
        i += 1;
    }
    let ghost done = tokens.deep_view();
    let last = content.substring_char(start, hi).to_owned();
    tokens.push(last);
    assert(tokens.deep_view() =~= done.push(chars@.subrange(start as int, hi as int)));
    proof {
        lemma_split_pieces(trim(content@), ' ');
        lemma_join_split(trim(content@), ' ');
        assert forall|i: int| 0 <= i < tokens.len() implies free_of(#[trigger] tokens[i]@, ' ') by {
            assert(tokens[i]@ == tokens.deep_view()[i]);
        }
    }
    tokens
}

/// Whether `sep` occurs nowhere in `piece`.
pub open spec fn free_of(piece: Seq<char>, sep: char) -> bool {
    forall|j: int| 0 <= j < piece.len() ==> piece[j] != sep
}

/// Splitting never yields an empty list, and no piece holds the separator.
pub proof fn lemma_split_pieces(s: Seq<char>, sep: char)
    ensures
        split_on(s, sep).len() >= 1,
        forall|i: int| 0 <= i < split_on(s, sep).len() ==> free_of(#[trigger] split_on(s, sep)[i], sep),
    decreases s.len(),
{
    if s.len() > 0 {
        lemma_split_pieces(s.drop_last(), sep);
    }
}

/// Joining the pieces of a split with the separator gives the text back.
pub proof fn lemma_join_split(s: Seq<char>, sep: char)
    ensures
        join_with(split_on(s, sep), sep) == s,
    decreases s.len(),
{
    if s.len() == 0 {
        assert(join_with(split_on(s, sep), sep) =~= s);
    } else {
        let init = s.drop_last();
        let head = split_on(init, sep);
        lemma_split_pieces(init, sep);
        lemma_join_split(init, sep);
        if s.last() == sep {
            let all = head.push(Seq::<char>::empty());
            assert(all.drop_last() =~= head);
            assert(join_with(all, sep) =~= init.push(sep));
            assert(init.push(sep) =~= s);
        } else {
            let grown = head.last().push(s.last());
            let all = head.update(head.len() - 1, grown);
            if head.len() == 1 {
                assert(join_with(all, sep) =~= init.push(s.last()));
            } else {
                assert(all.drop_last() =~= head.drop_last());
                assert(join_with(all, sep) =~= join_with(head, sep).push(s.last()));
            }
            assert(init.push(s.last()) =~= s);
        }
    }
}

/// A piece without separator, written behind a separator, becomes the last
/// piece of the split.
pub proof fn lemma_split_append(a: Seq<char>, b: Seq<char>, sep: char)
    requires
        free_of(b, sep),
    ensures
        split_on(a.push(sep) + b, sep) == split_on(a, sep).push(b),
    decreases b.len(),
{
    let whole = a.push(sep) + b;
    if b.len() == 0 {
        assert(whole.drop_last() =~= a);
        assert(b =~= Seq::<char>::empty());
    } else {
        let shorter = b.drop_last();
        lemma_split_append(a, shorter, sep);
        assert(whole.drop_last() =~= a.push(sep) + shorter);
        assert(whole.last() == b.last());
        let head = split_on(a, sep).push(shorter);
        assert(shorter.push(b.last()) =~= b);
        assert(head.update(head.len() - 1, b) =~= split_on(a, sep).push(b));
    }
}

/// A text without separator is its own single piece.
pub proof fn lemma_split_single(piece: Seq<char>, sep: char)
    requires
        free_of(piece, sep),
    ensures
        split_on(piece, sep) == seq![piece],
    decreases piece.len(),
{
    if piece.len() == 0 {
        assert(piece =~= Seq::<char>::empty());
    } else {
        let shorter = piece.drop_last();
        lemma_split_single(shorter, sep);
        assert(shorter.push(piece.last()) =~= piece);
        assert(seq![shorter].update(0, piece) =~= seq![piece]);
    }
}

/// Splitting what was joined gives the pieces back: each one, in its place,
/// as often as it was there.
pub proof fn lemma_split_join(pieces: Seq<Seq<char>>, sep: char)
    requires
        pieces.len() >= 1,
        forall|i: int| 0 <= i < pieces.len() ==> free_of(#[trigger] pieces[i], sep),
    ensures
        split_on(join_with(pieces, sep), sep) == pieces,
    decreases pieces.len(),
{
    if pieces.len() == 1 {
        lemma_split_single(pieces[0], sep);
        assert(seq![pieces[0]] =~= pieces);
    } else {
        let init = pieces.drop_last();
        lemma_split_join(init, sep);
        lemma_split_append(join_with(init, sep), pieces.last(), sep);
        assert(init.push(pieces.last()) =~= pieces);
    }
}

} // verus!
