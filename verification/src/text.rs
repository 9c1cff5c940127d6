//! Character-sequence utilities: the string operations that the rest of the
//! library is built from, each with a specification over `Seq<char>`.
use vstd::prelude::*;

verus! {

/// The characters of `s`, in order.
pub fn chars_of(s: &str) -> (res: Vec<char>)
    ensures
        res@ == s@,
{


    let mut out: Vec<char> = Vec::new();
    for c in it: s.chars()
        invariant
            it.seq() == s@,
            out@ == it.seq().take(it.index() as int),
    {
        out.push(c);
    }
    out
}

/// `String` built from a sequence of characters (`FromIterator<char>` for `String`).
#[verifier::external_body]
pub fn string_of(v: &Vec<char>) -> (res: String)
    ensures
        res@ == v@,
{
    v.iter().collect()
}

/// The decimal digit character for `d`.
pub open spec fn digit_char(d: nat) -> char {
    if d == 0 { '0' } else if d == 1 { '1' } else if d == 2 { '2' } else if d == 3 { '3' }
    else if d == 4 { '4' } else if d == 5 { '5' } else if d == 6 { '6' } else if d == 7 { '7' }
    else if d == 8 { '8' } else { '9' }
}

/// Decimal rendering of a natural number, without leading zeros.
pub open spec fn decimal(n: nat) -> Seq<char>
    decreases n,
{
    if n < 10 {
        seq![digit_char(n)]
    } else {
        decimal(n / 10).push(digit_char(n % 10))
    }
}

fn digit_of(d: u64) -> (c: char)
    requires
        d < 10,
    ensures
        c == digit_char(d as nat),
{
    if d == 0 { '0' } else if d == 1 { '1' } else if d == 2 { '2' } else if d == 3 { '3' }
    else if d == 4 { '4' } else if d == 5 { '5' } else if d == 6 { '6' } else if d == 7 { '7' }
    else if d == 8 { '8' } else { '9' }
}

/// Decimal digits of `n`.
pub fn decimal_chars(n: u64) -> (res: Vec<char>)
    ensures
        res@ == decimal(n as nat),
    decreases n,
{
    if n < 10 {
        let mut v = Vec::new();
        v.push(digit_of(n));
        v
    } else {
        let mut v = decimal_chars(n / 10);
        v.push(digit_of(n % 10));
        v
    }
}

} // verus!

verus! {

/// `p` is a prefix of `s`.
pub open spec fn is_prefix_of(p: Seq<char>, s: Seq<char>) -> bool {
    p.len() <= s.len() && s.subrange(0, p.len() as int) == p
}

/// `p` is a suffix of `s`.
pub open spec fn is_suffix_of(p: Seq<char>, s: Seq<char>) -> bool {
    p.len() <= s.len() && s.subrange(s.len() - p.len(), s.len() as int) == p
}

/// `pat` occurs in `s` starting at position `i`.
pub open spec fn occurs_at(s: Seq<char>, pat: Seq<char>, i: int) -> bool {
    0 <= i && i + pat.len() <= s.len() && s.subrange(i, i + pat.len()) == pat
}

/// `pat` occurs somewhere in `s` (the empty pattern occurs in every sequence).
pub open spec fn contains_seq(s: Seq<char>, pat: Seq<char>) -> bool {
    exists|i: int| occurs_at(s, pat, i)
}

/// Appends all of `x` to `out`.
pub fn push_all(out: &mut Vec<char>, x: &Vec<char>)
    ensures
        final(out)@ == old(out)@ + x@,
{
    let n = x.len();
    let ghost start = out@;
    for i in 0..n
        invariant
            n == x@.len(),
            out@ == start + x@.subrange(0, i as int),
    {
        out.push(x[i]);
        assert(x@.subrange(0, i + 1) == x@.subrange(0, i as int).push(x@[i as int]));
    }
    assert(x@.subrange(0, n as int) == x@);
}

/// Concatenation of two character sequences.
pub fn concat(a: &Vec<char>, b: &Vec<char>) -> (res: Vec<char>)
    ensures
        res@ == a@ + b@,
{
    let mut out = a.clone();
    push_all(&mut out, b);
    out
}

/// The characters of `s` from `start` up to (not including) `end`.
pub fn slice(s: &Vec<char>, start: usize, end: usize) -> (res: Vec<char>)
    requires
        start <= end <= s@.len(),
    ensures
        res@ == s@.subrange(start as int, end as int),
{
    let mut out: Vec<char> = Vec::new();
    let mut i = start;
    while i < end
        invariant
            start <= i <= end <= s@.len(),
            out@ == s@.subrange(start as int, i as int),
        decreases end - i,
    {
        out.push(s[i]);
        assert(s@.subrange(start as int, i + 1) == s@.subrange(start as int, i as int).push(s@[i as int]));
        i = i + 1;
    }
    out
}

/// Does `pat` occur in `s` at position `i`?
pub fn occurs_at_exec(s: &Vec<char>, pat: &Vec<char>, i: usize) -> (res: bool)
    ensures
        res == occurs_at(s@, pat@, i as int),
{
    let n = s.len();
    let m = pat.len();
    if i > n || m > n - i {
        return false;
    }
    let mut j: usize = 0;
    while j < m
        invariant
            i + m <= n == s@.len(),
            m == pat@.len(),
            j <= m,
            forall|k: int| 0 <= k < j ==> s@[i + k] == pat@[k],
        decreases m - j,
    {
        if s[i + j] != pat[j] {
            assert(s@.subrange(i as int, i + m)[j as int] != pat@[j as int]);
            return false;
        }
        j = j + 1;
    }
    assert(s@.subrange(i as int, i + m) =~= pat@);
    true
}

/// `s` begins with `p`.
pub fn starts_with(s: &Vec<char>, p: &Vec<char>) -> (res: bool)
    ensures
        res == is_prefix_of(p@, s@),
{
    occurs_at_exec(s, p, 0)
}

/// `s` ends with `p`.
pub fn ends_with(s: &Vec<char>, p: &Vec<char>) -> (res: bool)
    ensures
        res == is_suffix_of(p@, s@),
{
    if p.len() > s.len() {
        false
    } else {
        occurs_at_exec(s, p, s.len() - p.len())
    }
}

/// Position of the first occurrence of `pat` in `s`.
pub fn find(s: &Vec<char>, pat: &Vec<char>) -> (res: Option<usize>)
    ensures
        match res {
            Some(i) => occurs_at(s@, pat@, i as int) && forall|k: int| 0 <= k < i ==> !occurs_at(s@, pat@, k),
            None => !contains_seq(s@, pat@),
        },
{
    let n = s.len();
    let mut i: usize = 0;
    while i < n
        invariant
            n == s@.len(),
            i <= n,
            forall|k: int| 0 <= k < i ==> !occurs_at(s@, pat@, k),
        decreases n - i,
    {
        if occurs_at_exec(s, pat, i) {
            return Some(i);
        }
        i = i + 1;
    }
    if occurs_at_exec(s, pat, n) {
        return Some(n);
    }

    assert forall|k: int| !occurs_at(s@, pat@, k) by {
        if 0 <= k && k <= n {
        }
    }
    None
}

/// `pat` occurs somewhere in `s`.
pub fn contains(s: &Vec<char>, pat: &Vec<char>) -> (res: bool)
    ensures
        res == contains_seq(s@, pat@),
{
    match find(s, pat) {
        Some(_) => true,
        None => false,
    }
}

/// Does `c` occur in `s`?
pub fn contains_char(s: &Vec<char>, c: char) -> (res: bool)
    ensures
        res == s@.contains(c),
{
    let n = s.len();
    for i in 0..n
        invariant
            n == s@.len(),
            forall|k: int| 0 <= k < i ==> s@[k] != c,
    {
        if s[i] == c {
            return true;
        }
    }
    false
}

/// Every non-overlapping occurrence of `from`, scanning left to right, replaced
/// by `to` (the behaviour of `str::replace` for a non-empty pattern).
pub open spec fn replace_all(s: Seq<char>, from: Seq<char>, to: Seq<char>) -> Seq<char>
    decreases s.len(),
{
    if from.len() == 0 || s.len() < from.len() {
        s
    } else if s.subrange(0, from.len() as int) == from {
        to + replace_all(s.subrange(from.len() as int, s.len() as int), from, to)
    } else {
        seq![s[0]] + replace_all(s.subrange(1, s.len() as int), from, to)
    }
}

/// `s` with every occurrence of `from` replaced by `to`.
pub fn replace(s: &Vec<char>, from: &Vec<char>, to: &Vec<char>) -> (res: Vec<char>)
    requires
        from@.len() > 0,
    ensures
        res@ == replace_all(s@, from@, to@),
{
    let n = s.len();
    let m = from.len();
    let mut out: Vec<char> = Vec::new();
    let mut i: usize = 0;
    assert(s@.subrange(0, n as int) == s@);
    while i < n
        invariant
            n == s@.len(),
            m == from@.len(),
            m > 0,
            i <= n,
            out@ + replace_all(s@.subrange(i as int, n as int), from@, to@) == replace_all(s@, from@, to@),
        decreases n - i,
    {
        let ghost rest = s@.subrange(i as int, n as int);
        if occurs_at_exec(s, from, i) {
            assert(rest.subrange(0, m as int) == s@.subrange(i as int, i + m));
            assert(rest.subrange(m as int, rest.len() as int) == s@.subrange(i + m, n as int));
            assert(out@ + to@ + replace_all(s@.subrange(i + m, n as int), from@, to@)
                == out@ + replace_all(rest, from@, to@));
            push_all(&mut out, to);
            i = i + m;
        } else {
            proof {
                if rest.len() >= m {
                    assert(rest.subrange(0, m as int) == s@.subrange(i as int, i + m));
                }
            }
            assert(rest.subrange(1, rest.len() as int) == s@.subrange(i + 1, n as int));
            assert(out@.push(s@[i as int]) + replace_all(s@.subrange(i + 1, n as int), from@, to@)
                == out@ + replace_all(rest, from@, to@));
            out.push(s[i]);
            i = i + 1;
        }
    }
    assert(s@.subrange(n as int, n as int) =~= Seq::<char>::empty());
    out
}

} // verus!

verus! {

/// The views of a sequence of character vectors.
pub open spec fn views(v: Seq<Vec<char>>) -> Seq<Seq<char>> {
    v.map_values(|x: Vec<char>| x@)
}

/// The pieces of `s` between occurrences of `c` (the behaviour of `str::split`
/// with a character pattern): there is always at least one piece.
pub open spec fn split_char(s: Seq<char>, c: char) -> Seq<Seq<char>>
    decreases s.len(),
{
    if s.len() == 0 {
        seq![Seq::<char>::empty()]
    } else {
        let p = split_char(s.drop_last(), c);
        if s.last() == c {
            p.push(Seq::<char>::empty())
        } else {
            p.update(p.len() - 1, p.last().push(s.last()))
        }
    }
}

/// Splitting never yields an empty list of pieces.
pub proof fn lemma_split_char_nonempty(s: Seq<char>, c: char)
    ensures
        split_char(s, c).len() >= 1,
    decreases s.len(),
{
    if s.len() > 0 {
        lemma_split_char_nonempty(s.drop_last(), c);
    }
}

/// The pieces of `s` separated by `c`.
pub fn split(s: &Vec<char>, c: char) -> (res: Vec<Vec<char>>)
    ensures
        views(res@) == split_char(s@, c),
{
    let n = s.len();
    let mut parts: Vec<Vec<char>> = Vec::new();
    let mut cur: Vec<char> = Vec::new();
    assert(s@.take(0) =~= Seq::<char>::empty());
    for i in 0..n
        invariant
            n == s@.len(),
            views(parts@).push(cur@) == split_char(s@.take(i as int), c),
    {
        let ghost before = s@.take(i as int);
        assert(s@.take(i + 1).drop_last() == before);
        proof {
            lemma_split_char_nonempty(before, c);
        }
        if s[i] == c {
            let ghost old_parts = parts@;
            parts.push(cur);
            cur = Vec::new();
            assert(views(parts@) == views(old_parts).push(views(parts@).last()));
            assert(views(parts@).push(cur@) == split_char(before, c).push(Seq::<char>::empty()));
        } else {
            let ghost old_cur = cur@;
            cur.push(s[i]);
            assert(views(parts@).push(cur@) == views(parts@).push(old_cur).update(
                views(parts@).len() as int,
                old_cur.push(s@[i as int]),
            ));
        }
    }
    assert(s@.take(n as int) == s@);
    let ghost old_parts = parts@;
    parts.push(cur);
    assert(views(parts@) == views(old_parts).push(views(parts@).last()));
    parts
}

/// The pieces of `parts` with `sep` between each two (the behaviour of `join`).
pub open spec fn join_seq(parts: Seq<Seq<char>>, sep: Seq<char>) -> Seq<char>
    decreases parts.len(),
{
    if parts.len() == 0 {
        Seq::<char>::empty()
    } else if parts.len() == 1 {
        parts[0]
    } else {
        join_seq(parts.drop_last(), sep) + sep + parts.last()
    }
}

/// `parts` joined with `sep`.
pub fn join(parts: &Vec<Vec<char>>, sep: &Vec<char>) -> (res: Vec<char>)
    ensures
        res@ == join_seq(views(parts@), sep@),
{
    let n = parts.len();
    let mut out: Vec<char> = Vec::new();
    assert(views(parts@).take(0) =~= Seq::<Seq<char>>::empty());
    for i in 0..n
        invariant
            n == parts@.len(),
            out@ == join_seq(views(parts@).take(i as int), sep@),
    {
        let ghost before = views(parts@).take(i as int);
        assert(views(parts@).take(i + 1).drop_last() == before);
        assert(views(parts@).take(i + 1).last() == parts@[i as int]@);
        if i > 0 {
            push_all(&mut out, sep);
        } else {
            assert(views(parts@).take(1) =~= seq![parts@[0]@]);
        }
        push_all(&mut out, &parts[i]);
    }
    assert(views(parts@).take(n as int) == views(parts@));
    out
}

/// Unicode `White_Space`, the set that `char::is_whitespace` tests.
pub open spec fn is_white_space(c: char) -> bool {
    ('\u{9}' <= c && c <= '\u{d}') || c == ' ' || c == '\u{85}' || c == '\u{a0}' || c == '\u{1680}'
        || ('\u{2000}' <= c && c <= '\u{200a}') || c == '\u{2028}' || c == '\u{2029}'
        || c == '\u{202f}' || c == '\u{205f}' || c == '\u{3000}'
}

/// Is `c` Unicode white space?
pub fn white_space(c: char) -> (res: bool)
    ensures
        res == is_white_space(c),
{
    ('\u{9}' <= c && c <= '\u{d}') || c == ' ' || c == '\u{85}' || c == '\u{a0}' || c == '\u{1680}'
        || ('\u{2000}' <= c && c <= '\u{200a}') || c == '\u{2028}' || c == '\u{2029}'
        || c == '\u{202f}' || c == '\u{205f}' || c == '\u{3000}'
}

/// `s` without its leading white space.
pub open spec fn trim_start_seq(s: Seq<char>) -> Seq<char>
    decreases s.len(),
{
    if s.len() > 0 && is_white_space(s[0]) {
        trim_start_seq(s.subrange(1, s.len() as int))
    } else {
        s
    }
}

/// `s` without its trailing white space.
pub open spec fn trim_end_seq(s: Seq<char>) -> Seq<char>
    decreases s.len(),
{
    if s.len() > 0 && is_white_space(s.last()) {
        trim_end_seq(s.drop_last())
    } else {
        s
    }
}

/// `s` without leading and trailing white space (the behaviour of `str::trim`).
pub open spec fn trim_seq(s: Seq<char>) -> Seq<char> {
    trim_end_seq(trim_start_seq(s))
}

/// `s` without leading and trailing white space.
pub fn trim(s: &Vec<char>) -> (res: Vec<char>)
    ensures
        res@ == trim_seq(s@),
{
    let n = s.len();
    let mut a: usize = 0;
    assert(s@.subrange(0, n as int) == s@);
    while a < n && white_space(s[a])
        invariant
            a <= n == s@.len(),
            trim_start_seq(s@) == trim_start_seq(s@.subrange(a as int, n as int)),
        decreases n - a,
    {
        assert(s@.subrange(a as int, n as int).subrange(1, (n - a) as int) == s@.subrange(a + 1, n as int));
        a = a + 1;
    }
    let mut b: usize = n;
    assert(trim_start_seq(s@) == s@.subrange(a as int, n as int));
    while b > a && white_space(s[b - 1])
        invariant
            a <= b <= n == s@.len(),
            trim_seq(s@) == trim_end_seq(s@.subrange(a as int, b as int)),
        decreases b - a,
    {
        assert(s@.subrange(a as int, b as int).drop_last() == s@.subrange(a as int, b - 1));
        b = b - 1;
    }
    slice(s, a, b)
}

/// `l` without one trailing carriage return.
pub open spec fn strip_cr(l: Seq<char>) -> Seq<char> {
    if l.len() > 0 && l.last() == '\r' {
        l.drop_last()
    } else {
        l
    }
}

/// The lines of `s` (the behaviour of `str::lines`): pieces between line
/// feeds, each that ended in a line feed without one trailing carriage
/// return, and without an empty final piece.
pub open spec fn lines_seq(s: Seq<char>) -> Seq<Seq<char>> {
    let pieces = split_char(s, '\n');
    let init = pieces.drop_last().map_values(|l: Seq<char>| strip_cr(l));
    if pieces.last().len() == 0 {
        init
    } else {
        init.push(pieces.last())
    }
}

/// The lines of `s`.
pub fn lines(s: &Vec<char>) -> (res: Vec<Vec<char>>)
    ensures
        views(res@) == lines_seq(s@),
{
    let pieces = split(s, '\n');
    proof {
        lemma_split_char_nonempty(s@, '\n');
    }
    let n = pieces.len();
    let ghost spec_pieces = split_char(s@, '\n');
    let mut out: Vec<Vec<char>> = Vec::new();
    for i in 0..n - 1
        invariant
            n == pieces@.len() >= 1,
            views(pieces@) == spec_pieces,
            views(out@) == spec_pieces.drop_last().map_values(|l: Seq<char>| strip_cr(l)).take(i as int),
    {
        let p = &pieces[i];
        let m = p.len();
        let line = if m > 0 && p[m - 1] == '\r' {
            slice(p, 0, m - 1)
        } else {
            slice(p, 0, m)
        };
        assert(p@.subrange(0, m as int) == p@);
        assert(p@.subrange(0, m - 1) == p@.drop_last());
        let ghost old_out = out@;
        out.push(line);
        assert(views(out@) == views(old_out).push(line@));
        assert(spec_pieces.drop_last().map_values(|l: Seq<char>| strip_cr(l)).take(i + 1)
            == spec_pieces.drop_last().map_values(|l: Seq<char>| strip_cr(l)).take(i as int).push(
            strip_cr(spec_pieces[i as int])));
    }
    assert(spec_pieces.drop_last().map_values(|l: Seq<char>| strip_cr(l)).take(n - 1)
        == spec_pieces.drop_last().map_values(|l: Seq<char>| strip_cr(l)));
    let last = &pieces[n - 1];
    if last.len() > 0 {
        let ghost old_out = out@;
        out.push(slice(last, 0, last.len()));
        assert(last@.subrange(0, last@.len() as int) == last@);
        assert(views(out@) == views(old_out).push(last@));
    }
    out
}

} // verus!

verus! {

/// The pieces of `s` between white-space characters.
pub open spec fn split_white(s: Seq<char>) -> Seq<Seq<char>>
    decreases s.len(),
{
    if s.len() == 0 {
        seq![Seq::<char>::empty()]
    } else {
        let p = split_white(s.drop_last());
        if is_white_space(s.last()) {
            p.push(Seq::<char>::empty())
        } else {
            p.update(p.len() - 1, p.last().push(s.last()))
        }
    }
}

proof fn lemma_split_white_nonempty(s: Seq<char>)
    ensures
        split_white(s).len() >= 1,
    decreases s.len(),
{
    if s.len() > 0 {
        lemma_split_white_nonempty(s.drop_last());
    }
}

/// The non-empty pieces of `parts`, in order.
pub open spec fn non_empty(parts: Seq<Seq<char>>) -> Seq<Seq<char>>
    decreases parts.len(),
{
    if parts.len() == 0 {
        parts
    } else if parts.last().len() > 0 {
        non_empty(parts.drop_last()).push(parts.last())
    } else {
        non_empty(parts.drop_last())
    }
}

/// The white-space separated words of `s` (the behaviour of `str::split_whitespace`).
pub open spec fn words_seq(s: Seq<char>) -> Seq<Seq<char>> {
    non_empty(split_white(s))
}

/// The white-space separated words of `s`.
pub fn words(s: &Vec<char>) -> (res: Vec<Vec<char>>)
    ensures
        views(res@) == words_seq(s@),
{
    let n = s.len();
    let mut parts: Vec<Vec<char>> = Vec::new();
    let mut cur: Vec<char> = Vec::new();
    assert(s@.take(0) =~= Seq::<char>::empty());
    for i in 0..n
        invariant
            n == s@.len(),
            views(parts@).push(cur@) == split_white(s@.take(i as int)),
    {
        let ghost before = s@.take(i as int);
        assert(s@.take(i + 1).drop_last() == before);
        proof {
            lemma_split_white_nonempty(before);
        }
        if white_space(s[i]) {
            let ghost old_parts = parts@;
            parts.push(cur);
            cur = Vec::new();
            assert(views(parts@) == views(old_parts).push(views(parts@).last()));
            assert(views(parts@).push(cur@) == split_white(before).push(Seq::<char>::empty()));
        } else {
            let ghost old_cur = cur@;
            cur.push(s[i]);
            assert(views(parts@).push(cur@) == views(parts@).push(old_cur).update(
                views(parts@).len() as int,
                old_cur.push(s@[i as int]),
            ));
        }
    }
    assert(s@.take(n as int) == s@);
    let ghost old_parts = parts@;
    parts.push(cur);
    assert(views(parts@) == views(old_parts).push(views(parts@).last()));
    let ghost all = views(parts@);
    let m = parts.len();
    let mut out: Vec<Vec<char>> = Vec::new();
    assert(all.take(0) =~= Seq::<Seq<char>>::empty());
    for j in 0..m
        invariant
            m == parts@.len(),
            all == views(parts@),
            views(out@) == non_empty(all.take(j as int)),
    {
        assert(all.take(j + 1).drop_last() == all.take(j as int));
        assert(all.take(j + 1).last() == parts@[j as int]@);
        if parts[j].len() > 0 {
            let ghost old_out = out@;
            let p = slice(&parts[j], 0, parts[j].len());
            assert(parts@[j as int]@.subrange(0, parts@[j as int]@.len() as int) == parts@[j as int]@);
            out.push(p);
            assert(views(out@) == views(old_out).push(p@));
        }
    }
    assert(all.take(m as int) == all);
    out
}

/// Lower-case hexadecimal digit for `d`.
pub open spec fn hex_digit_lower(d: nat) -> char {
    if d < 10 { digit_char(d) } else if d == 10 { 'a' } else if d == 11 { 'b' } else if d == 12 { 'c' }
    else if d == 13 { 'd' } else if d == 14 { 'e' } else { 'f' }
}

/// Upper-case hexadecimal digit for `d`.
pub open spec fn hex_digit_upper(d: nat) -> char {
    if d < 10 { digit_char(d) } else if d == 10 { 'A' } else if d == 11 { 'B' } else if d == 12 { 'C' }
    else if d == 13 { 'D' } else if d == 14 { 'E' } else { 'F' }
}

/// Hexadecimal rendering of `n` without leading zeros, in lower or upper case
/// (the `{:x}` and `{:X}` formats).
pub open spec fn hex(n: nat, upper: bool) -> Seq<char>
    decreases n,
{
    let d = if upper { hex_digit_upper(n % 16) } else { hex_digit_lower(n % 16) };
    if n < 16 {
        seq![d]
    } else {
        hex(n / 16, upper).push(d)
    }
}

fn hex_digit_of(d: u64, upper: bool) -> (c: char)
    requires
        d < 16,
    ensures
        c == (if upper { hex_digit_upper(d as nat) } else { hex_digit_lower(d as nat) }),
{
    if d < 10 {
        digit_of(d)
    } else if upper {
        if d == 10 { 'A' } else if d == 11 { 'B' } else if d == 12 { 'C' } else if d == 13 { 'D' }
        else if d == 14 { 'E' } else { 'F' }
    } else {
        if d == 10 { 'a' } else if d == 11 { 'b' } else if d == 12 { 'c' } else if d == 13 { 'd' }
        else if d == 14 { 'e' } else { 'f' }
    }
}

/// Hexadecimal digits of `n`.
pub fn hex_chars(n: u64, upper: bool) -> (res: Vec<char>)
    ensures
        res@ == hex(n as nat, upper),
    decreases n,
{
    if n < 16 {
        let mut v = Vec::new();
        v.push(hex_digit_of(n, upper));
        v
    } else {
        let mut v = hex_chars(n / 16, upper);
        v.push(hex_digit_of(n % 16, upper));
        v
    }
}

/// Decimal rendering of a signed integer.
pub open spec fn signed_decimal(n: int) -> Seq<char> {
    if n < 0 {
        seq!['-'] + decimal((-n) as nat)
    } else {
        decimal(n as nat)
    }
}

/// Decimal digits of a signed 32-bit integer, with a leading minus sign when negative.
pub fn signed_decimal_chars(n: i32) -> (res: Vec<char>)
    ensures
        res@ == signed_decimal(n as int),
{
    if n < 0 {
        let mag: u64 = (0i64 - n as i64) as u64;
        let mut out: Vec<char> = Vec::new();
        out.push('-');
        let digits = decimal_chars(mag);
        push_all(&mut out, &digits);
        out
    } else {
        decimal_chars(n as u64)
    }
}

/// `c` is `p`, or its ASCII upper-case form when `p` is a lower-case letter.
pub open spec fn same_letter(c: char, p: char) -> bool {
    c == p || ('a' <= p && p <= 'z' && (c as u32) + 32 == (p as u32))
}

/// `s` begins with the lower-case text `p`, letters in either ASCII case.
pub open spec fn starts_with_any_case(s: Seq<char>, p: Seq<char>) -> bool {
    p.len() <= s.len() && forall|i: int| 0 <= i < p.len() ==> same_letter(#[trigger] s[i], p[i])
}

/// Does `s` begin with the lower-case text `p`, letters in either ASCII case?
pub fn begins_with_any_case(s: &Vec<char>, p: &Vec<char>) -> (res: bool)
    ensures
        res == starts_with_any_case(s@, p@),
{
    if p.len() > s.len() {
        return false;
    }
    let n = p.len();
    for i in 0..n
        invariant
            n == p@.len() <= s@.len(),
            forall|k: int| 0 <= k < i ==> same_letter(#[trigger] s@[k], p@[k]),
    {
        let c = s[i];
        let q = p[i];
        if !(c == q || ('a' <= q && q <= 'z' && (c as u32) < 0x10000 && (c as u32) + 32 == (q as u32))) {
            return false;
        }
    }
    true
}

/// Every character of `s` is ASCII.
pub open spec fn is_ascii_text(s: Seq<char>) -> bool {
    forall|i: int| 0 <= i < s.len() ==> (s[i] as u32) < 128
}

/// The ASCII lower-case form of `c`: `A`..`Z` become `a`..`z`.
pub open spec fn ascii_lower_char(c: char) -> char {
    if 'A' <= c && c <= 'Z' {
        ((c as u32) + 32) as char
    } else {
        c
    }
}

/// The ASCII upper-case form of `c`: `a`..`z` become `A`..`Z`.
pub open spec fn ascii_upper_char(c: char) -> char {
    if 'a' <= c && c <= 'z' {
        ((c as u32) - 32) as char
    } else {
        c
    }
}

/// `s` with ASCII letters lower-cased.
pub open spec fn ascii_lower(s: Seq<char>) -> Seq<char> {
    s.map_values(|c: char| ascii_lower_char(c))
}

/// `s` with ASCII letters upper-cased.
pub open spec fn ascii_upper(s: Seq<char>) -> Seq<char> {
    s.map_values(|c: char| ascii_upper_char(c))
}

/// What `str::to_lowercase` returns for a text that is not all ASCII.
pub uninterp spec fn unicode_lowercase(s: Seq<char>) -> Seq<char>;

/// What `str::to_uppercase` returns for a text that is not all ASCII.
pub uninterp spec fn unicode_uppercase(s: Seq<char>) -> Seq<char>;

/// The lower-case form of `s` under Unicode case mapping: on ASCII text,
/// ASCII lower-casing.
#[verifier::opaque]
pub open spec fn lowercase(s: Seq<char>) -> Seq<char> {
    if is_ascii_text(s) {
        ascii_lower(s)
    } else {
        unicode_lowercase(s)
    }
}

/// The upper-case form of `s` under Unicode case mapping: on ASCII text,
/// ASCII upper-casing.
#[verifier::opaque]
pub open spec fn uppercase(s: Seq<char>) -> Seq<char> {
    if is_ascii_text(s) {
        ascii_upper(s)
    } else {
        unicode_uppercase(s)
    }
}

/// A character of a canonical model tag: a lower-case ASCII letter, a
/// digit, `.`, `:`, `-` or `_`.
pub open spec fn is_tag_char(c: char) -> bool {
    ('a' <= c && c <= 'z') || ('0' <= c && c <= '9') || c == '.' || c == ':' || c == '-' || c == '_'
}

/// `s` has no white space at either end.
pub open spec fn is_trimmed(s: Seq<char>) -> bool {
    s.len() == 0 || (!is_white_space(s[0]) && !is_white_space(s.last()))
}

proof fn lemma_trim_start_props(s: Seq<char>)
    ensures
        trim_start_seq(s).len() == 0 || !is_white_space(trim_start_seq(s)[0]),
        is_ascii_text(s) ==> is_ascii_text(trim_start_seq(s)),
        trim_start_seq(s).len() > 0 ==> trim_start_seq(s).last() == s.last(),
    decreases s.len(),
{
    if s.len() > 0 && is_white_space(s[0]) {
        let rest = s.subrange(1, s.len() as int);
        lemma_trim_start_props(rest);
        if is_ascii_text(s) {
            assert forall|i: int| 0 <= i < rest.len() implies (rest[i] as u32) < 128 by {
                assert(rest[i] == s[i + 1]);
            }
        }
    }
}

proof fn lemma_trim_end_props(s: Seq<char>)
    ensures
        trim_end_seq(s).len() == 0 || !is_white_space(trim_end_seq(s).last()),
        is_ascii_text(s) ==> is_ascii_text(trim_end_seq(s)),
        trim_end_seq(s).len() > 0 ==> trim_end_seq(s)[0] == s[0],
    decreases s.len(),
{
    if s.len() > 0 && is_white_space(s.last()) {
        let rest = s.drop_last();
        lemma_trim_end_props(rest);
        if is_ascii_text(s) {
            assert forall|i: int| 0 <= i < rest.len() implies (rest[i] as u32) < 128 by {
                assert(rest[i] == s[i]);
            }
        }
    }
}

/// Trimming leaves no white space at either end, and keeps ASCII text ASCII.
pub proof fn lemma_trim_is_trimmed(s: Seq<char>)
    ensures
        is_trimmed(trim_seq(s)),
        is_ascii_text(s) ==> is_ascii_text(trim_seq(s)),
{
    lemma_trim_start_props(s);
    lemma_trim_end_props(trim_start_seq(s));
}

/// Text with no white space at either end is its own trimmed form.
pub proof fn lemma_trimmed_is_fixed(s: Seq<char>)
    requires
        is_trimmed(s),
    ensures
        trim_seq(s) == s,
{
}

/// On ASCII text, lower-casing gives ASCII text with the same white space at
/// its ends, and lower-casing it again changes nothing.
pub proof fn lemma_ascii_lowercase(s: Seq<char>)
    requires
        is_ascii_text(s),
    ensures
        lowercase(s) == ascii_lower(s),
        is_ascii_text(ascii_lower(s)),
        lowercase(ascii_lower(s)) == ascii_lower(s),
        is_trimmed(s) ==> is_trimmed(ascii_lower(s)),
{
    reveal(lowercase);
    let l = ascii_lower(s);
    assert forall|i: int| 0 <= i < l.len() implies (l[i] as u32) < 128 && ascii_lower_char(l[i]) == l[i]
        && (is_white_space(l[i]) == is_white_space(s[i])) by {
        assert((s[i] as u32) < 128);
    }
    assert(ascii_lower(l) =~= l);
}

/// Text made of tag characters is its own trimmed, lower-cased form.
pub proof fn lemma_tag_text_is_canonical(t: Seq<char>)
    requires
        forall|i: int| 0 <= i < t.len() ==> is_tag_char(#[trigger] t[i]),
    ensures
        lowercase(trim_seq(t)) == t,
{
    reveal(lowercase);
    assert(is_trimmed(t));
    assert(is_ascii_text(t));
    assert(ascii_lower(t) =~= t);
}

/// Calls `str::to_lowercase`. Unicode's lower-case mapping takes `A`..`Z` to
/// `a`..`z` and leaves every other ASCII character as it is, so ASCII text
/// is lower-cased letter by letter; other text gives the result named
/// `unicode_lowercase`.
#[verifier::external_body]
pub fn to_lowercase(s: &Vec<char>) -> (res: Vec<char>)
    ensures
        res@ == (if is_ascii_text(s@) { ascii_lower(s@) } else { unicode_lowercase(s@) }),
        res@ == lowercase(s@),
{
    let text: String = s.iter().collect();
    text.to_lowercase().chars().collect()
}

/// Calls `str::to_uppercase`. Unicode's upper-case mapping takes `a`..`z` to
/// `A`..`Z` and leaves every other ASCII character as it is, so ASCII text
/// is upper-cased letter by letter; other text gives the result named
/// `unicode_uppercase`.
#[verifier::external_body]
pub fn to_uppercase(s: &Vec<char>) -> (res: Vec<char>)
    ensures
        res@ == (if is_ascii_text(s@) { ascii_upper(s@) } else { unicode_uppercase(s@) }),
        res@ == uppercase(s@),
{
    let text: String = s.iter().collect();
    text.to_uppercase().chars().collect()
}

} // verus!

verus! {

/// The characters of an optional string.
pub open spec fn opt_text(o: Option<String>) -> Option<Seq<char>> {
    match o {
        Some(t) => Some(t@),
        None => None,
    }
}

/// An owned copy of `s`.
pub fn owned(s: &str) -> (res: String)
    ensures
        res@ == s@,
{
    s.to_owned()
}

/// Do `a` and `b` hold the same characters?
pub fn same_chars(a: &Vec<char>, b: &Vec<char>) -> (res: bool)
    ensures
        res == (a@ == b@),
{
    if a.len() != b.len() {
        return false;
    }
    let r = occurs_at_exec(a, b, 0);
    assert(a@.subrange(0, b@.len() as int) == a@);
    r
}

/// Is `s` exactly the text `lit`?
pub fn is_text(s: &Vec<char>, lit: &str) -> (res: bool)
    ensures
        res == (s@ == lit@),
{
    let l = chars_of(lit);
    same_chars(s, &l)
}

} // verus!

verus! {

/// A copy of `s`.
pub fn copy_chars(s: &Vec<char>) -> (res: Vec<char>)
    ensures
        res@ == s@,
{
    let r = slice(s, 0, s.len());
    assert(s@.subrange(0, s@.len() as int) == s@);
    r
}

/// The pieces of `parts` from index `start` on.
pub fn parts_from(parts: &Vec<Vec<char>>, start: usize) -> (res: Vec<Vec<char>>)
    requires
        start <= parts@.len(),
    ensures
        views(res@) == views(parts@).subrange(start as int, parts@.len() as int),
{
    let n = parts.len();
    let mut out: Vec<Vec<char>> = Vec::new();
    let mut i = start;
    while i < n
        invariant
            start <= i <= n == parts@.len(),
            views(out@) == views(parts@).subrange(start as int, i as int),
        decreases n - i,
    {
        let ghost old_out = out@;
        out.push(copy_chars(&parts[i]));
        assert(views(out@) == views(old_out).push(parts@[i as int]@));
        assert(views(parts@).subrange(start as int, i + 1) == views(parts@).subrange(start as int, i as int).push(
            parts@[i as int]@,
        ));
        i = i + 1;
    }
    out
}

} // verus!

verus! {

/// Splitting a sequence that does not contain the separator yields just that sequence.
pub proof fn lemma_split_char_without_separator(s: Seq<char>, c: char)
    requires
        !s.contains(c),
    ensures
        split_char(s, c) == seq![s],
    decreases s.len(),
{
    if s.len() > 0 {
        assert(!s.drop_last().contains(c)) by {
            if s.drop_last().contains(c) {
                let k = choose|k: int| 0 <= k < s.drop_last().len() && s.drop_last()[k] == c;
                assert(s[k] == c);
            }
        }
        lemma_split_char_without_separator(s.drop_last(), c);
        assert(s[s.len() - 1] != c);
        assert(s.drop_last().push(s.last()) == s);
    } else {
        assert(s == Seq::<char>::empty());
    }
}

/// Splitting `a`, the separator, then `b` yields `a` followed by the pieces of `b`,
/// when `a` does not contain the separator.
pub proof fn lemma_split_char_after_separator(a: Seq<char>, c: char, b: Seq<char>)
    requires
        !a.contains(c),
    ensures
        split_char(a + seq![c] + b, c) == seq![a] + split_char(b, c),
    decreases b.len(),
{
    if b.len() == 0 {
        lemma_split_char_without_separator(a, c);
        assert((a + seq![c] + b).drop_last() == a);
        assert(split_char(b, c) == seq![Seq::<char>::empty()]);
    } else {
        let b0 = b.drop_last();
        lemma_split_char_after_separator(a, c, b0);
        lemma_split_char_nonempty(b0, c);
        assert((a + seq![c] + b).drop_last() == a + seq![c] + b0);
        assert((a + seq![c] + b).last() == b.last());
        let p = split_char(b0, c);
        if b.last() == c {
            assert(seq![a] + p.push(Seq::<char>::empty()) == (seq![a] + p).push(Seq::<char>::empty()));
        } else {
            assert((seq![a] + p).update((seq![a] + p).len() - 1, (seq![a] + p).last().push(b.last()))
                == seq![a] + p.update(p.len() - 1, p.last().push(b.last())));
        }
    }
}

proof fn lemma_join_extend_last(p: Seq<Seq<char>>, sep: Seq<char>, x: char)
    requires
        p.len() >= 1,
    ensures
        join_seq(p.update(p.len() - 1, p.last().push(x)), sep) == join_seq(p, sep).push(x),
{
    let q = p.update(p.len() - 1, p.last().push(x));
    if p.len() == 1 {
        assert(q[0] == p[0].push(x));
    } else {
        assert(q.drop_last() == p.drop_last());
        assert(join_seq(p.drop_last(), sep) + sep + p.last().push(x) == (join_seq(p.drop_last(), sep) + sep
            + p.last()).push(x));
    }
}

/// Joining the pieces of `s` with the separator gives back `s`.
pub proof fn lemma_join_split(s: Seq<char>, c: char)
    ensures
        join_seq(split_char(s, c), seq![c]) == s,
    decreases s.len(),
{
    if s.len() == 0 {
        assert(split_char(s, c) == seq![Seq::<char>::empty()]);
        assert(s == Seq::<char>::empty());
    } else {
        let s0 = s.drop_last();
        lemma_join_split(s0, c);
        lemma_split_char_nonempty(s0, c);
        let p = split_char(s0, c);
        if s.last() == c {
            let q = p.push(Seq::<char>::empty());
            assert(q.drop_last() == p);
            assert(join_seq(q, seq![c]) == s0 + seq![c] + Seq::<char>::empty());
            assert(s0 + seq![c] + Seq::<char>::empty() == s);
        } else {
            lemma_join_extend_last(p, seq![c], s.last());
            assert(s0.push(s.last()) == s);
        }
    }
}

} // verus!

verus! {

/// The texts of a sequence of strings.
pub open spec fn string_views(v: Seq<String>) -> Seq<Seq<char>> {
    v.map_values(|x: String| x@)
}

} // verus!
