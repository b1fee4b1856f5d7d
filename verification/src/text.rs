//! Character-level helpers on `&str` and `String` with exact specifications:
//! comparison, substring search, decimal rendering, trimming and paths.

use vstd::prelude::*;

verus! {

/// Compares two string slices character by character.
pub fn str_eq(a: &str, b: &str) -> (r: bool)
    ensures
        r == (a@ == b@),
{
    let n: usize = a.unicode_len();
    let m: usize = b.unicode_len();
    if n != m {
        return false;
    }
    let mut i: usize = 0;
    while i < n
        invariant
            n == a@.len(),
            m == b@.len(),
            n == m,
            i <= n,
            forall|k: int| 0 <= k < i ==> a@[k] == b@[k],
        decreases n - i,
    {
        if a.get_char(i) != b.get_char(i) {
            return false;
        }
        i = i + 1;
    }
    assert(a@ =~= b@);
    true
}


/// `t` occurs in `s` starting at index `i`.
pub open spec fn occurs_at(s: Seq<char>, t: Seq<char>, i: int) -> bool {
    0 <= i && i + t.len() <= s.len() && s.subrange(i, i + t.len()) == t
}

/// `t` occurs somewhere in `s` (the empty text occurs everywhere).
pub open spec fn contains_text(s: Seq<char>, t: Seq<char>) -> bool {
    exists|i: int| occurs_at(s, t, i)
}

/// Whether `needle` occurs as a contiguous part of `hay`.
pub fn contains_str(hay: &str, needle: &str) -> (r: bool)
    ensures
        r == contains_text(hay@, needle@),
{
    let n: usize = hay.unicode_len();
    let m: usize = needle.unicode_len();
    if m > n {
        assert forall|i: int| !occurs_at(hay@, needle@, i) by {}
        return false;
    }
    let mut i: usize = 0;
    while i <= n - m
        invariant
            n == hay@.len(),
            m == needle@.len(),
            m <= n,
            i <= n - m,
            forall|k: int| 0 <= k < i ==> !#[trigger] occurs_at(hay@, needle@, k),
        decreases n - m - i,
    {
        let mut j: usize = 0;
        let mut same: bool = true;
        while j < m
            invariant
                n == hay@.len(),
                m == needle@.len(),
                i + m <= n,
                j <= m,
                same ==> forall|k: int| 0 <= k < j ==> hay@[i + k] == needle@[k],
                !same ==> !occurs_at(hay@, needle@, i as int),
            decreases m - j,
        {
            if same && hay.get_char(i + j) != needle.get_char(j) {
                assert(hay@.subrange(i as int, i + m)[j as int] == hay@[i + j]);
                same = false;
            }
            j = j + 1;
        }
        if same {
            assert(hay@.subrange(i as int, i + m) =~= needle@);
            assert(occurs_at(hay@, needle@, i as int));
            return true;
        }
        if i == n - m {
            assert forall|k: int| !occurs_at(hay@, needle@, k) by {
                if 0 <= k && k <= i {
                    if k < i {
                        assert(!occurs_at(hay@, needle@, k));
                    }
                }
            }
            return false;
        }
        i = i + 1;
    }
    false
}

/// The character of a decimal digit.
pub open spec fn digit_char(d: nat) -> char {
    if d == 0 { '0' }
    else if d == 1 { '1' }
    else if d == 2 { '2' }
    else if d == 3 { '3' }
    else if d == 4 { '4' }
    else if d == 5 { '5' }
    else if d == 6 { '6' }
    else if d == 7 { '7' }
    else if d == 8 { '8' }
    else { '9' }
}

/// The decimal notation of `n`, without sign or leading zeros.
pub open spec fn decimal(n: nat) -> Seq<char>
    decreases n,
{
    if n < 10 {
        seq![digit_char(n)]
    } else {
        decimal(n / 10).push(digit_char(n % 10))
    }
}

fn digit_str(d: u64) -> (r: &'static str)
    requires
        d < 10,
    ensures
        r@ == seq![digit_char(d as nat)],
{
    if d == 0 {
        proof { reveal_strlit("0"); }
        "0"
    } else if d == 1 {
        proof { reveal_strlit("1"); }
        "1"
    } else if d == 2 {
        proof { reveal_strlit("2"); }
        "2"
    } else if d == 3 {
        proof { reveal_strlit("3"); }
        "3"
    } else if d == 4 {
        proof { reveal_strlit("4"); }
        "4"
    } else if d == 5 {
        proof { reveal_strlit("5"); }
        "5"
    } else if d == 6 {
        proof { reveal_strlit("6"); }
        "6"
    } else if d == 7 {
        proof { reveal_strlit("7"); }
        "7"
    } else if d == 8 {
        proof { reveal_strlit("8"); }
        "8"
    } else {
        proof { reveal_strlit("9"); }
        "9"
    }
}

/// Renders `n` in decimal notation.
pub fn decimal_string(n: u64) -> (r: String)
    ensures
        r@ == decimal(n as nat),
    decreases n,
{
    if n < 10 {
        String::from_str(digit_str(n))
    } else {
        let mut s: String = decimal_string(n / 10);
        s.append(digit_str(n % 10));
        s
    }
}

/// Joins a relative path onto a base path with `/`; an absolute `rel`
/// replaces the base, and no separator is doubled after a trailing `/`.
pub open spec fn path_join(base: Seq<char>, rel: Seq<char>) -> Seq<char> {
    if rel.len() > 0 && rel[0] == '/' {
        rel
    } else if base.len() == 0 {
        rel
    } else if base.last() == '/' {
        base + rel
    } else {
        base + seq!['/'] + rel
    }
}

/// Executable form of [`path_join`].
pub fn join_path(base: &str, rel: &str) -> (r: String)
    ensures
        r@ == path_join(base@, rel@),
{
    let rn: usize = rel.unicode_len();
    let bn: usize = base.unicode_len();
    if rn > 0 && rel.get_char(0) == '/' {
        String::from_str(rel)
    } else if bn == 0 {
        String::from_str(rel)
    } else if base.get_char(bn - 1) == '/' {
        let mut s: String = String::from_str(base);
        s.append(rel);
        s
    } else {
        let mut s: String = String::from_str(base);
        proof { reveal_strlit("/"); }
        s.append("/");
        s.append(rel);
        s
    }
}


/// Characters with the Unicode `White_Space` property.
pub open spec fn is_white_space(c: char) -> bool {
    ('\t' <= c && c <= '\r') || c == ' ' || c == '\u{85}' || c == '\u{a0}' || c == '\u{1680}'
        || ('\u{2000}' <= c && c <= '\u{200a}') || c == '\u{2028}' || c == '\u{2029}'
        || c == '\u{202f}' || c == '\u{205f}' || c == '\u{3000}'
}

fn white_space(c: char) -> (r: bool)
    ensures
        r == is_white_space(c),
{
    ('\t' <= c && c <= '\r') || c == ' ' || c == '\u{85}' || c == '\u{a0}' || c == '\u{1680}'
        || ('\u{2000}' <= c && c <= '\u{200a}') || c == '\u{2028}' || c == '\u{2029}'
        || c == '\u{202f}' || c == '\u{205f}' || c == '\u{3000}'
}

/// `s` without its leading white space.
pub open spec fn trim_start(s: Seq<char>) -> Seq<char>
    decreases s.len(),
{
    if s.len() > 0 && is_white_space(s[0]) {
        trim_start(s.drop_first())
    } else {
        s
    }
}

/// `s` without its trailing white space.
pub open spec fn trim_end(s: Seq<char>) -> Seq<char>
    decreases s.len(),
{
    if s.len() > 0 && is_white_space(s.last()) {
        trim_end(s.drop_last())
    } else {
        s
    }
}

/// `s` without leading and trailing white space.
pub open spec fn trim(s: Seq<char>) -> Seq<char> {
    trim_end(trim_start(s))
}

proof fn lemma_trim_start_at(s: Seq<char>, i: int)
    requires
        0 <= i <= s.len(),
        forall|k: int| 0 <= k < i ==> is_white_space(#[trigger] s[k]),
        i == s.len() || !is_white_space(s[i]),
    ensures
        trim_start(s) == s.subrange(i, s.len() as int),
    decreases i,
{
    if i == 0 {
        assert(s.subrange(0, s.len() as int) =~= s);
    } else {
        let t = s.drop_first();
        assert forall|k: int| 0 <= k < i - 1 implies is_white_space(#[trigger] t[k]) by {
            assert(t[k] == s[k + 1]);
        }
        lemma_trim_start_at(t, i - 1);
        assert(t.subrange(i - 1, t.len() as int) =~= s.subrange(i, s.len() as int));
    }
}

proof fn lemma_trim_end_at(s: Seq<char>, j: int)
    requires
        0 <= j <= s.len(),
        forall|k: int| j <= k < s.len() ==> is_white_space(#[trigger] s[k]),
        j == 0 || !is_white_space(s[j - 1]),
    ensures
        trim_end(s) == s.subrange(0, j),
    decreases s.len() - j,
{
    if j == s.len() {
        assert(s.subrange(0, j) =~= s);
    } else {
        let t = s.drop_last();
        assert(s.last() == s[s.len() - 1]);
        assert forall|k: int| j <= k < t.len() implies is_white_space(#[trigger] t[k]) by {
            assert(t[k] == s[k]);
        }
        lemma_trim_end_at(t, j);
        assert(t.subrange(0, j) =~= s.subrange(0, j));
    }
}

/// Removes leading and trailing white space.
pub fn trim_str(s: &str) -> (r: String)
    ensures
        r@ == trim(s@),
{
    let n: usize = s.unicode_len();
    let mut i: usize = 0;
    while i < n && white_space(s.get_char(i))
        invariant
            n == s@.len(),
            i <= n,
            forall|k: int| 0 <= k < i ==> is_white_space(#[trigger] s@[k]),
        decreases n - i,
    {
        i = i + 1;
    }
    proof { lemma_trim_start_at(s@, i as int); }
    let rest: &str = s.substring_char(i, n);
    let mut j: usize = n - i;
    while j > 0 && white_space(rest.get_char(j - 1))
        invariant
            rest@.len() == n - i,
            j <= n - i,
            forall|k: int| j <= k < rest@.len() ==> is_white_space(#[trigger] rest@[k]),
        decreases j,
    {
        j = j - 1;
    }
    proof { lemma_trim_end_at(rest@, j as int); }
    String::from_str(rest.substring_char(0, j))
}


/// The pieces of `s` between `/` separators, empty pieces included.
pub open spec fn split_slash(s: Seq<char>) -> Seq<Seq<char>>
    decreases s.len(),
{
    if s.len() == 0 {
        seq![Seq::<char>::empty()]
    } else {
        let p = split_slash(s.drop_last());
        if s.last() == '/' {
            p.push(Seq::<char>::empty())
        } else {
            p.update(p.len() - 1, p.last().push(s.last()))
        }
    }
}

/// A piece that names a path component: neither empty nor `.`.
pub open spec fn is_component(p: Seq<char>) -> bool {
    p.len() > 0 && p != seq!['.']
}

/// The components of a path: its pieces between separators, without empty
/// pieces and `.` pieces.
pub open spec fn components(s: Seq<char>) -> Seq<Seq<char>> {
    split_slash(s).filter(|p: Seq<char>| is_component(p))
}

/// The last component of a path, unless there is none or it is `..`.
pub open spec fn file_name_of(s: Seq<char>) -> Option<Seq<char>> {
    let c = components(s);
    if c.len() == 0 || c.last() == seq!['.', '.'] {
        None
    } else {
        Some(c.last())
    }
}

/// Components joined with single `/` separators.
pub open spec fn join_slash(parts: Seq<Seq<char>>) -> Seq<char>
    decreases parts.len(),
{
    if parts.len() == 0 {
        Seq::<char>::empty()
    } else if parts.len() == 1 {
        parts[0]
    } else {
        join_slash(parts.drop_last()) + seq!['/'] + parts.last()
    }
}

/// The relative path made of all components of `s` but the first.
pub open spec fn without_first_component(s: Seq<char>) -> Seq<char> {
    let c = components(s);
    if starts_specially(s) {
        join_slash(c)
    } else if c.len() == 0 {
        Seq::<char>::empty()
    } else {
        join_slash(c.drop_first())
    }
}

/// A path whose first component is the root `/` or the current directory
/// `.`, which [`components`] leaves out.
pub open spec fn starts_specially(s: Seq<char>) -> bool {
    s.len() > 0 && (s[0] == '/' || (s[0] == '.' && (s.len() == 1 || s[1] == '/')))
}

proof fn lemma_split_slash_nonempty(s: Seq<char>)
    ensures
        split_slash(s).len() >= 1,
    decreases s.len(),
{
    if s.len() > 0 {
        lemma_split_slash_nonempty(s.drop_last());
    }
}

proof fn lemma_last_piece(s: Seq<char>, start: int, i: int)
    requires
        0 <= start <= i < s.len(),
        split_slash(s.take(i)).last() == s.subrange(start, i),
        s[i] != '/',
    ensures
        split_slash(s.take(i + 1)).last() == s.subrange(start, i + 1),
        split_slash(s.take(i + 1)).drop_last() == split_slash(s.take(i)).drop_last(),
{
    let t = s.take(i + 1);
    assert(t.drop_last() =~= s.take(i));
    lemma_split_slash_nonempty(s.take(i));
    let p = split_slash(s.take(i));
    assert(split_slash(t) == p.update(p.len() - 1, p.last().push(s[i])));
    assert(s.subrange(start, i).push(s[i]) =~= s.subrange(start, i + 1));
    assert(p.update(p.len() - 1, p.last().push(s[i])).drop_last() =~= p.drop_last());
}

proof fn lemma_filter_push(d: Seq<Seq<char>>, x: Seq<char>)
    ensures
        d.push(x).filter(|p: Seq<char>| is_component(p)) == (if is_component(x) {
            d.filter(|p: Seq<char>| is_component(p)).push(x)
        } else {
            d.filter(|p: Seq<char>| is_component(p))
        }),
{
    reveal_with_fuel(Seq::filter, 1);
    assert(d.push(x).drop_last() =~= d);
}

fn piece_is_component(s: &str, start: usize, end: usize) -> (r: bool)
    requires
        start <= end <= s@.len(),
    ensures
        r == is_component(s@.subrange(start as int, end as int)),
{
    if end == start {
        return false;
    }
    if end - start == 1 && s.get_char(start) == '.' {
        assert(s@.subrange(start as int, end as int) =~= seq!['.']);
        return false;
    }
    if end - start == 1 {
        assert(s@.subrange(start as int, end as int)[0] == s@[start as int]);
    }
    true
}

/// The components of a `/`-separated path, in order.
pub fn path_components(s: &str) -> (r: Vec<String>)
    ensures
        r@.map_values(|x: String| x@) == components(s@),
{
    let n: usize = s.unicode_len();
    let mut out: Vec<String> = Vec::new();
    let mut start: usize = 0;
    let mut i: usize = 0;
    proof {
        assert(s@.take(0) =~= Seq::<char>::empty());
        assert(split_slash(s@.take(0)) =~= seq![Seq::<char>::empty()]);
        assert(s@.subrange(0, 0) =~= Seq::<char>::empty());
        assert(split_slash(s@.take(0)).drop_last() =~= Seq::<Seq<char>>::empty());
        reveal_with_fuel(Seq::filter, 1);
        assert(out@.map_values(|x: String| x@) =~= Seq::<Seq<char>>::empty());
    }
    while i < n
        invariant
            n == s@.len(),
            start <= i <= n,
            split_slash(s@.take(i as int)).last() == s@.subrange(start as int, i as int),
            out@.map_values(|x: String| x@) == split_slash(s@.take(i as int)).drop_last().filter(
                |p: Seq<char>| is_component(p),
            ),
        decreases n - i,
    {
        let c: char = s.get_char(i);
        proof { lemma_split_slash_nonempty(s@.take(i as int)); }
        if c == '/' {
            let keep: bool = piece_is_component(s, start, i);
            let ghost d = split_slash(s@.take(i as int)).drop_last();
            let ghost cur = s@.subrange(start as int, i as int);
            proof {
                let t = s@.take(i + 1);
                assert(t.drop_last() =~= s@.take(i as int));
                let p = split_slash(s@.take(i as int));
                assert(p =~= d.push(cur));
                assert(split_slash(t) == p.push(Seq::<char>::empty()));
                assert(split_slash(t).drop_last() =~= p);
                assert(split_slash(t).last() =~= Seq::<char>::empty());
                lemma_filter_push(d, cur);
                assert(s@.subrange(i + 1, i + 1) =~= Seq::<char>::empty());
            }
            if keep {
                let piece: &str = s.substring_char(start, i);
                let ghost before = out@;
                out.push(String::from_str(piece));
                proof {
                    assert(out@.map_values(|x: String| x@) =~= before.map_values(|x: String| x@).push(cur));
                }
            }
            start = i + 1;
        } else {
            proof { lemma_last_piece(s@, start as int, i as int); }
        }
        i = i + 1;
    }
    proof {
        assert(s@.take(n as int) =~= s@);
        lemma_split_slash_nonempty(s@);
        let p = split_slash(s@);
        assert(p =~= p.drop_last().push(p.last()));
        lemma_filter_push(p.drop_last(), p.last());
    }
    let keep: bool = piece_is_component(s, start, n);
    if keep {
        let piece: &str = s.substring_char(start, n);
        let ghost before = out@;
        out.push(String::from_str(piece));
        proof {
            assert(out@.map_values(|x: String| x@) =~= before.map_values(|x: String| x@).push(
                s@.subrange(start as int, n as int),
            ));
        }
    }
    out
}


/// The text of an optional string.
pub open spec fn opt_view(o: Option<String>) -> Option<Seq<char>> {
    match o {
        Some(x) => Some(x@),
        None => None,
    }
}

/// The last component of a path, as [`file_name_of`] defines it.
pub fn file_name(s: &str) -> (r: Option<String>)
    ensures
        opt_view(r) == file_name_of(s@),
{
    let comps: Vec<String> = path_components(s);
    let ghost c = comps@.map_values(|x: String| x@);
    let n: usize = comps.len();
    assert(c.len() == n);
    if n == 0 {
        return None;
    }
    assert(c.last() == c[n - 1]);
    assert(c[n - 1] == comps@[n - 1]@);
    proof {
        reveal_strlit("..");
        assert(".."@ =~= seq!['.', '.']);
    }
    if str_eq(comps[n - 1].as_str(), "..") {
        None
    } else {
        Some(comps[n - 1].clone())
    }
}

/// The relative path made of all components but the first, joined by `/`;
/// a leading root or current directory counts as the first component.
pub fn strip_first_component(s: &str) -> (r: String)
    ensures
        r@ == without_first_component(s@),
{
    let comps: Vec<String> = path_components(s);
    let ghost c = comps@.map_values(|x: String| x@);
    let n: usize = comps.len();
    let len: usize = s.unicode_len();
    let special: bool = len > 0 && (s.get_char(0) == '/' || (s.get_char(0) == '.' && (len == 1
        || s.get_char(1) == '/')));
    let skip: usize = if special { 0 } else { 1 };
    if n <= skip {
        proof {
            if !special && n == 1 {
                assert(c.drop_first() =~= Seq::<Seq<char>>::empty());
            }
            if special {
                assert(c =~= Seq::<Seq<char>>::empty());
            }
        }
        return String::new();
    }
    let ghost tail = c.subrange(skip as int, n as int);
    assert(special ==> tail =~= c);
    assert(!special ==> tail =~= c.drop_first());
    let mut r: String = comps[skip].clone();
    proof {
        assert(tail.take(1) =~= seq![tail[0]]);
    }
    let mut k: usize = skip + 1;
    proof { reveal_strlit("/"); }
    while k < n
        invariant
            n == comps@.len(),
            c == comps@.map_values(|x: String| x@),
            skip <= 1,
            skip < n,
            tail == c.subrange(skip as int, n as int),
            skip + 1 <= k <= n,
            r@ == join_slash(tail.take(k - skip)),
            "/"@ == seq!['/'],
        decreases n - k,
    {
        r.append("/");
        r.append(comps[k].as_str());
        proof {
            let t = tail.take(k - skip + 1);
            assert(t.drop_last() =~= tail.take(k - skip));
            assert(t.last() == comps@[k as int]@);
        }
        k = k + 1;
    }
    assert(tail.take(n - skip) =~= tail);
    r
}

} // verus!
