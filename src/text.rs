//! Character-level text helpers with exact specifications: whitespace
//! trimming, line splitting, substring search and joining.
use vstd::prelude::*;
use vstd::string::*;

verus! {

/// Unicode `White_Space`, the property behind `char::is_whitespace`.
pub open spec fn is_white(c: char) -> bool {
    ('\u{9}' <= c && c <= '\u{d}') || c == ' ' || c == '\u{85}' || c == '\u{a0}'
        || c == '\u{1680}' || ('\u{2000}' <= c && c <= '\u{200a}') || c == '\u{2028}'
        || c == '\u{2029}' || c == '\u{202f}' || c == '\u{205f}' || c == '\u{3000}'
}

/// Whether `c` is whitespace.
pub fn is_whitespace_char(c: char) -> (r: bool)
    ensures
        r == is_white(c),
{
    ('\u{9}' <= c && c <= '\u{d}') || c == ' ' || c == '\u{85}' || c == '\u{a0}'
        || c == '\u{1680}' || ('\u{2000}' <= c && c <= '\u{200a}') || c == '\u{2028}'
        || c == '\u{2029}' || c == '\u{202f}' || c == '\u{205f}' || c == '\u{3000}'
}

/// `s` without its leading whitespace.
pub open spec fn trim_front(s: Seq<char>) -> Seq<char>
    decreases s.len(),
{
    if s.len() > 0 && is_white(s[0]) {
        trim_front(s.drop_first())
    } else {
        s
    }
}

/// `s` without its trailing whitespace.
pub open spec fn trim_back(s: Seq<char>) -> Seq<char>
    decreases s.len(),
{
    if s.len() > 0 && is_white(s.last()) {
        trim_back(s.drop_last())
    } else {
        s
    }
}

/// `s` without leading and trailing whitespace, as `str::trim` gives it.
pub open spec fn trimmed(s: Seq<char>) -> Seq<char> {
    trim_back(trim_front(s))
}

/// The characters of `s`, one per element.
pub fn chars_of(s: &str) -> (r: Vec<char>)
    ensures
        r@ == s@,
{
    let n = s.unicode_len();
    let mut r: Vec<char> = Vec::new();
    let mut i: usize = 0;
    while i < n
        invariant
            n == s@.len(),
            i <= n,
            r@ == s@.subrange(0, i as int),
        decreases n - i,
    {
        r.push(s.get_char(i));
        i += 1;
    }
    assert(r@ =~= s@);
    r
}

/// The bounds `(a, b)` of the trimmed part of `cs[lo..hi]`.
pub fn trim_bounds(cs: &Vec<char>, lo: usize, hi: usize) -> (r: (usize, usize))
    requires
        lo <= hi <= cs@.len(),
    ensures
        lo <= r.0 <= r.1 <= hi,
        cs@.subrange(r.0 as int, r.1 as int) == trimmed(cs@.subrange(lo as int, hi as int)),
{
    let ghost s = cs@;
    let mut a: usize = lo;
    while a < hi && is_whitespace_char(cs[a])
        invariant
            lo <= a <= hi <= s.len(),
            s == cs@,
            trim_front(s.subrange(lo as int, hi as int)) == trim_front(
                s.subrange(a as int, hi as int),
            ),
        decreases hi - a,
    {
        assert(s.subrange(a as int, hi as int).drop_first() =~= s.subrange(
            a + 1,
            hi as int,
        ));
        a += 1;
    }
    proof {
        if a < hi {
            assert(!is_white(s.subrange(a as int, hi as int)[0]));
        }
        assert(trim_front(s.subrange(a as int, hi as int)) == s.subrange(a as int, hi as int));
    }
    let mut b: usize = hi;
    while b > a && is_whitespace_char(cs[b - 1])
        invariant
            lo <= a <= b <= hi <= s.len(),
            s == cs@,
            trim_back(s.subrange(a as int, hi as int)) == trim_back(
                s.subrange(a as int, b as int),
            ),
        decreases b - a,
    {
        assert(s.subrange(a as int, b as int).drop_last() =~= s.subrange(
            a as int,
            b - 1,
        ));
        b -= 1;
    }
    (a, b)
}

/// The pieces of `s` between `'\n'` characters, as `str::split('\n')` gives them.
pub open spec fn split_nl(s: Seq<char>) -> Seq<Seq<char>>
    decreases s.len(),
{
    if s.len() == 0 {
        seq![Seq::empty()]
    } else if s.last() == '\n' {
        split_nl(s.drop_last()).push(Seq::empty())
    } else {
        let p = split_nl(s.drop_last());
        p.update(p.len() - 1, p.last().push(s.last()))
    }
}

/// A line with one trailing carriage return removed.
pub open spec fn strip_cr(l: Seq<char>) -> Seq<char> {
    if l.len() > 0 && l.last() == '\r' {
        l.drop_last()
    } else {
        l
    }
}

/// The lines of `s`, as `str::lines` gives them: a line ends at `'\n'` or
/// `"\r\n"`, and a final empty piece after the last `'\n'` is no line.
pub open spec fn lines_of(s: Seq<char>) -> Seq<Seq<char>> {
    let p = split_nl(s);
    let body = p.drop_last().map_values(|l: Seq<char>| strip_cr(l));
    if p.last().len() == 0 {
        body
    } else {
        body.push(p.last())
    }
}

/// The views of a sequence of strings.
pub open spec fn views(v: Seq<String>) -> Seq<Seq<char>> {
    v.map_values(|x: String| x@)
}

/// A copy of the characters `from..to` of `s`.
pub fn slice_string(s: &str, from: usize, to: usize) -> (r: String)
    requires
        from <= to <= s@.len(),
    ensures
        r@ == s@.subrange(from as int, to as int),
{
    String::from_str(s.substring_char(from, to))
}

/// The lines of `s`.
pub fn lines(s: &str) -> (r: Vec<String>)
    ensures
        views(r@) == lines_of(s@),
{
    let cs = chars_of(s);
    let n = cs.len();
    let mut done: Vec<String> = Vec::new();
    let mut st: usize = 0;
    let mut i: usize = 0;
    while i < n
        invariant
            n == s@.len(),
            cs@ == s@,
            st <= i <= n,
            split_nl(s@.subrange(0, i as int)).len() >= 1,
            views(done@) == split_nl(s@.subrange(0, i as int)).drop_last().map_values(
                |l: Seq<char>| strip_cr(l),
            ),
            split_nl(s@.subrange(0, i as int)).last() == s@.subrange(st as int, i as int),
        decreases n - i,
    {
        let ghost pre = s@.subrange(0, i as int);
        let ghost p = split_nl(pre);
        assert(s@.subrange(0, i + 1).drop_last() =~= pre);
        assert(s@.subrange(0, i + 1).last() == cs@[i as int]);
        if cs[i] == '\n' {
            let end = if i > st && cs[i - 1] == '\r' {
                i - 1
            } else {
                i
            };
            let line = slice_string(s, st, end);
            proof {
                let piece = s@.subrange(st as int, i as int);
                if i > st && cs@[i - 1] == '\r' {
                    assert(piece.drop_last() =~= s@.subrange(st as int, end as int));
                }
                assert(strip_cr(piece) == line@);
            }
            let ghost old_done = done@;
            done.push(line);
            st = i + 1;
            proof {
                assert(views(done@) =~= views(old_done).push(line@));
                assert(p.map_values(|l: Seq<char>| strip_cr(l)) =~= p.drop_last().map_values(
                    |l: Seq<char>| strip_cr(l),
                ).push(strip_cr(p.last())));
                let q = split_nl(s@.subrange(0, i + 1));
                assert(q == p.push(Seq::empty()));
                assert(q.drop_last() =~= p);
                assert(p =~= p.drop_last().push(p.last()));
                assert(views(done@) =~= q.drop_last().map_values(|l: Seq<char>| strip_cr(l)));
                assert(q.last() =~= s@.subrange(st as int, i + 1));
            }
        } else {
            proof {
                let q = split_nl(s@.subrange(0, i + 1));
                assert(q == p.update(p.len() - 1, p.last().push(cs@[i as int])));
                assert(q.drop_last() =~= p.drop_last());
                assert(q.last() =~= s@.subrange(st as int, i + 1));
            }
        }
        i += 1;
    }
    assert(s@.subrange(0, n as int) =~= s@);
    if st < n {
        let last = slice_string(s, st, n);
        done.push(last);
        assert(views(done@) =~= lines_of(s@));
    } else {
        assert(views(done@) =~= lines_of(s@));
    }
    done
}

/// `needle` occurs in `hay` at position `i`.
pub open spec fn occurs_at(hay: Seq<char>, needle: Seq<char>, i: int) -> bool {
    0 <= i && i + needle.len() <= hay.len() && hay.subrange(i, i + needle.len()) == needle
}

/// `needle` occurs somewhere in `hay`, as `str::contains` with a string pattern.
pub open spec fn has_substring(hay: Seq<char>, needle: Seq<char>) -> bool {
    exists|i: int| occurs_at(hay, needle, i)
}

/// Whether `needle` occurs in `hay`.
pub fn contains_str(hay: &str, needle: &str) -> (r: bool)
    ensures
        r == has_substring(hay@, needle@),
{
    let h = chars_of(hay);
    let nd = chars_of(needle);
    if nd.len() > h.len() {
        assert forall|i: int| !occurs_at(hay@, needle@, i) by {}
        return false;
    }
    if nd.len() == 0 {
        assert(hay@.subrange(0, 0) =~= needle@);
        assert(occurs_at(hay@, needle@, 0));
        return true;
    }
    let hl = h.len();
    let last = hl - nd.len();
    let mut i: usize = 0;
    while i <= last
        invariant
            h@ == hay@,
            nd@ == needle@,
            last == h@.len() - nd@.len(),
            0 < nd@.len() <= h@.len(),
            hl == h@.len(),
            i <= last + 1,
            forall|k: int| 0 <= k < i ==> !occurs_at(hay@, needle@, k),
        decreases last + 1 - i,
    {
        let mut j: usize = 0;
        let mut same = true;
        while j < nd.len()
            invariant
                h@ == hay@,
                nd@ == needle@,
                last == h@.len() - nd@.len(),
                0 < nd@.len() <= h@.len(),
                hl == h@.len(),
                i <= last,
                j <= nd@.len(),
                same == (forall|k: int| 0 <= k < j ==> h@[i + k] == nd@[k]),
            decreases nd@.len() - j,
        {
            if h[i + j] != nd[j] {
                same = false;
            }
            j += 1;
        }
        if same {
            assert(hay@.subrange(i as int, i + needle@.len()) =~= needle@);
            assert(occurs_at(hay@, needle@, i as int));
            return true;
        }
        proof {
            assert(!(forall|k: int| 0 <= k < nd@.len() ==> h@[i + k] == nd@[k]));
            let k = choose|k: int| !(0 <= k < nd@.len() ==> h@[i + k] == nd@[k]);
            assert(hay@.subrange(i as int, i + needle@.len())[k] != needle@[k]);
        }
        i += 1;
    }
    false
}

/// The strings of `ls` with `sep` between each two, as `[&str]::join(sep)`.
pub open spec fn joined(ls: Seq<Seq<char>>, sep: Seq<char>) -> Seq<char>
    decreases ls.len(),
{
    if ls.len() == 0 {
        Seq::empty()
    } else if ls.len() == 1 {
        ls[0]
    } else {
        joined(ls.drop_last(), sep) + sep + ls.last()
    }
}

/// The strings of `v` with `sep` between each two.
pub fn join_with(v: &Vec<String>, sep: &str) -> (r: String)
    ensures
        r@ == joined(views(v@), sep@),
{
    let mut r = String::new();
    let mut i: usize = 0;
    while i < v.len()
        invariant
            i <= v@.len(),
            r@ == joined(views(v@).subrange(0, i as int), sep@),
        decreases v@.len() - i,
    {
        let ghost before = views(v@).subrange(0, i as int);
        assert(views(v@).subrange(0, i + 1).drop_last() =~= before);
        if i > 0 {
            r.append(sep);
        } else {
            assert(before =~= Seq::<Seq<char>>::empty());
        }
        r.append(v[i].as_str());
        i += 1;
    }
    assert(views(v@).subrange(0, v@.len() as int) =~= views(v@));
    r
}

/// A name for `str::to_lowercase`: the lower-case mapping of every character,
/// by the Unicode tables.
pub uninterp spec fn lower_of(s: Seq<char>) -> Seq<char>;

/// Relies on `str::to_lowercase`: the result depends on the characters of
/// `s` alone.
#[verifier::external_body]
pub(crate) fn lowercase(s: &str) -> (r: String)
    ensures
        r@ == lower_of(s@),
{
    s.to_lowercase()
}

/// The digit characters, lower case, in order of value.
pub open spec fn digit_chars() -> Seq<char> {
    seq!['0', '1', '2', '3', '4', '5', '6', '7', '8', '9', 'a', 'b', 'c', 'd', 'e', 'f']
}

/// The digits of `n` in base `b`, most significant first, without leading
/// zeros (`"0"` for zero), as `format!` writes them for `{}` (base 10) and
/// `{:x}` (base 16).
pub open spec fn radix_digits(n: nat, b: nat) -> Seq<char>
    decreases n,
    via radix_digits_decreases
{
    if b < 2 || b > 16 {
        Seq::empty()
    } else if n < b {
        seq![digit_chars()[n as int]]
    } else {
        radix_digits(n / b, b) + seq![digit_chars()[(n % b) as int]]
    }
}

#[via_fn]
proof fn radix_digits_decreases(n: nat, b: nat) {
    if 2 <= b && b <= n {
        assert(n / b < n) by (nonlinear_arith)
            requires
                2 <= b <= n,
        ;
    }
}

/// `n` written in base `b`.
pub fn radix_string(n: u64, b: u64) -> (r: String)
    requires
        2 <= b <= 16,
    ensures
        r@ == radix_digits(n as nat, b as nat),
{
    let table = "0123456789abcdef";
    proof {
        reveal_strlit("0123456789abcdef");
        assert(table@ =~= digit_chars());
    }
    let mut m: u64 = n;
    let mut acc = String::new();
    loop
        invariant
            2 <= b <= 16,
            table@ == digit_chars(),
            radix_digits(n as nat, b as nat) == radix_digits(m as nat, b as nat) + acc@,
        decreases m,
    {
        let d = (m % b) as usize;
        let digit = table.substring_char(d, d + 1);
        assert(digit@ =~= seq![digit_chars()[d as int]]);
        let ghost old_acc = acc@;
        acc = String::from_str(digit).concat(acc.as_str());
        if m < b {
            proof {
                vstd::arithmetic::div_mod::lemma_small_mod(m as nat, b as nat);
            }
            assert(acc@ =~= radix_digits(m as nat, b as nat) + old_acc);
            assert(radix_digits(n as nat, b as nat) =~= acc@);
            return acc;
        }
        assert(radix_digits(m as nat, b as nat) == radix_digits((m / b) as nat, b as nat) + seq![
            digit_chars()[(m % b) as int],
        ]);
        assert(radix_digits(n as nat, b as nat) =~= radix_digits((m / b) as nat, b as nat)
            + acc@);
        m = m / b;
    }
}

/// A copy of `s` without leading and trailing whitespace.
pub fn trim(s: &str) -> (r: String)
    ensures
        r@ == trimmed(s@),
{
    let cs = chars_of(s);
    let (a, b) = trim_bounds(&cs, 0, cs.len());
    assert(cs@.subrange(0, cs@.len() as int) =~= s@);
    slice_string(s, a, b)
}

/// A copy of every string of `v`, in order.
pub fn copy_strings(v: &Vec<String>) -> (r: Vec<String>)
    ensures
        views(r@) == views(v@),
{
    let mut r: Vec<String> = Vec::new();
    let mut i: usize = 0;
    while i < v.len()
        invariant
            i <= v@.len(),
            views(r@) == views(v@).subrange(0, i as int),
        decreases v@.len() - i,
    {
        let ghost before = r@;
        let c = v[i].clone();
        r.push(c);
        assert(views(r@) =~= views(before).push(c@));
        assert(views(r@) =~= views(v@).subrange(0, i + 1));
        i += 1;
    }
    assert(views(v@).subrange(0, v@.len() as int) =~= views(v@));
    r
}

} // verus!
