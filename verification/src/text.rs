//! Character-level helpers: strings are handled as sequences of `char`s.
use vstd::prelude::*;

verus! {

/// Unicode lowercase mapping of a whole string, as `str::to_lowercase` computes it.
pub uninterp spec fn unicode_lowercase(s: Seq<char>) -> Seq<char>;

/// The `White_Space` property of Unicode, which `char::is_whitespace` and `str::trim` use.
pub open spec fn spec_is_white_space(c: char) -> bool {
    ||| ('\u{9}' <= c && c <= '\u{d}')
    ||| c == ' '
    ||| c == '\u{85}'
    ||| c == '\u{a0}'
    ||| c == '\u{1680}'
    ||| ('\u{2000}' <= c && c <= '\u{200a}')
    ||| c == '\u{2028}'
    ||| c == '\u{2029}'
    ||| c == '\u{202f}'
    ||| c == '\u{205f}'
    ||| c == '\u{3000}'
}

/// `s` without its leading white space.
pub open spec fn trim_start(s: Seq<char>) -> Seq<char>
    decreases s.len(),
{
    if s.len() > 0 && spec_is_white_space(s[0]) {
        trim_start(s.drop_first())
    } else {
        s
    }
}

/// `s` without its trailing white space.
pub open spec fn trim_end(s: Seq<char>) -> Seq<char>
    decreases s.len(),
{
    if s.len() > 0 && spec_is_white_space(s.last()) {
        trim_end(s.drop_last())
    } else {
        s
    }
}

/// `s` without leading and trailing white space.
pub open spec fn trimmed(s: Seq<char>) -> Seq<char> {
    trim_end(trim_start(s))
}

/// ASCII letters `a`..=`z` made upper case; every other character kept.
pub open spec fn spec_ascii_upper(c: char) -> char {
    if 'a' <= c && c <= 'z' {
        ((c as u32) - 32) as char
    } else {
        c
    }
}

pub open spec fn ascii_upper_seq(s: Seq<char>) -> Seq<char> {
    s.map_values(|c: char| spec_ascii_upper(c))
}

/// ASCII letters `A`..=`Z` made lower case; every other character kept.
pub open spec fn spec_ascii_lower(c: char) -> char {
    if 'A' <= c && c <= 'Z' {
        ((c as u32) + 32) as char
    } else {
        c
    }
}

pub open spec fn ascii_lower_seq(s: Seq<char>) -> Seq<char> {
    s.map_values(|c: char| spec_ascii_lower(c))
}

/// Every character of `s` is ASCII.
pub open spec fn is_ascii_text(s: Seq<char>) -> bool {
    forall|i: int| 0 <= i < s.len() ==> (#[trigger] s[i]) <= '\u{7f}'
}

/// No character of `s` is an ASCII upper-case letter.
pub open spec fn no_ascii_upper(s: Seq<char>) -> bool {
    forall|i: int| 0 <= i < s.len() ==> !('A' <= #[trigger] s[i] && s[i] <= 'Z')
}

/// Index of the first occurrence of `c` in `s`.
pub open spec fn first_index_of(s: Seq<char>, c: char) -> Option<int>
    decreases s.len(),
{
    if s.len() == 0 {
        None
    } else if s[0] == c {
        Some(0)
    } else {
        match first_index_of(s.drop_first(), c) {
            Some(i) => Some(i + 1),
            None => None,
        }
    }
}

pub proof fn lemma_first_index_of(s: Seq<char>, c: char)
    ensures
        match first_index_of(s, c) {
            Some(i) => 0 <= i < s.len() && s[i] == c && forall|j: int| 0 <= j < i ==> s[j] != c,
            None => forall|j: int| 0 <= j < s.len() ==> s[j] != c,
        },
    decreases s.len(),
{
    if s.len() > 0 {
        lemma_first_index_of(s.drop_first(), c);
        if s[0] != c {
            assert forall|j: int| 1 <= j < s.len() implies s[j] == s.drop_first()[j - 1] by {}
        }
    }
}

/// The characters of `s`.
pub fn chars_of(s: &str) -> (v: Vec<char>)
    ensures
        v@ == s@,
{
    let n = s.unicode_len();
    let mut v: Vec<char> = Vec::new();
    let mut i: usize = 0;
    while i < n
        invariant
            n == s@.len(),
            i <= n,
            v@ == s@.take(i as int),
        decreases n - i,
    {
        let c = s.get_char(i);
        v.push(c);
        i = i + 1;
        assert(v@ =~= s@.take(i as int));
    }
    assert(v@ =~= s@);
    v
}

/// A `String` made of the characters of `v`.
///
/// Calls `FromIterator<&char>` for `String` (`Iterator::collect`), which appends the characters in
/// order; the contract claims that the string holds exactly those characters.
#[verifier::external_body]
pub(crate) fn string_of(v: &Vec<char>) -> (s: String)
    ensures
        s@ == v@,
{
    v.iter().collect()
}

/// Calls `str::to_lowercase`; the result is named by `unicode_lowercase` of the argument. As its
/// documentation says, each character maps to one or more characters, so the result is at least as
/// long as the argument, and ASCII text is lower-cased letter by letter as
/// `str::to_ascii_lowercase` does. What other characters become is left to the name.
#[verifier::external_body]
pub(crate) fn to_lowercase(s: &str) -> (r: String)
    ensures
        r@ == unicode_lowercase(s@),
        r@.len() >= s@.len(),
        is_ascii_text(s@) ==> r@ == ascii_lower_seq(s@),
{
    s.to_lowercase()
}

/// Whether `v` holds exactly the characters of `lit`.
pub fn chars_eq(v: &Vec<char>, lit: &str) -> (b: bool)
    ensures
        b == (v@ == lit@),
{
    let n = lit.unicode_len();
    if v.len() != n {
        return false;
    }
    let mut i: usize = 0;
    while i < n
        invariant
            n == lit@.len(),
            n == v@.len(),
            i <= n,
            forall|j: int| 0 <= j < i ==> v@[j] == lit@[j],
        decreases n - i,
    {
        if v[i] != lit.get_char(i) {
            return false;
        }
        i = i + 1;
    }
    assert(v@ =~= lit@);
    true
}

#[verifier::when_used_as_spec(spec_is_white_space)]
pub fn is_white_space(c: char) -> (b: bool)
    ensures
        b == spec_is_white_space(c),
{
    ('\u{9}' <= c && c <= '\u{d}') || c == ' ' || c == '\u{85}' || c == '\u{a0}' || c
        == '\u{1680}' || ('\u{2000}' <= c && c <= '\u{200a}') || c == '\u{2028}' || c == '\u{2029}'
        || c == '\u{202f}' || c == '\u{205f}' || c == '\u{3000}'
}

proof fn lemma_trim_start_skip(s: Seq<char>, i: int)
    requires
        0 <= i <= s.len(),
        forall|j: int| 0 <= j < i ==> is_white_space(s[j]),
    ensures
        trim_start(s) == trim_start(s.subrange(i, s.len() as int)),
    decreases i,
{
    if i > 0 {
        assert(s.drop_first().subrange(i - 1, s.drop_first().len() as int) =~= s.subrange(
            i,
            s.len() as int,
        ));
        lemma_trim_start_skip(s.drop_first(), i - 1);
    } else {
        assert(s.subrange(0, s.len() as int) =~= s);
    }
}

proof fn lemma_trim_end_take(s: Seq<char>, k: int)
    requires
        0 <= k <= s.len(),
        forall|j: int| k <= j < s.len() ==> is_white_space(s[j]),
    ensures
        trim_end(s) == trim_end(s.take(k)),
    decreases s.len() - k,
{
    if k < s.len() {
        assert(s.drop_last().take(k) =~= s.take(k));
        lemma_trim_end_take(s.drop_last(), k);
    } else {
        assert(s.take(k) =~= s);
    }
}

proof fn lemma_trim_start_shape(s: Seq<char>)
    ensures
        trim_start(s).len() <= s.len(),
        trim_start(s) == s.skip(s.len() - trim_start(s).len()),
        forall|k: int| 0 <= k < s.len() - trim_start(s).len() ==> spec_is_white_space(#[trigger] s[k]),
        trim_start(s).len() > 0 ==> !spec_is_white_space(trim_start(s)[0]),
    decreases s.len(),
{
    if s.len() > 0 && spec_is_white_space(s[0]) {
        lemma_trim_start_shape(s.drop_first());
        assert(trim_start(s) == trim_start(s.drop_first()));
        let l = trim_start(s).len();
        assert(s.drop_first().skip(s.drop_first().len() - l) =~= s.skip(s.len() - l));
        assert forall|k: int| 0 <= k < s.len() - trim_start(s).len() implies spec_is_white_space(
            #[trigger] s[k],
        ) by {
            if k > 0 {
                assert(s[k] == s.drop_first()[k - 1]);
            }
        }
    } else {
        assert(s.skip(0) =~= s);
    }
}

proof fn lemma_trim_end_shape(s: Seq<char>)
    ensures
        trim_end(s).len() <= s.len(),
        trim_end(s) == s.take(trim_end(s).len() as int),
        forall|k: int| trim_end(s).len() <= k < s.len() ==> spec_is_white_space(#[trigger] s[k]),
        trim_end(s).len() > 0 ==> !spec_is_white_space(trim_end(s).last()),
    decreases s.len(),
{
    if s.len() > 0 && spec_is_white_space(s.last()) {
        lemma_trim_end_shape(s.drop_last());
        assert(trim_end(s) == trim_end(s.drop_last()));
        let l = trim_end(s).len();
        assert(s.drop_last().take(l as int) =~= s.take(l as int));
        assert forall|k: int| trim_end(s).len() <= k < s.len() implies spec_is_white_space(
            #[trigger] s[k],
        ) by {
            if k < s.len() - 1 {
                assert(s[k] == s.drop_last()[k]);
            }
        }
    } else {
        assert(s.take(s.len() as int) =~= s);
    }
}

/// Trimming takes white space off both ends and nothing else: what is left neither begins nor
/// ends with white space, and the text is what is left with only white space before and after
/// it.
pub proof fn law_trimmed(s: Seq<char>)
    ensures
        ({
            let t = trimmed(s);
            let a = s.len() - trim_start(s).len();
            &&& t == s.subrange(a, a + t.len())
            &&& forall|k: int| 0 <= k < a ==> spec_is_white_space(#[trigger] s[k])
            &&& forall|k: int| a + t.len() <= k < s.len() ==> spec_is_white_space(#[trigger] s[k])
            &&& t.len() > 0 ==> !spec_is_white_space(t[0]) && !spec_is_white_space(t.last())
        }),
{
    let u = trim_start(s);
    let a = s.len() - u.len();
    lemma_trim_start_shape(s);
    lemma_trim_end_shape(u);
    let t = trimmed(s);
    assert(t == trim_end(u));
    assert(u =~= s.subrange(a, s.len() as int));
    assert(t =~= s.subrange(a, a + t.len()));
    assert forall|k: int| a + t.len() <= k < s.len() implies spec_is_white_space(#[trigger] s[k]) by {
        assert(s[k] == u[k - a]);
    }
    if t.len() > 0 {
        assert(t[0] == u[0]);
    }
}

/// `v` without leading and trailing white space, as `str::trim` gives it.
pub fn trim(v: &Vec<char>) -> (r: Vec<char>)
    ensures
        r@ == trimmed(v@),
{
    let n = v.len();
    let mut lo: usize = 0;
    while lo < n && is_white_space(v[lo])
        invariant
            n == v@.len(),
            lo <= n,
            forall|j: int| 0 <= j < lo ==> is_white_space(v@[j]),
        decreases n - lo,
    {
        lo = lo + 1;
    }
    let ghost rest = v@.subrange(lo as int, n as int);
    proof {
        lemma_trim_start_skip(v@, lo as int);
        if rest.len() > 0 {
            assert(rest[0] == v@[lo as int]);
        }
        assert(trim_start(rest) == rest);
    }
    let mut hi: usize = n;
    while hi > lo && is_white_space(v[hi - 1])
        invariant
            n == v@.len(),
            lo <= hi <= n,
            rest == v@.subrange(lo as int, n as int),
            forall|j: int| hi <= j < n ==> is_white_space(v@[j]),
        decreases hi - lo,
    {
        hi = hi - 1;
    }
    let mut r: Vec<char> = Vec::new();
    let mut i: usize = lo;
    while i < hi
        invariant
            n == v@.len(),
            lo <= i <= hi <= n,
            r@ == v@.subrange(lo as int, i as int),
        decreases hi - i,
    {
        r.push(v[i]);
        i = i + 1;
        assert(r@ =~= v@.subrange(lo as int, i as int));
    }
    proof {
        let k = (hi - lo) as int;
        assert forall|j: int| k <= j < rest.len() implies is_white_space(rest[j]) by {
            assert(rest[j] == v@[lo + j]);
        }
        lemma_trim_end_take(rest, k);
        assert(rest.take(k) =~= r@);
        if r@.len() > 0 {
            assert(r@.last() == v@[hi - 1]);
        }
    }
    r
}

#[verifier::when_used_as_spec(spec_ascii_upper)]
pub fn ascii_upper(c: char) -> (r: char)
    ensures
        r == spec_ascii_upper(c),
{
    if 'a' <= c && c <= 'z' {
        let code: u32 = (c as u32) - 32;
        proof {
            assert(code as char == ((c as u32) - 32) as char);
        }
        char_from_code(code)
    } else {
        c
    }
}

/// The character with scalar value `code`, for an ASCII upper-case letter.
fn char_from_code(code: u32) -> (c: char)
    requires
        65 <= code <= 90,
    ensures
        c == code as char,
{
    let b: u8 = code as u8;
    b as char
}

/// `v` with its ASCII letters made upper case, as `str::to_ascii_uppercase` gives it.
pub fn to_ascii_upper(v: &Vec<char>) -> (r: Vec<char>)
    ensures
        r@ == ascii_upper_seq(v@),
{
    let mut r: Vec<char> = Vec::new();
    let mut i: usize = 0;
    while i < v.len()
        invariant
            i <= v@.len(),
            r@ == ascii_upper_seq(v@.take(i as int)),
        decreases v@.len() - i,
    {
        let c = ascii_upper(v[i]);
        r.push(c);
        i = i + 1;
        assert(r@ =~= ascii_upper_seq(v@.take(i as int)));
    }
    assert(v@.take(v@.len() as int) =~= v@);
    r
}


/// The pieces of `s` between occurrences of `c`, as `str::split` yields them: always at least
/// one, possibly empty.
pub open spec fn split_on(s: Seq<char>, c: char) -> Seq<Seq<char>>
    decreases s.len(),
{
    match first_index_of(s, c) {
        None => seq![s],
        Some(i) => {
            proof {
                lemma_first_index_of(s, c);
            }
            seq![s.take(i)] + split_on(s.skip(i + 1), c)
        },
    }
}

/// Index of the first `c` in `v`.
pub fn find_char(v: &Vec<char>, c: char) -> (r: Option<usize>)
    ensures
        match r {
            Some(i) => first_index_of(v@, c) == Some(i as int),
            None => first_index_of(v@, c) is None,
        },
{
    proof {
        lemma_first_index_of(v@, c);
    }
    let mut i: usize = 0;
    while i < v.len()
        invariant
            i <= v@.len(),
            forall|j: int| 0 <= j < i ==> v@[j] != c,
            match first_index_of(v@, c) {
                Some(k) => 0 <= k < v@.len() && v@[k] == c && forall|j: int| 0 <= j < k ==> v@[j] != c,
                None => forall|j: int| 0 <= j < v@.len() ==> v@[j] != c,
            },
        decreases v@.len() - i,
    {
        if v[i] == c {
            return Some(i);
        }
        i = i + 1;
    }
    None
}

/// The characters of `v` from `lo` up to `hi`.
pub fn slice(v: &Vec<char>, lo: usize, hi: usize) -> (r: Vec<char>)
    requires
        lo <= hi <= v@.len(),
    ensures
        r@ == v@.subrange(lo as int, hi as int),
{
    let mut r: Vec<char> = Vec::new();
    let mut i: usize = lo;
    while i < hi
        invariant
            lo <= i <= hi <= v@.len(),
            r@ == v@.subrange(lo as int, i as int),
        decreases hi - i,
    {
        r.push(v[i]);
        i = i + 1;
        assert(r@ =~= v@.subrange(lo as int, i as int));
    }
    r
}

pub open spec fn views(vs: Seq<Vec<char>>) -> Seq<Seq<char>> {
    vs.map_values(|v: Vec<char>| v@)
}

/// The pieces of `v` between occurrences of `c`.
pub fn split(v: &Vec<char>, c: char) -> (r: Vec<Vec<char>>)
    ensures
        views(r@) == split_on(v@, c),
{
    let n = v.len();
    let mut pieces: Vec<Vec<char>> = Vec::new();
    let mut start: usize = 0;
    proof {
        assert(v@.subrange(0, n as int) =~= v@);
        assert(views(pieces@) =~= Seq::<Seq<char>>::empty());
        assert(views(pieces@) + split_on(v@, c) =~= split_on(v@, c));
    }
    loop
        invariant
            n == v@.len(),
            start <= n,
            views(pieces@) + split_on(v@.subrange(start as int, n as int), c) == split_on(v@, c),
        decreases n - start,
    {
        let rest = slice(v, start, n);
        match find_char(&rest, c) {
            None => {
                let ghost before = pieces@;
                proof {
                    assert(split_on(rest@, c) == seq![rest@]);
                }
                pieces.push(rest);
                proof {
                    assert(views(pieces@) =~= views(before) + seq![rest@]);
                }
                return pieces;
            },
            Some(i) => {
                let ghost before = pieces@;
                proof {
                    lemma_first_index_of(rest@, c);
                }
                let piece = slice(&rest, 0, i);
                proof {
                    assert(split_on(rest@, c) == seq![rest@.take(i as int)] + split_on(
                        rest@.skip(i + 1),
                        c,
                    ));
                    assert(rest@.skip(i + 1) =~= v@.subrange(start + i + 1, n as int));
                }
                pieces.push(piece);
                start = start + i + 1;
                proof {
                    assert(views(pieces@) =~= views(before) + seq![piece@]);
                    assert(views(pieces@) + split_on(v@.subrange(start as int, n as int), c) =~= views(
                        before,
                    ) + (seq![piece@] + split_on(v@.subrange(start as int, n as int), c)));
                }
            },
        }
    }
}
} // verus!
