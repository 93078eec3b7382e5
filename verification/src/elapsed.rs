//! The shape of a span that `ps` reports: bare seconds (`etimes`) or a `[[DD-]HH:]MM:SS[.ff]`
//! clock (`time`), split into the numbers it is made of.
use vstd::prelude::*;

use crate::text::{
    chars_of, find_char, first_index_of, lemma_first_index_of, slice, split, split_on, string_of,
    views,
};

verus! {

/// The numbers of a span, still as text: the days before the first `-`, if there is one, and the
/// `:`-separated fields of the clock after it, most significant first.
pub struct SpanText {
    pub days: Option<String>,
    pub fields: Vec<String>,
}

/// How `raw` splits into days and clock fields: at its first `-`, then the clock at each `:`;
/// `None` where the clock has more than three fields.
pub open spec fn span_shape(raw: Seq<char>) -> Option<(Option<Seq<char>>, Seq<Seq<char>>)> {
    let (days, clock) = match first_index_of(raw, '-') {
        Some(i) => (Some(raw.take(i)), raw.skip(i + 1)),
        None => (None, raw),
    };
    let fields = split_on(clock, ':');
    if 1 <= fields.len() <= 3 {
        Some((days, fields))
    } else {
        None
    }
}

impl SpanText {
    pub open spec fn shape(&self) -> (Option<Seq<char>>, Seq<Seq<char>>) {
        (
            match self.days {
                Some(d) => Some(d@),
                None => None,
            },
            self.fields@.map_values(|f: String| f@),
        )
    }
}

fn strings_of(pieces: &Vec<Vec<char>>) -> (r: Vec<String>)
    ensures
        r@.map_values(|f: String| f@) == views(pieces@),
{
    let mut out: Vec<String> = Vec::new();
    let mut i: usize = 0;
    while i < pieces.len()
        invariant
            i <= pieces@.len(),
            out@.len() == i,
            forall|q: int| 0 <= q < i ==> (#[trigger] out@[q])@ == pieces@[q]@,
        decreases pieces@.len() - i,
    {
        out.push(string_of(&pieces[i]));
        i = i + 1;
    }
    assert(out@.map_values(|f: String| f@) =~= views(pieces@));
    out
}

/// Splits the text of a span into its days and clock fields.
pub fn span_text(raw: &str) -> (r: Option<SpanText>)
    ensures
        match r {
            Some(t) => span_shape(raw@) == Some(t.shape()),
            None => span_shape(raw@) is None,
        },
{
    let chars = chars_of(raw);
    let n = chars.len();
    let (days, clock) = match find_char(&chars, '-') {
        Some(i) => {
            proof {
                lemma_first_index_of(chars@, '-');
            }
            let d = slice(&chars, 0, i);
            let c = slice(&chars, i + 1, n);
            proof {
                assert(d@ =~= chars@.take(i as int));
                assert(c@ =~= chars@.skip(i + 1));
            }
            (Some(string_of(&d)), c)
        },
        None => (None, chars),
    };
    let pieces = split(&clock, ':');
    if pieces.len() < 1 || pieces.len() > 3 {
        return None;
    }
    let fields = strings_of(&pieces);
    Some(SpanText { days, fields })
}

/// Pieces put back together with `c` between each two.
pub open spec fn joined(pieces: Seq<Seq<char>>, c: char) -> Seq<char>
    decreases pieces.len(),
{
    if pieces.len() == 0 {
        Seq::empty()
    } else if pieces.len() == 1 {
        pieces[0]
    } else {
        pieces[0] + seq![c] + joined(pieces.drop_first(), c)
    }
}

/// Splitting at `c` loses nothing: the pieces hold no `c`, there is at least one, and put back
/// together with `c` between them they are the text again.
pub proof fn law_split_rejoins(s: Seq<char>, c: char)
    ensures
        split_on(s, c).len() >= 1,
        joined(split_on(s, c), c) == s,
        forall|k: int, j: int|
            0 <= k < split_on(s, c).len() && 0 <= j < split_on(s, c)[k].len() ==> #[trigger] split_on(
                s,
                c,
            )[k][j] != c,
    decreases s.len(),
{
    lemma_first_index_of(s, c);
    match first_index_of(s, c) {
        None => {},
        Some(i) => {
            law_split_rejoins(s.skip(i + 1), c);
            let rest = split_on(s.skip(i + 1), c);
            let p = split_on(s, c);
            assert(p == seq![s.take(i)] + rest);
            assert(p.drop_first() =~= rest);
            assert(s.take(i) + seq![c] + s.skip(i + 1) =~= s);
            assert forall|k: int, j: int| 0 <= k < p.len() && 0 <= j < p[k].len() implies #[trigger] p[k][j]
                != c by {
                if k > 0 {
                    assert(p[k] == rest[k - 1]);
                }
            }
        },
    }
}

/// A span's text is its days, if any, then a `-`, then its clock fields joined by `:`; the days
/// hold no `-`, no field holds a `:`, and there are one to three fields. A text whose clock has
/// more than three fields is no span.
pub proof fn law_span_shape(raw: Seq<char>)
    ensures
        match span_shape(raw) {
            Some((days, fields)) => {
                &&& 1 <= fields.len() <= 3
                &&& forall|k: int, j: int|
                    0 <= k < fields.len() && 0 <= j < fields[k].len() ==> #[trigger] fields[k][j]
                        != ':'
                &&& match days {
                    Some(d) => {
                        &&& raw == d + seq!['-'] + joined(fields, ':')
                        &&& forall|j: int| 0 <= j < d.len() ==> #[trigger] d[j] != '-'
                    },
                    None => {
                        &&& raw == joined(fields, ':')
                        &&& forall|j: int| 0 <= j < raw.len() ==> #[trigger] raw[j] != '-'
                    },
                }
            },
            None => split_on(
                match first_index_of(raw, '-') {
                    Some(i) => raw.skip(i + 1),
                    None => raw,
                },
                ':',
            ).len() > 3,
        },
{
    lemma_first_index_of(raw, '-');
    match first_index_of(raw, '-') {
        Some(i) => {
            law_split_rejoins(raw.skip(i + 1), ':');
            assert(raw.take(i) + seq!['-'] + raw.skip(i + 1) =~= raw);
        },
        None => {
            law_split_rejoins(raw, ':');
        },
    }
}

} // verus!
