//! Interpreting a typed coordinate line: the text is cut into
//! blank-separated fields, and the first three are handed back for the
//! caller to read as latitude, longitude and altitude.

use vstd::prelude::*;

verus! {

/// A whitespace character: the Unicode White_Space set, the separators
/// that std's `split_whitespace` splits on.
pub open spec fn is_blank(c: char) -> bool {
    ||| c == ' '
    ||| c == '\t'
    ||| c == '\n'
    ||| c == '\u{000B}'
    ||| c == '\u{000C}'
    ||| c == '\r'
    ||| c == '\u{0085}'
    ||| c == '\u{00A0}'
    ||| c == '\u{1680}'
    ||| ('\u{2000}' <= c && c <= '\u{200A}')
    ||| c == '\u{2028}'
    ||| c == '\u{2029}'
    ||| c == '\u{202F}'
    ||| c == '\u{205F}'
    ||| c == '\u{3000}'
}

/// Length of the leading run of non-blank characters.
pub open spec fn token_len(s: Seq<char>) -> nat
    decreases s.len(),
{
    if s.len() == 0 || is_blank(s[0]) {
        0
    } else {
        (1 + token_len(s.drop_first())) as nat
    }
}

proof fn lemma_token_len_le(s: Seq<char>)
    ensures
        token_len(s) <= s.len(),
    decreases s.len(),
{
    if s.len() > 0 && !is_blank(s[0]) {
        lemma_token_len_le(s.drop_first());
    }
}

/// The leading token is exactly the run of non-blank characters up to the
/// first blank (or the end).
proof fn lemma_token_len_boundary(s: Seq<char>, k: int)
    requires
        0 <= k <= s.len(),
        forall|j: int| 0 <= j < k ==> !is_blank(s[j]),
        k == s.len() || is_blank(s[k]),
    ensures
        token_len(s) == k,
    decreases k,
{
    if k > 0 {
        assert(!is_blank(s[0]));
        let t = s.drop_first();
        assert forall|j: int| 0 <= j < k - 1 implies !is_blank(t[j]) by {
            assert(t[j] == s[j + 1]);
        }
        if k < s.len() {
            assert(t[k - 1] == s[k]);
        }
        lemma_token_len_boundary(t, k - 1);
    }
}

/// The blank-separated fields of `s`, in order.
pub open spec fn split_blank(s: Seq<char>) -> Seq<Seq<char>>
    decreases s.len(),
    via split_blank_decreases
{
    if s.len() == 0 {
        Seq::empty()
    } else if is_blank(s[0]) {
        split_blank(s.drop_first())
    } else {
        seq![s.take(token_len(s) as int)] + split_blank(s.skip(token_len(s) as int))
    }
}

#[via_fn]
proof fn split_blank_decreases(s: Seq<char>) {
    lemma_token_len_le(s);
}

fn blank(c: char) -> (r: bool)
    ensures
        r == is_blank(c),
{
    c == ' ' || c == '\t' || c == '\n' || c == '\u{000B}' || c == '\u{000C}' || c == '\r'
        || c == '\u{0085}' || c == '\u{00A0}' || c == '\u{1680}'
        || ('\u{2000}' <= c && c <= '\u{200A}') || c == '\u{2028}' || c == '\u{2029}'
        || c == '\u{202F}' || c == '\u{205F}' || c == '\u{3000}'
}

/// Cut `text` into its blank-separated fields.
pub fn split_fields(text: &Vec<char>) -> (fields: Vec<Vec<char>>)
    ensures
        fields.deep_view() == split_blank(text@),
{
    let n: usize = text.len();
    let mut i: usize = 0;
    let mut fields: Vec<Vec<char>> = Vec::new();
    proof {
        assert(text@.skip(0) =~= text@);
        assert(fields.deep_view() + split_blank(text@) =~~= split_blank(text@));
    }
    while i < n
        invariant
            i <= n,
            n == text@.len(),
            split_blank(text@) == fields.deep_view() + split_blank(text@.skip(i as int)),
        decreases n - i,
    {
        if blank(text[i]) {
            proof {
                assert(text@.skip(i as int).drop_first() =~= text@.skip(i as int + 1));
            }
            i += 1;
        } else {
            let ghost start_fields = fields.deep_view();
            let start: usize = i;
            let mut tok: Vec<char> = Vec::new();
            while i < n && !blank(text[i])
                invariant
                    start <= i <= n,
                    n == text@.len(),
                    tok@ == text@.subrange(start as int, i as int),
                    forall|j: int| start <= j < i ==> !is_blank(text@[j]),
                decreases n - i,
            {
                tok.push(text[i]);
                i += 1;
            }
            proof {
                let s = text@.skip(start as int);
                assert forall|j: int| 0 <= j < i - start implies !is_blank(s[j]) by {
                    assert(s[j] == text@[start + j]);
                }
                if i < n {
                    assert(s[i - start] == text@[i as int]);
                }
                lemma_token_len_boundary(s, i - start);
                assert(s.take(i - start) =~= text@.subrange(start as int, i as int));
                assert(s.skip(i - start) =~= text@.skip(i as int));
                assert(split_blank(s) == seq![tok@] + split_blank(text@.skip(i as int)));
            }
            let ghost tokv = tok@;
            fields.push(tok);
            proof {
                assert(fields.deep_view() =~~= start_fields + seq![tokv]);
                assert((start_fields + seq![tokv]) + split_blank(text@.skip(i as int))
                    =~~= start_fields + (seq![tokv] + split_blank(text@.skip(i as int))));
            }
        }
    }
    proof {
        assert(text@.skip(n as int) =~= Seq::<char>::empty());
        assert(fields.deep_view() + split_blank(text@.skip(n as int)) =~= fields.deep_view());
    }
    fields
}

/// Cut the typed line into fields and hand back the first three (latitude,
/// longitude and altitude, still as text), each present exactly when the
/// line holds that many fields. The caller reads them in this order, and
/// its first failure — a field that is missing, or one that does not read
/// as a number — picks the error it reports.
pub fn coordinate_fields(text: &Vec<char>) -> (r: (
    Option<Vec<char>>,
    Option<Vec<char>>,
    Option<Vec<char>>,
))
    ensures
        split_blank(text@).len() >= 1 ==> (r.0 matches Some(f) && f@ == split_blank(text@)[0]),
        split_blank(text@).len() < 1 ==> r.0 is None,
        split_blank(text@).len() >= 2 ==> (r.1 matches Some(f) && f@ == split_blank(text@)[1]),
        split_blank(text@).len() < 2 ==> r.1 is None,
        split_blank(text@).len() >= 3 ==> (r.2 matches Some(f) && f@ == split_blank(text@)[2]),
        split_blank(text@).len() < 3 ==> r.2 is None,
{
    let mut fields = split_fields(text);
    let a = if fields.len() > 0 {
        Some(fields.remove(0))
    } else {
        None
    };
    let b = if fields.len() > 0 {
        Some(fields.remove(0))
    } else {
        None
    };
    let c = if fields.len() > 0 {
        Some(fields.remove(0))
    } else {
        None
    };
    (a, b, c)
}

} // verus!
