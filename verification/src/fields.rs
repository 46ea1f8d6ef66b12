//! Comma-separated lists as they are stored in one text column: every item
//! is followed by a comma, and empty items do not count when a list is read.

use vstd::prelude::*;
use crate::text::chars_of;

verus! {

/// Whether `s` holds no comma.
pub open spec fn comma_free(s: Seq<char>) -> bool {
    forall|i: int| 0 <= i < s.len() ==> #[trigger] s[i] != ','
}

/// The position of the first comma of `s`, or its length where it has none.
pub open spec fn first_comma(s: Seq<char>) -> int
    decreases s.len(),
{
    if s.len() == 0 || s[0] == ',' {
        0
    } else {
        1 + first_comma(s.skip(1))
    }
}

/// A list of the one item `s`, or of nothing where `s` is empty.
pub open spec fn piece(s: Seq<char>) -> Seq<Seq<char>> {
    if s.len() == 0 {
        Seq::empty()
    } else {
        seq![s]
    }
}

/// The items of `s`: the texts between its commas, in order, without the
/// empty ones.
pub open spec fn fields(s: Seq<char>) -> Seq<Seq<char>>
    decreases s.len(),
{
    if s.len() == 0 {
        Seq::empty()
    } else {
        let k = first_comma(s);
        if 0 <= k < s.len() {
            piece(s.take(k)) + fields(s.skip(k + 1))
        } else {
            piece(s)
        }
    }
}

/// The text that stores `items`: each item followed by a comma.
pub open spec fn joined(items: Seq<Seq<char>>) -> Seq<char>
    decreases items.len(),
{
    if items.len() == 0 {
        Seq::empty()
    } else {
        items[0] + seq![','] + joined(items.skip(1))
    }
}

/// The texts that a sequence of strings holds.
pub open spec fn texts(v: Seq<String>) -> Seq<Seq<char>> {
    Seq::new(v.len(), |i: int| v[i]@)
}

/// The first comma of a text stands after its longest comma-free prefix.
pub proof fn lemma_first_comma(s: Seq<char>, k: int)
    requires
        0 <= k <= s.len(),
        comma_free(s.take(k)),
        k < s.len() ==> s[k] == ',',
    ensures
        first_comma(s) == k,
    decreases k,
{
    if k > 0 {
        assert(s.take(k)[0] != ',');
        let t = s.skip(1);
        assert forall|i: int| 0 <= i < k - 1 implies #[trigger] t.take(k - 1)[i] != ',' by {
            assert(s.take(k)[i + 1] != ',');
        }
        lemma_first_comma(t, k - 1);
    }
}

/// A text without a comma is one item, or none where it is empty.
pub proof fn lemma_fields_comma_free(s: Seq<char>)
    requires
        comma_free(s),
    ensures
        fields(s) == piece(s),
{
    assert(s.take(s.len() as int) =~= s);
    lemma_first_comma(s, s.len() as int);
}

/// The items of a comma-free text, a comma and a rest are that text, where
/// it is not empty, and then the items of the rest.
pub proof fn lemma_fields_step(a: Seq<char>, b: Seq<char>)
    requires
        comma_free(a),
    ensures
        fields(a + seq![','] + b) == piece(a) + fields(b),
{
    let s = a + seq![','] + b;
    assert(s.take(a.len() as int) =~= a);
    assert(s.skip(a.len() as int + 1) =~= b);
    lemma_first_comma(s, a.len() as int);
}

/// Reading a stored list gives its items back, where none of them is empty or
/// holds a comma.
pub proof fn lemma_fields_of_joined(items: Seq<Seq<char>>)
    requires
        forall|i: int|
            0 <= i < items.len() ==> (#[trigger] items[i]).len() > 0 && comma_free(items[i]),
    ensures
        fields(joined(items)) == items,
    decreases items.len(),
{
    if items.len() > 0 {
        let rest = items.skip(1);
        assert forall|i: int| 0 <= i < rest.len() implies (#[trigger] rest[i]).len() > 0
            && comma_free(rest[i]) by {
            assert(rest[i] == items[i + 1]);
        }
        lemma_fields_of_joined(rest);
        lemma_fields_step(items[0], joined(rest));
        assert(piece(items[0]) + rest =~= items);
    }
}

/// Splits `text` at its commas and hands out the items that are not empty.
pub fn split_fields(text: &str) -> (out: Vec<String>)
    ensures
        texts(out@) == fields(text@),
{
    let chars = chars_of(text);
    let ghost s = text@;
    let mut out: Vec<String> = Vec::new();
    let mut cur = String::new();
    let mut pending: bool = false;
    let mut i: usize = 0;
    proof {
        assert(s.skip(0) =~= s);
        assert(texts(out@) + fields(s) =~= fields(s));
    }
    while i < chars.len()
        invariant
            chars@ == s,
            0 <= i <= s.len(),
            cur@.len() <= i,
            cur@ == s.subrange(i - cur@.len(), i as int),
            comma_free(cur@),
            pending <==> cur@.len() > 0,
            fields(s) == texts(out@) + fields(s.skip(i - cur@.len())),
        decreases chars.len() - i,
    {
        let c = chars[i];
        let ghost start = i - cur@.len();
        if c == ',' {
            proof {
                assert(s.skip(start) =~= cur@ + seq![','] + s.skip(i + 1));
                lemma_fields_step(cur@, s.skip(i + 1));
            }
            if pending {
                let ghost before = texts(out@);
                out.push(cur);
                assert(texts(out@) =~= before + piece(cur@));
                cur = String::new();
                pending = false;
            }
            assert(s.subrange(i + 1, i + 1) =~= Seq::<char>::empty());
        } else {
            cur.push(c);
            pending = true;
            assert(cur@ =~= s.subrange(start, i + 1));
        }
        i += 1;
    }
    proof {
        let start = i - cur@.len();
        assert(s.skip(start) =~= cur@);
        lemma_fields_comma_free(cur@);
    }
    if pending {
        let ghost before = texts(out@);
        out.push(cur);
        assert(texts(out@) =~= before + piece(cur@));
    }
    out
}

} // verus!
