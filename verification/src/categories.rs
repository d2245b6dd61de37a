//! The user-chosen category set, built by splitting a comma-separated
//! input string. Empty segments are kept verbatim, so an empty input names
//! the single category `""`.

use vstd::prelude::*;
use vstd::string::StrSliceExecFns;

verus! {

/// The result of splitting `s` at every comma: the segments between the
/// commas, in order, with empty segments kept as empty entries. Splitting
/// the empty sequence yields one empty segment.
pub open spec fn split_commas(s: Seq<char>) -> Seq<Seq<char>>
    decreases s.len(),
{
    if s.len() == 0 {
        seq![Seq::<char>::empty()]
    } else if s[0] == ',' {
        seq![Seq::<char>::empty()] + split_commas(s.drop_first())
    } else {
        let rest = split_commas(s.drop_first());
        seq![seq![s[0]] + rest[0]] + rest.drop_first()
    }
}

/// A sequence without commas splits into itself as the only segment.
pub proof fn lemma_split_no_comma(a: Seq<char>)
    requires
        forall|k: int| 0 <= k < a.len() ==> a[k] != ',',
    ensures
        split_commas(a) == seq![a],
    decreases a.len(),
{
    if a.len() == 0 {
        assert(a =~= Seq::<char>::empty());
        assert(split_commas(a) =~= seq![a]);
    } else {
        assert(forall|k: int| 0 <= k < a.drop_first().len() ==> a.drop_first()[k] != ',');
        lemma_split_no_comma(a.drop_first());
        let rest = split_commas(a.drop_first());
        assert(rest[0] == a.drop_first());
        assert(seq![a[0]] + a.drop_first() =~= a);
        assert(rest.drop_first() =~= Seq::<Seq<char>>::empty());
        assert(split_commas(a) =~= seq![a]);
    }
}

/// Splitting a sequence that starts with a comma-free prefix `a`, then a
/// comma, then `b`, yields `a` as the first segment followed by the
/// segments of `b`.
pub proof fn lemma_split_comma_prefix(a: Seq<char>, b: Seq<char>)
    requires
        forall|k: int| 0 <= k < a.len() ==> a[k] != ',',
    ensures
        split_commas(a + seq![','] + b) == seq![a] + split_commas(b),
    decreases a.len(),
{
    let s = a + seq![','] + b;
    if a.len() == 0 {
        assert(s[0] == ',');
        assert(s.drop_first() =~= b);
        assert(a =~= Seq::<char>::empty());
        assert(split_commas(s) =~= seq![a] + split_commas(b));
    } else {
        assert(s[0] == a[0]);
        assert(s[0] != ',');
        assert(s.drop_first() =~= a.drop_first() + seq![','] + b);
        assert(forall|k: int| 0 <= k < a.drop_first().len() ==> a.drop_first()[k] != ',');
        lemma_split_comma_prefix(a.drop_first(), b);
        let rest = split_commas(s.drop_first());
        assert(rest == seq![a.drop_first()] + split_commas(b));
        assert(rest[0] == a.drop_first());
        assert(seq![s[0]] + rest[0] =~= a);
        assert(rest.drop_first() =~= split_commas(b));
        assert(split_commas(s) =~= seq![a] + split_commas(b));
    }
}

/// The set of category names the caller asked for. Order and duplicates
/// are kept as written; membership is exact, case-sensitive string
/// equality.
pub struct Categories {
    pub value: Vec<String>,
}

impl View for Categories {
    type V = Seq<Seq<char>>;

    open spec fn view(&self) -> Seq<Seq<char>> {
        self.value@.map_values(|c: String| c@)
    }
}

impl Categories {
    /// Builds the category set by splitting `s` at every comma, keeping
    /// empty segments verbatim.
    pub fn parse(s: &str) -> (c: Categories)
        ensures
            c@ == split_commas(s@),
    {
        let n: usize = s.unicode_len();
        let mut value: Vec<String> = Vec::new();
        let mut start: usize = 0;
        let mut i: usize = 0;
        proof {
            assert(s@.subrange(0, n as int) =~= s@);
            assert(value@.map_values(|c: String| c@) =~= Seq::<Seq<char>>::empty());
            assert(split_commas(s@) =~= value@.map_values(|c: String| c@) + split_commas(s@));
        }
        while i < n
            invariant
                n == s@.len(),
                start <= i <= n,
                forall|k: int| start <= k < i ==> s@[k] != ',',
                split_commas(s@) == value@.map_values(|c: String| c@) + split_commas(
                    s@.subrange(start as int, n as int),
                ),
            decreases n - i,
        {
            if s.get_char(i) == ',' {
                let seg = s.substring_char(start, i);
                let ghost prev = value@;
                value.push(seg.to_owned());
                proof {
                    assert(s@.subrange(start as int, n as int) =~= seg@ + seq![','] + s@.subrange(
                        i as int + 1,
                        n as int,
                    ));
                    lemma_split_comma_prefix(seg@, s@.subrange(i as int + 1, n as int));
                    assert(value@.map_values(|c: String| c@) =~= prev.map_values(|c: String| c@)
                        + seq![seg@]);
                    assert(split_commas(s@) =~= value@.map_values(|c: String| c@) + split_commas(
                        s@.subrange(i as int + 1, n as int),
                    ));
                }
                start = i + 1;
            }
            i = i + 1;
        }
        let seg = s.substring_char(start, n);
        let ghost prev = value@;
        value.push(seg.to_owned());
        proof {
            lemma_split_no_comma(seg@);
            assert(value@.map_values(|c: String| c@) =~= prev.map_values(|c: String| c@)
                + seq![seg@]);
            assert(split_commas(s@) =~= value@.map_values(|c: String| c@));
        }
        Categories { value }
    }

    /// Exact, case-sensitive membership of `cat` in the category set.
    pub fn contains(&self, cat: &String) -> (b: bool)
        ensures
            b == self@.contains(cat@),
    {
        let mut i: usize = 0;
        while i < self.value.len()
            invariant
                i <= self.value.len(),
                forall|k: int| 0 <= k < i ==> self@[k] != cat@,
            decreases self.value.len() - i,
        {
            if self.value[i] == *cat {
                assert(self@[i as int] == cat@);
                return true;
            }
            i = i + 1;
        }
        assert(forall|k: int| 0 <= k < self@.len() ==> self@[k] != cat@);
        false
    }
}

} // verus!
