//! Parsing of the sample space from its command-line form.

use vstd::prelude::*;

verus! {

/// The segments of `s` between its commas, in order. A string without a
/// comma is a single segment, so the empty string yields one empty
/// segment, and every comma opens a new segment.
pub open spec fn split_commas(s: Seq<char>) -> Seq<Seq<char>>
    decreases s.len(),
{
    if s.len() == 0 {
        seq![Seq::<char>::empty()]
    } else if s[0] == ',' {
        seq![Seq::<char>::empty()] + split_commas(s.drop_first())
    } else {
        let rest = split_commas(s.drop_first());
        seq![seq![s[0]] + rest[0]] + rest.drop_first()
    }
}

/// Splitting never yields an empty list of segments.
pub proof fn lemma_split_nonempty(s: Seq<char>)
    ensures
        split_commas(s).len() >= 1,
    decreases s.len(),
{
    if s.len() > 0 && s[0] != ',' {
        lemma_split_nonempty(s.drop_first());
    }
}

/// A comma-free string is one whole segment.
pub proof fn lemma_split_no_comma(s: Seq<char>)
    requires
        forall|l: int| 0 <= l < s.len() ==> s[l] != ',',
    ensures
        split_commas(s) == seq![s],
    decreases s.len(),
{
    if s.len() == 0 {
        assert(s =~= Seq::<char>::empty());
    } else {
        lemma_split_no_comma(s.drop_first());
        assert(seq![s[0]] + s.drop_first() =~= s);
        assert(split_commas(s) =~= seq![s]);
    }
}

/// At its first comma a string splits into the segment before it and the
/// segments of what follows it.
pub proof fn lemma_split_at_first_comma(s: Seq<char>, j: int)
    requires
        0 <= j < s.len(),
        s[j] == ',',
        forall|l: int| 0 <= l < j ==> s[l] != ',',
    ensures
        split_commas(s) == seq![s.take(j)] + split_commas(s.skip(j + 1)),
    decreases j,
{
    if j == 0 {
        assert(s.take(0) =~= Seq::<char>::empty());
        assert(s.skip(1) =~= s.drop_first());
        assert(split_commas(s) =~= seq![s.take(0)] + split_commas(s.skip(1)));
    } else {
        let t = s.drop_first();
        assert(forall|l: int| 0 <= l < j - 1 ==> t[l] != ',');
        lemma_split_at_first_comma(t, j - 1);
        lemma_split_nonempty(t.skip(j));
        assert(seq![s[0]] + t.take(j - 1) =~= s.take(j));
        assert(t.skip(j) =~= s.skip(j + 1));
        assert(split_commas(s) =~= seq![s.take(j)] + split_commas(s.skip(j + 1)));
    }
}

/// The sample space as given on the command line: the labels separated
/// by commas, kept in order, including any empty ones.
pub fn parse_omega(o_arg: &str, _verbose: bool) -> (r: Vec<String>)
    ensures
        r.deep_view() == split_commas(o_arg@),
{
    let len = o_arg.unicode_len();
    let mut res: Vec<String> = Vec::new();
    let mut start: usize = 0;
    let mut i: usize = 0;
    proof {
        assert(o_arg@.skip(0) =~= o_arg@);
        assert(res.deep_view() + split_commas(o_arg@) =~= split_commas(o_arg@));
    }
    while i < len
        invariant
            start <= i <= len,
            len == o_arg@.len(),
            forall|l: int| start <= l < i ==> o_arg@[l] != ',',
            split_commas(o_arg@) == res.deep_view() + split_commas(o_arg@.skip(start as int)),
        decreases len - i,
    {
        let c = o_arg.get_char(i);
        if c == ',' {
            let seg = String::from_str(o_arg.substring_char(start, i));
            proof {
                let tail = o_arg@.skip(start as int);
                assert(forall|l: int| 0 <= l < i - start ==> tail[l] != ',');
                assert(tail[i - start as int] == ',');
                lemma_split_at_first_comma(tail, i - start as int);
                assert(tail.take(i - start as int) =~= seg@);
                assert(tail.skip(i - start as int + 1) =~= o_arg@.skip(i as int + 1));
            }
            let ghost old_dv = res.deep_view();
            res.push(seg);
            proof {
                assert(res.deep_view() =~= old_dv.push(seg@));
                assert(res.deep_view() + split_commas(o_arg@.skip(i as int + 1))
                    =~= split_commas(o_arg@));
            }
            start = i + 1;
        }
        i = i + 1;
    }
    let seg = String::from_str(o_arg.substring_char(start, len));
    proof {
        let tail = o_arg@.skip(start as int);
        assert(forall|l: int| 0 <= l < tail.len() ==> tail[l] != ',');
        lemma_split_no_comma(tail);
        assert(tail =~= seg@);
    }
    let ghost old_dv = res.deep_view();
    res.push(seg);
    proof {
        assert(res.deep_view() =~= old_dv.push(seg@));
        assert(res.deep_view() =~= split_commas(o_arg@));
    }
    res
}

} // verus!
