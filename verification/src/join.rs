use vstd::prelude::*;
use vstd::string::StringExecFns;

verus! {

/// The ordered join of transcript pieces, with a single space between each
/// pair of consecutive pieces and nothing before the first or after the last.
pub open spec fn spec_join_with_spaces(parts: Seq<Seq<char>>) -> Seq<char>
    decreases parts.len(),
{
    if parts.len() == 0 {
        Seq::empty()
    } else if parts.len() == 1 {
        parts[0]
    } else {
        spec_join_with_spaces(parts.drop_last()) + seq![' '] + parts.last()
    }
}

/// Sum of the lengths of the pieces.
pub open spec fn spec_total_len(parts: Seq<Seq<char>>) -> nat
    decreases parts.len(),
{
    if parts.len() == 0 {
        0
    } else {
        spec_total_len(parts.drop_last()) + parts.last().len()
    }
}

/// Joins the per-chunk transcripts in index order with single spaces.
pub fn join_transcripts(parts: &Vec<String>) -> (r: String)
    ensures
        r@ == spec_join_with_spaces(parts.deep_view()),
{
    let ghost dv = parts.deep_view();
    let mut r = String::new();
    let mut i: usize = 0;
    while i < parts.len()
        invariant
            i <= parts.len(),
            dv == parts.deep_view(),
            dv.len() == parts.len(),
            forall|k: int| 0 <= k < dv.len() ==> #[trigger] dv[k] == parts@[k]@,
            r@ == spec_join_with_spaces(dv.subrange(0, i as int)),
        decreases parts.len() - i,
    {
        proof {
            assert(dv.subrange(0, i + 1).drop_last() =~= dv.subrange(0, i as int));
            assert(dv.subrange(0, i + 1).last() == dv[i as int]);
            reveal_strlit(" ");
            assert(" "@ =~= seq![' ']);
        }
        if i > 0 {
            r.append(" ");
        }
        r.append(parts[i].as_str());
        i = i + 1;
    }
    proof {
        assert(dv.subrange(0, dv.len() as int) =~= dv);
    }
    r
}

/// Joining `n >= 1` pieces inserts exactly `n - 1` single-character
/// separators: the joined length is the sum of the piece lengths plus
/// `n - 1`.
pub proof fn lemma_join_separator_count(parts: Seq<Seq<char>>)
    requires
        parts.len() >= 1,
    ensures
        spec_join_with_spaces(parts).len() == spec_total_len(parts) + parts.len() - 1,
    decreases parts.len(),
{
    if parts.len() > 1 {
        lemma_join_separator_count(parts.drop_last());
    } else {
        assert(spec_total_len(parts.drop_last()) == 0);
        assert(spec_join_with_spaces(parts) == parts[0]);
        assert(parts.last() == parts[0]);
    }
}

} // verus!
