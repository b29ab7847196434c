use vstd::prelude::*;

verus! {

/// Two row-name sequences are aligned when they have the same length and
/// the same name at every position. Order matters: nothing is sorted or
/// looked up by name.
pub open spec fn aligned(control_names: Seq<Seq<char>>, case_names: Seq<Seq<char>>) -> bool {
    &&& control_names.len() == case_names.len()
    &&& forall|i: int| 0 <= i < control_names.len() ==> control_names[i] == case_names[i]
}

/// Checks that the control and case matrices name the same rows in the same order.
pub fn validate_alignment(control_names: &Vec<String>, case_names: &Vec<String>) -> (ok: bool)
    ensures
        ok == aligned(control_names.deep_view(), case_names.deep_view()),
{
    if control_names.len() != case_names.len() {
        return false;
    }
    let mut i: usize = 0;
    while i < control_names.len()
        invariant
            i <= control_names.len(),
            control_names.len() == case_names.len(),
            forall|j: int|
                0 <= j < i ==> control_names.deep_view()[j] == case_names.deep_view()[j],
        decreases control_names.len() - i,
    {
        if !(control_names[i] == case_names[i]) {
            assert(control_names.deep_view()[i as int] != case_names.deep_view()[i as int]);
            return false;
        }
        i += 1;
    }
    true
}

/// For name sequences of equal length, alignment is agreement at every position.
pub proof fn lemma_aligned_is_positionwise(
    control_names: Seq<Seq<char>>,
    case_names: Seq<Seq<char>>,
)
    requires
        control_names.len() == case_names.len(),
    ensures
        aligned(control_names, case_names) <==> (forall|i: int|
            0 <= i < control_names.len() ==> control_names[i] == case_names[i]),
{
}

/// Name sequences of different lengths are never aligned.
pub proof fn lemma_unequal_lengths_are_misaligned(
    control_names: Seq<Seq<char>>,
    case_names: Seq<Seq<char>>,
)
    requires
        control_names.len() != case_names.len(),
    ensures
        !aligned(control_names, case_names),
{
}

/// Alignment is equality of the two name sequences.
pub proof fn lemma_aligned_is_equality(control_names: Seq<Seq<char>>, case_names: Seq<Seq<char>>)
    ensures
        aligned(control_names, case_names) <==> control_names == case_names,
{
    if aligned(control_names, case_names) {
        assert(control_names =~= case_names);
    }
}

} // verus!
