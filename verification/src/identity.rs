//! Which skill a record is: the name decides, and nothing else does.

use vstd::prelude::*;
use vstd::std_specs::cmp::{PartialEqSpec, PartialEqSpecImpl};
use crate::skills::Skill;

verus! {

impl PartialEq for Skill {
    /// Two records are the same skill where their names are the same text,
    /// whatever the rest of them holds.
    fn eq(&self, other: &Self) -> (r: bool) {
        self.name == other.name
    }
}

impl PartialEqSpecImpl for Skill {
    open spec fn obeys_eq_spec() -> bool {
        true
    }

    open spec fn eq_spec(&self, other: &Self) -> bool {
        self.name@ == other.name@
    }
}

impl Eq for Skill {

}

/// `Hash::hash` of std for `String` feeds the string to the hasher. Nothing
/// is claimed of what the hasher then holds.
pub assume_specification<H: std::hash::Hasher>[ <String as std::hash::Hash>::hash::<H> ](
    s: &String,
    state: &mut H,
);

impl std::hash::Hash for Skill {
    /// Hashes the name alone, so that records of one skill hash alike.
    fn hash<H: std::hash::Hasher>(&self, state: &mut H) {
        self.name.hash(state);
    }
}

/// Two records with one name are the same skill, whatever else they hold,
/// and two records with different names never are. Being the same skill is
/// an equivalence.
pub proof fn lemma_identity_is_the_name(a: Skill, b: Skill, c: Skill)
    ensures
        a.name@ == b.name@ ==> PartialEqSpec::eq_spec(&a, &b),
        a.name@ != b.name@ ==> !PartialEqSpec::eq_spec(&a, &b),
        PartialEqSpec::eq_spec(&a, &a),
        PartialEqSpec::eq_spec(&a, &b) ==> PartialEqSpec::eq_spec(&b, &a),
        PartialEqSpec::eq_spec(&a, &b) && PartialEqSpec::eq_spec(&b, &c) ==> PartialEqSpec::eq_spec(
            &a,
            &c,
        ),
{
}

/// Whether two skill records are the same skill.
pub fn same_skill(a: &Skill, b: &Skill) -> (r: bool)
    ensures
        r == (a.name@ == b.name@),
{
    a == b
}

} // verus!
