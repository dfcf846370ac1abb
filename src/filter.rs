//! Which icon-set prefixes a run processes.
use vstd::prelude::*;
use vstd::string::StringExecFns;

verus! {

pub open spec fn listed(names: Seq<String>, prefix: Seq<char>) -> bool {
    exists|i: int| 0 <= i < names.len() && (#[trigger] names[i])@ == prefix
}

/// The filter rule: a non-empty allow list must name the prefix, and a non-empty
/// disallow list must not.
pub open spec fn passes_lists(prefix: Seq<char>, allow: Seq<String>, disallow: Seq<String>) -> bool {
    (allow.len() == 0 || listed(allow, prefix)) && (disallow.len() == 0 || !listed(disallow, prefix))
}

fn contains(names: &Vec<String>, prefix: &String) -> (r: bool)
    ensures
        r == listed(names@, prefix@),
{
    let mut i: usize = 0;
    while i < names.len()
        invariant
            i <= names@.len(),
            forall|j: int| 0 <= j < i ==> (#[trigger] names@[j])@ != prefix@,
        decreases names@.len() - i,
    {
        if names[i] == *prefix {
            return true;
        }
        i = i + 1;
    }
    false
}

/// Whether `prefix` passes the allow and disallow lists; an empty list restricts nothing.
pub fn prefix_allowed(prefix: &str, allow: &Vec<String>, disallow: &Vec<String>) -> (r: bool)
    ensures
        r == passes_lists(prefix@, allow@, disallow@),
{
    let p = String::from_str(prefix);
    if allow.len() != 0 && !contains(allow, &p) {
        return false;
    }
    if disallow.len() != 0 && contains(disallow, &p) {
        return false;
    }
    true
}

} // verus!
