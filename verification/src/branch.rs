//! From the reference that a remote advertises as its default to the short
//! name of that branch.

use vstd::prelude::*;
use vstd::std_specs::iter::IteratorSpec;

verus! {

/// Why an advertised default is not taken for a branch.
#[derive(Clone, Copy, Debug, PartialEq, Eq, Structural)]
pub enum BranchNameError {
    /// The reference does not begin with `refs/heads/`.
    NotUnderHeads,
    /// The reference begins with `refs/heads/`, but a line break follows
    /// somewhere after it.
    LineBreak,
}

/// Where the references of branches live: `refs/heads/`.
pub open spec fn heads_prefix() -> Seq<char> {
    "refs/heads/"@
}

/// The short name of the branch that `advertised` names: what follows
/// `refs/heads/`, as long as there is no line break in it.
pub open spec fn short_name(advertised: Seq<char>) -> Result<Seq<char>, BranchNameError> {
    if !heads_prefix().is_prefix_of(advertised) {
        Err(BranchNameError::NotUnderHeads)
    } else if advertised.skip(heads_prefix().len() as int).contains('\n') {
        Err(BranchNameError::LineBreak)
    } else {
        Ok(advertised.skip(heads_prefix().len() as int))
    }
}

/// A name is a branch's short name exactly where the reference is
/// `refs/heads/` followed by that name, and the name has no line break.
pub proof fn short_name_strips_the_prefix(advertised: Seq<char>, name: Seq<char>)
    ensures
        short_name(advertised) == Ok::<Seq<char>, BranchNameError>(name) <==> (advertised
            == heads_prefix() + name && !name.contains('\n')),
{
    let prefix = heads_prefix();
    if advertised == prefix + name {
        assert(advertised.skip(prefix.len() as int) =~= name);
    }
    if short_name(advertised) == Ok::<Seq<char>, BranchNameError>(name) {
        assert(advertised =~= prefix + name);
    }
}

/// A reference is refused as not being under `refs/heads/` exactly where it
/// does not begin with that prefix, whatever else it holds.
pub proof fn short_name_fails_without_the_prefix(advertised: Seq<char>)
    ensures
        short_name(advertised) == Err::<Seq<char>, BranchNameError>(
            BranchNameError::NotUnderHeads,
        ) <==> !heads_prefix().is_prefix_of(advertised),
{
}

fn chars_of(text: &str) -> (chars: Vec<char>)
    ensures
        chars@ == text@,
{
    let mut chars: Vec<char> = Vec::new();
    for c in it: text.chars()
        invariant
            it.seq() == text@,
            chars@ == text@.take(it.index() as int),
    {
        chars.push(c);
    }
    chars
}

/// Strips `refs/heads/` from the reference that a remote advertises as its
/// default, and fails where the reference is not a branch of that form.
pub fn short_branch_name(advertised: &str) -> (name: Result<String, BranchNameError>)
    ensures
        match name {
            Ok(short) => short_name(advertised@) == Ok::<Seq<char>, BranchNameError>(short@),
            Err(e) => short_name(advertised@) == Err::<Seq<char>, BranchNameError>(e),
        },
{
    let chars = chars_of(advertised);
    let prefix = chars_of("refs/heads/");
    if chars.len() < prefix.len() {
        return Err(BranchNameError::NotUnderHeads);
    }
    let mut i: usize = 0;
    while i < prefix.len()
        invariant
            i <= prefix.len() <= chars.len(),
            chars@ == advertised@,
            prefix@ == heads_prefix(),
            forall|j: int| 0 <= j < i ==> chars@[j] == prefix@[j],
        decreases prefix.len() - i,
    {
        if chars[i] != prefix[i] {
            return Err(BranchNameError::NotUnderHeads);
        }
        i += 1;
    }
    let ghost rest = advertised@.skip(prefix.len() as int);
    let mut k: usize = prefix.len();
    while k < chars.len()
        invariant
            prefix.len() <= k <= chars.len(),
            chars@ == advertised@,
            prefix@ == heads_prefix(),
            heads_prefix().is_prefix_of(advertised@),
            rest == advertised@.skip(prefix.len() as int),
            forall|j: int| 0 <= j < k - prefix.len() ==> rest[j] != '\n',
        decreases chars.len() - k,
    {
        if chars[k] == '\n' {
            assert(rest[k - prefix.len()] == '\n');
            return Err(BranchNameError::LineBreak);
        }
        k += 1;
    }
    Ok(String::from_str(advertised.substring_char(prefix.len(), chars.len())))
}

} // verus!
