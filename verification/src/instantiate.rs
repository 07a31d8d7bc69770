//! Handle-based instantiation: children of a document are selected by
//! default, by index, or by name, and absence of a match is an expected,
//! non-exceptional outcome.

use vstd::prelude::*;

verus! {

/// How a child is selected from its parent: the first one, one by index,
/// or one by name.
#[derive(Clone, Debug, PartialEq, Eq)]
pub enum Handle {
    Default,
    Index(usize),
    Name(String),
}

/// The selector resolves to exactly this index: the first entry for the
/// default selector, the index itself when in range, and the first entry
/// bearing the name for a name selector; no match resolves to nothing.
pub open spec fn resolves_to(handle: Handle, names: Seq<Seq<char>>, r: Option<int>) -> bool {
    match handle {
        Handle::Default => if names.len() > 0 {
            r == Some(0int)
        } else {
            r is None
        },
        Handle::Index(i) => if (i as int) < names.len() {
            r == Some(i as int)
        } else {
            r is None
        },
        Handle::Name(s) => match r {
            Some(j) => {
                &&& 0 <= j < names.len()
                &&& names[j] == s@
                &&& forall|k: int| 0 <= k < j ==> names[k] != s@
            }
            None => forall|k: int| 0 <= k < names.len() ==> names[k] != s@,
        },
    }
}

/// Resolves a selector against an ordered list of names.
pub fn resolve_handle(handle: &Handle, names: &Vec<String>) -> (r: Option<usize>)
    ensures
        resolves_to(
            *handle,
            names@.map_values(|n: String| n@),
            match r {
                Some(u) => Some(u as int),
                None => None,
            },
        ),
{
    let ghost views = names@.map_values(|n: String| n@);
    match handle {
        Handle::Default => {
            if names.len() > 0 {
                Some(0)
            } else {
                None
            }
        }
        Handle::Index(i) => {
            if *i < names.len() {
                Some(*i)
            } else {
                None
            }
        }
        Handle::Name(s) => {
            let mut j: usize = 0;
            while j < names.len()
                invariant
                    0 <= j <= names@.len(),
                    views == names@.map_values(|n: String| n@),
                    *handle matches Handle::Name(s2) && s2 == *s,
                    forall|k: int| 0 <= k < j ==> views[k] != s@,
                decreases names@.len() - j,
            {
                if names[j] == *s {
                    proof {
                        let m = names@.map_values(|n: String| n@);
                        assert(m =~= views);
                        assert(m[j as int] == names@[j as int]@);
                        assert(resolves_to(*handle, m, Some(j as int)));
                    }
                    return Some(j);
                }
                j = j + 1;
            }
            None
        }
    }
}

/// A child object that can be instantiated from a parent by selector;
/// failure to match is reported as absence, never a hard failure. Each
/// implementation pins what a successful instantiation returns through
/// its own `instantiated_ok`.
pub trait Instantiate: Sized {
    type From;

    /// What the result of instantiation means for this type.
    spec fn instantiated_ok(from: &Self::From, handle: Handle, r: Option<Self>) -> bool;

    /// Instantiates a child selected by the handle, or reports absence.
    fn instantiate(from: &Self::From, handle: Handle) -> (r: Option<Self>)
        ensures
            Self::instantiated_ok(from, handle, r),
    ;
}

} // verus!
