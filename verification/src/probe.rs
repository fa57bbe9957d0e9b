//! Detection of the `makepad-widgets` dependency, cached for the process
//! lifetime.
//!
//! The expensive part — querying the build tool's dependency metadata — is
//! done at most once per [`OnceFlag`]; afterwards every call is a pure read
//! of the cached boolean. Detection is best-effort: when the metadata query
//! cannot run or fails, the dependency counts as absent rather than
//! raising an error.

use crate::text::str_eq;
use vstd::prelude::*;

verus! {

/// A write-once boolean cache: empty until the first recorded value, and
/// never overwritten afterwards.
pub struct OnceFlag {
    value: Option<bool>,
}

/// The cache after a value `v` was offered to it: an empty cache takes
/// `v`; a filled cache is unchanged.
pub open spec fn cache_after(c: Option<bool>, v: bool) -> Option<bool> {
    if c is Some {
        c
    } else {
        Some(v)
    }
}

/// What offering a value `v` to the cache returns: the stored value when
/// one is already there, otherwise `v` itself.
pub open spec fn cache_result(c: Option<bool>, v: bool) -> bool {
    if c is Some {
        c->0
    } else {
        v
    }
}

impl OnceFlag {
    /// The stored value, if any.
    pub closed spec fn spec_value(&self) -> Option<bool> {
        self.value
    }

    /// A fresh, still-empty flag.
    pub fn new() -> (r: OnceFlag)
        ensures
            r.spec_value() is None,
    {
        OnceFlag { value: None }
    }

    /// The stored value, if any; never computes anything.
    pub fn get(&self) -> (r: Option<bool>)
        ensures
            r == self.spec_value(),
    {
        self.value
    }

    /// Offers `v` to the flag: the first offered value wins and is stored;
    /// every later call returns the stored value and changes nothing.
    pub fn get_or_set(&mut self, v: bool) -> (r: bool)
        ensures
            final(self).spec_value() == cache_after(old(self).spec_value(), v),
            r == cache_result(old(self).spec_value(), v),
    {
        match self.value {
            Some(w) => w,
            None => {
                self.value = Some(v);
                v
            },
        }
    }
}

/// The probe is idempotent: whatever value a second offer brings, it
/// returns exactly what the first offer returned, and the value stored by
/// the first offer is never overwritten.
pub proof fn lemma_flag_idempotent(c: Option<bool>, v1: bool, v2: bool)
    ensures
        cache_result(cache_after(c, v1), v2) == cache_result(c, v1),
        cache_after(cache_after(c, v1), v2) == cache_after(c, v1),
{
}

/// Relies on `cargo_metadata::MetadataCommand::exec`: runs the build
/// tool's metadata query for the current workspace and, on success, yields
/// the resolved packages; their names are handed back as plain strings.
/// A query that cannot run or fails yields `None`.
#[verifier::external_body]
fn query_workspace_package_names() -> Option<Vec<String>>
{
    cargo_metadata::MetadataCommand::new().exec().ok().map(
        |metadata| metadata.packages.into_iter().map(|package| package.name.to_string()).collect(),
    )
}

/// Whether a package-name list holds the toolkit package.
pub open spec fn has_makepad_name(s: Seq<String>) -> bool {
    exists|i: int| #![trigger s[i]] 0 <= i < s.len() && s[i]@ == "makepad-widgets"@
}

/// Whether a successful metadata query lists the toolkit package.
pub open spec fn names_indicate_makepad_spec(names: Option<Seq<String>>) -> bool {
    names is Some && has_makepad_name(names->0)
}

/// The mathematical view of a query outcome: the listed names, if the
/// query succeeded.
pub open spec fn query_view(names: Option<Vec<String>>) -> Option<Seq<String>> {
    if names is Some {
        Some(names->0@)
    } else {
        None
    }
}

/// Whether the list holds the toolkit package's name.
pub fn vec_has_makepad(list: &Vec<String>) -> (r: bool)
    ensures
        r == has_makepad_name(list@),
{
    let mut i: usize = 0;
    while i < list.len()
        invariant
            i <= list@.len(),
            forall|j: int| 0 <= j < i ==> list@[j]@ != "makepad-widgets"@,
        decreases list@.len() - i,
    {
        if str_eq(list[i].as_str(), "makepad-widgets") {
            proof {
                let witness = i as int;
                assert(0 <= witness < list@.len() && list@[witness]@ == "makepad-widgets"@);
            }
            return true;
        }
        i = i + 1;
    }
    false
}

/// Decides from the (possibly failed) metadata query whether the project
/// depends on `makepad-widgets`: a failed query counts as "not present".
pub fn names_indicate_makepad(names: &Option<Vec<String>>) -> (r: bool)
    ensures
        r == names_indicate_makepad_spec(query_view(*names)),
{
    match names {
        None => false,
        Some(list) => vec_has_makepad(list),
    }
}

/// Records a metadata-query outcome in the flag and returns the verdict.
///
/// On an empty flag the verdict is read off the outcome and stored; on a
/// set flag the stored verdict comes back unchanged, whatever the new
/// outcome says.
pub fn record_query_result(flag: &mut OnceFlag, names: &Option<Vec<String>>) -> (r: bool)
    ensures
        old(flag).spec_value() is None ==> r == names_indicate_makepad_spec(query_view(*names)),
        old(flag).spec_value() is Some ==> r == old(flag).spec_value()->0 && *final(flag) == *old(
            flag,
        ),
        final(flag).spec_value() == Some(r),
{
    match flag.get() {
        Some(v) => v,
        None => {
            let present = names_indicate_makepad(names);
            flag.get_or_set(present)
        },
    }
}

/// Returns whether the package being built depends on `makepad-widgets`.
///
/// The first call on an empty flag performs the metadata query and stores
/// its verdict; any call on a set flag returns the stored value unchanged
/// and performs no query at all.
pub fn is_dependency_present(flag: &mut OnceFlag) -> (r: bool)
    ensures
        old(flag).spec_value() is Some ==> r == old(flag).spec_value()->0 && *final(flag) == *old(
            flag,
        ),
        final(flag).spec_value() == Some(r),
{
    match flag.get() {
        Some(v) => v,
        None => {
            let names = query_workspace_package_names();
            record_query_result(flag, &names)
        },
    }
}

} // verus!
