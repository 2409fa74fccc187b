//! Extension and layer names: which requested names the platform
//! supports, and which device extensions the renderer requires.

use vstd::prelude::*;

verus! {

/// `names` holds an entry whose text equals `name`.
pub open spec fn spec_contains_name(names: Seq<String>, name: Seq<char>) -> bool {
    exists|i: int| 0 <= i < names.len() && names[i]@ == name
}

/// Every name in `required` appears in `available`.
pub open spec fn spec_all_names_supported(required: Seq<String>, available: Seq<String>) -> bool {
    forall|i: int| 0 <= i < required.len() ==> spec_contains_name(available, required[i]@)
}

/// The subsequence of `requested` whose names appear in `available`,
/// in their original order.
pub open spec fn spec_filter_supported(requested: Seq<String>, available: Seq<String>) -> Seq<
    String,
>
    decreases requested.len(),
{
    if requested.len() == 0 {
        Seq::empty()
    } else {
        let prefix = spec_filter_supported(requested.drop_last(), available);
        if spec_contains_name(available, requested.last()@) {
            prefix.push(requested.last())
        } else {
            prefix
        }
    }
}

/// Whether `name` occurs in `names`, by text.
pub fn contains_name(names: &Vec<String>, name: &String) -> (r: bool)
    ensures
        r == spec_contains_name(names@, name@),
{
    let mut i: usize = 0;
    while i < names.len()
        invariant
            0 <= i <= names@.len(),
            forall|j: int| 0 <= j < i ==> names@[j]@ != name@,
        decreases names@.len() - i,
    {
        if *name == names[i] {
            assert(names@[i as int]@ == name@);
            return true;
        }

        i = i + 1;
    }

    false
}

/// Checks that the device offers every required extension.
pub fn check_device_extensions_support(required: &Vec<String>, available: &Vec<String>) -> (r:
    bool)
    ensures
        r == spec_all_names_supported(required@, available@),
{
    let mut i: usize = 0;
    while i < required.len()
        invariant
            0 <= i <= required@.len(),
            forall|j: int| 0 <= j < i ==> spec_contains_name(available@, required@[j]@),
        decreases required@.len() - i,
    {
        if !contains_name(available, &required[i]) {
            return false;
        }

        i = i + 1;
    }

    true
}

/// Keeps the requested names the platform supports and drops the
/// rest, preserving order; a caller that wants to warn about a
/// dropped name can test each request against the kept list.
pub fn filter_supported_names(requested: &Vec<String>, available: &Vec<String>) -> (kept: Vec<
    String,
>)
    ensures
        kept@ == spec_filter_supported(requested@, available@),
{
    let mut kept: Vec<String> = Vec::new();
    let mut i: usize = 0;
    while i < requested.len()
        invariant
            0 <= i <= requested@.len(),
            kept@ == spec_filter_supported(requested@.take(i as int), available@),
        decreases requested@.len() - i,
    {
        proof {
            assert(requested@.take(i + 1).drop_last() =~= requested@.take(i as int));
            assert(requested@.take(i + 1).last() == requested@[i as int]);
        }

        if contains_name(available, &requested[i]) {
            kept.push(requested[i].clone());
        }

        i = i + 1;
    }

    proof {
        assert(requested@.take(requested@.len() as int) =~= requested@);
    }
    kept
}

/// The device extensions the renderer requires: the swapchain
/// extension alone.
pub fn required_device_extensions() -> (names: Vec<String>)
    ensures
        names@.len() == 1,
        names@[0]@ == "VK_KHR_swapchain"@,
{
    let mut names: Vec<String> = Vec::new();
    names.push("VK_KHR_swapchain".to_owned());
    names
}

} // verus!
