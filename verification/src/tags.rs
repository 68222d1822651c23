//! The tags of the upstream repository, and the versions they list.

use crate::text::{ends_with, has_suffix, str_eq};
use crate::grammar::lemma_normalized_version_is_semantic;
use crate::version::{is_semantic_version, normalized_version};
use vstd::prelude::*;

verus! {

/// Whether `tag` is left out whatever it names: a tag that ends in `^{}`
/// points at the commit of an annotated tag, and `legacy-trunk` marks an old
/// branch.
pub open spec fn is_excluded_tag(tag: Seq<char>) -> bool {
    has_suffix(tag, "^{}"@) || tag == "legacy-trunk"@
}

/// The version that `tag` adds to the list of versions, if it adds one.
pub open spec fn listed_version(tag: Seq<char>) -> Option<Seq<char>> {
    if is_excluded_tag(tag) {
        None
    } else {
        normalized_version(tag)
    }
}

/// The versions that `tags` list, in the order of the tags.
pub open spec fn normalized_versions(tags: Seq<Seq<char>>) -> Seq<Seq<char>>
    decreases tags.len(),
{
    if tags.len() == 0 {
        Seq::empty()
    } else {
        let earlier = normalized_versions(tags.drop_last());
        match listed_version(tags.last()) {
            Some(version) => earlier.push(version),
            None => earlier,
        }
    }
}

/// Whether `tag` is left out of the versions whatever it names.
pub fn is_excluded(tag: &str) -> (excluded: bool)
    ensures
        excluded == is_excluded_tag(tag@),
{
    ends_with(tag, "^{}") || str_eq(tag, "legacy-trunk")
}

/// The versions of two lists of tags, one after the other, are the versions
/// of the first list followed by those of the second.
pub proof fn lemma_versions_of_concat(first: Seq<Seq<char>>, second: Seq<Seq<char>>)
    ensures
        normalized_versions(first + second) == normalized_versions(first) + normalized_versions(
            second,
        ),
    decreases second.len(),
{
    if second.len() == 0 {
        assert(first + second =~= first);
        assert(normalized_versions(first) + normalized_versions(second) =~= normalized_versions(
            first,
        ));
    } else {
        assert((first + second).drop_last() =~= first + second.drop_last());
        assert((first + second).last() == second.last());
        lemma_versions_of_concat(first, second.drop_last());
        let earlier = normalized_versions(first) + normalized_versions(second.drop_last());
        match listed_version(second.last()) {
            Some(version) => {
                assert(earlier.push(version) =~= normalized_versions(first) + normalized_versions(
                    second.drop_last(),
                ).push(version));
            },
            None => {},
        }
    }
}

/// An excluded tag adds nothing to the versions, wherever it stands among
/// the tags: the versions are those of the tags without it.
pub proof fn lemma_excluded_tag_adds_nothing(
    before: Seq<Seq<char>>,
    tag: Seq<char>,
    after: Seq<Seq<char>>,
)
    requires
        is_excluded_tag(tag),
    ensures
        normalized_versions(before.push(tag) + after) == normalized_versions(before + after),
{
    assert(before.push(tag).drop_last() =~= before);
    lemma_versions_of_concat(before.push(tag), after);
    lemma_versions_of_concat(before, after);
}

/// A tag that is not excluded adds exactly the version that it stands for,
/// at its place among the versions, or, where it names no version, nothing.
pub proof fn lemma_tag_adds_one_version_or_none(
    before: Seq<Seq<char>>,
    tag: Seq<char>,
    after: Seq<Seq<char>>,
)
    requires
        !is_excluded_tag(tag),
    ensures
        normalized_versions(before.push(tag) + after) == match normalized_version(tag) {
            Some(version) => normalized_versions(before).push(version) + normalized_versions(
                after,
            ),
            None => normalized_versions(before + after),
        },
{
    assert(before.push(tag).drop_last() =~= before);
    lemma_versions_of_concat(before.push(tag), after);
    lemma_versions_of_concat(before, after);
}

/// There are at most as many versions as tags.
pub proof fn lemma_versions_are_no_more_than_tags(tags: Seq<Seq<char>>)
    ensures
        normalized_versions(tags).len() <= tags.len(),
    decreases tags.len(),
{
    if tags.len() > 0 {
        lemma_versions_are_no_more_than_tags(tags.drop_last());
    }
}

/// Every version that is listed is written as a version is.
pub proof fn lemma_listed_versions_are_semantic(tags: Seq<Seq<char>>, i: int)
    requires
        0 <= i < normalized_versions(tags).len(),
    ensures
        is_semantic_version(normalized_versions(tags)[i]),
    decreases tags.len(),
{
    let earlier = normalized_versions(tags.drop_last());
    if i < earlier.len() {
        lemma_listed_versions_are_semantic(tags.drop_last(), i);
    } else {
        lemma_normalized_version_is_semantic(tags.last());
    }
}

} // verus!
