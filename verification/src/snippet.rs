//! The records that the service answers with.

use vstd::prelude::*;

verus! {

/// One file of a snippet.
#[derive(Debug, Clone, PartialEq, Eq)]
pub struct File {
    pub path: String,
}

/// A snippet as the service describes it.
#[derive(Debug, Clone, PartialEq, Eq)]
pub struct Snippet {
    pub title: String,
    pub id: usize,
    pub file_name: String,
    pub files: Vec<File>,
    pub web_url: String,
}

/// Whether `list[i]` is the first snippet of `list` whose title is exactly
/// `title`: character for character, with no folding of case and no trimming.
pub open spec fn first_titled_at(list: Seq<Snippet>, title: Seq<char>, i: int) -> bool {
    &&& 0 <= i < list.len()
    &&& list[i].title@ == title
    &&& forall|j: int| 0 <= j < i ==> (#[trigger] list[j]).title@ != title
}

/// Whether no snippet of `list` has the title `title`.
pub open spec fn none_titled(list: Seq<Snippet>, title: Seq<char>) -> bool {
    forall|j: int| 0 <= j < list.len() ==> (#[trigger] list[j]).title@ != title
}

/// A list has at most one first snippet of a given title: the position that
/// a lookup finds is determined by the list and the title.
pub proof fn lemma_first_titled_unique(list: Seq<Snippet>, title: Seq<char>, i: int, j: int)
    requires
        first_titled_at(list, title, i),
        first_titled_at(list, title, j),
    ensures
        i == j,
{
    if i < j {
        assert(list[i].title@ != title);
    } else if j < i {
        assert(list[j].title@ != title);
    }
}

/// Every list either has a first snippet of a given title or has none of that
/// title, and never both.
pub proof fn lemma_found_or_missing(list: Seq<Snippet>, title: Seq<char>)
    ensures
        none_titled(list, title) <==> !exists|i: int| first_titled_at(list, title, i),
{
    if none_titled(list, title) {
        assert forall|i: int| !first_titled_at(list, title, i) by {
            if 0 <= i < list.len() {
                assert(list[i].title@ != title);
            }
        }
    } else {
        let k = choose|k: int| 0 <= k < list.len() && (#[trigger] list[k]).title@ == title;
        lemma_least_titled(list, title, k);
    }
}

/// Where some snippet has the title, a first one has it.
proof fn lemma_least_titled(list: Seq<Snippet>, title: Seq<char>, k: int)
    requires
        0 <= k < list.len(),
        list[k].title@ == title,
    ensures
        exists|i: int| first_titled_at(list, title, i),
    decreases k,
{
    if forall|j: int| 0 <= j < k ==> (#[trigger] list[j]).title@ != title {
        assert(first_titled_at(list, title, k));
    } else {
        let j = choose|j: int| 0 <= j < k && (#[trigger] list[j]).title@ == title;
        lemma_least_titled(list, title, j);
    }
}

} // verus!
