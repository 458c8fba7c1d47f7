//! Building the pool of items a documentation search bar pulls from.
//!
//! Documentable items arrive as a flat list, each tagged with the name
//! of the program it belongs to; the search pool groups them by program
//! name, keeping each program's items in their original order, so the
//! search front end can look items up per program.

use vstd::prelude::*;

verus! {

/// One searchable item: the name fuzzy search matches on, and what link
/// generation needs — the page's file name and the module path.
#[derive(Debug, Clone, PartialEq, Eq)]
pub struct JsonSearchItem {
    pub name: String,
    pub html_filename: String,
    pub module_info: Vec<String>,
}

impl JsonSearchItem {
    /// A searchable item from its parts.
    pub fn new(name: String, html_filename: String, module_info: Vec<String>) -> (r:
        JsonSearchItem)
        ensures
            r.name == name,
            r.html_filename == html_filename,
            r.module_info == module_info,
    {
        JsonSearchItem { name, html_filename, module_info }
    }
}

/// A documentable item tagged with the program it belongs to.
#[derive(Debug, Clone, PartialEq, Eq)]
pub struct DocEntry {
    pub project_name: String,
    pub item: JsonSearchItem,
}

/// All items of one program, in their original order.
#[derive(Debug, Clone, PartialEq, Eq)]
pub struct SearchGroup {
    pub project_name: String,
    pub items: Vec<JsonSearchItem>,
}

/// The items among `docs` that belong to the program named `key`, in
/// their order of appearance.
pub open spec fn items_of(docs: Seq<DocEntry>, key: Seq<char>) -> Seq<JsonSearchItem>
    decreases docs.len(),
{
    if docs.len() == 0 {
        Seq::empty()
    } else if docs.last().project_name@ == key {
        items_of(docs.drop_last(), key).push(docs.last().item)
    } else {
        items_of(docs.drop_last(), key)
    }
}

/// `groups` is exactly `docs` grouped by program name: names are
/// pairwise distinct, every name comes from `docs`, every doc's name has
/// its group, and each group holds precisely that program's items in
/// their original order.
pub open spec fn grouped_by_project(docs: Seq<DocEntry>, groups: Seq<SearchGroup>) -> bool {
    &&& forall|i: int, j: int|
        0 <= i < j < groups.len() ==> groups[i].project_name@ != groups[j].project_name@
    &&& forall|i: int|
        0 <= i < groups.len() ==> #[trigger] groups[i].items@ == items_of(
            docs,
            groups[i].project_name@,
        )
    &&& forall|i: int| #![trigger groups[i].project_name]
        0 <= i < groups.len() ==> exists|k: int| #![trigger docs[k].project_name]
            0 <= k < docs.len() && docs[k].project_name@ == groups[i].project_name@
    &&& forall|k: int| #![trigger docs[k].project_name]
        0 <= k < docs.len() ==> exists|i: int| #![trigger groups[i].project_name]
            0 <= i < groups.len() && groups[i].project_name@ == docs[k].project_name@
}

/// Appending one doc extends exactly its own program's item list.
proof fn lemma_items_of_snoc(prefix: Seq<DocEntry>, d: DocEntry, key: Seq<char>)
    ensures
        d.project_name@ == key ==> items_of(prefix.push(d), key) == items_of(prefix, key).push(
            d.item,
        ),
        d.project_name@ != key ==> items_of(prefix.push(d), key) == items_of(prefix, key),
{
    assert(prefix.push(d).drop_last() =~= prefix);
    assert(prefix.push(d).last() == d);
}

/// A program name that tags none of the docs has no items among them.
proof fn lemma_items_of_absent(docs: Seq<DocEntry>, key: Seq<char>)
    requires
        forall|k: int| 0 <= k < docs.len() ==> (#[trigger] docs[k].project_name@) != key,
    ensures
        items_of(docs, key) == Seq::<JsonSearchItem>::empty(),
    decreases docs.len(),
{
    if docs.len() > 0 {
        lemma_items_of_absent(docs.drop_last(), key);
    }
}

/// Group documentable items by the program they belong to. Each program
/// name appears once in the result, carrying that program's items in
/// their original order.
#[verifier::rlimit(100)]
pub fn group_by_project(docs: Vec<DocEntry>) -> (groups: Vec<SearchGroup>)
    ensures
        grouped_by_project(docs@, groups@),
{
    let ghost docs0 = docs@;
    let mut docs = docs;
    let mut groups: Vec<SearchGroup> = Vec::new();
    let ghost mut k: int = 0;
    while docs.len() > 0
        invariant
            0 <= k <= docs0.len(),
            docs@ =~= docs0.subrange(k, docs0.len() as int),
            grouped_by_project(docs0.subrange(0, k), groups@),
        decreases docs.len(),
    {
        let d = docs.remove(0);
        proof {
            assert(d == docs0[k]);
            assert(docs@ =~= docs0.subrange(k + 1, docs0.len() as int));
        }
        let ghost prefix = docs0.subrange(0, k);
        let ghost prefix1 = docs0.subrange(0, k + 1);
        proof {
            assert(prefix1 =~= prefix.push(d));
        }
        let DocEntry { project_name, item } = d;
        let mut idx: usize = 0;
        let mut found = false;
        while idx < groups.len() && !found
            invariant
                idx <= groups.len(),
                forall|j: int|
                    0 <= j < idx ==> (#[trigger] groups@[j].project_name@) != project_name@,
                found ==> idx < groups.len() && groups@[idx as int].project_name@
                    == project_name@,
            decreases groups.len() - idx + (if found { 0int } else { 1int }),
        {
            if groups[idx].project_name == project_name {
                found = true;
            } else {
                idx += 1;
            }
        }
        if found {
            let ghost groups_pre = groups@;
            let g = &mut groups[idx];
            g.items.push(item);
            proof {
                assert(groups@[idx as int].project_name == groups_pre[idx as int].project_name);
                assert(groups@[idx as int].items@ == groups_pre[idx as int].items@.push(item));
                assert forall|i: int| 0 <= i < groups@.len() implies #[trigger] groups@[i].items@
                    == items_of(prefix1, groups@[i].project_name@) by {
                    lemma_items_of_snoc(prefix, (DocEntry { project_name, item }), groups@[i].project_name@);
                    if i != idx {
                        assert(groups@[i] == groups_pre[i]);
                        assert(groups@[i].project_name@ != project_name@);
                    }
                }
                assert forall|k2: int| #![trigger prefix1[k2].project_name]
                    0 <= k2 < prefix1.len() implies exists|i: int|
                    #![trigger groups@[i].project_name]
                    0 <= i < groups@.len() && groups@[i].project_name@
                        == prefix1[k2].project_name@ by {
                    if k2 < k {
                        let pn2 = prefix[k2].project_name;
                        assert(prefix1[k2] == prefix[k2]);
                        let i0 = choose|i: int|
                            0 <= i < groups_pre.len() && groups_pre[i].project_name@ == pn2@;
                        assert(groups@[i0].project_name@ == pn2@);
                    } else {
                        assert(groups@[idx as int].project_name@ == prefix1[k2].project_name@);
                    }
                }
            }
        } else {
            proof {
                assert forall|k2: int| 0 <= k2 < prefix.len() implies (
                #[trigger] prefix[k2].project_name@) != project_name@ by {
                    let pn2 = prefix[k2].project_name;
                    let i0 = choose|i: int|
                        0 <= i < groups@.len() && groups@[i].project_name@ == pn2@;
                    assert(groups@[i0].project_name@ != project_name@);
                }
                lemma_items_of_absent(prefix, project_name@);
            }
            let ghost groups_pre = groups@;
            let mut items: Vec<JsonSearchItem> = Vec::new();
            items.push(item);
            groups.push(SearchGroup { project_name, items });
            proof {
                let last = groups@.len() - 1;
                assert(groups@[last].items@ =~= items_of(prefix, project_name@).push(item));
                assert forall|i: int| 0 <= i < groups@.len() implies #[trigger] groups@[i].items@
                    == items_of(prefix1, groups@[i].project_name@) by {
                    lemma_items_of_snoc(prefix, (DocEntry { project_name, item }), groups@[i].project_name@);
                    if i < last {
                        assert(groups@[i] == groups_pre[i]);
                        assert(items_of(prefix, groups@[i].project_name@) == groups@[i].items@);
                    }
                }
                assert forall|k2: int| #![trigger prefix1[k2].project_name]
                    0 <= k2 < prefix1.len() implies exists|i: int|
                    #![trigger groups@[i].project_name]
                    0 <= i < groups@.len() && groups@[i].project_name@
                        == prefix1[k2].project_name@ by {
                    if k2 < k {
                        let pn2 = prefix[k2].project_name;
                        assert(prefix1[k2] == prefix[k2]);
                        let i0 = choose|i: int|
                            0 <= i < groups_pre.len() && groups_pre[i].project_name@ == pn2@;
                        assert(groups@[i0].project_name@ == pn2@);
                    } else {
                        assert(groups@[last].project_name@ == prefix1[k2].project_name@);
                    }
                }
                assert forall|i: int| #![trigger groups@[i].project_name]
                    0 <= i < groups@.len() implies exists|k2: int|
                    #![trigger prefix1[k2].project_name]
                    0 <= k2 < prefix1.len() && prefix1[k2].project_name@
                        == groups@[i].project_name@ by {
                    if i < last {
                        let k0 = choose|k2: int|
                            0 <= k2 < prefix.len() && prefix[k2].project_name@
                                == groups_pre[i].project_name@;
                        assert(prefix1[k0] == prefix[k0]);
                        assert(prefix1[k0].project_name@ == groups@[i].project_name@);
                    } else {
                        assert(prefix1[k] == (DocEntry { project_name, item }));
                        assert(prefix1[k].project_name@ == groups@[i].project_name@);
                    }
                }
            }
        }
        proof {
            k = k + 1;
        }
    }
    proof {
        assert(docs0.subrange(0, docs0.len() as int) =~= docs0);
    }
    groups
}

} // verus!
