//! Picking the entries of a directory walk that bear a given file name.
//! The walk itself is done elsewhere; here each entry is a plain record.

use crate::text::same_text;
use vstd::prelude::*;

verus! {

/// One entry that a walk came by.
#[derive(Clone, Debug, PartialEq, Eq)]
pub struct WalkedEntry {
    /// The entry's path, starting with the root that was walked.
    pub path: String,
    /// The last component of the path; `None` where it is not valid Unicode.
    pub file_name: Option<String>,
    /// The directory that holds the entry; `None` where the path has no parent.
    pub parent: Option<String>,
}

/// What a walk yields for one position: an entry, or the fault that kept it
/// from reading one.
#[derive(Clone, Debug, PartialEq, Eq)]
pub enum WalkItem {
    Entry(WalkedEntry),
    /// Something could not be read. `depth` counts the directories between
    /// it and the root; the root itself has depth 0.
    Fault { depth: usize },
}

/// The root of a walk could not be read.
#[derive(Clone, Copy, Debug, PartialEq, Eq, Structural)]
pub struct AccessFault;

/// A `WalkedEntry` with its strings as sequences of characters.
pub struct EntryModel {
    pub path: Seq<char>,
    pub file_name: Option<Seq<char>>,
    pub parent: Option<Seq<char>>,
}

/// A `WalkItem` with its strings as sequences of characters.
pub enum ItemModel {
    Entry(EntryModel),
    Fault { depth: usize },
}

impl DeepView for WalkedEntry {
    type V = EntryModel;

    open spec fn deep_view(&self) -> EntryModel {
        EntryModel {
            path: self.path@,
            file_name: self.file_name.deep_view(),
            parent: self.parent.deep_view(),
        }
    }
}

impl DeepView for WalkItem {
    type V = ItemModel;

    open spec fn deep_view(&self) -> ItemModel {
        match self {
            WalkItem::Entry(entry) => ItemModel::Entry(entry.deep_view()),
            WalkItem::Fault { depth } => ItemModel::Fault { depth: *depth },
        }
    }
}

/// Whether the walk could not read its root: some fault lies at depth 0.
pub open spec fn root_unreadable(items: Seq<ItemModel>) -> bool {
    exists|i: int| 0 <= i < items.len() && #[trigger] items[i] == (ItemModel::Fault { depth: 0 })
}

/// Whether `item` is an entry whose file name is exactly `target`.
pub open spec fn bears_name(item: ItemModel, target: Seq<char>) -> bool {
    item matches ItemModel::Entry(entry) && entry.file_name == Some(target)
}

/// The entries among `items` whose file name is exactly `target`, in the
/// order of the walk. Faults below the root are passed over.
pub open spec fn entries_named(items: Seq<ItemModel>, target: Seq<char>) -> Seq<EntryModel>
    decreases items.len(),
{
    if items.len() == 0 {
        Seq::empty()
    } else {
        let before = entries_named(items.drop_last(), target);
        if bears_name(items.last(), target) {
            before.push(items.last()->Entry_0)
        } else {
            before
        }
    }
}

/// Every entry picked is one of the walk's, and bears the name asked for.
pub proof fn lemma_entries_named_bear_name(items: Seq<ItemModel>, target: Seq<char>, k: int)
    requires
        0 <= k < entries_named(items, target).len(),
    ensures
        entries_named(items, target)[k].file_name == Some(target),
        items.contains(ItemModel::Entry(entries_named(items, target)[k])),
    decreases items.len(),
{
    if items.len() > 0 {
        let before = entries_named(items.drop_last(), target);
        if k < before.len() {
            lemma_entries_named_bear_name(items.drop_last(), target, k);
            let found = ItemModel::Entry(before[k]);
            let earlier = items.drop_last();
            let at = choose|i: int| 0 <= i < earlier.len() && earlier[i] == found;
            assert(items[at] == found);
        } else {
            assert(items[items.len() - 1] == items.last());
        }
    }
}

/// Picks from what a walk yielded the entries whose file name is `target`.
/// A walk that could not read its root gives an `AccessFault`; any other
/// fault only costs the entries that it hid.
pub fn walk<'a>(items: &'a Vec<WalkItem>, target: &str) -> (found: Result<
    Vec<&'a WalkedEntry>,
    AccessFault,
>)
    ensures
        found is Err <==> root_unreadable(items.deep_view()),
        found matches Ok(entries) ==> entries.deep_view() == entries_named(
            items.deep_view(),
            target@,
        ),
{
    let mut entries: Vec<&'a WalkedEntry> = Vec::new();
    let mut i: usize = 0;
    while i < items.len()
        invariant
            i <= items.len(),
            !root_unreadable(items.deep_view().take(i as int)),
            entries.deep_view() == entries_named(items.deep_view().take(i as int), target@),
        decreases items.len() - i,
    {
        let ghost seen = items.deep_view().take(i as int);
        let ghost next = items.deep_view().take(i as int + 1);
        assert(next.drop_last() == seen);
        match &items[i] {
            WalkItem::Fault { depth } => {
                if *depth == 0 {
                    assert(items.deep_view()[i as int] == (ItemModel::Fault { depth: 0 }));
                    return Err(AccessFault);
                }
            },
            WalkItem::Entry(entry) => {
                let named = match &entry.file_name {
                    Some(name) => same_text(name.as_str(), target),
                    None => false,
                };
                if named {
                    entries.push(entry);
                }
            },
        }
        assert(!root_unreadable(next)) by {
            if root_unreadable(next) {
                let at = choose|k: int|
                    0 <= k < next.len() && #[trigger] next[k] == (ItemModel::Fault { depth: 0 });
                if at < i {
                    assert(seen[at] == next[at]);
                }
            }
        }
        i = i + 1;
    }
    assert(items.deep_view().take(i as int) == items.deep_view());
    Ok(entries)
}

} // verus!
