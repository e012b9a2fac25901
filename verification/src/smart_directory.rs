//! The list of recently viewed images: one item per path, with its view
//! count and times, bounded in length.
//!
//! Times are milliseconds since the Unix epoch, handed in by the caller.

use crate::path::{file_name, spec_file_name};
use vstd::prelude::*;
use vstd::string::StringExecFns;

verus! {

/// A recently viewed image.
#[derive(Debug)]
pub struct RecentItem {
    path: String,
    last_viewed: i64,
    view_count: u32,
    file_size: u64,
    last_modified: i64,
}

/// A recently viewed image as a mathematical value.
pub struct RecentItemView {
    pub path: Seq<char>,
    pub last_viewed: int,
    pub view_count: int,
    pub file_size: int,
    pub last_modified: int,
}

impl View for RecentItem {
    type V = RecentItemView;

    closed spec fn view(&self) -> RecentItemView {
        RecentItemView {
            path: self.path@,
            last_viewed: self.last_viewed as int,
            view_count: self.view_count as int,
            file_size: self.file_size as int,
            last_modified: self.last_modified as int,
        }
    }
}

/// The item of a first view of `path` at `now`.
pub open spec fn first_view(path: Seq<char>, file_size: int, now: int) -> RecentItemView {
    RecentItemView { path, last_viewed: now, view_count: 1, file_size, last_modified: now }
}

/// `item` after one more view at `now`; the count stops at the largest
/// value it can hold.
pub open spec fn viewed_again(item: RecentItemView, now: int) -> RecentItemView {
    RecentItemView {
        path: item.path,
        last_viewed: now,
        view_count: if item.view_count < u32::MAX {
            item.view_count + 1
        } else {
            item.view_count
        },
        file_size: item.file_size,
        last_modified: now,
    }
}

/// The name an item is shown by: the final component of its path, or
/// `Unknown` where the path has none.
pub open spec fn spec_display_name(path: Seq<char>) -> Seq<char> {
    if spec_file_name(path).len() == 0 {
        "Unknown"@
    } else {
        spec_file_name(path)
    }
}

impl Clone for RecentItem {
    /// A copy of the item.
    fn clone(&self) -> (copy: RecentItem)
        ensures
            copy@ == self@,
    {
        RecentItem {
            path: self.path.clone(),
            last_viewed: self.last_viewed,
            view_count: self.view_count,
            file_size: self.file_size,
            last_modified: self.last_modified,
        }
    }
}

impl RecentItem {
    /// The item of a first view of `path`, a file of `file_size` bytes, at
    /// the time `now`.
    pub fn new(path: String, file_size: u64, now: i64) -> (item: RecentItem)
        ensures
            item@ == first_view(path@, file_size as int, now as int),
    {
        RecentItem { path, last_viewed: now, view_count: 1, file_size, last_modified: now }
    }

    /// An item with every field given, as it is read back from storage.
    pub fn from_parts(
        path: String,
        last_viewed: i64,
        view_count: u32,
        file_size: u64,
        last_modified: i64,
    ) -> (item: RecentItem)
        ensures
            item@ == (RecentItemView {
                path: path@,
                last_viewed: last_viewed as int,
                view_count: view_count as int,
                file_size: file_size as int,
                last_modified: last_modified as int,
            }),
    {
        RecentItem { path, last_viewed, view_count, file_size, last_modified }
    }

    /// The name the item is shown by.
    pub fn name(&self) -> (n: String)
        ensures
            n@ == spec_display_name(self@.path),
    {
        let name = file_name(self.path.as_str());
        if name.as_str().unicode_len() == 0 {
            String::from_str("Unknown")
        } else {
            name
        }
    }

    /// The path of the image.
    pub fn path(&self) -> (p: &String)
        ensures
            p@ == self@.path,
    {
        &self.path
    }

    /// When the image was last viewed.
    pub fn last_viewed(&self) -> (t: i64)
        ensures
            t == self@.last_viewed,
    {
        self.last_viewed
    }

    /// How often the image was viewed.
    pub fn view_count(&self) -> (n: u32)
        ensures
            n == self@.view_count,
    {
        self.view_count
    }

    /// Size of the file at its first view, in bytes.
    pub fn file_size(&self) -> (n: u64)
        ensures
            n == self@.file_size,
    {
        self.file_size
    }

    /// When the item was last changed.
    pub fn last_modified(&self) -> (t: i64)
        ensures
            t == self@.last_modified,
    {
        self.last_modified
    }
}

/// The recently viewed images, oldest first.
#[derive(Debug)]
pub struct RecentManager {
    recent_items: Vec<RecentItem>,
    max_items: usize,
}

/// The recently viewed images as a mathematical value.
pub struct RecentManagerView {
    pub items: Seq<RecentItemView>,
    pub max_items: int,
}

/// The views of a list of items.
pub open spec fn item_views(items: Seq<RecentItem>) -> Seq<RecentItemView> {
    Seq::new(items.len(), |i: int| items[i]@)
}

/// `i` is the first position in `items` of an item with `path`.
pub open spec fn is_first_with_path(items: Seq<RecentItemView>, path: Seq<char>, i: int) -> bool {
    &&& 0 <= i < items.len()
    &&& items[i].path == path
    &&& forall|j: int| 0 <= j < i ==> (#[trigger] items[j]).path != path
}

/// No item of `items` has `path`.
pub open spec fn no_item_with_path(items: Seq<RecentItemView>, path: Seq<char>) -> bool {
    forall|j: int| 0 <= j < items.len() ==> (#[trigger] items[j]).path != path
}

/// `items` with one more item at its end, the oldest dropped where the
/// list then exceeds `max_items`.
pub open spec fn appended(items: Seq<RecentItemView>, max_items: int, item: RecentItemView) -> Seq<
    RecentItemView,
> {
    if items.len() + 1 > max_items {
        items.push(item).subrange(1, items.len() as int + 1)
    } else {
        items.push(item)
    }
}

/// `post` is `pre` after a view of `path`, a file of `file_size` bytes, at
/// the time `now`: the first item with the path counts one more view and
/// takes `now` as the time of its last view and change; without such an
/// item, the item of a first view is added at the end and the oldest item
/// dropped where the list then holds more than its bound.
pub open spec fn recorded_at(
    pre: RecentManagerView,
    path: Seq<char>,
    file_size: int,
    now: int,
    post: RecentManagerView,
) -> bool {
    &&& post.max_items == pre.max_items
    &&& forall|i: int|
        is_first_with_path(pre.items, path, i) ==> post.items == pre.items.update(
            i,
            viewed_again(pre.items[i], now),
        )
    &&& no_item_with_path(pre.items, path) ==> post.items == appended(
        pre.items,
        pre.max_items,
        first_view(path, file_size, now),
    )
}

impl View for RecentManager {
    type V = RecentManagerView;

    closed spec fn view(&self) -> RecentManagerView {
        RecentManagerView {
            items: item_views(self.recent_items@),
            max_items: self.max_items as int,
        }
    }
}

impl Clone for RecentManager {
    /// A copy of the list, with a copy of each item.
    fn clone(&self) -> (copy: RecentManager)
        ensures
            copy@ == self@,
    {
        let mut items: Vec<RecentItem> = Vec::new();
        let mut i: usize = 0;
        while i < self.recent_items.len()
            invariant
                i <= self.recent_items@.len(),
                items@.len() == i,
                forall|j: int| 0 <= j < i ==> (#[trigger] items@[j])@ == self.recent_items@[j]@,
            decreases self.recent_items@.len() - i,
        {
            items.push(self.recent_items[i].clone());
            i += 1;
        }
        proof {
            assert(item_views(items@) =~= item_views(self.recent_items@));
        }
        RecentManager { recent_items: items, max_items: self.max_items }
    }
}

impl RecentManager {
    /// An empty list that keeps at most `max_items` items.
    pub fn new(max_items: usize) -> (m: RecentManager)
        ensures
            m@.items == Seq::<RecentItemView>::empty(),
            m@.max_items == max_items,
    {
        let m = RecentManager { recent_items: Vec::new(), max_items };
        proof {
            assert(m@.items =~= Seq::<RecentItemView>::empty());
        }
        m
    }

    /// A list with its items and bound given, as it is read back from
    /// storage.
    pub fn from_parts(recent_items: Vec<RecentItem>, max_items: usize) -> (m: RecentManager)
        ensures
            m@.items == item_views(recent_items@),
            m@.max_items == max_items,
    {
        RecentManager { recent_items, max_items }
    }

    /// The position of the first item with `path`, if there is one.
    fn position(&self, path: &String) -> (r: Option<usize>)
        ensures
            match r {
                Some(i) => is_first_with_path(self@.items, path@, i as int),
                None => no_item_with_path(self@.items, path@),
            },
    {
        let mut i: usize = 0;
        while i < self.recent_items.len()
            invariant
                i <= self.recent_items@.len(),
                forall|j: int| 0 <= j < i ==> (#[trigger] self@.items[j]).path != path@,
            decreases self.recent_items@.len() - i,
        {
            if self.recent_items[i].path == *path {
                return Some(i);
            }
            i += 1;
        }
        None
    }

    /// Records a view of `path`, a file of `file_size` bytes, at the time
    /// `now`.
    ///
    /// The first item with this path, if there is one, counts one more view
    /// and takes `now` as the time of its last view and change.  Otherwise
    /// the item of a first view is added at the end, and the oldest item is
    /// dropped where the list then holds more than `max_items`.
    pub fn add_item(&mut self, path: String, file_size: u64, now: i64)
        ensures
            recorded_at(old(self)@, path@, file_size as int, now as int, final(self)@),
    {
        let ghost before = self@.items;
        match self.position(&path) {
            Some(index) => {
                let item = &self.recent_items[index];
                let count: u32 = if item.view_count < u32::MAX {
                    item.view_count + 1
                } else {
                    item.view_count
                };
                let bumped = RecentItem {
                    path,
                    last_viewed: now,
                    view_count: count,
                    file_size: item.file_size,
                    last_modified: now,
                };
                self.recent_items.set(index, bumped);
                proof {
                    assert(self@.items =~= before.update(
                        index as int,
                        viewed_again(before[index as int], now as int),
                    ));
                    assert forall|i: int| is_first_with_path(before, path@, i) implies i
                        == index by {
                        if i < index {
                            assert(before[i].path != path@);
                        } else if index < i {
                            assert(before[index as int].path == path@);
                        }
                    }
                }
            },
            None => {
                self.recent_items.push(RecentItem::new(path, file_size, now));
                let ghost pushed = self@.items;
                proof {
                    assert(pushed =~= before.push(first_view(path@, file_size as int, now as int)));
                }
                if self.recent_items.len() > self.max_items {
                    self.recent_items.remove(0);
                    proof {
                        assert(self@.items =~= pushed.subrange(1, pushed.len() as int));
                    }
                }
            },
        }
    }

    /// The items, oldest first.
    pub fn get_recent_items(&self) -> (items: &[RecentItem])
        ensures
            item_views(items@) == self@.items,
    {
        self.recent_items.as_slice()
    }

    /// The most items the list keeps when one is added.
    pub fn max_items(&self) -> (n: usize)
        ensures
            n == self@.max_items,
    {
        self.max_items
    }
}

} // verus!
