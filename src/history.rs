use vstd::prelude::*;

verus! {

/// What a history entry was captured from.
#[derive(Clone, Copy, Debug, PartialEq, Eq, Structural)]
pub enum HistoryType {
    Image,
    Audio,
}

/// One saved result, with the path of its captured media.
#[derive(Clone, Debug)]
pub struct HistoryItem {
    pub id: i64,
    pub timestamp: String,
    pub item_type: HistoryType,
    pub text: String,
    pub media_path: String,
}

/// Which page the settings window shows.
#[derive(Clone, Copy, Debug, PartialEq, Eq, Structural)]
pub enum ViewMode {
    Global,
    Preset(usize),
}

/// The list kept to at most `max` entries: the newest ones, which stand first.
pub open spec fn pruned(s: Seq<HistoryItem>, max: int) -> Seq<HistoryItem> {
    if s.len() > max { s.subrange(0, max) } else { s }
}

/// Number of entries that pruning `s` to `max` drops.
pub open spec fn dropped_count(s: Seq<HistoryItem>, max: int) -> int {
    if s.len() > max { s.len() - max } else { 0 }
}

/// Saved results, newest first, kept to at most `max_items` entries. Each change
/// reports the media files of the entries it dropped, for the caller to delete.
pub struct HistoryList {
    pub items: Vec<HistoryItem>,
    pub max_items: usize,
}

impl HistoryList {
    pub fn new(max_items: usize) -> (r: HistoryList)
        ensures
            r.items@.len() == 0,
            r.max_items == max_items,
    {
        HistoryList { items: Vec::new(), max_items }
    }

    /// Drops the oldest entries beyond `max_items`; returns their media paths, oldest first.
    fn prune_to_limit(&mut self) -> (removed: Vec<String>)
        ensures
            final(self).max_items == old(self).max_items,
            final(self).items@ == pruned(old(self).items@, old(self).max_items as int),
            removed@.len() == dropped_count(old(self).items@, old(self).max_items as int),
            forall|i: int| 0 <= i < removed@.len() ==> (#[trigger] removed@[i])@
                == old(self).items@[old(self).items@.len() - 1 - i].media_path@,
    {
        let ghost s = self.items@;
        let mut removed: Vec<String> = Vec::new();
        while self.items.len() > self.max_items
            invariant
                self.max_items == old(self).max_items,
                s == old(self).items@,
                self.items@.len() <= s.len(),
                self.items@ == s.subrange(0, self.items@.len() as int),
                self.items@.len() >= self.max_items || s.len() <= self.max_items,
                s.len() <= self.max_items ==> self.items@.len() == s.len(),
                removed@.len() == s.len() - self.items@.len(),
                forall|i: int| 0 <= i < removed@.len() ==> (#[trigger] removed@[i])@ == s[s.len() - 1 - i].media_path@,
            decreases self.items@.len(),
        {
            let ghost before = self.items@;
            match self.items.pop() {
                Some(item) => {
                    proof {
                        assert(item == s[s.len() - 1 - removed@.len()]);
                        assert(self.items@ =~= s.subrange(0, self.items@.len() as int));
                    }
                    removed.push(item.media_path);
                },
                None => {},
            }
        }
        proof {
            if s.len() <= self.max_items {
                assert(self.items@ =~= s);
            } else {
                assert(self.items@.len() == self.max_items);
            }
        }
        removed
    }

    /// Puts a new entry first, then drops the oldest entries beyond the limit.
    pub fn add_item(&mut self, item: HistoryItem) -> (removed: Vec<String>)
        ensures
            final(self).max_items == old(self).max_items,
            final(self).items@ == pruned(seq![item] + old(self).items@, old(self).max_items as int),
            removed@.len() == dropped_count(seq![item] + old(self).items@, old(self).max_items as int),
            forall|i: int| 0 <= i < removed@.len() ==> (#[trigger] removed@[i])@
                == (seq![item] + old(self).items@)[old(self).items@.len() - i].media_path@,
    {
        self.items.insert(0, item);
        proof {
            assert(self.items@ =~= seq![item] + old(self).items@);
        }
        self.prune_to_limit()
    }

    /// Removes the first entry with id `id`; returns its media path.
    pub fn delete(&mut self, id: i64) -> (r: Option<String>)
        ensures
            final(self).max_items == old(self).max_items,
            r is None <==> forall|i: int| 0 <= i < old(self).items@.len() ==> (#[trigger] old(self).items@[i]).id != id,
            r is None ==> final(self).items@ == old(self).items@,
            r matches Some(path) ==> exists|pos: int| 0 <= pos < old(self).items@.len()
                && (#[trigger] old(self).items@[pos]).id == id
                && (forall|i: int| 0 <= i < pos ==> (#[trigger] old(self).items@[i]).id != id)
                && final(self).items@ == old(self).items@.remove(pos)
                && path@ == old(self).items@[pos].media_path@,
    {
        let mut i: usize = 0;
        while i < self.items.len()
            invariant
                self.items@ == old(self).items@,
                self.max_items == old(self).max_items,
                0 <= i <= self.items@.len(),
                forall|j: int| 0 <= j < i ==> (#[trigger] self.items@[j]).id != id,
            decreases self.items@.len() - i,
        {
            if self.items[i].id == id {
                let item = self.items.remove(i);
                return Some(item.media_path);
            }
            i = i + 1;
        }
        None
    }

    /// Empties the list.
    pub fn clear_all(&mut self)
        ensures
            final(self).items@.len() == 0,
            final(self).max_items == old(self).max_items,
    {
        self.items.clear();
    }

    /// Sets a new limit and drops the oldest entries beyond it; returns their media paths.
    pub fn request_prune(&mut self, new_limit: usize) -> (removed: Vec<String>)
        ensures
            final(self).max_items == new_limit,
            final(self).items@ == pruned(old(self).items@, new_limit as int),
            removed@.len() == dropped_count(old(self).items@, new_limit as int),
            forall|i: int| 0 <= i < removed@.len() ==> (#[trigger] removed@[i])@
                == old(self).items@[old(self).items@.len() - 1 - i].media_path@,
    {
        self.max_items = new_limit;
        self.prune_to_limit()
    }
}

} // verus!
