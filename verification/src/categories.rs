//! The category column: one selection list of channel lists.

use vstd::prelude::*;

use crate::channels::{channels_updated_at, Channels};
use crate::message::ChannelRef;
use crate::messages::Messages;
use crate::selection::{shifted_on_insert, shifted_on_remove};
use crate::servers::Unread;

verus! {

/// A list of categories under one workspace, with focus and selection.
pub struct Categories {
    pub labels: Vec<String>,
    pub unread: Vec<Unread>,
    pub contents: Vec<Channels>,
    pub current: usize,
    pub selected: usize,
    /// The workspace this list belongs to, when it belongs to one.
    pub s_id: Option<u64>,
    pub flag: bool,
}

/// `new` holds `old` with position `i` of `contents` swapped for `v`.
pub open spec fn categories_updated_at(old: Categories, new: Categories, i: int, v: Channels) -> bool {
    &&& new.labels == old.labels
    &&& new.unread == old.unread
    &&& new.contents@ == old.contents@.update(i, v)
    &&& new.current == old.current
    &&& new.selected == old.selected
    &&& new.s_id == old.s_id
    &&& new.flag == old.flag
}

impl Categories {
    /// The three columns agree in length, focus and selection are valid,
    /// and every channel list below is well formed.
    pub open spec fn wf(&self) -> bool {
        &&& self.labels@.len() == self.unread@.len()
        &&& self.labels@.len() == self.contents@.len()
        &&& self.labels@.len() > 0 ==> self.current < self.labels@.len() && self.selected
            < self.labels@.len()
        &&& self.labels@.len() == 0 ==> self.current == 0 && self.selected == 0
        &&& forall|i: int| 0 <= i < self.contents@.len() ==> (#[trigger] self.contents@[i]).wf()
    }

    /// Starts with one catch-all category holding an empty channel list.
    pub fn new(catch_name: &str, server: Option<u64>) -> (r: Categories)
        ensures
            r.wf(),
            r.labels@.len() == 1,
            r.labels@[0]@ == catch_name@,
            r.unread@ == seq![Unread::Read],
            r.contents@.len() == 1,
            r.contents@[0].labels@.len() == 1,
            r.contents@[0].id is None,
            r.current == 0,
            r.selected == 0,
            r.s_id == server,
            r.flag,
    {
        let mut labels: Vec<String> = Vec::new();
        labels.push(catch_name.to_owned());
        let mut unread: Vec<Unread> = Vec::new();
        unread.push(Unread::Read);
        let mut contents: Vec<Channels> = Vec::new();
        contents.push(Channels::new(None));
        Categories { labels, unread, contents, current: 0, selected: 0, s_id: server, flag: true }
    }

    pub fn flag(&mut self)
        ensures
            *final(self) == (Categories { flag: true, ..*old(self) }),
    {
        self.flag = true;
    }

    /// Moves the focus one entry up, stopping at the top.
    pub fn up(&mut self) -> (r: usize)
        ensures
            final(self).current == if old(self).current > 0 {
                old(self).current - 1
            } else {
                0int
            },
            r == final(self).current,
            final(self).labels == old(self).labels,
            final(self).unread == old(self).unread,
            final(self).contents == old(self).contents,
            final(self).selected == old(self).selected,
            final(self).s_id == old(self).s_id,
            old(self).wf() ==> final(self).wf(),
    {
        if self.current > 0 {
            self.current = self.current - 1;
            self.flag = true;
        }
        self.current
    }

    /// Moves the focus one entry down, stopping at the bottom.
    pub fn down(&mut self) -> (r: usize)
        requires
            old(self).labels@.len() > 0,
        ensures
            final(self).current == if old(self).current < old(self).labels@.len() - 1 {
                old(self).current + 1
            } else {
                old(self).current as int
            },
            r == final(self).current,
            final(self).labels == old(self).labels,
            final(self).unread == old(self).unread,
            final(self).contents == old(self).contents,
            final(self).selected == old(self).selected,
            final(self).s_id == old(self).s_id,
            old(self).wf() ==> final(self).wf(),
    {
        if self.current < self.labels.len() - 1 {
            self.current = self.current + 1;
            self.flag = true;
        }
        self.current
    }

    /// Commits the focus.
    pub fn select(&mut self)
        ensures
            *final(self) == (Categories {
                selected: old(self).current,
                flag: true,
                ..*old(self)
            }),
    {
        self.selected = self.current;
        self.flag = true;
    }

    /// Sets the unread marker of one entry.
    pub fn mark(&mut self, pos: usize, state: Unread)
        requires
            pos < old(self).unread@.len(),
        ensures
            final(self).unread@ == old(self).unread@.update(pos as int, state),
            final(self).labels == old(self).labels,
            final(self).contents == old(self).contents,
            final(self).current == old(self).current,
            final(self).selected == old(self).selected,
            final(self).s_id == old(self).s_id,
            final(self).flag,
            old(self).wf() ==> final(self).wf(),
    {
        self.unread.set(pos, state);
        self.flag = true;
    }

    /// Adds a category, at a position or at the end.  Focus and selection
    /// shift when the insertion happens at or before them.
    pub fn add(&mut self, name: String, pos: Option<usize>, ch: Option<ChannelRef>)
        requires
            old(self).wf(),
            old(self).labels@.len() < usize::MAX,
            pos matches Some(p) ==> p <= old(self).labels@.len(),
        ensures
            final(self).wf(),
            final(self).flag,
            final(self).s_id == old(self).s_id,
            ({
                let p = match pos {
                    Some(q) => q as int,
                    None => old(self).labels@.len() as int,
                };
                &&& final(self).labels@ == old(self).labels@.insert(p, name)
                &&& final(self).unread@ == old(self).unread@.insert(p, Unread::Read)
                &&& final(self).contents@.len() == old(self).contents@.len() + 1
                &&& final(self).contents@[p].id == ch
                &&& final(self).contents@[p].labels@.len() == 1
                &&& forall|k: int|
                    0 <= k < p ==> final(self).contents@[k] == #[trigger] old(self).contents@[k]
                &&& forall|k: int|
                    p <= k < old(self).contents@.len() ==> final(self).contents@[k + 1]
                        == #[trigger] old(self).contents@[k]
                &&& final(self).current == if old(self).labels@.len() > 0 {
                    shifted_on_insert(old(self).current as int, p)
                } else {
                    0int
                }
                &&& final(self).selected == if old(self).labels@.len() > 0 {
                    shifted_on_insert(old(self).selected as int, p)
                } else {
                    0int
                }
            }),
    {
        let p: usize = match pos {
            Some(q) => q,
            None => self.labels.len(),
        };
        if self.labels.len() > 0 {
            if p <= self.current {
                self.current = self.current + 1;
            }
            if p <= self.selected {
                self.selected = self.selected + 1;
            }
        }
        self.unread.insert(p, Unread::Read);
        self.labels.insert(p, name);
        self.contents.insert(p, Channels::new(ch));
        self.flag = true;
    }

    /// Removes a category; focus and selection shift up when the removal
    /// happens at or before them, clamped at the top.
    pub fn remove(&mut self, pos: usize)
        requires
            old(self).wf(),
            pos < old(self).labels@.len(),
        ensures
            final(self).wf(),
            final(self).flag,
            final(self).s_id == old(self).s_id,
            final(self).labels@ == old(self).labels@.remove(pos as int),
            final(self).unread@ == old(self).unread@.remove(pos as int),
            final(self).contents@ == old(self).contents@.remove(pos as int),
            final(self).current == if old(self).labels@.len() == 1 {
                0int
            } else {
                shifted_on_remove(old(self).current as int, pos as int)
            },
            final(self).selected == if old(self).labels@.len() == 1 {
                0int
            } else {
                shifted_on_remove(old(self).selected as int, pos as int)
            },
    {
        if pos <= self.current && self.current > 0 {
            self.current = self.current - 1;
        }
        if pos <= self.selected && self.selected > 0 {
            self.selected = self.selected - 1;
        }
        self.unread.remove(pos);
        self.labels.remove(pos);
        self.contents.remove(pos);
        self.flag = true;
    }

    /// The committed category's channel list.
    pub fn get(&mut self) -> (r: &mut Channels)
        requires
            old(self).labels@.len() > 0,
            old(self).wf(),
        ensures
            *r == old(self).contents@[old(self).selected as int],
            categories_updated_at(*old(self), *final(self), old(self).selected as int, *final(r)),
            (*final(r)).wf() ==> final(self).wf(),
    {
        &mut self.contents[self.selected]
    }

    /// The channel list at a given position.
    pub fn grab(&mut self, spec_pos: usize) -> (r: &mut Channels)
        requires
            spec_pos < old(self).contents@.len(),
            old(self).wf(),
        ensures
            *r == old(self).contents@[spec_pos as int],
            categories_updated_at(*old(self), *final(self), spec_pos as int, *final(r)),
            (*final(r)).wf() ==> final(self).wf(),
    {
        &mut self.contents[spec_pos]
    }

    /// The newest category's channel list.
    pub fn last(&mut self) -> (r: &mut Channels)
        requires
            old(self).labels@.len() > 0,
            old(self).wf(),
        ensures
            *r == old(self).contents@.last(),
            categories_updated_at(
                *old(self),
                *final(self),
                old(self).contents@.len() - 1,
                *final(r),
            ),
            (*final(r)).wf() ==> final(self).wf(),
    {
        let n = self.contents.len();
        &mut self.contents[n - 1]
    }

    /// Commits a position and returns its channel list.
    pub fn switch(&mut self, spec_pos: usize) -> (r: &mut Channels)
        requires
            spec_pos < old(self).contents@.len(),
            old(self).wf(),
        ensures
            *r == old(self).contents@[spec_pos as int],
            categories_updated_at(
                (Categories { selected: spec_pos, ..*old(self) }),
                *final(self),
                spec_pos as int,
                *final(r),
            ),
            (*final(r)).wf() ==> final(self).wf(),
    {
        self.selected = spec_pos;
        &mut self.contents[self.selected]
    }
}

} // verus!
