//! The workspace column: the root of the selection tree, and the search
//! that routes an inbound event to the channel it belongs to.

use vstd::prelude::*;

use crate::categories::{categories_updated_at, Categories};
use crate::text::{dec_string, spec_dec};
use crate::channels::{channels_updated_at, Channels};
use crate::colors::SimpleColor;
use crate::messages::Messages;
use crate::selection::{shifted_on_insert, shifted_on_remove};

verus! {

/// The unread marker of one entry.
#[derive(Clone, Copy, PartialEq, Eq, Structural)]
pub enum Unread {
    Read,
    Unread,
    Mentions(u64),
    Gone,
}

/// The four-cell marker shown in front of an entry: nothing for read,
/// a zero for unread, the mention count (capped at a plus sign) for
/// mentions, and an alarm for a gone entry.
pub fn unread_marker(u: &Unread) -> (r: String)
    ensures
        r@ == match *u {
            Unread::Read => seq![' ', ' ', ' ', ' '],
            Unread::Unread => seq!['(', '0', ')', ' '],
            Unread::Mentions(n) => if n < 10 {
                seq!['('] + spec_dec(n as int) + seq![')', ' ']
            } else {
                seq!['(', '+', ')', ' ']
            },
            Unread::Gone => seq!['!', '!', '!', ' '],
        },
{
    proof {
        reveal_strlit("    ");
        reveal_strlit("(0) ");
        reveal_strlit("(+) ");
        reveal_strlit("!!! ");
        reveal_strlit("(");
        reveal_strlit(") ");
    }
    match u {
        Unread::Read => "    ".to_owned(),
        Unread::Unread => "(0) ".to_owned(),
        Unread::Mentions(n) => {
            if *n < 10 {
                let mut s = String::new();
                s.append("(");
                s.append(dec_string(*n).as_str());
                s.append(") ");
                proof {
                    assert(s@ =~= seq!['('] + spec_dec(*n as int) + seq![')', ' ']);
                }
                s
            } else {
                "(+) ".to_owned()
            }
        },
        Unread::Gone => "!!! ".to_owned(),
    }
}

/// A workspace label: a name under a rotating color.
pub struct ServerLabel {
    pub name: String,
    pub color: SimpleColor,
}

impl ServerLabel {
    pub fn new(name: String) -> (r: ServerLabel)
        ensures
            r.name == name,
            r.color.wf(),
            r.color.spec_color() == 0,
            !r.color.spec_bold(),
    {
        ServerLabel { name, color: SimpleColor::new() }
    }

    /// The label as a styled string: its color code, then its name.
    pub fn to_string(&self) -> (r: String)
        requires
            self.color.wf(),
        ensures
            r@ == crate::ansi::spec_color_code(self.color.spec_color()) + (if self.color.spec_bold() {
                crate::ansi::HIGH_INTENSITY@
            } else {
                Seq::<char>::empty()
            }) + self.name@,
    {
        let s = self.color.to_ansi_value();
        s.concat(self.name.as_str())
    }
}

/// Whether a conversation slot belongs to the channel with this
/// identifier.
pub open spec fn channel_matches(m: Messages, channel: u64) -> bool {
    match m.spec_id() {
        Some(c) => c.id == channel,
        None => false,
    }
}

/// `new_s` is `old_s` with exactly the conversation slot at
/// `(s, c, h)` swapped for `v`: every label, every marker and every
/// position of the tree is untouched.
pub open spec fn slot_replaced(
    old_s: Servers,
    new_s: Servers,
    s: int,
    c: int,
    h: int,
    v: Messages,
) -> bool {
    &&& 0 <= s < old_s.contents@.len()
    &&& 0 <= c < old_s.contents@[s].contents@.len()
    &&& 0 <= h < old_s.contents@[s].contents@[c].contents@.len()
    &&& servers_updated_at(old_s, new_s, s, new_s.contents@[s])
    &&& categories_updated_at(
        old_s.contents@[s],
        new_s.contents@[s],
        c,
        new_s.contents@[s].contents@[c],
    )
    &&& crate::channels::channels_updated_at(
        old_s.contents@[s].contents@[c],
        new_s.contents@[s].contents@[c],
        h,
        v,
    )
}

/// The root list of workspaces, with focus and selection.
pub struct Servers {
    pub labels: Vec<ServerLabel>,
    pub unread: Vec<Unread>,
    pub contents: Vec<Categories>,
    pub current: usize,
    pub selected: usize,
    pub flag: bool,
}

/// `new` holds `old` with position `i` of `contents` swapped for `v`.
pub open spec fn servers_updated_at(old: Servers, new: Servers, i: int, v: Categories) -> bool {
    &&& new.labels == old.labels
    &&& new.unread == old.unread
    &&& new.contents@ == old.contents@.update(i, v)
    &&& new.current == old.current
    &&& new.selected == old.selected
    &&& new.flag == old.flag
}

impl Servers {
    /// The three columns agree in length, focus and selection are valid,
    /// every label's color is in range, and the tree below is well
    /// formed.
    pub open spec fn wf(&self) -> bool {
        &&& self.labels@.len() == self.unread@.len()
        &&& self.labels@.len() == self.contents@.len()
        &&& self.labels@.len() > 0 ==> self.current < self.labels@.len() && self.selected
            < self.labels@.len()
        &&& self.labels@.len() == 0 ==> self.current == 0 && self.selected == 0
        &&& forall|i: int| 0 <= i < self.labels@.len() ==> (#[trigger] self.labels@[i]).color.wf()
        &&& forall|i: int| 0 <= i < self.contents@.len() ==> (#[trigger] self.contents@[i]).wf()
    }

    /// Starts with the workspace-less bucket holding the direct
    /// conversations.
    pub fn new() -> (r: Servers)
        ensures
            r.wf(),
            r.labels@.len() == 1,
            r.labels@[0].name@ == "serverless channels"@,
            r.unread@ == seq![Unread::Read],
            r.contents@.len() == 1,
            r.contents@[0].s_id is None,
            r.current == 0,
            r.selected == 0,
            r.flag,
    {
        let mut labels: Vec<ServerLabel> = Vec::new();
        labels.push(ServerLabel::new("serverless channels".to_owned()));
        let mut unread: Vec<Unread> = Vec::new();
        unread.push(Unread::Read);
        let mut contents: Vec<Categories> = Vec::new();
        contents.push(Categories::new("DMs", None));
        Servers { labels, unread, contents, current: 0, selected: 0, flag: true }
    }

    pub fn flag(&mut self)
        ensures
            *final(self) == (Servers { flag: true, ..*old(self) }),
    {
        self.flag = true;
    }

    /// Moves the focus one entry up, stopping at the top.
    pub fn up(&mut self)
        ensures
            final(self).current == if old(self).current > 0 {
                old(self).current - 1
            } else {
                0int
            },
            final(self).labels == old(self).labels,
            final(self).unread == old(self).unread,
            final(self).contents == old(self).contents,
            final(self).selected == old(self).selected,
            old(self).wf() ==> final(self).wf(),
    {
        if self.current > 0 {
            self.current = self.current - 1;
            self.flag = true;
        }
    }

    /// Moves the focus one entry down, stopping at the bottom.
    pub fn down(&mut self)
        requires
            old(self).labels@.len() > 0,
        ensures
            final(self).current == if old(self).current < old(self).labels@.len() - 1 {
                old(self).current + 1
            } else {
                old(self).current as int
            },
            final(self).labels == old(self).labels,
            final(self).unread == old(self).unread,
            final(self).contents == old(self).contents,
            final(self).selected == old(self).selected,
            old(self).wf() ==> final(self).wf(),
    {
        if self.current < self.labels.len() - 1 {
            self.current = self.current + 1;
            self.flag = true;
        }
    }

    /// Commits the focus.
    pub fn select(&mut self)
        ensures
            *final(self) == (Servers { selected: old(self).current, flag: true, ..*old(self) }),
    {
        self.selected = self.current;
        self.flag = true;
    }

    /// Sets the unread marker of one entry.
    pub fn mark(&mut self, pos: usize, state: Unread)
        requires
            pos < old(self).unread@.len(),
        ensures
            final(self).unread@ == old(self).unread@.update(pos as int, state),
            final(self).labels == old(self).labels,
            final(self).contents == old(self).contents,
            final(self).current == old(self).current,
            final(self).selected == old(self).selected,
            final(self).flag,
            old(self).wf() ==> final(self).wf(),
    {
        self.unread.set(pos, state);
        self.flag = true;
    }

    /// Steps the focused workspace's label color.
    pub fn color(&mut self)
        requires
            old(self).wf(),
            old(self).labels@.len() > 0,
        ensures
            final(self).wf(),
            final(self).flag,
            final(self).labels@.len() == old(self).labels@.len(),
            ({
                let cur = old(self).current as int;
                let oldc = old(self).labels@[cur].color;
                let newl = final(self).labels@[cur];
                &&& newl.name == old(self).labels@[cur].name
                &&& newl.color.spec_color() == if oldc.spec_color() + 1 >= crate::ansi::COLOR_COUNT {
                    0int
                } else {
                    oldc.spec_color() + 1
                }
                &&& newl.color.spec_bold() == oldc.spec_bold()
                &&& forall|k: int|
                    0 <= k < old(self).labels@.len() && k != cur ==> final(self).labels@[k]
                        == #[trigger] old(self).labels@[k]
            }),
            final(self).unread == old(self).unread,
            final(self).contents == old(self).contents,
            final(self).current == old(self).current,
            final(self).selected == old(self).selected,
    {
        self.flag = true;
        let lab = &mut self.labels[self.current];
        lab.color.switch_color();
    }

    /// Adds a workspace, at a position or at the end.  Focus and
    /// selection shift when the insertion happens at or before them.
    pub fn add(&mut self, name: String, pos: Option<usize>, id: u64)
        requires
            old(self).wf(),
            old(self).labels@.len() < usize::MAX,
            pos matches Some(p) ==> p <= old(self).labels@.len(),
        ensures
            final(self).wf(),
            final(self).flag,
            ({
                let p = match pos {
                    Some(q) => q as int,
                    None => old(self).labels@.len() as int,
                };
                &&& final(self).labels@.len() == old(self).labels@.len() + 1
                &&& final(self).labels@[p].name == name
                &&& final(self).unread@ == old(self).unread@.insert(p, Unread::Read)
                &&& final(self).contents@.len() == old(self).contents@.len() + 1
                &&& final(self).contents@[p].s_id == Some(id)
                &&& forall|k: int|
                    0 <= k < p ==> final(self).contents@[k] == #[trigger] old(self).contents@[k]
                &&& forall|k: int|
                    p <= k < old(self).contents@.len() ==> final(self).contents@[k + 1]
                        == #[trigger] old(self).contents@[k]
                &&& final(self).current == if old(self).labels@.len() > 0 {
                    shifted_on_insert(old(self).current as int, p)
                } else {
                    0int
                }
                &&& final(self).selected == if old(self).labels@.len() > 0 {
                    shifted_on_insert(old(self).selected as int, p)
                } else {
                    0int
                }
            }),
    {
        let p: usize = match pos {
            Some(q) => q,
            None => self.labels.len(),
        };
        if self.labels.len() > 0 {
            if p <= self.current {
                self.current = self.current + 1;
            }
            if p <= self.selected {
                self.selected = self.selected + 1;
            }
        }
        self.unread.insert(p, Unread::Read);
        self.labels.insert(p, ServerLabel::new(name));
        self.contents.insert(p, Categories::new("uncategorized channels", Some(id)));
        self.flag = true;
    }

    /// Removes a workspace; focus and selection shift up when the
    /// removal happens at or before them, clamped at the top.
    pub fn remove(&mut self, pos: usize)
        requires
            old(self).wf(),
            pos < old(self).labels@.len(),
        ensures
            final(self).wf(),
            final(self).flag,
            final(self).labels@ == old(self).labels@.remove(pos as int),
            final(self).unread@ == old(self).unread@.remove(pos as int),
            final(self).contents@ == old(self).contents@.remove(pos as int),
            final(self).current == if old(self).labels@.len() == 1 {
                0int
            } else {
                shifted_on_remove(old(self).current as int, pos as int)
            },
            final(self).selected == if old(self).labels@.len() == 1 {
                0int
            } else {
                shifted_on_remove(old(self).selected as int, pos as int)
            },
    {
        if pos <= self.current && self.current > 0 {
            self.current = self.current - 1;
        }
        if pos <= self.selected && self.selected > 0 {
            self.selected = self.selected - 1;
        }
        self.unread.remove(pos);
        self.labels.remove(pos);
        self.contents.remove(pos);
        self.flag = true;
    }

    /// The committed workspace's category list.
    pub fn get(&mut self) -> (r: &mut Categories)
        requires
            old(self).labels@.len() > 0,
            old(self).wf(),
        ensures
            *r == old(self).contents@[old(self).selected as int],
            servers_updated_at(*old(self), *final(self), old(self).selected as int, *final(r)),
            (*final(r)).wf() ==> final(self).wf(),
    {
        &mut self.contents[self.selected]
    }

    /// The committed category's channel list.
    pub fn get2(&mut self) -> (r: &mut Channels)
        requires
            old(self).wf(),
            old(self).labels@.len() > 0,
            old(self).contents@[old(self).selected as int].labels@.len() > 0,
        ensures
            ({
                let cats = old(self).contents@[old(self).selected as int];
                &&& *r == cats.contents@[cats.selected as int]
                &&& servers_updated_at(
                    *old(self),
                    *final(self),
                    old(self).selected as int,
                    final(self).contents@[old(self).selected as int],
                )
                &&& categories_updated_at(
                    cats,
                    final(self).contents@[old(self).selected as int],
                    cats.selected as int,
                    *final(r),
                )
            }),
            (*final(r)).wf() ==> final(self).wf(),
    {
        self.get().get()
    }

    /// The committed channel's conversation slot.
    pub fn get3(&mut self) -> (r: &mut Messages)
        requires
            old(self).wf(),
            old(self).labels@.len() > 0,
            old(self).contents@[old(self).selected as int].labels@.len() > 0,
            ({
                let cats = old(self).contents@[old(self).selected as int];
                cats.contents@[cats.selected as int].labels@.len() > 0
            }),
        ensures
            ({
                let cats = old(self).contents@[old(self).selected as int];
                let chans = cats.contents@[cats.selected as int];
                &&& *r == chans.contents@[chans.selected as int]
                &&& servers_updated_at(
                    *old(self),
                    *final(self),
                    old(self).selected as int,
                    final(self).contents@[old(self).selected as int],
                )
                &&& categories_updated_at(
                    cats,
                    final(self).contents@[old(self).selected as int],
                    cats.selected as int,
                    final(self).contents@[old(self).selected as int].contents@[cats.selected as int],
                )
                &&& channels_updated_at(
                    chans,
                    final(self).contents@[old(self).selected as int].contents@[cats.selected as int],
                    chans.selected as int,
                    *final(r),
                )
            }),
            (*final(r)).wf() ==> final(self).wf(),
    {
        self.get().get().get()
    }

    /// The category list at a given position.
    pub fn grab(&mut self, spec_pos: usize) -> (r: &mut Categories)
        requires
            old(self).wf(),
            spec_pos < old(self).contents@.len(),
        ensures
            *r == old(self).contents@[spec_pos as int],
            servers_updated_at(*old(self), *final(self), spec_pos as int, *final(r)),
            (*final(r)).wf() ==> final(self).wf(),
    {
        &mut self.contents[spec_pos]
    }

    /// The channel list at a given position pair.
    pub fn grab2(&mut self, spec_pos: usize, spec2: usize) -> (r: &mut Channels)
        requires
            old(self).wf(),
            spec_pos < old(self).contents@.len(),
            spec2 < old(self).contents@[spec_pos as int].contents@.len(),
        ensures
            ({
                let cats = old(self).contents@[spec_pos as int];
                &&& *r == cats.contents@[spec2 as int]
                &&& servers_updated_at(
                    *old(self),
                    *final(self),
                    spec_pos as int,
                    final(self).contents@[spec_pos as int],
                )
                &&& categories_updated_at(
                    cats,
                    final(self).contents@[spec_pos as int],
                    spec2 as int,
                    *final(r),
                )
            }),
            (*final(r)).wf() ==> final(self).wf(),
    {
        self.grab(spec_pos).grab(spec2)
    }

    /// The conversation slot at a given position triple.
    pub fn grab3(&mut self, spec_pos: usize, spec2: usize, spec3: usize) -> (r: &mut Messages)
        requires
            old(self).wf(),
            spec_pos < old(self).contents@.len(),
            spec2 < old(self).contents@[spec_pos as int].contents@.len(),
            spec3 < old(self).contents@[spec_pos as int].contents@[spec2 as int].contents@.len(),
        ensures
            ({
                let cats = old(self).contents@[spec_pos as int];
                let chans = cats.contents@[spec2 as int];
                &&& *r == chans.contents@[spec3 as int]
                &&& servers_updated_at(
                    *old(self),
                    *final(self),
                    spec_pos as int,
                    final(self).contents@[spec_pos as int],
                )
                &&& categories_updated_at(
                    cats,
                    final(self).contents@[spec_pos as int],
                    spec2 as int,
                    final(self).contents@[spec_pos as int].contents@[spec2 as int],
                )
                &&& channels_updated_at(
                    chans,
                    final(self).contents@[spec_pos as int].contents@[spec2 as int],
                    spec3 as int,
                    *final(r),
                )
            }),
            (*final(r)).wf() ==> final(self).wf(),
    {
        self.grab(spec_pos).grab(spec2).grab(spec3)
    }

    /// The newest workspace's category list.
    pub fn last(&mut self) -> (r: &mut Categories)
        requires
            old(self).wf(),
            old(self).labels@.len() > 0,
        ensures
            *r == old(self).contents@.last(),
            servers_updated_at(*old(self), *final(self), old(self).contents@.len() - 1, *final(r)),
            (*final(r)).wf() ==> final(self).wf(),
    {
        let n = self.contents.len();
        &mut self.contents[n - 1]
    }

    /// Commits a workspace position and returns its category list.
    pub fn switch(&mut self, spec_pos: usize) -> (r: &mut Categories)
        requires
            old(self).wf(),
            spec_pos < old(self).contents@.len(),
        ensures
            *r == old(self).contents@[spec_pos as int],
            servers_updated_at(
                (Servers { selected: spec_pos, ..*old(self) }),
                *final(self),
                spec_pos as int,
                *final(r),
            ),
            (*final(r)).wf() ==> final(self).wf(),
    {
        self.selected = spec_pos;
        &mut self.contents[self.selected]
    }

    /// The newest category's channel list under the newest workspace.
    pub fn last2(&mut self) -> (r: &mut Channels)
        requires
            old(self).wf(),
            old(self).labels@.len() > 0,
            old(self).contents@.last().labels@.len() > 0,
        ensures
            ({
                let cats = old(self).contents@.last();
                &&& *r == cats.contents@.last()
                &&& servers_updated_at(
                    *old(self),
                    *final(self),
                    old(self).contents@.len() - 1,
                    final(self).contents@.last(),
                )
                &&& categories_updated_at(
                    cats,
                    final(self).contents@.last(),
                    cats.contents@.len() - 1,
                    *final(r),
                )
            }),
            (*final(r)).wf() ==> final(self).wf(),
    {
        self.last().last()
    }

    /// The newest conversation slot under the newest workspace.
    pub fn last3(&mut self) -> (r: &mut Messages)
        requires
            old(self).wf(),
            old(self).labels@.len() > 0,
            old(self).contents@.last().labels@.len() > 0,
            old(self).contents@.last().contents@.last().labels@.len() > 0,
        ensures
            ({
                let cats = old(self).contents@.last();
                let chans = cats.contents@.last();
                &&& *r == chans.contents@.last()
                &&& servers_updated_at(
                    *old(self),
                    *final(self),
                    old(self).contents@.len() - 1,
                    final(self).contents@.last(),
                )
                &&& categories_updated_at(
                    cats,
                    final(self).contents@.last(),
                    cats.contents@.len() - 1,
                    final(self).contents@.last().contents@.last(),
                )
                &&& channels_updated_at(
                    chans,
                    final(self).contents@.last().contents@.last(),
                    chans.contents@.len() - 1,
                    *final(r),
                )
            }),
            (*final(r)).wf() ==> final(self).wf(),
    {
        self.last().last().last()
    }

    /// Commits a workspace and category position and returns that
    /// category's channel list.
    pub fn switch2(&mut self, spec_pos: usize, spec2: usize) -> (r: &mut Channels)
        requires
            old(self).wf(),
            spec_pos < old(self).contents@.len(),
            spec2 < old(self).contents@[spec_pos as int].contents@.len(),
        ensures
            ({
                let cats = old(self).contents@[spec_pos as int];
                &&& *r == cats.contents@[spec2 as int]
                &&& servers_updated_at(
                    (Servers { selected: spec_pos, ..*old(self) }),
                    *final(self),
                    spec_pos as int,
                    final(self).contents@[spec_pos as int],
                )
                &&& categories_updated_at(
                    (Categories { selected: spec2, ..cats }),
                    final(self).contents@[spec_pos as int],
                    spec2 as int,
                    *final(r),
                )
            }),
            (*final(r)).wf() ==> final(self).wf(),
    {
        self.selected = spec_pos;
        let cats = &mut self.contents[spec_pos];
        cats.selected = spec2;
        &mut cats.contents[spec2]
    }

    /// Commits a full path and returns its conversation slot.
    pub fn switch3(&mut self, spec_pos: usize, spec2: usize, spec3: usize) -> (r: &mut Messages)
        requires
            old(self).wf(),
            spec_pos < old(self).contents@.len(),
            spec2 < old(self).contents@[spec_pos as int].contents@.len(),
            spec3 < old(self).contents@[spec_pos as int].contents@[spec2 as int].contents@.len(),
        ensures
            ({
                let cats = old(self).contents@[spec_pos as int];
                let chans = cats.contents@[spec2 as int];
                &&& *r == chans.contents@[spec3 as int]
                &&& servers_updated_at(
                    (Servers { selected: spec_pos, ..*old(self) }),
                    *final(self),
                    spec_pos as int,
                    final(self).contents@[spec_pos as int],
                )
                &&& categories_updated_at(
                    (Categories { selected: spec2, ..cats }),
                    final(self).contents@[spec_pos as int],
                    spec2 as int,
                    final(self).contents@[spec_pos as int].contents@[spec2 as int],
                )
                &&& channels_updated_at(
                    (Channels { selected: spec3, ..chans }),
                    final(self).contents@[spec_pos as int].contents@[spec2 as int],
                    spec3 as int,
                    *final(r),
                )
            }),
            (*final(r)).wf() ==> final(self).wf(),
    {
        self.selected = spec_pos;
        let cats = &mut self.contents[spec_pos];
        cats.selected = spec2;
        let chans = &mut cats.contents[spec2];
        chans.selected = spec3;
        &mut chans.contents[spec3]
    }

    /// Looks up the position of a channel, searching from the root: the
    /// workspace (or the workspace-less bucket), then every category in
    /// it.  A channel that is not in the tree yields nothing.
    pub fn find_channel(&self, channel: u64, guild: Option<u64>) -> (r: Option<
        (usize, usize, usize),
    >)
        requires
            self.wf(),
        ensures
            r matches Some(t) ==> {
                &&& t.0 < self.contents@.len()
                &&& t.1 < self.contents@[t.0 as int].contents@.len()
                &&& t.2 < self.contents@[t.0 as int].contents@[t.1 as int].contents@.len()
                &&& self.contents@[t.0 as int].s_id == guild
                &&& channel_matches(
                    self.contents@[t.0 as int].contents@[t.1 as int].contents@[t.2 as int],
                    channel,
                )
            },
            r is None ==> forall|s: int, c: int, h: int|
                0 <= s < self.contents@.len() && 0 <= c < self.contents@[s].contents@.len() && 0
                    <= h < self.contents@[s].contents@[c].contents@.len() ==> !(
                self.contents@[s].s_id == guild && channel_matches(
                    #[trigger] self.contents@[s].contents@[c].contents@[h],
                    channel,
                )),
    {
        let mut s: usize = 0;
        while s < self.contents.len()
            invariant
                self.wf(),
                s <= self.contents@.len(),
                forall|s2: int, c: int, h: int|
                    0 <= s2 < s && 0 <= c < self.contents@[s2].contents@.len() && 0 <= h
                        < self.contents@[s2].contents@[c].contents@.len() ==> !(
                    self.contents@[s2].s_id == guild && channel_matches(
                        #[trigger] self.contents@[s2].contents@[c].contents@[h],
                        channel,
                    )),
            decreases self.contents@.len() - s,
        {
            let cats = &self.contents[s];
            let guild_here = match (&cats.s_id, &guild) {
                (Some(a), Some(b)) => *a == *b,
                (None, None) => true,
                _ => false,
            };
            if guild_here {
                let mut c: usize = 0;
                while c < cats.contents.len()
                    invariant
                        self.wf(),
                        s < self.contents@.len(),
                        cats == self.contents@[s as int],
                        cats.s_id == guild,
                        c <= cats.contents@.len(),
                        forall|c2: int, h: int|
                            0 <= c2 < c && 0 <= h < cats.contents@[c2].contents@.len()
                                ==> !channel_matches(
                                #[trigger] cats.contents@[c2].contents@[h],
                                channel,
                            ),
                    decreases cats.contents@.len() - c,
                {
                    let chans = &cats.contents[c];
                    let mut h: usize = 0;
                    while h < chans.contents.len()
                        invariant
                            self.wf(),
                            s < self.contents@.len(),
                            cats == self.contents@[s as int],
                            cats.s_id == guild,
                            c < cats.contents@.len(),
                            chans == cats.contents@[c as int],
                            h <= chans.contents@.len(),
                            forall|h2: int|
                                0 <= h2 < h ==> !channel_matches(
                                    #[trigger] chans.contents@[h2],
                                    channel,
                                ),
                        decreases chans.contents@.len() - h,
                    {
                        let hit = match chans.contents[h].id() {
                            Some(c_ref) => c_ref.id == channel,
                            None => false,
                        };
                        if hit {
                            return Some((s, c, h));
                        }
                        h = h + 1;
                    }
                    c = c + 1;
                }
            } else {
                proof {
                    assert(self.contents@[s as int].s_id != guild);
                }
            }
            s = s + 1;
        }
        None
    }
}

} // verus!
