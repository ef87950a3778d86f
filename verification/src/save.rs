//! The serializable snapshot of the tree, and the autosave timer.
//!
//! `process` turns live state into its snapshot, `reload` turns a
//! snapshot back into live state.  Fetches that were in flight do not
//! survive: on reload a direction that was not finished is merely
//! "more available", and the forward direction always starts unloaded so
//! a fresh check happens.

use vstd::prelude::*;

use crate::categories::Categories;
use crate::file::ExtConfig;
use crate::input::Parser;
use crate::message::UserDict;
use crate::channels::Channels;
use crate::message::{
    clone_message, clone_strings, message_like, ChannelRef, LoadedMessage,
};
use crate::messages::{LoadedMessages, LoadingState, Messages};
use crate::servers::{ServerLabel, Servers, Unread};

verus! {

/// How long the autosave timer waits between saves, in milliseconds.
pub const AUTOSAVE_FREQUENCY_MS: u64 = 120000;

/// The snapshot of one cached conversation.
pub struct LoadedMessagesSave {
    pub labels: Vec<LoadedMessage>,
    pub unread: usize,
    pub id: ChannelRef,
    /// Whether more history toward older entries may exist.
    pub more_before: bool,
    pub current: usize,
    pub current_in_message: usize,
    pub selected: usize,
}

/// The snapshot carries the conversation's entries and positions, and
/// folds the backward state to "is there possibly more": a fetch that
/// was in flight counts as more available.
pub open spec fn saves_store(s: LoadedMessages, v: LoadedMessagesSave) -> bool {
    &&& v.labels@.len() == s.labels@.len()
    &&& forall|i: int| 0 <= i < s.labels@.len() ==> message_like(#[trigger] v.labels@[i], s.labels@[i])
    &&& v.unread == s.unread
    &&& v.id == s.id
    &&& v.more_before == !(s.before is Finished)
    &&& v.current == s.current
    &&& v.current_in_message == s.current_in_message
    &&& v.selected == s.selected
}

/// Reloading restores the entries and positions, makes the backward
/// state unloaded exactly when more was available, and always resets the
/// forward state so the tail is checked afresh.
pub open spec fn reloads_store(v: LoadedMessagesSave, r: LoadedMessages) -> bool {
    &&& r.labels == v.labels
    &&& r.unread == v.unread
    &&& r.id == v.id
    &&& r.before == if v.more_before {
        LoadingState::Unloaded
    } else {
        LoadingState::Finished
    }
    &&& r.after is Unloaded
    &&& r.current == v.current
    &&& r.current_in_message == v.current_in_message
    &&& r.selected == v.selected
    &&& r.flag
}

impl LoadedMessagesSave {
    /// Positions in the snapshot are valid for its entry list.
    pub open spec fn wf(&self) -> bool {
        &&& self.labels@.len() > 0 ==> self.current < self.labels@.len() && self.selected
            < self.labels@.len()
        &&& self.labels@.len() == 0 ==> self.current == 0 && self.selected == 0
    }

    /// Checks the snapshot's own validity, for data read from outside.
    pub fn check_wf(&self) -> (r: bool)
        ensures
            r == self.wf(),
    {
        if self.labels.len() > 0 {
            self.current < self.labels.len() && self.selected < self.labels.len()
        } else {
            self.current == 0 && self.selected == 0
        }
    }

    pub fn process(loaded_messages: &LoadedMessages) -> (r: LoadedMessagesSave)
        ensures
            saves_store(*loaded_messages, r),
            loaded_messages.wf() ==> r.wf(),
    {
        LoadedMessagesSave {
            labels: crate::message::clone_messages(&loaded_messages.labels),
            unread: loaded_messages.unread,
            id: loaded_messages.id,
            more_before: !matches!(loaded_messages.before, LoadingState::Finished),
            current: loaded_messages.current,
            current_in_message: loaded_messages.current_in_message,
            selected: loaded_messages.selected,
        }
    }

    pub fn reload(self) -> (r: LoadedMessages)
        ensures
            reloads_store(self, r),
            self.wf() ==> r.wf(),
    {
        LoadedMessages {
            labels: self.labels,
            unread: self.unread,
            id: self.id,
            before: if self.more_before {
                LoadingState::Unloaded
            } else {
                LoadingState::Finished
            },
            current: self.current,
            current_in_message: self.current_in_message,
            selected: self.selected,
            after: LoadingState::Unloaded,
            flag: true,
        }
    }
}

/// Round trip of one conversation: saving and reloading keeps the entry
/// count and order (every entry carries the same data), the unread mark
/// and the positions; backward-more-available survives — a backward
/// fetch in flight counts as more available — and the forward state
/// always comes back unloaded.
pub proof fn lemma_store_round_trip(s: LoadedMessages, v: LoadedMessagesSave, r: LoadedMessages)
    requires
        saves_store(s, v),
        reloads_store(v, r),
    ensures
        r.labels@.len() == s.labels@.len(),
        forall|i: int| 0 <= i < s.labels@.len() ==> message_like(#[trigger] r.labels@[i], s.labels@[i]),
        r.unread == s.unread,
        r.id == s.id,
        r.current == s.current,
        r.current_in_message == s.current_in_message,
        r.selected == s.selected,
        r.before == if s.before is Finished {
            LoadingState::Finished
        } else {
            LoadingState::Unloaded
        },
        r.after is Unloaded,
{
}

/// The snapshot of one channel slot.  A conversation whose initial fetch
/// was still in flight is snapshotted as not yet asked for.
pub enum MessagesSave {
    Unloaded(ChannelRef),
    Loaded(LoadedMessagesSave),
    Nonexistent,
}

/// What the slot snapshot keeps of the live slot.
pub open spec fn saves_slot(s: Messages, v: MessagesSave) -> bool {
    match s {
        Messages::Unloaded(ch) => v == MessagesSave::Unloaded(ch),
        Messages::Loading(ch) => v == MessagesSave::Unloaded(ch),
        Messages::Loaded(st) => v matches MessagesSave::Loaded(sv) && saves_store(st, sv),
        Messages::Nonexistent => v is Nonexistent,
    }
}

/// What reloading a slot snapshot yields.
pub open spec fn reloads_slot(v: MessagesSave, r: Messages) -> bool {
    match v {
        MessagesSave::Unloaded(ch) => r == Messages::Unloaded(ch),
        MessagesSave::Loaded(sv) => r matches Messages::Loaded(st) && reloads_store(sv, st),
        MessagesSave::Nonexistent => r is Nonexistent,
    }
}

impl MessagesSave {
    pub open spec fn wf(&self) -> bool {
        match self {
            MessagesSave::Loaded(sv) => sv.wf(),
            _ => true,
        }
    }

    /// Checks the snapshot's own validity, for data read from outside.
    pub fn check_wf(&self) -> (r: bool)
        ensures
            r == self.wf(),
    {
        match self {
            MessagesSave::Loaded(sv) => sv.check_wf(),
            _ => true,
        }
    }

    pub fn process(messages: &Messages) -> (r: MessagesSave)
        ensures
            saves_slot(*messages, r),
            messages.wf() ==> r.wf(),
    {
        match messages {
            Messages::Unloaded(val) => MessagesSave::Unloaded(*val),
            Messages::Loading(val) => MessagesSave::Unloaded(*val),
            Messages::Nonexistent => MessagesSave::Nonexistent,
            Messages::Loaded(val) => MessagesSave::Loaded(LoadedMessagesSave::process(val)),
        }
    }

    pub fn reload(self) -> (r: Messages)
        ensures
            reloads_slot(self, r),
            self.wf() ==> r.wf(),
    {
        match self {
            MessagesSave::Unloaded(ch) => Messages::Unloaded(ch),
            MessagesSave::Loaded(val) => Messages::Loaded(val.reload()),
            MessagesSave::Nonexistent => Messages::Nonexistent,
        }
    }
}

/// The snapshot of one channel column.
pub struct ChannelSave {
    pub labels: Vec<String>,
    pub unread: Vec<Unread>,
    pub contents: Vec<MessagesSave>,
    pub current: usize,
    pub selected: usize,
    /// The category's own descriptor; a category, not a channel.
    pub id: Option<ChannelRef>,
}

pub open spec fn saves_channels(s: Channels, v: ChannelSave) -> bool {
    &&& v.labels.deep_view() == s.labels.deep_view()
    &&& v.unread@ == s.unread@
    &&& v.contents@.len() == s.contents@.len()
    &&& forall|i: int| 0 <= i < s.contents@.len() ==> saves_slot(s.contents@[i], #[trigger] v.contents@[i])
    &&& v.current == s.current
    &&& v.selected == s.selected
    &&& v.id == s.id
}

pub open spec fn reloads_channels(v: ChannelSave, r: Channels) -> bool {
    &&& r.labels == v.labels
    &&& r.unread == v.unread
    &&& r.contents@.len() == v.contents@.len()
    &&& forall|i: int| 0 <= i < v.contents@.len() ==> reloads_slot(v.contents@[i], #[trigger] r.contents@[i])
    &&& r.current == v.current
    &&& r.selected == v.selected
    &&& r.id == v.id
    &&& r.flag
}

impl ChannelSave {
    pub open spec fn wf(&self) -> bool {
        &&& self.labels@.len() == self.unread@.len()
        &&& self.labels@.len() == self.contents@.len()
        &&& self.labels@.len() > 0 ==> self.current < self.labels@.len() && self.selected
            < self.labels@.len()
        &&& self.labels@.len() == 0 ==> self.current == 0 && self.selected == 0
        &&& forall|i: int| 0 <= i < self.contents@.len() ==> (#[trigger] self.contents@[i]).wf()
    }

    /// Checks the snapshot's own validity, for data read from outside.
    pub fn check_wf(&self) -> (r: bool)
        ensures
            r == self.wf(),
    {
        if self.labels.len() != self.unread.len() || self.labels.len() != self.contents.len() {
            return false;
        }
        if self.labels.len() > 0 {
            if !(self.current < self.labels.len() && self.selected < self.labels.len()) {
                return false;
            }
        } else {
            if !(self.current == 0 && self.selected == 0) {
                return false;
            }
        }
        let mut i: usize = 0;
        while i < self.contents.len()
            invariant
                i <= self.contents@.len(),
                forall|k: int| 0 <= k < i ==> (#[trigger] self.contents@[k]).wf(),
                self.labels@.len() == self.unread@.len(),
                self.labels@.len() == self.contents@.len(),
                self.labels@.len() > 0 ==> self.current < self.labels@.len() && self.selected
                    < self.labels@.len(),
                self.labels@.len() == 0 ==> self.current == 0 && self.selected == 0,
            decreases self.contents@.len() - i,
        {
            if !self.contents[i].check_wf() {
                return false;
            }
            i = i + 1;
        }
        true
    }

    pub fn process(channels: &Channels) -> (r: ChannelSave)
        ensures
            saves_channels(*channels, r),
            channels.wf() ==> r.wf(),
    {
        let mut contents: Vec<MessagesSave> = Vec::new();
        let mut i: usize = 0;
        while i < channels.contents.len()
            invariant
                i <= channels.contents@.len(),
                contents@.len() == i,
                forall|k: int|
                    0 <= k < i ==> saves_slot(channels.contents@[k], #[trigger] contents@[k]),
                forall|k: int|
                    0 <= k < i && (#[trigger] channels.contents@[k]).wf() ==> contents@[k].wf(),
            decreases channels.contents@.len() - i,
        {
            contents.push(MessagesSave::process(&channels.contents[i]));
            i = i + 1;
        }
        let mut unread: Vec<Unread> = Vec::new();
        let mut j: usize = 0;
        while j < channels.unread.len()
            invariant
                j <= channels.unread@.len(),
                unread@ == channels.unread@.subrange(0, j as int),
            decreases channels.unread@.len() - j,
        {
            unread.push(channels.unread[j]);
            j = j + 1;
            proof {
                assert(channels.unread@.subrange(0, j as int) =~= channels.unread@.subrange(
                    0,
                    j - 1,
                ).push(channels.unread@[j - 1]));
            }
        }
        proof {
            assert(channels.unread@.subrange(0, channels.unread@.len() as int)
                =~= channels.unread@);
        }
        ChannelSave {
            labels: clone_strings(&channels.labels),
            unread,
            contents,
            current: channels.current,
            selected: channels.selected,
            id: channels.id,
        }
    }

    pub fn reload(self) -> (r: Channels)
        ensures
            reloads_channels(self, r),
            self.wf() ==> r.wf(),
    {
        let ChannelSave { labels, unread, contents, current, selected, id } = self;
        let ghost saved = contents@;
        let mut live: Vec<Messages> = Vec::new();
        let mut contents = contents;
        let mut i: usize = 0;
        let slot_count = contents.len();
        proof {
            assert(saved.skip(0) =~= saved);
            assert(saved.len() == slot_count as int);
        }
        while contents.len() > 0
            invariant
                contents@ == saved.skip(i as int),
                i <= saved.len(),
                saved.len() <= usize::MAX,
                live@.len() == i,
                forall|k: int| 0 <= k < i ==> reloads_slot(saved[k], #[trigger] live@[k]),
                forall|k: int|
                    0 <= k < i && (#[trigger] saved[k]).wf() ==> live@[k].wf(),
            decreases saved.len() - i,
        {
            proof {
                assert(saved.skip(i as int).len() > 0);
            }
            let one = contents.remove(0);
            proof {
                assert(one == saved[i as int]);
                assert(saved.skip(i as int).remove(0) =~= saved.skip(i + 1));
            }
            live.push(one.reload());
            i = i + 1;
        }
        Channels { labels, unread, contents: live, current, selected, id, flag: true }
    }
}

/// The snapshot of one category column.
pub struct CategorySave {
    pub labels: Vec<String>,
    pub unread: Vec<Unread>,
    pub contents: Vec<ChannelSave>,
    pub s_id: Option<u64>,
    pub current: usize,
    pub selected: usize,
}

pub open spec fn saves_categories(s: Categories, v: CategorySave) -> bool {
    &&& v.labels.deep_view() == s.labels.deep_view()
    &&& v.unread@ == s.unread@
    &&& v.contents@.len() == s.contents@.len()
    &&& forall|i: int|
        0 <= i < s.contents@.len() ==> saves_channels(s.contents@[i], #[trigger] v.contents@[i])
    &&& v.s_id == s.s_id
    &&& v.current == s.current
    &&& v.selected == s.selected
}

pub open spec fn reloads_categories(v: CategorySave, r: Categories) -> bool {
    &&& r.labels == v.labels
    &&& r.unread == v.unread
    &&& r.contents@.len() == v.contents@.len()
    &&& forall|i: int|
        0 <= i < v.contents@.len() ==> reloads_channels(v.contents@[i], #[trigger] r.contents@[i])
    &&& r.s_id == v.s_id
    &&& r.current == v.current
    &&& r.selected == v.selected
    &&& r.flag
}

impl CategorySave {
    pub open spec fn wf(&self) -> bool {
        &&& self.labels@.len() == self.unread@.len()
        &&& self.labels@.len() == self.contents@.len()
        &&& self.labels@.len() > 0 ==> self.current < self.labels@.len() && self.selected
            < self.labels@.len()
        &&& self.labels@.len() == 0 ==> self.current == 0 && self.selected == 0
        &&& forall|i: int| 0 <= i < self.contents@.len() ==> (#[trigger] self.contents@[i]).wf()
    }

    /// Checks the snapshot's own validity, for data read from outside.
    pub fn check_wf(&self) -> (r: bool)
        ensures
            r == self.wf(),
    {
        if self.labels.len() != self.unread.len() || self.labels.len() != self.contents.len() {
            return false;
        }
        if self.labels.len() > 0 {
            if !(self.current < self.labels.len() && self.selected < self.labels.len()) {
                return false;
            }
        } else {
            if !(self.current == 0 && self.selected == 0) {
                return false;
            }
        }
        let mut i: usize = 0;
        while i < self.contents.len()
            invariant
                i <= self.contents@.len(),
                forall|k: int| 0 <= k < i ==> (#[trigger] self.contents@[k]).wf(),
                self.labels@.len() == self.unread@.len(),
                self.labels@.len() == self.contents@.len(),
                self.labels@.len() > 0 ==> self.current < self.labels@.len() && self.selected
                    < self.labels@.len(),
                self.labels@.len() == 0 ==> self.current == 0 && self.selected == 0,
            decreases self.contents@.len() - i,
        {
            if !self.contents[i].check_wf() {
                return false;
            }
            i = i + 1;
        }
        true
    }

    pub fn process(categories: &Categories) -> (r: CategorySave)
        ensures
            saves_categories(*categories, r),
            categories.wf() ==> r.wf(),
    {
        let mut contents: Vec<ChannelSave> = Vec::new();
        let mut i: usize = 0;
        while i < categories.contents.len()
            invariant
                i <= categories.contents@.len(),
                contents@.len() == i,
                forall|k: int|
                    0 <= k < i ==> saves_channels(
                        categories.contents@[k],
                        #[trigger] contents@[k],
                    ),
                forall|k: int|
                    0 <= k < i && (#[trigger] categories.contents@[k]).wf() ==> contents@[k].wf(),
            decreases categories.contents@.len() - i,
        {
            contents.push(ChannelSave::process(&categories.contents[i]));
            i = i + 1;
        }
        let mut unread: Vec<Unread> = Vec::new();
        let mut j: usize = 0;
        while j < categories.unread.len()
            invariant
                j <= categories.unread@.len(),
                unread@ == categories.unread@.subrange(0, j as int),
            decreases categories.unread@.len() - j,
        {
            unread.push(categories.unread[j]);
            j = j + 1;
            proof {
                assert(categories.unread@.subrange(0, j as int) =~= categories.unread@.subrange(
                    0,
                    j - 1,
                ).push(categories.unread@[j - 1]));
            }
        }
        proof {
            assert(categories.unread@.subrange(0, categories.unread@.len() as int)
                =~= categories.unread@);
        }
        CategorySave {
            labels: clone_strings(&categories.labels),
            unread,
            contents,
            s_id: categories.s_id,
            current: categories.current,
            selected: categories.selected,
        }
    }

    pub fn reload(self) -> (r: Categories)
        ensures
            reloads_categories(self, r),
            self.wf() ==> r.wf(),
    {
        let CategorySave { labels, unread, contents, s_id, current, selected } = self;
        let ghost saved = contents@;
        let mut live: Vec<Channels> = Vec::new();
        let mut contents = contents;
        let mut i: usize = 0;
        let slot_count = contents.len();
        proof {
            assert(saved.skip(0) =~= saved);
            assert(saved.len() == slot_count as int);
        }
        while contents.len() > 0
            invariant
                contents@ == saved.skip(i as int),
                i <= saved.len(),
                saved.len() <= usize::MAX,
                live@.len() == i,
                forall|k: int| 0 <= k < i ==> reloads_channels(saved[k], #[trigger] live@[k]),
                forall|k: int| 0 <= k < i && (#[trigger] saved[k]).wf() ==> live@[k].wf(),
            decreases saved.len() - i,
        {
            proof {
                assert(saved.skip(i as int).len() > 0);
            }
            let one = contents.remove(0);
            proof {
                assert(one == saved[i as int]);
                assert(saved.skip(i as int).remove(0) =~= saved.skip(i + 1));
            }
            live.push(one.reload());
            i = i + 1;
        }
        Categories { labels, unread, contents: live, current, selected, s_id, flag: true }
    }
}

/// The snapshot of the workspace column.
pub struct ServerSave {
    pub labels: Vec<ServerLabel>,
    pub unread: Vec<Unread>,
    pub contents: Vec<CategorySave>,
    pub current: usize,
    pub selected: usize,
}

pub open spec fn saves_servers(s: Servers, v: ServerSave) -> bool {
    &&& v.labels@.len() == s.labels@.len()
    &&& forall|i: int|
        0 <= i < s.labels@.len() ==> (#[trigger] v.labels@[i]).name@ == s.labels@[i].name@
            && v.labels@[i].color == s.labels@[i].color
    &&& v.unread@ == s.unread@
    &&& v.contents@.len() == s.contents@.len()
    &&& forall|i: int|
        0 <= i < s.contents@.len() ==> saves_categories(s.contents@[i], #[trigger] v.contents@[i])
    &&& v.current == s.current
    &&& v.selected == s.selected
}

pub open spec fn reloads_servers(v: ServerSave, r: Servers) -> bool {
    &&& r.labels == v.labels
    &&& r.unread == v.unread
    &&& r.contents@.len() == v.contents@.len()
    &&& forall|i: int|
        0 <= i < v.contents@.len() ==> reloads_categories(
            v.contents@[i],
            #[trigger] r.contents@[i],
        )
    &&& r.current == v.current
    &&& r.selected == v.selected
    &&& r.flag
}

impl ServerSave {
    pub open spec fn wf(&self) -> bool {
        &&& self.labels@.len() == self.unread@.len()
        &&& self.labels@.len() == self.contents@.len()
        &&& self.labels@.len() > 0 ==> self.current < self.labels@.len() && self.selected
            < self.labels@.len()
        &&& self.labels@.len() == 0 ==> self.current == 0 && self.selected == 0
        &&& forall|i: int| 0 <= i < self.labels@.len() ==> (#[trigger] self.labels@[i]).color.wf()
        &&& forall|i: int| 0 <= i < self.contents@.len() ==> (#[trigger] self.contents@[i]).wf()
    }

    /// Checks the snapshot's own validity, for data read from outside.
    pub fn check_wf(&self) -> (r: bool)
        ensures
            r == self.wf(),
    {
        if self.labels.len() != self.unread.len() || self.labels.len() != self.contents.len() {
            return false;
        }
        if self.labels.len() > 0 {
            if !(self.current < self.labels.len() && self.selected < self.labels.len()) {
                return false;
            }
        } else {
            if !(self.current == 0 && self.selected == 0) {
                return false;
            }
        }
        let mut l: usize = 0;
        while l < self.labels.len()
            invariant
                l <= self.labels@.len(),
                forall|k: int| 0 <= k < l ==> (#[trigger] self.labels@[k]).color.wf(),
            decreases self.labels@.len() - l,
        {
            if self.labels[l].color.color >= crate::ansi::COLOR_COUNT {
                return false;
            }
            l = l + 1;
        }
        let mut i: usize = 0;
        while i < self.contents.len()
            invariant
                i <= self.contents@.len(),
                forall|k: int| 0 <= k < i ==> (#[trigger] self.contents@[k]).wf(),
                self.labels@.len() == self.unread@.len(),
                self.labels@.len() == self.contents@.len(),
                self.labels@.len() > 0 ==> self.current < self.labels@.len() && self.selected
                    < self.labels@.len(),
                self.labels@.len() == 0 ==> self.current == 0 && self.selected == 0,
                forall|k: int| 0 <= k < self.labels@.len() ==> (#[trigger] self.labels@[k]).color.wf(),
            decreases self.contents@.len() - i,
        {
            if !self.contents[i].check_wf() {
                return false;
            }
            i = i + 1;
        }
        true
    }

    pub fn process(servers: &Servers) -> (r: ServerSave)
        ensures
            saves_servers(*servers, r),
            servers.wf() ==> r.wf(),
    {
        let mut labels: Vec<ServerLabel> = Vec::new();
        let mut l: usize = 0;
        while l < servers.labels.len()
            invariant
                l <= servers.labels@.len(),
                labels@.len() == l,
                forall|k: int|
                    0 <= k < l ==> (#[trigger] labels@[k]).name@ == servers.labels@[k].name@
                        && labels@[k].color == servers.labels@[k].color,
            decreases servers.labels@.len() - l,
        {
            let lab = &servers.labels[l];
            labels.push(ServerLabel { name: lab.name.clone(), color: lab.color });
            l = l + 1;
        }
        let mut contents: Vec<CategorySave> = Vec::new();
        let mut i: usize = 0;
        while i < servers.contents.len()
            invariant
                i <= servers.contents@.len(),
                contents@.len() == i,
                forall|k: int|
                    0 <= k < i ==> saves_categories(
                        servers.contents@[k],
                        #[trigger] contents@[k],
                    ),
                forall|k: int|
                    0 <= k < i && (#[trigger] servers.contents@[k]).wf() ==> contents@[k].wf(),
            decreases servers.contents@.len() - i,
        {
            contents.push(CategorySave::process(&servers.contents[i]));
            i = i + 1;
        }
        let mut unread: Vec<Unread> = Vec::new();
        let mut j: usize = 0;
        while j < servers.unread.len()
            invariant
                j <= servers.unread@.len(),
                unread@ == servers.unread@.subrange(0, j as int),
            decreases servers.unread@.len() - j,
        {
            unread.push(servers.unread[j]);
            j = j + 1;
            proof {
                assert(servers.unread@.subrange(0, j as int) =~= servers.unread@.subrange(
                    0,
                    j - 1,
                ).push(servers.unread@[j - 1]));
            }
        }
        proof {
            assert(servers.unread@.subrange(0, servers.unread@.len() as int) =~= servers.unread@);
        }
        ServerSave {
            labels,
            unread,
            contents,
            current: servers.current,
            selected: servers.selected,
        }
    }

    pub fn reload(self) -> (r: Servers)
        ensures
            reloads_servers(self, r),
            self.wf() ==> r.wf(),
    {
        let ServerSave { labels, unread, contents, current, selected } = self;
        let ghost saved = contents@;
        let mut live: Vec<Categories> = Vec::new();
        let mut contents = contents;
        let mut i: usize = 0;
        let slot_count = contents.len();
        proof {
            assert(saved.skip(0) =~= saved);
            assert(saved.len() == slot_count as int);
        }
        while contents.len() > 0
            invariant
                contents@ == saved.skip(i as int),
                i <= saved.len(),
                saved.len() <= usize::MAX,
                live@.len() == i,
                forall|k: int| 0 <= k < i ==> reloads_categories(saved[k], #[trigger] live@[k]),
                forall|k: int| 0 <= k < i && (#[trigger] saved[k]).wf() ==> live@[k].wf(),
            decreases saved.len() - i,
        {
            proof {
                assert(saved.skip(i as int).len() > 0);
            }
            let one = contents.remove(0);
            proof {
                assert(one == saved[i as int]);
                assert(saved.skip(i as int).remove(0) =~= saved.skip(i + 1));
            }
            live.push(one.reload());
            i = i + 1;
        }
        Servers { labels, unread, contents: live, current, selected, flag: true }
    }
}

/// Two opener configurations carrying the same text.
pub open spec fn config_like(a: ExtConfig, b: ExtConfig) -> bool {
    &&& a.default_path@ == b.default_path@
    &&& a.extensions.deep_view() == b.extensions.deep_view()
    &&& a.paths.deep_view() == b.paths.deep_view()
}

/// Copies an opener configuration.
pub fn clone_config(c: &ExtConfig) -> (r: ExtConfig)
    ensures
        config_like(r, *c),
        c.wf() ==> r.wf(),
{
    let mut extensions: Vec<Vec<String>> = Vec::new();
    let mut i: usize = 0;
    while i < c.extensions.len()
        invariant
            i <= c.extensions@.len(),
            extensions@.len() == i,
            forall|k: int|
                0 <= k < i ==> (#[trigger] extensions@[k]).deep_view()
                    == c.extensions@[k].deep_view(),
        decreases c.extensions@.len() - i,
    {
        extensions.push(clone_strings(&c.extensions[i]));
        i = i + 1;
    }
    let r = ExtConfig {
        default_path: c.default_path.clone(),
        extensions,
        paths: clone_strings(&c.paths),
    };
    proof {
        assert(r.extensions.deep_view() =~= c.extensions.deep_view());
        assert(r.paths.deep_view() =~= c.paths.deep_view());
    }
    r
}

/// The snapshot of the whole client state that survives a restart.
pub struct ParserSave {
    pub user_dict: UserDict,
    pub file_options: ExtConfig,
    pub servers: ServerSave,
}

impl ParserSave {
    pub fn process(orig: &Parser) -> (r: ParserSave)
        ensures
            r.user_dict.contents@ == orig.user_dict.contents@,
            config_like(r.file_options, orig.file_options),
            saves_servers(orig.servers, r.servers),
            orig.wf() ==> r.servers.wf() && r.file_options.wf(),
    {
        ParserSave {
            user_dict: UserDict { contents: orig.user_dict.contents.clone() },
            file_options: clone_config(&orig.file_options),
            servers: ServerSave::process(&orig.servers),
        }
    }
}

/// The autosave timer: the last time a save happened, against a fixed
/// interval.  Time is handed in by the caller, in milliseconds.
pub struct Autosave {
    pub last_time: u64,
}

impl Autosave {
    /// A save is due once more than the interval has passed.
    pub fn should_save(&self, now: u64) -> (r: bool)
        requires
            now >= self.last_time,
        ensures
            r == (now - self.last_time > AUTOSAVE_FREQUENCY_MS),
    {
        now - self.last_time > AUTOSAVE_FREQUENCY_MS
    }

    pub fn new(now: u64) -> (r: Autosave)
        ensures
            r.last_time == now,
    {
        Autosave { last_time: now }
    }
}

} // verus!
