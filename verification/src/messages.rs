//! The per-channel conversation store: an ordered message cache under a
//! focus/selection pair, with an independent forward/backward pagination
//! state machine.
//!
//! Fetches are never performed here; a transition that needs one returns
//! the corresponding [`Task`] for the caller to submit.  A live message
//! that cannot be applied yet — because contiguity with history is not
//! guaranteed — is handed back as a delayed `Kick` task instead of being
//! applied out of order.

use vstd::prelude::*;

use crate::colors::Color;
use crate::input::Response;
use crate::message::{
    dict_extended, spec_downloads, ChannelRef, LoadedMessage, RawMessage, UserDict, UserInfo,
};
use crate::message::spec_user_line;
use crate::format::Stamp;
use crate::render::Grid;
use crate::viewport::{lemma_window_start_bounds, spec_window_start, window_start};
use crate::task::{loaded_from, Task};
use crate::text::{chunk_clusters, clusters_of, spec_wrap_rows};

verus! {

/// How long a deferred live message waits before it is retried, in
/// milliseconds.
pub const KICK_DELAY_MS: u64 = 100;

/// The pagination state of one direction of one channel.
#[derive(Clone, Copy, Debug, PartialEq, Eq, Structural)]
pub enum LoadingState {
    /// No more entries exist in this direction.
    Finished,
    /// More entries may exist; no fetch is running.
    Unloaded,
    /// A fetch for this direction is in flight.
    Loading,
}

/// Rows one line occupies when wrapped to width `w`: an empty line still
/// takes a row, and otherwise every started chunk of `w` characters does.
pub open spec fn spec_line_rows(l: Seq<char>, w: int) -> int {
    if l.len() == 0 {
        1
    } else {
        (l.len() - 1) / w + 1
    }
}

/// Rows a list of lines occupies at width `w`.
pub open spec fn spec_lines_rows(ls: Seq<Seq<char>>, w: int) -> int
    decreases ls.len(),
{
    if ls.len() == 0 {
        0
    } else {
        spec_lines_rows(ls.drop_last(), w) + spec_line_rows(ls.last(), w)
    }
}

/// Rows one message occupies: one for the author line, the wrapped text
/// lines, and one per attachment.
pub open spec fn spec_msg_rows(m: LoadedMessage, w: int) -> int {
    1 + spec_lines_rows(m.content.content@.map_values(|s: String| s@), w)
        + m.content.attachments@.len()
}

pub proof fn lemma_lines_rows_bounds(ls: Seq<Seq<char>>, w: int)
    requires
        w >= 1,
    ensures
        spec_lines_rows(ls, w) >= ls.len(),
    decreases ls.len(),
{
    if ls.len() > 0 {
        lemma_lines_rows_bounds(ls.drop_last(), w);
    }
}

/// A prefix of the lines never occupies more rows than all of them.
pub proof fn lemma_lines_rows_prefix(ls: Seq<Seq<char>>, w: int, i: int)
    requires
        w >= 1,
        0 <= i <= ls.len(),
    ensures
        spec_lines_rows(ls.subrange(0, i), w) <= spec_lines_rows(ls, w),
    decreases ls.len() - i,
{
    if i == ls.len() {
        assert(ls.subrange(0, i) =~= ls);
    } else {
        lemma_lines_rows_prefix(ls, w, i + 1);
        assert(ls.subrange(0, i + 1).drop_last() =~= ls.subrange(0, i));
        assert(spec_line_rows(ls.subrange(0, i + 1).last(), w) >= 1);
    }
}


/// The wrapped display rows of one piece of a message (the author line,
/// one text line, or one attachment name); an empty piece still shows
/// one blank row.
pub open spec fn spec_piece_rows(p: Seq<char>, w: int) -> Seq<Seq<char>> {
    if p.len() == 0 {
        spec_wrap_rows(clusters_of(seq![' ']), w)
    } else {
        spec_wrap_rows(clusters_of(p), w)
    }
}

/// The rows of a list of pieces, in order.
pub open spec fn spec_pieces_rows(ps: Seq<Seq<char>>, w: int) -> Seq<Seq<char>>
    decreases ps.len(),
{
    if ps.len() == 0 {
        Seq::empty()
    } else {
        spec_pieces_rows(ps.drop_last(), w) + spec_piece_rows(ps.last(), w)
    }
}

/// The pieces a message is displayed as: the styled author line, then
/// the text lines, then the attachment names.
pub open spec fn spec_message_pieces(m: LoadedMessage, user_line: Seq<char>) -> Seq<Seq<char>> {
    seq![user_line] + m.content.content.deep_view() + m.content.attachments.deep_view()
}

/// All display rows of one message at width `w`.
pub open spec fn spec_message_rows(
    m: LoadedMessage,
    w: int,
    dict: Map<u64, UserInfo>,
    now: Stamp,
) -> Seq<Seq<char>> {
    spec_pieces_rows(
        spec_message_pieces(m, spec_user_line(dict[m.user], m.content.time, w, now)),
        w,
    )
}

/// The display rows of the messages in `[from, to)`, concatenated.
pub open spec fn spec_rows_range(
    labels: Seq<LoadedMessage>,
    from: int,
    to: int,
    w: int,
    dict: Map<u64, UserInfo>,
    now: Stamp,
) -> Seq<Seq<char>>
    decreases to - from,
{
    if from >= to {
        Seq::empty()
    } else {
        spec_rows_range(labels, from, to - 1, w, dict, now) + spec_message_rows(
            labels[to - 1],
            w,
            dict,
            now,
        )
    }
}

/// The wrapped rows of one piece; an empty piece becomes one blank row.
fn piece_rows(s: &str, w: usize) -> (r: Vec<String>)
    requires
        w >= 1,
    ensures
        r.deep_view() == spec_piece_rows(s@, w as int),
        r@.len() >= 1,
{
    if s.is_empty() {
        let r = chunk_clusters(" ", w);
        proof {
            reveal_strlit(" ");
            assert(" "@ =~= seq![' ']);
        }
        r
    } else {
        chunk_clusters(s, w)
    }
}

/// In every well-formed store at most one direction's pagination is
/// `Loading`; the store's operations all preserve well-formedness, so
/// this holds at any time.
pub proof fn lemma_one_direction_loading(s: LoadedMessages)
    requires
        s.wf(),
    ensures
        !(s.before is Loading && s.after is Loading),
{
}

/// A channel's cached conversation.
pub struct LoadedMessages {
    /// The entries, oldest first.
    pub labels: Vec<LoadedMessage>,
    /// The first unread position.
    pub unread: usize,
    /// The focused entry.
    pub current: usize,
    /// The focused row inside the focused entry.
    pub current_in_message: usize,
    /// The last committed entry.
    pub selected: usize,
    pub id: ChannelRef,
    /// Pagination toward older entries.
    pub before: LoadingState,
    /// Pagination toward newer entries.
    pub after: LoadingState,
    pub flag: bool,
}

impl LoadedMessages {
    /// Focus and selection are valid positions, and at most one
    /// direction is fetching at any time.
    pub open spec fn wf(&self) -> bool {
        &&& self.labels@.len() > 0 ==> self.current < self.labels@.len() && self.selected
            < self.labels@.len()
        &&& self.labels@.len() == 0 ==> self.current == 0 && self.selected == 0
        &&& !(self.before is Loading && self.after is Loading)
    }

    pub fn new(id: ChannelRef) -> (r: LoadedMessages)
        ensures
            r.wf(),
            r.labels@.len() == 0,
            r.unread == 0,
            r.current == 0,
            r.current_in_message == 0,
            r.selected == 0,
            r.id == id,
            r.before is Finished,
            r.after is Finished,
            r.flag,
    {
        LoadedMessages {
            labels: Vec::new(),
            unread: 0,
            current: 0,
            selected: 0,
            flag: true,
            current_in_message: 0,
            id,
            before: LoadingState::Finished,
            after: LoadingState::Finished,
        }
    }

    /// Builds the store from one fetched page of raw messages, newest
    /// first, converting each and queueing downloads for attachments not
    /// on disk yet; a full page leaves more history available.
    pub fn with_messages(
        id: ChannelRef,
        messages: Vec<RawMessage>,
        more: bool,
        dict: &mut UserDict,
        tasks: &mut Vec<Task>,
    ) -> (r: LoadedMessages)
        ensures
            r.wf(),
            r.labels@.len() == messages@.len(),
            forall|i: int|
                0 <= i < messages@.len() ==> loaded_from(
                    #[trigger] r.labels@[messages@.len() - 1 - i],
                    messages@[i],
                ),
            r.id == id,
            r.before == if more {
                LoadingState::Unloaded
            } else {
                LoadingState::Finished
            },
            r.after is Finished,
            final(tasks)@ == old(tasks)@ + crate::task::spec_downloads_all(messages@),
            dict_extended(old(dict).contents@, final(dict).contents@),
    {
        let ghost raw = messages@;
        let loaded = crate::task::load_all(messages, tasks);
        let r = LoadedMessages::with_finished_messages(id, loaded, more, dict);
        proof {
            assert forall|i: int| 0 <= i < raw.len() implies loaded_from(
                #[trigger] r.labels@[raw.len() - 1 - i],
                raw[i],
            ) by {
                assert(r.labels@[raw.len() - 1 - i] == loaded@.reverse()[raw.len() - 1 - i]);
            }
        }
        r
    }

    /// Builds the store from one fetched page, newest entry first, as
    /// the fetch returns them; a full page leaves more history available.
    pub fn with_finished_messages(
        id: ChannelRef,
        messages: Vec<LoadedMessage>,
        more: bool,
        dict: &mut UserDict,
    ) -> (r: LoadedMessages)
        ensures
            r.wf(),
            r.labels@ == messages@.reverse(),
            r.current == if messages@.len() == 0 { 0int } else { messages@.len() - 1 },
            r.selected == if messages@.len() == 0 { 0int } else { messages@.len() - 1 },
            r.current_in_message == 0,
            r.id == id,
            r.before == if more {
                LoadingState::Unloaded
            } else {
                LoadingState::Finished
            },
            r.after is Finished,
            dict_extended(old(dict).contents@, final(dict).contents@),
            forall|i: int|
                0 <= i < messages@.len() ==> final(dict).contents@.contains_key(
                    #[trigger] messages@[i].user,
                ),
    {
        let mut result = LoadedMessages::new(id);
        result.before = if more {
            LoadingState::Unloaded
        } else {
            LoadingState::Finished
        };
        let ghost all: Seq<LoadedMessage> = messages@;
        let mut messages = messages;
        let ghost dict0 = dict.contents@;
        proof {
            assert(all.skip(0) =~= all);
            assert(all.subrange(0, 0).reverse() =~= Seq::<LoadedMessage>::empty());
        }
        let total = messages.len();
        let mut i: usize = 0;
        while messages.len() > 0
            invariant
                messages@ == all.skip(i as int),
                i <= all.len(),
                all.len() == total,
                result.labels@ =~= all.subrange(0, i as int).reverse(),
                result.labels@.len() == i,
                result.current == if i == 0 { 0int } else { i - 1 },
                result.selected == if i == 0 { 0int } else { i - 1 },
                result.current_in_message == 0,
                result.id == id,
                result.before == if more {
                    LoadingState::Unloaded
                } else {
                    LoadingState::Finished
                },
                result.after is Finished,
                result.wf(),
                dict_extended(dict0, dict.contents@),
                dict_extended(old(dict).contents@, dict.contents@),
                forall|k: int|
                    0 <= k < i ==> dict.contents@.contains_key(#[trigger] all[k].user),
            decreases all.len() - i,
        {
            proof {
                assert(all.skip(i as int).len() > 0);
            }
            let line = messages.remove(0);
            proof {
                assert(line == all[i as int]);
                assert(all.skip(i as int).remove(0) =~= all.skip(i + 1));
            }
            result.add_complete(line, Some(0), dict);
            i = i + 1;
            proof {
                assert(all.subrange(0, i as int).reverse() =~= all.subrange(
                    0,
                    i - 1,
                ).reverse().insert(0, all[i - 1]));
            }
        }
        proof {
            assert(all.subrange(0, all.len() as int) =~= all);
        }
        result
    }

    pub fn flag(&mut self)
        ensures
            *final(self) == (LoadedMessages { flag: true, ..*old(self) }),
    {
        self.flag = true;
    }

    /// Inserts a finished entry.  `pos: None` appends at the tail; a
    /// position inserts there and shifts focus and selection when the
    /// insertion happens at or before them.  The author joins the
    /// dictionary if unknown, with a fresh default color.
    pub fn add_complete(&mut self, msg: LoadedMessage, pos: Option<usize>, dict: &mut UserDict)
        requires
            old(self).wf(),
            pos matches Some(p) ==> p <= old(self).labels@.len(),
        ensures
            final(self).wf(),
            final(self).flag,
            final(self).unread == old(self).unread,
            final(self).id == old(self).id,
            final(self).before == old(self).before,
            final(self).after == old(self).after,
            final(self).current_in_message == old(self).current_in_message,
            pos matches Some(p) ==> {
                &&& final(self).labels@ == old(self).labels@.insert(p as int, msg)
                &&& final(self).current == if old(self).labels@.len() > 0 {
                    crate::selection::shifted_on_insert(old(self).current as int, p as int)
                } else {
                    0int
                }
                &&& final(self).selected == if old(self).labels@.len() > 0 {
                    crate::selection::shifted_on_insert(old(self).selected as int, p as int)
                } else {
                    0int
                }
            },
            pos is None ==> {
                &&& final(self).labels@ == old(self).labels@.push(msg)
                &&& final(self).current == if old(self).labels@.len() >= 2 && old(self).current
                    == old(self).labels@.len() - 1 {
                    old(self).current + 1
                } else {
                    old(self).current as int
                }
                &&& final(self).selected == old(self).selected
            },
            dict_extended(old(dict).contents@, final(dict).contents@),
            final(dict).contents@.contains_key(msg.user),
            !old(dict).contents@.contains_key(msg.user) ==> {
                &&& final(dict).contents@[msg.user].name@ == msg.username@
                &&& final(dict).contents@[msg.user].color == (Color { red: 5, blue: 5, green: 5 })
            },
    {
        let bound_check = self.labels.len();
        proof {
            assert(self.labels@.len() == bound_check as int);
        }
        if !dict.contents.contains_key(&msg.user) {
            let name = msg.username.clone();
            dict.contents.insert(msg.user, UserInfo { name, color: Color::new() });
        }
        match pos {
            Some(p) => {
                if self.labels.len() > 0 {
                    if p <= self.current {
                        self.current = self.current + 1;
                    }
                    if p <= self.selected {
                        self.selected = self.selected + 1;
                    }
                }
                self.labels.insert(p, msg);
            },
            None => {
                self.labels.push(msg);
                if self.labels.len() > 2 && self.labels.len() - 2 == self.current {
                    self.current = self.current + 1;
                }
            },
        }
        self.flag = true;
    }

    /// Applies the result of a backward fetch: no entries means the
    /// history is exhausted; otherwise the entries, which arrive newest
    /// first, are placed in front of the cache and another backward page
    /// may be asked for later.
    pub fn receive_update(&mut self, dict: &mut UserDict, payload: Vec<LoadedMessage>)
        requires
            old(self).wf(),
        ensures
            final(self).wf(),
            final(self).after == old(self).after,
            final(self).id == old(self).id,
            final(self).unread == old(self).unread,
            final(self).current_in_message == old(self).current_in_message,
            payload@.len() == 0 ==> {
                &&& final(self).before is Finished
                &&& final(self).labels@ == old(self).labels@
                &&& final(self).current == old(self).current
                &&& final(self).selected == old(self).selected
            },
            payload@.len() > 0 ==> {
                &&& final(self).before is Unloaded
                &&& final(self).labels@ == payload@.reverse() + old(self).labels@
                &&& old(self).labels@.len() > 0 ==> final(self).current == old(self).current
                    + payload@.len() && final(self).selected == old(self).selected
                    + payload@.len()
                &&& old(self).labels@.len() == 0 ==> final(self).current == payload@.len() - 1
                    && final(self).selected == payload@.len() - 1
            },
            dict_extended(old(dict).contents@, final(dict).contents@),
    {
        if payload.len() == 0 {
            self.before = LoadingState::Finished;
            return ;
        }
        self.before = LoadingState::Unloaded;
        let ghost all: Seq<LoadedMessage> = payload@;
        let ghost labels0 = self.labels@;
        let ghost current0 = self.current as int;
        let ghost selected0 = self.selected as int;
        let mut payload = payload;
        let total = payload.len();
        let mut i: usize = 0;
        proof {
            assert(all.skip(0) =~= all);
            assert(all.subrange(0, 0).reverse() + labels0 =~= labels0);
        }
        while payload.len() > 0
            invariant
                payload@ == all.skip(i as int),
                i <= all.len(),
                all.len() == total,
                self.labels@ =~= all.subrange(0, i as int).reverse() + labels0,
                labels0.len() > 0 ==> self.current == current0 + i && self.selected == selected0
                    + i,
                labels0.len() == 0 ==> self.current == (if i == 0 { 0int } else { i - 1 })
                    && self.selected == (if i == 0 { 0int } else { i - 1 }),
                self.wf(),
                labels0.len() > 0 ==> current0 < labels0.len() && selected0 < labels0.len(),
                labels0.len() == 0 ==> current0 == 0 && selected0 == 0,
                self.before is Unloaded,
                self.after == old(self).after,
                self.id == old(self).id,
                self.unread == old(self).unread,
                self.current_in_message == old(self).current_in_message,
                dict_extended(old(dict).contents@, dict.contents@),
            decreases all.len() - i,
        {
            proof {
                assert(all.skip(i as int).len() > 0);
            }
            let msg = payload.remove(0);
            proof {
                assert(msg == all[i as int]);
                assert(all.skip(i as int).remove(0) =~= all.skip(i + 1));
            }
            self.add_complete(msg, Some(0), dict);
            i = i + 1;
            proof {
                assert(all.subrange(0, i as int).reverse() + labels0 =~= (all.subrange(
                    0,
                    i - 1,
                ).reverse() + labels0).insert(0, all[i - 1]));
            }
        }
        proof {
            assert(all.subrange(0, all.len() as int) =~= all);
        }
    }

    /// Applies the result of a forward fetch: no entries means the tail
    /// is complete; otherwise the entries are appended and more may
    /// exist.
    pub fn receive_update_after(&mut self, dict: &mut UserDict, payload: Vec<LoadedMessage>)
        requires
            old(self).wf(),
        ensures
            final(self).wf(),
            final(self).before == old(self).before,
            final(self).id == old(self).id,
            final(self).unread == old(self).unread,
            final(self).selected == old(self).selected,
            final(self).current_in_message == old(self).current_in_message,
            payload@.len() == 0 ==> {
                &&& final(self).after is Finished
                &&& final(self).labels@ == old(self).labels@
                &&& final(self).current == old(self).current
            },
            payload@.len() > 0 ==> {
                &&& final(self).after is Unloaded
                &&& final(self).labels@ == old(self).labels@ + payload@
            },
            dict_extended(old(dict).contents@, final(dict).contents@),
    {
        if payload.len() == 0 {
            self.after = LoadingState::Finished;
            return ;
        }
        self.after = LoadingState::Unloaded;
        let ghost all: Seq<LoadedMessage> = payload@;
        let ghost labels0 = self.labels@;
        let mut payload = payload;
        let total = payload.len();
        let mut i: usize = 0;
        proof {
            assert(all.skip(0) =~= all);
            assert(labels0 + all.subrange(0, 0) =~= labels0);
        }
        while payload.len() > 0
            invariant
                payload@ == all.skip(i as int),
                i <= all.len(),
                all.len() == total,
                self.labels@ =~= labels0 + all.subrange(0, i as int),
                self.wf(),
                self.selected == old(self).selected,
                self.current_in_message == old(self).current_in_message,
                self.before == old(self).before,
                self.after is Unloaded,
                self.id == old(self).id,
                self.unread == old(self).unread,
                dict_extended(old(dict).contents@, dict.contents@),
            decreases all.len() - i,
        {
            proof {
                assert(all.skip(i as int).len() > 0);
            }
            let msg = payload.remove(0);
            proof {
                assert(msg == all[i as int]);
                assert(all.skip(i as int).remove(0) =~= all.skip(i + 1));
            }
            self.add_complete(msg, None, dict);
            i = i + 1;
            proof {
                assert(labels0 + all.subrange(0, i as int) =~= (labels0 + all.subrange(0, i - 1)).push(
                    all[i - 1],
                ));
            }
        }
        proof {
            assert(all.subrange(0, all.len() as int) =~= all);
        }
    }

    /// Asks for the next backward page when one may exist and no fetch
    /// is running in either direction.
    pub fn update(&mut self) -> (r: Option<Task>)
        requires
            old(self).wf(),
            old(self).before is Unloaded ==> old(self).labels@.len() > 0,
        ensures
            final(self).wf(),
            old(self).before is Unloaded && !(old(self).after is Loading) ==> {
                &&& r == Some(Task::GetMessagesBefore(old(self).id, old(self).labels@[0].id))
                &&& *final(self) == (LoadedMessages { before: LoadingState::Loading, ..*old(self) })
            },
            !(old(self).before is Unloaded && !(old(self).after is Loading)) ==> r is None
                && *final(self) == *old(self),
    {
        if matches!(self.before, LoadingState::Unloaded) && !matches!(
            self.after,
            LoadingState::Loading,
        ) {
            let id = self.labels[0].id;
            self.before = LoadingState::Loading;
            Some(Task::GetMessagesBefore(self.id, id))
        } else {
            None
        }
    }

    /// Takes in a live message.  While a fetch is running, or while
    /// unseen newer history may exist, the message is not applied;
    /// instead it comes back as a delayed task, preceded — when newer
    /// history may exist — by the forward fetch that establishes
    /// contiguity.  Only a channel whose tail is complete and whose
    /// backward fetch is not in flight applies the message directly.
    pub fn receive_message(&mut self, dict: &mut UserDict, msg: RawMessage) -> (r: Vec<Task>)
        requires
            old(self).wf(),
        ensures
            final(self).wf(),
            final(self).id == old(self).id,
            old(self).before is Loading ==> {
                &&& r@ =~= seq![Task::Kick(Response::Message(msg), KICK_DELAY_MS as u64)]
                &&& *final(self) == *old(self)
            },
            !(old(self).before is Loading) && old(self).after is Finished ==> {
                &&& final(self).labels@.len() == old(self).labels@.len() + 1
                &&& loaded_from(final(self).labels@.last(), msg)
                &&& final(self).labels@.drop_last() == old(self).labels@
                &&& r@ == spec_downloads(msg.attachments@)
                &&& final(self).before == old(self).before
                &&& final(self).after == old(self).after
            },
            !(old(self).before is Loading) && old(self).after is Unloaded ==> {
                &&& r@ =~= seq![
                    Task::GetMessagesAfter(
                        old(self).id,
                        if old(self).labels@.len() > 0 {
                            old(self).labels@.last().id
                        } else {
                            0u64
                        },
                    ),
                    Task::Kick(Response::Message(msg), KICK_DELAY_MS as u64),
                ]
                &&& final(self).labels@ == old(self).labels@
                &&& final(self).after is Loading
                &&& final(self).before == old(self).before
            },
            !(old(self).before is Loading) && old(self).after is Loading ==> {
                &&& r@ =~= seq![Task::Kick(Response::Message(msg), KICK_DELAY_MS as u64)]
                &&& *final(self) == *old(self)
            },
            dict_extended(old(dict).contents@, final(dict).contents@),
    {
        let mut r: Vec<Task> = Vec::new();
        if matches!(self.before, LoadingState::Loading) {
            r.push(Task::Kick(Response::Message(msg), KICK_DELAY_MS));
            return r;
        }
        match self.after {
            LoadingState::Finished => {
                let loaded = LoadedMessage::from_message(msg, &mut r);
                self.add_complete(loaded, None, dict);
                proof {
                    assert(self.labels@.drop_last() =~= old(self).labels@);
                }
            },
            LoadingState::Unloaded => {
                let cursor: u64 = if self.labels.len() > 0 {
                    self.labels[self.labels.len() - 1].id
                } else {
                    0
                };
                r.push(Task::GetMessagesAfter(self.id, cursor));
                r.push(Task::Kick(Response::Message(msg), KICK_DELAY_MS));
                self.after = LoadingState::Loading;
            },
            LoadingState::Loading => {
                r.push(Task::Kick(Response::Message(msg), KICK_DELAY_MS));
            },
        }
        r
    }

    /// Rows the entry at `pos` occupies on screen.
    pub fn count(&self, grid: &Grid, pos: usize) -> (r: usize)
        requires
            grid.wf(),
            pos < self.labels@.len(),
            spec_msg_rows(self.labels@[pos as int], grid.spec_len_messages()) <= usize::MAX,
        ensures
            r == spec_msg_rows(self.labels@[pos as int], grid.spec_len_messages()),
            r >= 1,
    {
        let w = grid.len_messages();
        let msg = &self.labels[pos];
        let ghost lines: Seq<Seq<char>> = msg.content.content@.map_values(|s: String| s@);
        let mut rows: usize = 1;
        let mut i: usize = 0;
        proof {
            assert(lines.subrange(0, 0) =~= Seq::<Seq<char>>::empty());
            lemma_lines_rows_prefix(lines, w as int, 0);
        }
        while i < msg.content.content.len()
            invariant
                grid.wf(),
                w == grid.spec_len_messages(),
                pos < self.labels@.len(),
                msg == self.labels@[pos as int],
                lines == msg.content.content@.map_values(|s: String| s@),
                i <= lines.len(),
                rows == 1 + spec_lines_rows(lines.subrange(0, i as int), w as int),
                spec_msg_rows(self.labels@[pos as int], grid.spec_len_messages()) <= usize::MAX,
            decreases lines.len() - i,
        {
            let line = &msg.content.content[i];
            let line_len = line.as_str().unicode_len();
            let ghost pre = lines.subrange(0, i as int);
            proof {
                lemma_lines_rows_prefix(lines, w as int, i + 1);
                lemma_lines_rows_bounds(lines.subrange(0, i + 1), w as int);
                assert(lines.subrange(0, i + 1).drop_last() =~= pre);
                assert(lines.subrange(0, i + 1).last() == lines[i as int]);
                assert(spec_lines_rows(lines, w as int) <= spec_msg_rows(
                    self.labels@[pos as int],
                    grid.spec_len_messages(),
                ) - 1);
            }
            if line_len == 0 {
                rows = rows + 1;
            } else {
                rows = rows + ((line_len - 1) / w + 1);
            }
            i = i + 1;
        }
        proof {
            assert(lines.subrange(0, lines.len() as int) =~= lines);
        }
        rows + msg.content.attachments.len()
    }

    /// Moves the focus one row up, crossing into the previous entry's
    /// last row at an entry boundary.  An out-of-range in-entry row is
    /// first clamped to the focused entry's last row.
    pub fn up(&mut self, grid: &Grid)
        requires
            old(self).wf(),
            grid.wf(),
            old(self).labels@.len() > 0,
            forall|k: int|
                0 <= k < old(self).labels@.len() ==> spec_msg_rows(
                    #[trigger] old(self).labels@[k],
                    grid.spec_len_messages(),
                ) <= usize::MAX,
        ensures
            final(self).wf(),
            final(self).labels@ == old(self).labels@,
            final(self).selected == old(self).selected,
            ({
                let cap = spec_msg_rows(
                    old(self).labels@[old(self).current as int],
                    grid.spec_len_messages(),
                ) - 1;
                let cim = if old(self).current_in_message > cap {
                    cap
                } else {
                    old(self).current_in_message as int
                };
                if cim > 0 {
                    final(self).current == old(self).current && final(self).current_in_message
                        == cim - 1
                } else if old(self).current > 0 {
                    &&& final(self).current == old(self).current - 1
                    &&& final(self).current_in_message == spec_msg_rows(
                        old(self).labels@[old(self).current - 1],
                        grid.spec_len_messages(),
                    ) - 1
                } else {
                    final(self).current == old(self).current && final(self).current_in_message
                        == cim
                }
            }),
    {
        let cap_len = self.count(grid, self.current) - 1;
        if self.current_in_message > cap_len {
            self.current_in_message = cap_len;
        }
        if self.current_in_message > 0 {
            self.current_in_message = self.current_in_message - 1;
            self.flag = true;
        } else if self.current > 0 {
            self.current = self.current - 1;
            self.current_in_message = self.count(grid, self.current) - 1;
            self.flag = true;
        }
    }

    /// Moves the focus one row down, crossing into the next entry's
    /// first row at an entry boundary.
    pub fn down(&mut self, grid: &Grid)
        requires
            old(self).wf(),
            grid.wf(),
            old(self).labels@.len() > 0,
            spec_msg_rows(
                old(self).labels@[old(self).current as int],
                grid.spec_len_messages(),
            ) <= usize::MAX,
        ensures
            final(self).wf(),
            final(self).labels@ == old(self).labels@,
            final(self).selected == old(self).selected,
            ({
                let cap = spec_msg_rows(
                    old(self).labels@[old(self).current as int],
                    grid.spec_len_messages(),
                ) - 1;
                if old(self).current_in_message < cap {
                    final(self).current == old(self).current && final(self).current_in_message
                        == old(self).current_in_message + 1
                } else if old(self).current < old(self).labels@.len() - 1 {
                    &&& final(self).current == old(self).current + 1
                    &&& final(self).current_in_message == 0
                } else {
                    final(self).current == old(self).current && final(self).current_in_message
                        == old(self).current_in_message
                }
            }),
    {
        if self.current_in_message < self.count(grid, self.current) - 1 {
            self.current_in_message = self.current_in_message + 1;
            self.flag = true;
        } else if self.current < self.labels.len() - 1 {
            self.current = self.current + 1;
            self.current_in_message = 0;
            self.flag = true;
        }
    }

    /// Moves the focus one whole entry up.
    pub fn shift_up(&mut self)
        requires
            old(self).wf(),
        ensures
            final(self).wf(),
            final(self).labels@ == old(self).labels@,
            final(self).selected == old(self).selected,
            final(self).current == if old(self).current > 0 {
                old(self).current - 1
            } else {
                0int
            },
    {
        if self.current > 0 {
            self.current = self.current - 1;
            self.flag = true;
        }
    }

    /// Moves the focus one whole entry down.
    pub fn shift_down(&mut self)
        requires
            old(self).wf(),
            old(self).labels@.len() > 0,
        ensures
            final(self).wf(),
            final(self).labels@ == old(self).labels@,
            final(self).selected == old(self).selected,
            final(self).current == if old(self).current < old(self).labels@.len() - 1 {
                old(self).current + 1
            } else {
                old(self).current as int
            },
    {
        if self.current < self.labels.len() - 1 {
            self.current = self.current + 1;
            self.flag = true;
        }
    }

    /// Jumps to the first row of the first entry.
    pub fn ctrl_up(&mut self)
        ensures
            *final(self) == (LoadedMessages {
                current: 0,
                current_in_message: 0,
                ..*old(self)
            }),
    {
        self.current = 0;
        self.current_in_message = 0;
    }

    /// Jumps to the last row of the last entry.
    pub fn ctrl_down(&mut self, grid: &Grid)
        requires
            old(self).wf(),
            grid.wf(),
            old(self).labels@.len() > 0,
            spec_msg_rows(
                old(self).labels@[old(self).labels@.len() - 1],
                grid.spec_len_messages(),
            ) <= usize::MAX,
        ensures
            final(self).wf(),
            final(self).labels@ == old(self).labels@,
            final(self).current == old(self).labels@.len() - 1,
            final(self).current_in_message == spec_msg_rows(
                old(self).labels@[old(self).labels@.len() - 1],
                grid.spec_len_messages(),
            ) - 1,
    {
        self.current = self.labels.len() - 1;
        self.current_in_message = self.count(grid, self.current) - 1;
    }

    /// Commits the focus.
    pub fn select(&mut self)
        requires
            old(self).wf(),
        ensures
            final(self).wf(),
            *final(self) == (LoadedMessages {
                selected: old(self).current,
                flag: true,
                ..*old(self)
            }),
    {
        self.selected = self.current;
        self.flag = true;
    }

    /// Returns the focus to the committed entry.
    pub fn back(&mut self)
        requires
            old(self).wf(),
        ensures
            final(self).wf(),
            *final(self) == (LoadedMessages {
                current: old(self).selected,
                flag: true,
                ..*old(self)
            }),
    {
        self.current = self.selected;
        self.flag = true;
    }

    /// Marks the first unread position.
    pub fn mark(&mut self, pos: usize)
        ensures
            *final(self) == (LoadedMessages { unread: pos, flag: true, ..*old(self) }),
    {
        self.unread = pos;
        self.flag = true;
    }

    /// Steps the focused entry's author color toward red.
    pub fn red(&mut self, dict: &mut UserDict)
        requires
            old(self).wf(),
            old(self).labels@.len() > 0,
            old(dict).contents@.contains_key(
                old(self).labels@[old(self).current as int].user,
            ),
            old(dict).contents@[old(self).labels@[old(self).current as int].user].color.wf(),
        ensures
            final(self).wf(),
            *final(self) == (LoadedMessages { flag: true, ..*old(self) }),
            crate::message::recolored(
                old(dict).contents@,
                final(dict).contents@,
                old(self).labels@[old(self).current as int].user,
            ),
    {
        self.flag = true;
        let v = &self.labels[self.current];
        v.red(dict);
    }

    /// Steps the focused entry's author color toward blue.
    pub fn blue(&mut self, dict: &mut UserDict)
        requires
            old(self).wf(),
            old(self).labels@.len() > 0,
            old(dict).contents@.contains_key(
                old(self).labels@[old(self).current as int].user,
            ),
            old(dict).contents@[old(self).labels@[old(self).current as int].user].color.wf(),
        ensures
            final(self).wf(),
            *final(self) == (LoadedMessages { flag: true, ..*old(self) }),
            crate::message::recolored(
                old(dict).contents@,
                final(dict).contents@,
                old(self).labels@[old(self).current as int].user,
            ),
    {
        self.flag = true;
        let v = &self.labels[self.current];
        v.blue(dict);
    }

    /// Steps the focused entry's author color toward green.
    pub fn green(&mut self, dict: &mut UserDict)
        requires
            old(self).wf(),
            old(self).labels@.len() > 0,
            old(dict).contents@.contains_key(
                old(self).labels@[old(self).current as int].user,
            ),
            old(dict).contents@[old(self).labels@[old(self).current as int].user].color.wf(),
        ensures
            final(self).wf(),
            *final(self) == (LoadedMessages { flag: true, ..*old(self) }),
            crate::message::recolored(
                old(dict).contents@,
                final(dict).contents@,
                old(self).labels@[old(self).current as int].user,
            ),
    {
        self.flag = true;
        let v = &self.labels[self.current];
        v.green(dict);
    }

    /// All display rows of the entry at `pos`: the styled author line,
    /// the wrapped text lines, then the attachment names.
    pub fn message_rows(&self, pos: usize, grid: &Grid, dict: &UserDict, now: &Stamp) -> (r: Vec<
        String,
    >)
        requires
            grid.wf(),
            pos < self.labels@.len(),
            dict.contents@.contains_key(self.labels@[pos as int].user),
            dict.contents@[self.labels@[pos as int].user].color.wf(),
            self.labels@[pos as int].content.time.wf(),
            now.wf(),
        ensures
            r.deep_view() == spec_message_rows(
                self.labels@[pos as int],
                grid.spec_len_messages(),
                dict.contents@,
                *now,
            ),
            r@.len() >= 1,
    {
        let w = grid.len_messages();
        let msg = &self.labels[pos];
        let user_line = msg.user(dict, w, now);
        let ghost pieces: Seq<Seq<char>> = spec_message_pieces(
            self.labels@[pos as int],
            user_line@,
        );
        let mut rows: Vec<String> = piece_rows(user_line.as_str(), w);
        proof {
            assert(pieces.take(1).drop_last() =~= Seq::<Seq<char>>::empty());
            assert(pieces[0] =~= user_line@);
            assert(pieces.take(1).last() =~= user_line@);
            assert(spec_pieces_rows(Seq::<Seq<char>>::empty(), w as int)
                =~= Seq::<Seq<char>>::empty());
            assert(rows.deep_view() =~= spec_pieces_rows(pieces.take(1), w as int));
        }
        let nc = msg.content.content.len();
        let mut i: usize = 0;
        while i < nc
            invariant
                grid.wf(),
                w == grid.spec_len_messages(),
                pos < self.labels@.len(),
                msg == self.labels@[pos as int],
                nc == msg.content.content@.len(),
                pieces == spec_message_pieces(self.labels@[pos as int], user_line@),
                i <= nc,
                rows.deep_view() == spec_pieces_rows(pieces.take(1 + i), w as int),
                rows@.len() >= 1,
            decreases nc - i,
        {
            let mut pr = piece_rows(msg.content.content[i].as_str(), w);
            proof {
                assert(pieces.take(1 + i + 1).drop_last() =~= pieces.take(1 + i));
                assert(pieces.take(1 + i + 1).last() == msg.content.content@[i as int]@);
            }
            rows.append(&mut pr);
            i = i + 1;
            proof {
                assert(rows.deep_view() =~= spec_pieces_rows(pieces.take(1 + i), w as int));
            }
        }
        let na = msg.content.attachments.len();
        let mut j: usize = 0;
        while j < na
            invariant
                grid.wf(),
                w == grid.spec_len_messages(),
                pos < self.labels@.len(),
                msg == self.labels@[pos as int],
                nc == msg.content.content@.len(),
                na == msg.content.attachments@.len(),
                pieces == spec_message_pieces(self.labels@[pos as int], user_line@),
                j <= na,
                rows.deep_view() == spec_pieces_rows(pieces.take(1 + nc + j), w as int),
                rows@.len() >= 1,
            decreases na - j,
        {
            let mut pr = piece_rows(msg.content.attachments[j].as_str(), w);
            proof {
                assert(pieces.take(1 + nc + j + 1).drop_last() =~= pieces.take(1 + nc + j));
                assert(pieces.take(1 + nc + j + 1).last() == msg.content.attachments@[j as int]@);
            }
            rows.append(&mut pr);
            j = j + 1;
            proof {
                assert(rows.deep_view() =~= spec_pieces_rows(pieces.take(1 + nc + j), w as int));
            }
        }
        proof {
            assert(pieces.take(1 + nc + na) =~= pieces);
        }
        rows
    }

    /// The display rows of the entries around the focus — the window of
    /// whole entries that `window_start` picks for the focused entry —
    /// together with the focused row's index in that sequence and the
    /// index of the committed entry's first row (or the `usize`
    /// maximum when the committed entry lies outside the window).
    pub fn layout(&self, grid: &Grid, dict: &UserDict, now: &Stamp) -> (r: (
        Vec<String>,
        usize,
        usize,
    ))
        requires
            self.wf(),
            grid.wf(),
            grid.start_y <= grid.border_y,
            grid.border_y - grid.start_y >= 1,
            self.labels@.len() > 0,
            forall|k: int|
                0 <= k < self.labels@.len() ==> dict.contents@.contains_key(
                    (#[trigger] self.labels@[k]).user,
                ) && dict.contents@[self.labels@[k].user].color.wf()
                    && self.labels@[k].content.time.wf(),
            now.wf(),
        ensures
            ({
                let h = (grid.border_y - grid.start_y) as int;
                let n = self.labels@.len() as int;
                let w = grid.spec_len_messages();
                let start = spec_window_start(n, self.current as int, h);
                let end = start + vstd::math::min(h, n);
                let own = spec_message_rows(
                    self.labels@[self.current as int],
                    w,
                    dict.contents@,
                    *now,
                );
                &&& r.0.deep_view() == spec_rows_range(
                    self.labels@,
                    start,
                    end,
                    w,
                    dict.contents@,
                    *now,
                )
                &&& r.1 == spec_rows_range(self.labels@, start, self.current as int, w,
                dict.contents@, *now).len() + (if self.current_in_message < own.len() {
                    self.current_in_message as int
                } else {
                    own.len() - 1
                })
                &&& (start <= self.selected < end ==> r.2 == spec_rows_range(
                    self.labels@,
                    start,
                    self.selected as int,
                    w,
                    dict.contents@,
                    *now,
                ).len())
                &&& (!(start <= self.selected < end) ==> r.2 == usize::MAX)
            }),
    {
        let h = grid.height();
        let n = self.labels.len();
        let start = window_start(n, self.current, h);
        let span: usize = if h < n {
            h
        } else {
            n
        };
        let ghost endg = start + span;
        proof {
            lemma_window_start_bounds(n as int, self.current as int, h as int);
        }
        let mut rows: Vec<String> = Vec::new();
        let mut hover: usize = usize::MAX;
        let mut selected_pos: usize = usize::MAX;
        let mut i: usize = start;
        proof {
            assert(rows.deep_view() =~= spec_rows_range(
                self.labels@,
                start as int,
                start as int,
                grid.spec_len_messages(),
                dict.contents@,
                *now,
            ));
        }
        while i < start + span
            invariant
                self.wf(),
                grid.wf(),
                now.wf(),
                forall|k: int|
                    0 <= k < self.labels@.len() ==> dict.contents@.contains_key(
                        (#[trigger] self.labels@[k]).user,
                    ) && dict.contents@[self.labels@[k].user].color.wf()
                        && self.labels@[k].content.time.wf(),
                n == self.labels@.len(),
                start == spec_window_start(n as int, self.current as int, h as int),
                start + span == endg,
                endg <= n,
                start <= i <= endg,
                rows.deep_view() == spec_rows_range(
                    self.labels@,
                    start as int,
                    i as int,
                    grid.spec_len_messages(),
                    dict.contents@,
                    *now,
                ),
                rows@.len() == rows.deep_view().len(),
                i <= self.current ==> hover == usize::MAX,
                self.current < i ==> hover == spec_rows_range(self.labels@, start as int,
                self.current as int, grid.spec_len_messages(), dict.contents@, *now).len() + (
                if self.current_in_message < spec_message_rows(
                    self.labels@[self.current as int],
                    grid.spec_len_messages(),
                    dict.contents@,
                    *now,
                ).len() {
                    self.current_in_message as int
                } else {
                    spec_message_rows(
                        self.labels@[self.current as int],
                        grid.spec_len_messages(),
                        dict.contents@,
                        *now,
                    ).len() - 1
                }),
                (start <= self.selected && self.selected < i) ==> selected_pos
                    == spec_rows_range(self.labels@, start as int, self.selected as int,
                grid.spec_len_messages(), dict.contents@, *now).len(),
                !(start <= self.selected && self.selected < i) ==> selected_pos == usize::MAX,
            decreases endg - i,
        {
            let base = rows.len();
            let mut mr = self.message_rows(i, grid, dict, now);
            let mr_len = mr.len();
            rows.append(&mut mr);
            let total_now = rows.len();
            proof {
                assert(base + mr_len == total_now);
                assert(rows.deep_view() =~= spec_rows_range(
                    self.labels@,
                    start as int,
                    i + 1,
                    grid.spec_len_messages(),
                    dict.contents@,
                    *now,
                ));
            }
            if i == self.current {
                hover = base + (if self.current_in_message < mr_len {
                    self.current_in_message
                } else {
                    mr_len - 1
                });
            }
            if i == self.selected {
                selected_pos = base;
            }
            i = i + 1;
        }
        (rows, hover, selected_pos)
    }

    /// The prefetch trigger of the draw pass: when the focus sits within
    /// half a viewport of the oldest loaded entry, the next backward
    /// page is asked for, under `update`'s own conditions.
    pub fn draw_prefetch(&mut self, grid: &Grid) -> (r: Option<Task>)
        requires
            old(self).wf(),
            grid.wf(),
            grid.start_y <= grid.border_y,
            old(self).before is Unloaded ==> old(self).labels@.len() > 0,
        ensures
            final(self).wf(),
            old(self).current < (grid.border_y - grid.start_y) / 2 ==> {
                if old(self).before is Unloaded && !(old(self).after is Loading) {
                    r == Some(Task::GetMessagesBefore(old(self).id, old(self).labels@[0].id))
                        && *final(self) == (LoadedMessages {
                        before: LoadingState::Loading,
                        ..*old(self)
                    })
                } else {
                    r is None && *final(self) == *old(self)
                }
            },
            old(self).current >= (grid.border_y - grid.start_y) / 2 ==> r is None && *final(self)
                == *old(self),
    {
        if self.current < grid.height() / 2 {
            self.update()
        } else {
            None
        }
    }

    /// Which attachment the focused row points at, if the focused entry
    /// has any: rows past the text map onto the attachment list, clamped
    /// to its ends.
    pub fn attachment_pos(&self, grid: &Grid) -> (r: Option<usize>)
        requires
            self.wf(),
            grid.wf(),
            self.labels@.len() > 0,
            spec_msg_rows(
                self.labels@[self.current as int],
                grid.spec_len_messages(),
            ) <= usize::MAX,
            self.current_in_message + self.labels@[self.current as int].content.attachment_url@.len()
                <= usize::MAX,
        ensures
            ({
                let l = self.labels@[self.current as int].content.attachment_url@.len();
                let total = spec_msg_rows(
                    self.labels@[self.current as int],
                    grid.spec_len_messages(),
                );
                if l == 0 {
                    r is None
                } else {
                    r == Some(
                        (if self.current_in_message + l >= total {
                            if self.current_in_message + l - total < l - 1 {
                                self.current_in_message + l - total
                            } else {
                                l - 1
                            }
                        } else {
                            0int
                        }) as usize,
                    )
                }
            }),
    {
        let len = self.labels[self.current].content.attachment_url.len();
        if len == 0 {
            None
        } else {
            let total = self.count(grid, self.current);
            let base: usize = if self.current_in_message + len >= total {
                self.current_in_message + len - total
            } else {
                0
            };
            let capped: usize = if base < len - 1 {
                base
            } else {
                len - 1
            };
            Some(capped)
        }
    }
}

/// What taking in one live message does to a channel slot, and which
/// tasks it hands back: a slot never asked for starts its initial fetch
/// and defers the message; a loading slot only defers it; a cached
/// conversation defers while any fetch is in flight, starts the forward
/// fetch when newer history may be unseen, and appends directly only
/// when its tail is complete.
pub open spec fn live_step(old_slot: Messages, new_slot: Messages, msg: RawMessage, r: Seq<
    Task,
>) -> bool {
    match old_slot {
        Messages::Unloaded(ch) => {
            &&& r =~= seq![
                Task::GetNewMessages(ch),
                Task::Kick(Response::Message(msg), KICK_DELAY_MS as u64),
            ]
            &&& new_slot == Messages::Loading(ch)
        },
        Messages::Loading(_) => {
            &&& r =~= seq![Task::Kick(Response::Message(msg), KICK_DELAY_MS as u64)]
            &&& new_slot == old_slot
        },
        Messages::Loaded(v) => new_slot matches Messages::Loaded(st) && {
            &&& st.id == v.id
            &&& v.before is Loading ==> r =~= seq![
                Task::Kick(Response::Message(msg), KICK_DELAY_MS as u64),
            ] && st == v
            &&& !(v.before is Loading) && v.after is Finished ==> {
                &&& st.labels@.len() == v.labels@.len() + 1
                &&& loaded_from(st.labels@.last(), msg)
                &&& st.labels@.drop_last() == v.labels@
                &&& r == spec_downloads(msg.attachments@)
                &&& st.before == v.before
                &&& st.after == v.after
            }
            &&& !(v.before is Loading) && v.after is Unloaded ==> {
                &&& r =~= seq![
                    Task::GetMessagesAfter(
                        v.id,
                        if v.labels@.len() > 0 {
                            v.labels@.last().id
                        } else {
                            0u64
                        },
                    ),
                    Task::Kick(Response::Message(msg), KICK_DELAY_MS as u64),
                ]
                &&& st.labels@ == v.labels@
                &&& st.after is Loading
                &&& st.before == v.before
            }
            &&& !(v.before is Loading) && v.after is Loading ==> r =~= seq![
                Task::Kick(Response::Message(msg), KICK_DELAY_MS as u64),
            ] && st == v
        },
        Messages::Nonexistent => true,
    }
}

/// A channel's conversation as the tree holds it: not yet asked for,
/// being fetched for the first time, cached, or a placeholder slot.
pub enum Messages {
    Unloaded(ChannelRef),
    Loading(ChannelRef),
    Loaded(LoadedMessages),
    Nonexistent,
}

impl Messages {
    pub open spec fn wf(&self) -> bool {
        match self {
            Messages::Loaded(v) => v.wf(),
            _ => true,
        }
    }

    /// The channel this slot belongs to, when it has one.
    pub open spec fn spec_id(&self) -> Option<ChannelRef> {
        match self {
            Messages::Unloaded(v) => Some(*v),
            Messages::Loading(v) => Some(*v),
            Messages::Loaded(v) => Some(v.id),
            Messages::Nonexistent => None,
        }
    }

    pub fn new() -> (r: Messages)
        ensures
            r is Nonexistent,
    {
        Messages::Nonexistent
    }

    pub fn with_channel(ch: ChannelRef) -> (r: Messages)
        ensures
            r == Messages::Unloaded(ch),
    {
        Messages::Unloaded(ch)
    }

    pub fn flag(&mut self)
        ensures
            *old(self) matches Messages::Loaded(v) ==> *final(self) == Messages::Loaded(
                LoadedMessages { flag: true, ..v },
            ),
            !(*old(self) is Loaded) ==> *final(self) == *old(self),
    {
        match self {
            Messages::Loaded(val) => val.flag(),
            _ => {},
        }
    }

    pub fn id(&self) -> (r: Option<ChannelRef>)
        ensures
            r == self.spec_id(),
    {
        match self {
            Messages::Unloaded(val) => Some(*val),
            Messages::Loading(val) => Some(*val),
            Messages::Loaded(val) => Some(val.id),
            Messages::Nonexistent => None,
        }
    }

    /// First focus of a channel never asked for: issues the initial
    /// fetch and marks the slot as loading.
    pub fn update(&mut self) -> (r: Option<Task>)
        ensures
            *old(self) matches Messages::Unloaded(v) ==> r == Some(Task::GetNewMessages(v))
                && *final(self) == Messages::Loading(v),
            !(*old(self) is Unloaded) ==> r is None && *final(self) == *old(self),
    {
        let ch_opt = match &*self {
            Messages::Unloaded(v) => Some(*v),
            _ => None,
        };
        match ch_opt {
            Some(ch) => {
                *self = Messages::Loading(ch);
                Some(Task::GetNewMessages(ch))
            },
            None => None,
        }
    }

    /// Makes sure newer entries past the cached tail will be fetched.
    /// Returns whether the slot needs no further call for now — true
    /// when a fetch was just issued or the slot holds no cache at all —
    /// together with the fetch to submit.  The cursor is the newest
    /// locally-known entry.
    pub fn update_to_end(&mut self) -> (r: (bool, Option<Task>))
        requires
            old(self).wf(),
        ensures
            final(self).wf(),
            ({
                match *old(self) {
                    Messages::Loaded(v) => {
                        if v.after is Unloaded && !(v.before is Loading) {
                            &&& r.0 == true
                            &&& r.1 == Some(
                                Task::GetMessagesAfter(
                                    v.id,
                                    if v.labels@.len() > 0 {
                                        v.labels@.last().id
                                    } else {
                                        0u64
                                    },
                                ),
                            )
                            &&& *final(self) == Messages::Loaded(
                                LoadedMessages { after: LoadingState::Loading, ..v },
                            )
                        } else {
                            &&& r.0 == false
                            &&& r.1 is None
                            &&& *final(self) == *old(self)
                        }
                    },
                    _ => r.0 == true && r.1 is None && *final(self) == *old(self),
                }
            }),
    {
        match self {
            Messages::Loaded(v) => {
                if matches!(v.after, LoadingState::Unloaded) && !matches!(
                    v.before,
                    LoadingState::Loading,
                ) {
                    let message_id: u64 = if v.labels.len() > 0 {
                        v.labels[v.labels.len() - 1].id
                    } else {
                        0
                    };
                    let ch = v.id;
                    v.after = LoadingState::Loading;
                    (true, Some(Task::GetMessagesAfter(ch, message_id)))
                } else {
                    (false, None)
                }
            },
            _ => (true, None),
        }
    }

    /// The cached conversation; the slot must hold one.
    pub fn assume_loaded(&mut self) -> (r: &mut LoadedMessages)
        requires
            *old(self) is Loaded,
        ensures
            *r == (*old(self))->Loaded_0,
            *final(self) == Messages::Loaded(*final(r)),
    {
        match self {
            Messages::Loaded(val) => val,
            _ => vstd::pervasive::unreached(),
        }
    }

    /// The initial fetch came back: the slot becomes a cached
    /// conversation built from the fetched page.
    pub fn receive_new(
        &mut self,
        dict: &mut UserDict,
        messages: Vec<LoadedMessage>,
        more: bool,
    )
        requires
            old(self).wf(),
        ensures
            final(self).wf(),
            dict_extended(old(dict).contents@, final(dict).contents@),
            *old(self) matches Messages::Loading(ch) ==> {
                &&& *final(self) matches Messages::Loaded(st)
                &&& st.id == ch
                &&& st.labels@ == messages@.reverse()
                &&& st.before == if more {
                    LoadingState::Unloaded
                } else {
                    LoadingState::Finished
                }
                &&& st.after is Finished
            },
            !(*old(self) is Loading) ==> *final(self) == *old(self) && *final(dict) == *old(dict),
    {
        let ch_opt = match &*self {
            Messages::Loading(v) => Some(*v),
            _ => None,
        };
        match ch_opt {
            Some(ch) => {
                *self = Messages::Loaded(
                    LoadedMessages::with_finished_messages(ch, messages, more, dict),
                );
            },
            None => {},
        }
    }

    /// A live message arrived for this channel.  A slot never asked for
    /// starts its initial fetch and defers the message; a loading slot
    /// only defers it; a cached conversation follows its own rules.
    pub fn receive_message(&mut self, dict: &mut UserDict, msg: RawMessage) -> (r: Vec<Task>)
        requires
            old(self).wf(),
            !(*old(self) is Nonexistent),
        ensures
            final(self).wf(),
            dict_extended(old(dict).contents@, final(dict).contents@),
            live_step(*old(self), *final(self), msg, r@),
    {
        let ch_opt = match &*self {
            Messages::Unloaded(v) => Some(*v),
            _ => None,
        };
        if let Some(ch) = ch_opt {
            let mut r: Vec<Task> = Vec::new();
            r.push(Task::GetNewMessages(ch));
            r.push(Task::Kick(Response::Message(msg), KICK_DELAY_MS));
            *self = Messages::Loading(ch);
            return r;
        }
        match self {
            Messages::Loading(_) => {
                let mut r: Vec<Task> = Vec::new();
                r.push(Task::Kick(Response::Message(msg), KICK_DELAY_MS));
                r
            },
            Messages::Loaded(val) => val.receive_message(dict, msg),
            _ => vstd::pervasive::unreached(),
        }
    }
}

} // verus!
