//! Conversation entries: the author, the lines of text, the attachments,
//! the edit history, and the per-user display dictionary.

use std::collections::HashMap;

use vstd::prelude::*;

use crate::colors::Color;
use crate::format::{spec_format_time, format_time, Stamp};
use crate::task::Task;
use crate::text::{str_chars, string_from_chars, take_prefix};

verus! {

broadcast use vstd::std_specs::hash::group_hash_axioms;

/// What kind of channel a reference points at.
#[derive(Clone, Copy, PartialEq, Eq, Structural)]
pub enum ChannelKind {
    Guild,
    Private,
    Category,
    Other,
}

/// A channel as the library sees it: its identifier, the workspace it
/// belongs to (when it belongs to one), and its kind.
#[derive(Clone, Copy)]
pub struct ChannelRef {
    pub id: u64,
    pub guild: Option<u64>,
    pub kind: ChannelKind,
}

/// A remote attachment: enough to name it and to fetch it.
#[derive(Clone)]
pub struct AttachmentRef {
    pub id: u64,
    pub filename: String,
    pub url: String,
}

/// An attachment of an incoming message, together with what the caller
/// found out about its local copy: where it would live on disk and
/// whether it still has to be downloaded.
pub struct RawAttachment {
    pub remote: AttachmentRef,
    pub location: String,
    pub fresh: bool,
}

/// An incoming message reduced to plain values.
pub struct RawMessage {
    pub id: u64,
    pub channel_id: u64,
    pub guild_id: Option<u64>,
    pub author_id: u64,
    pub author_name: String,
    /// The text, already split into lines.
    pub content: Vec<String>,
    pub timestamp: Stamp,
    pub attachments: Vec<RawAttachment>,
}

/// One revision of a message: its lines, its attachments by display name
/// and by local path, and the time of the revision.
pub struct LoadedMessageInstance {
    pub content: Vec<String>,
    pub mentions: bool,
    pub attachments: Vec<String>,
    pub attachment_url: Vec<String>,
    pub time: Stamp,
}

impl LoadedMessageInstance {
    pub fn new(s: Vec<String>, time: Stamp) -> (r: LoadedMessageInstance)
        ensures
            r.content == s,
            !r.mentions,
            r.attachments@.len() == 0,
            r.attachment_url@.len() == 0,
            r.time == time,
    {
        LoadedMessageInstance {
            content: s,
            mentions: false,
            attachment_url: Vec::new(),
            attachments: Vec::new(),
            time,
        }
    }
}

/// A message in the store: the current revision, earlier and later
/// revisions, the author, and the stable identifier used as a cursor.
pub struct LoadedMessage {
    pub content: LoadedMessageInstance,
    /// Earlier revisions.
    pub prev: Vec<LoadedMessageInstance>,
    /// Later revisions; the front one is the newest.
    pub next: Vec<LoadedMessageInstance>,
    pub user: u64,
    pub first_time: Stamp,
    pub id: u64,
    pub username: String,
}

/// The download tasks spawned for the fresh attachments, in order.
pub open spec fn spec_downloads(atts: Seq<RawAttachment>) -> Seq<Task>
    decreases atts.len(),
{
    if atts.len() == 0 {
        Seq::empty()
    } else {
        let rest = spec_downloads(atts.drop_last());
        if atts.last().fresh {
            rest.push(Task::Download(atts.last().remote, atts.last().location))
        } else {
            rest
        }
    }
}

impl LoadedMessage {
    pub fn from_content(name: u64, s: Vec<String>, time: Stamp, id: u64, username: String) -> (r:
        LoadedMessage)
        ensures
            r.content.content == s,
            !r.content.mentions,
            r.content.attachments@.len() == 0,
            r.content.attachment_url@.len() == 0,
            r.content.time == time,
            r.prev@.len() == 0,
            r.next@.len() == 0,
            r.user == name,
            r.first_time == time,
            r.id == id,
            r.username == username,
    {
        LoadedMessage {
            content: LoadedMessageInstance::new(s, time),
            prev: Vec::new(),
            next: Vec::new(),
            user: name,
            first_time: time,
            id,
            username,
        }
    }

    /// Builds the stored form of an incoming message and queues a
    /// download for every attachment that is not on disk yet.
    pub fn from_message(msg: RawMessage, tasks: &mut Vec<Task>) -> (r: LoadedMessage)
        ensures
            r.content.content == msg.content,
            r.content.attachments@.map_values(|s: String| s@) == msg.attachments@.map_values(
                |a: RawAttachment| a.remote.filename@,
            ),
            r.content.attachment_url@.map_values(|s: String| s@) == msg.attachments@.map_values(
                |a: RawAttachment| a.location@,
            ),
            r.content.time == msg.timestamp,
            r.prev@.len() == 0,
            r.next@.len() == 0,
            r.user == msg.author_id,
            r.first_time == msg.timestamp,
            r.id == msg.id,
            r.username == msg.author_name,
            final(tasks)@ == old(tasks)@ + spec_downloads(msg.attachments@),
    {
        let RawMessage {
            id,
            channel_id: _,
            guild_id: _,
            author_id,
            author_name,
            content,
            timestamp,
            attachments,
        } = msg;
        let mut v = LoadedMessage::from_content(author_id, content, timestamp, id, author_name);
        let ghost atts: Seq<RawAttachment> = attachments@;
        let mut i: usize = 0;
        let mut attachments = attachments;
        proof {
            assert(atts.subrange(0, 0) =~= Seq::<RawAttachment>::empty());
            assert(spec_downloads(atts.subrange(0, 0)) =~= Seq::<Task>::empty());
            assert(old(tasks)@ + Seq::<Task>::empty() =~= old(tasks)@);
            assert(atts.skip(0) =~= atts);
        }
        let att_count = attachments.len();
        proof {
            assert(atts.len() == att_count as int);
        }
        while attachments.len() > 0
            invariant
                attachments@ == atts.skip(i as int),
                i <= atts.len(),
                atts.len() <= usize::MAX,
                v.content.attachments@.map_values(|s: String| s@) =~= atts.subrange(
                    0,
                    i as int,
                ).map_values(|a: RawAttachment| a.remote.filename@),
                v.content.attachment_url@.map_values(|s: String| s@) =~= atts.subrange(
                    0,
                    i as int,
                ).map_values(|a: RawAttachment| a.location@),
                tasks@ == old(tasks)@ + spec_downloads(atts.subrange(0, i as int)),
                v.content.content == msg.content,
                v.content.time == msg.timestamp,
                v.prev@.len() == 0,
                v.next@.len() == 0,
                v.user == msg.author_id,
                v.first_time == msg.timestamp,
                v.id == msg.id,
                v.username == msg.author_name,
            decreases atts.len() - i,
        {
            proof {
                assert(atts.skip(i as int).len() > 0);
                assert(i < atts.len());
            }
            let att = attachments.remove(0);
            proof {
                assert(att == atts[i as int]);
                assert(atts.skip(i as int).remove(0) =~= atts.skip(i + 1));
                assert(atts.subrange(0, i + 1).drop_last() =~= atts.subrange(0, i as int));
                assert(atts.subrange(0, i + 1).last() == atts[i as int]);
            }
            v = v.attachment(att, tasks);
            i = i + 1;
            proof {
                assert(v.content.attachments@.map_values(|s: String| s@) =~= atts.subrange(
                    0,
                    i as int,
                ).map_values(|a: RawAttachment| a.remote.filename@));
                assert(v.content.attachment_url@.map_values(|s: String| s@) =~= atts.subrange(
                    0,
                    i as int,
                ).map_values(|a: RawAttachment| a.location@));
            }
        }
        proof {
            assert(atts.subrange(0, atts.len() as int) =~= atts);
        }
        v
    }

    /// Appends a later revision; used for messages with an edit history.
    pub fn push_content(&mut self, s: Vec<String>, time: Stamp)
        ensures
            final(self).next@.len() == old(self).next@.len() + 1,
            final(self).next@[0].content == s,
            final(self).next@[0].time == time,
            final(self).next@.skip(1) == old(self).next@,
            final(self).content == old(self).content,
            final(self).prev == old(self).prev,
            final(self).user == old(self).user,
            final(self).first_time == old(self).first_time,
            final(self).id == old(self).id,
            final(self).username == old(self).username,
    {
        self.next.insert(0, LoadedMessageInstance::new(s, time));
        proof {
            assert(final(self).next@.skip(1) =~= old(self).next@);
        }
    }

    /// The newest revision: the front of `next`, or the original content
    /// when the message was never edited.
    pub fn last(&mut self) -> (r: &mut LoadedMessageInstance)
        ensures
            old(self).next@.len() > 0 ==> {
                &&& *r == old(self).next@[0]
                &&& final(self).next@ == old(self).next@.update(0, *final(r))
                &&& final(self).content == old(self).content
            },
            old(self).next@.len() == 0 ==> {
                &&& *r == old(self).content
                &&& final(self).content == *final(r)
                &&& final(self).next@ == old(self).next@
            },
            final(self).prev == old(self).prev,
            final(self).user == old(self).user,
            final(self).first_time == old(self).first_time,
            final(self).id == old(self).id,
            final(self).username == old(self).username,
    {
        if self.next.len() > 0 {
            &mut self.next[0]
        } else {
            &mut self.content
        }
    }

    /// Records one attachment on the newest revision and queues its
    /// download when no local copy exists yet.
    pub fn attachment(self, v: RawAttachment, tasks: &mut Vec<Task>) -> (r: LoadedMessage)
        ensures
            self.next@.len() == 0 ==> {
                &&& r.content.attachments@.map_values(|s: String| s@)
                    == self.content.attachments@.map_values(|s: String| s@).push(
                    v.remote.filename@,
                )
                &&& r.content.attachment_url@.map_values(|s: String| s@)
                    == self.content.attachment_url@.map_values(|s: String| s@).push(v.location@)
                &&& r.content.content == self.content.content
                &&& r.content.time == self.content.time
                &&& r.next@ == self.next@
            },
            final(tasks)@ == if v.fresh {
                old(tasks)@.push(Task::Download(v.remote, v.location))
            } else {
                old(tasks)@
            },
            r.prev == self.prev,
            r.user == self.user,
            r.first_time == self.first_time,
            r.id == self.id,
            r.username == self.username,
    {
        let mut this = self;
        let RawAttachment { remote, location, fresh } = v;
        let AttachmentRef { id, filename, url } = remote;
        let name = filename.clone();
        let loc = location.clone();
        if fresh {
            tasks.push(Task::Download(AttachmentRef { id, filename, url }, location));
        }
        let inst = this.last();
        inst.attachment_url.push(loc);
        inst.attachments.push(name);
        this
    }

    /// Embeds are not rendered; taking one leaves the message as it is.
    pub fn embed(self) -> (r: LoadedMessage)
        ensures
            r == self,
    {
        self
    }

    /// The styled author line: the author's color, then the name, and —
    /// when the column is wide enough for more than the name — the time
    /// of the message, everything cut to `len` characters.
    pub fn user(&self, dict: &UserDict, len: usize, now: &Stamp) -> (r: String)
        requires
            dict.contents@.contains_key(self.user),
            dict.contents@[self.user].color.wf(),
            self.content.time.wf(),
            now.wf(),
        ensures
            r@ == spec_user_line(dict.contents@[self.user], self.content.time, len as int, *now),
    {
        let info = match self.dict_entry(dict) {
            Some(i) => i,
            Option::None => vstd::pervasive::unreached(),
        };
        let mut s = info.color.to_ansi_value();
        if len < info.name.as_str().unicode_len() {
            let name_chars = str_chars(info.name.as_str());
            let cut = take_prefix(&name_chars, len);
            s.append(string_from_chars(&cut).as_str());
            proof {
                assert(s@ =~= spec_user_line(
                    dict.contents@[self.user],
                    self.content.time,
                    len as int,
                    *now,
                ));
            }
        } else {
            let mut full = str_chars(info.name.as_str());
            full.push(' ');
            let stamp_text = format_time(&self.content.time, now);
            let mut stamp_chars = str_chars(stamp_text.as_str());
            full.append(&mut stamp_chars);
            proof {
                assert(full@ =~= info.name@ + seq![' '] + spec_format_time(
                    self.content.time,
                    *now,
                ));
            }
            let cut = take_prefix(&full, len);
            s.append(string_from_chars(&cut).as_str());
            proof {
                assert(s@ =~= spec_user_line(
                    dict.contents@[self.user],
                    self.content.time,
                    len as int,
                    *now,
                ));
            }
        }
        s
    }

    fn dict_entry<'a>(&self, dict: &'a UserDict) -> (r: Option<&'a UserInfo>)
        ensures
            r matches Some(i) ==> dict.contents@.contains_key(self.user) && *i
                == dict.contents@[self.user],
            r is None ==> !dict.contents@.contains_key(self.user),
    {
        dict.contents.get(&self.user)
    }

    /// Steps the author's red component in the dictionary.
    pub fn red(&self, dict: &mut UserDict)
        requires
            old(dict).contents@.contains_key(self.user),
            old(dict).contents@[self.user].color.wf(),
        ensures
            recolored(old(dict).contents@, final(dict).contents@, self.user),
            ({
                let oldc = old(dict).contents@[self.user].color;
                let newc = final(dict).contents@[self.user].color;
                newc.blue == oldc.blue && newc.green == oldc.green && newc.red == if oldc.red == 5 {
                    0int
                } else {
                    oldc.red + 1
                }
            }),
    {
        let (name, mut c) = match self.dict_entry(dict) {
            Some(i) => (i.name.clone(), i.color),
            Option::None => vstd::pervasive::unreached(),
        };
        c.red();
        dict.contents.insert(self.user, UserInfo { name, color: c });
        proof {
            assert(dict.contents@.dom() =~= old(dict).contents@.dom());
        }
    }

    /// Steps the author's blue component in the dictionary.
    pub fn blue(&self, dict: &mut UserDict)
        requires
            old(dict).contents@.contains_key(self.user),
            old(dict).contents@[self.user].color.wf(),
        ensures
            recolored(old(dict).contents@, final(dict).contents@, self.user),
            ({
                let oldc = old(dict).contents@[self.user].color;
                let newc = final(dict).contents@[self.user].color;
                newc.red == oldc.red && newc.green == oldc.green && newc.blue == if oldc.blue == 5 {
                    0int
                } else {
                    oldc.blue + 1
                }
            }),
    {
        let (name, mut c) = match self.dict_entry(dict) {
            Some(i) => (i.name.clone(), i.color),
            Option::None => vstd::pervasive::unreached(),
        };
        c.blue();
        dict.contents.insert(self.user, UserInfo { name, color: c });
        proof {
            assert(dict.contents@.dom() =~= old(dict).contents@.dom());
        }
    }

    /// Steps the author's green component in the dictionary.
    pub fn green(&self, dict: &mut UserDict)
        requires
            old(dict).contents@.contains_key(self.user),
            old(dict).contents@[self.user].color.wf(),
        ensures
            recolored(old(dict).contents@, final(dict).contents@, self.user),
            ({
                let oldc = old(dict).contents@[self.user].color;
                let newc = final(dict).contents@[self.user].color;
                newc.red == oldc.red && newc.blue == oldc.blue && newc.green == if oldc.green == 5 {
                    0int
                } else {
                    oldc.green + 1
                }
            }),
    {
        let (name, mut c) = match self.dict_entry(dict) {
            Some(i) => (i.name.clone(), i.color),
            Option::None => vstd::pervasive::unreached(),
        };
        c.green();
        dict.contents.insert(self.user, UserInfo { name, color: c });
        proof {
            assert(dict.contents@.dom() =~= old(dict).contents@.dom());
        }
    }
}

/// What a recolor operation may touch: only the color of the one user;
/// the user keeps the name and everybody else keeps their record.
pub open spec fn recolored(before: Map<u64, UserInfo>, after: Map<u64, UserInfo>, user: u64) -> bool {
    &&& after.dom() == before.dom()
    &&& after[user].name@ == before[user].name@
    &&& after[user].color.wf()
    &&& forall|k: u64|
        before.contains_key(k) && k != user ==> #[trigger] after[k] == before[k]
}

/// The styled author line of `user`: color, name, and — when there is
/// room past the name — a space and the message time, cut to `len`
/// characters.
pub open spec fn spec_user_line(info: UserInfo, time: Stamp, len: int, now: Stamp) -> Seq<char> {
    let color = seq!['\u{001b}', '[', '3', '8', ';', '5', ';'] + crate::text::spec_dec(
        info.color.spec_code(),
    ) + seq!['m'];
    if len < info.name@.len() {
        color + crate::text::spec_take(info.name@, len)
    } else {
        color + crate::text::spec_take(
            info.name@ + seq![' '] + spec_format_time(time, now),
            len,
        )
    }
}

/// A dictionary step that only adds users: every user already known
/// keeps their record exactly.
pub open spec fn dict_extended(before: Map<u64, UserInfo>, after: Map<u64, UserInfo>) -> bool {
    &&& forall|k: u64| before.contains_key(k) ==> #[trigger] after.contains_key(k)
    &&& forall|k: u64| before.contains_key(k) ==> #[trigger] after[k] == before[k]
}


/// Two revisions with the same text, markers, attachments and time.
pub open spec fn instance_like(a: LoadedMessageInstance, b: LoadedMessageInstance) -> bool {
    &&& a.content.deep_view() == b.content.deep_view()
    &&& a.mentions == b.mentions
    &&& a.attachments.deep_view() == b.attachments.deep_view()
    &&& a.attachment_url.deep_view() == b.attachment_url.deep_view()
    &&& a.time == b.time
}

/// Two stored messages that carry the same data in every field.
pub open spec fn message_like(a: LoadedMessage, b: LoadedMessage) -> bool {
    &&& instance_like(a.content, b.content)
    &&& a.prev@.len() == b.prev@.len()
    &&& forall|i: int| 0 <= i < a.prev@.len() ==> instance_like(#[trigger] a.prev@[i], b.prev@[i])
    &&& a.next@.len() == b.next@.len()
    &&& forall|i: int| 0 <= i < a.next@.len() ==> instance_like(#[trigger] a.next@[i], b.next@[i])
    &&& a.user == b.user
    &&& a.first_time == b.first_time
    &&& a.id == b.id
    &&& a.username@ == b.username@
}

/// Copies a list of strings.
pub fn clone_strings(v: &Vec<String>) -> (r: Vec<String>)
    ensures
        r.deep_view() == v.deep_view(),
        r@.len() == v@.len(),
{
    let mut r: Vec<String> = Vec::new();
    let mut i: usize = 0;
    while i < v.len()
        invariant
            i <= v@.len(),
            r@.len() == i,
            forall|k: int| 0 <= k < i ==> #[trigger] r@[k]@ == v@[k]@,
        decreases v@.len() - i,
    {
        r.push(v[i].clone());
        i = i + 1;
    }
    proof {
        assert(r.deep_view() =~= v.deep_view());
    }
    r
}

/// Copies one revision.
pub fn clone_instance(a: &LoadedMessageInstance) -> (r: LoadedMessageInstance)
    ensures
        instance_like(r, *a),
{
    LoadedMessageInstance {
        content: clone_strings(&a.content),
        mentions: a.mentions,
        attachments: clone_strings(&a.attachments),
        attachment_url: clone_strings(&a.attachment_url),
        time: a.time,
    }
}

fn clone_instances(v: &Vec<LoadedMessageInstance>) -> (r: Vec<LoadedMessageInstance>)
    ensures
        r@.len() == v@.len(),
        forall|i: int| 0 <= i < v@.len() ==> instance_like(#[trigger] r@[i], v@[i]),
{
    let mut r: Vec<LoadedMessageInstance> = Vec::new();
    let mut i: usize = 0;
    while i < v.len()
        invariant
            i <= v@.len(),
            r@.len() == i,
            forall|k: int| 0 <= k < i ==> instance_like(#[trigger] r@[k], v@[k]),
        decreases v@.len() - i,
    {
        r.push(clone_instance(&v[i]));
        i = i + 1;
    }
    r
}

/// Copies one stored message.
pub fn clone_message(m: &LoadedMessage) -> (r: LoadedMessage)
    ensures
        message_like(r, *m),
{
    LoadedMessage {
        content: clone_instance(&m.content),
        prev: clone_instances(&m.prev),
        next: clone_instances(&m.next),
        user: m.user,
        first_time: m.first_time,
        id: m.id,
        username: m.username.clone(),
    }
}

/// Copies a list of stored messages.
pub fn clone_messages(v: &Vec<LoadedMessage>) -> (r: Vec<LoadedMessage>)
    ensures
        r@.len() == v@.len(),
        forall|i: int| 0 <= i < v@.len() ==> message_like(#[trigger] r@[i], v@[i]),
{
    let mut r: Vec<LoadedMessage> = Vec::new();
    let mut i: usize = 0;
    while i < v.len()
        invariant
            i <= v@.len(),
            r@.len() == i,
            forall|k: int| 0 <= k < i ==> message_like(#[trigger] r@[k], v@[k]),
        decreases v@.len() - i,
    {
        r.push(clone_message(&v[i]));
        i = i + 1;
    }
    r
}

/// A user as the client displays one: a name and a color.
#[derive(Clone)]
pub struct UserInfo {
    pub name: String,
    pub color: Color,
}

/// Authors by identifier.
pub struct UserDict {
    pub contents: HashMap<u64, UserInfo>,
}

impl UserDict {
    pub fn new() -> (r: UserDict)
        ensures
            r.contents@ == Map::<u64, UserInfo>::empty(),
    {
        UserDict { contents: HashMap::new() }
    }
}

} // verus!
