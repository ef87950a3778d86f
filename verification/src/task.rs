//! The background worker's vocabulary — tasks in, products out — together
//! with its drain/kill control state and the attachment-name sanitizer.

use vstd::prelude::*;

use crate::input::Response;
use crate::message::{
    spec_downloads, AttachmentRef, ChannelRef, LoadedMessage, RawMessage,
};
use crate::text::{str_chars, string_from_chars};

verus! {

/// A request from the orchestrator to the worker.
pub enum Control {
    /// Finish everything in flight, then answer with one `CanSave`.
    Drain,
    /// Finish everything in flight, answer with `Killed`, and stop.
    Kill,
}

/// One unit of background work.
pub enum Task {
    /// Fetch an attachment and store it under the given local path.
    Download(AttachmentRef, String),
    /// Fetch the page of history before the given cursor.
    GetMessagesBefore(ChannelRef, u64),
    /// Fetch the page of history after the given cursor.
    GetMessagesAfter(ChannelRef, u64),
    /// Fetch the newest page of a channel seen for the first time.
    GetNewMessages(ChannelRef),
    /// Hand a response back to the orchestrator after a delay, given in
    /// milliseconds, so it is retried once the store can take it.
    Kick(Response, u64),
}

/// What the worker sends back.
pub enum Product {
    MessagesBefore(Vec<LoadedMessage>, ChannelRef),
    MessagesAfter(Vec<LoadedMessage>, ChannelRef),
    MessagesNew(Vec<LoadedMessage>, ChannelRef),
    /// A delayed response coming back around.
    Can(Response),
    /// The drain checkpoint: nothing is queued or in flight.
    CanSave,
    /// The worker has stopped for good.
    Killed,
}

/// Characters stripped from a remote reference before it may name a file.
pub open spec fn spec_sep(c: char) -> bool {
    c == '/' || c == '\\' || c == ':'
}

/// The remote reference with path separators and colons removed.
pub open spec fn spec_strip(s: Seq<char>) -> Seq<char>
    decreases s.len(),
{
    if s.len() == 0 {
        s
    } else {
        let rest = spec_strip(s.drop_last());
        if spec_sep(s.last()) {
            rest
        } else {
            rest.push(s.last())
        }
    }
}

/// The segments between dots; always at least one (possibly empty) segment.
pub open spec fn spec_dot_split(s: Seq<char>) -> Seq<Seq<char>>
    decreases s.len(),
{
    if s.len() == 0 {
        seq![Seq::empty()]
    } else {
        let rest = spec_dot_split(s.drop_last());
        if s.last() == '.' {
            rest.push(Seq::empty())
        } else {
            rest.update(rest.len() - 1, rest.last().push(s.last()))
        }
    }
}

pub proof fn lemma_dot_split_nonempty(s: Seq<char>)
    ensures
        spec_dot_split(s).len() >= 1,
    decreases s.len(),
{
    if s.len() > 0 {
        lemma_dot_split_nonempty(s.drop_last());
    }
}

/// The sanitized local file name of a remote reference: separators and
/// colons removed, and — when at least three dot-segments remain —
/// everything before the last three dropped and the extension
/// re-attached with a single dot.  A name with fewer segments is already
/// in sanitized shape and only loses its separators, which makes the
/// mapping idempotent.
pub open spec fn spec_process(s: Seq<char>) -> Seq<char> {
    let st = spec_strip(s);
    let segs = spec_dot_split(st);
    if segs.len() >= 3 {
        segs[segs.len() - 3] + segs[segs.len() - 2] + seq!['.'] + segs[segs.len() - 1]
    } else {
        st
    }
}

/// Sanitizes a remote reference into a local file name.
pub fn process(s: String) -> (r: String)
    ensures
        r@ == spec_process(s@),
{
    let chars = str_chars(s.as_str());
    let ghost all: Seq<char> = s@;
    let mut stripped: Vec<char> = Vec::new();
    let mut i: usize = 0;
    proof {
        assert(all.subrange(0, 0) =~= Seq::<char>::empty());
    }
    while i < chars.len()
        invariant
            chars@ == all,
            i <= all.len(),
            stripped@ == spec_strip(all.subrange(0, i as int)),
        decreases all.len() - i,
    {
        let c = chars[i];
        proof {
            assert(all.subrange(0, i + 1).drop_last() =~= all.subrange(0, i as int));
            assert(all.subrange(0, i + 1).last() == all[i as int]);
        }
        if !(c == '/' || c == '\\' || c == ':') {
            stripped.push(c);
        }
        i = i + 1;
    }
    proof {
        assert(all.subrange(0, all.len() as int) =~= all);
    }
    let ghost st: Seq<char> = stripped@;
    let mut segs: Vec<Vec<char>> = Vec::new();
    segs.push(Vec::new());
    let mut j: usize = 0;
    proof {
        assert(st.subrange(0, 0) =~= Seq::<char>::empty());
        assert(segs@.map_values(|v: Vec<char>| v@) =~= spec_dot_split(st.subrange(0, 0)));
    }
    while j < stripped.len()
        invariant
            stripped@ == st,
            j <= st.len(),
            segs@.len() >= 1,
            segs@.map_values(|v: Vec<char>| v@) == spec_dot_split(st.subrange(0, j as int)),
        decreases st.len() - j,
    {
        let c = stripped[j];
        proof {
            assert(st.subrange(0, j + 1).drop_last() =~= st.subrange(0, j as int));
            assert(st.subrange(0, j + 1).last() == st[j as int]);
        }
        if c == '.' {
            segs.push(Vec::new());
            proof {
                assert(segs@.map_values(|v: Vec<char>| v@) =~= spec_dot_split(
                    st.subrange(0, j + 1),
                ));
            }
        } else {
            let mut lastv = match segs.pop() {
                Some(v) => v,
                None => Vec::new(),
            };
            lastv.push(c);
            segs.push(lastv);
            proof {
                assert(segs@.map_values(|v: Vec<char>| v@) =~= spec_dot_split(
                    st.subrange(0, j + 1),
                ));
            }
        }
        j = j + 1;
    }
    proof {
        assert(st.subrange(0, st.len() as int) =~= st);
        assert(st == spec_strip(all));
    }
    let n = segs.len();
    if n < 3 {
        let r = string_from_chars(&stripped);
        proof {
            assert(r@ =~= spec_process(all));
        }
        return r;
    }
    let mut out: Vec<char> = Vec::new();
    let mut third = segs[n - 3].clone();
    let mut second = segs[n - 2].clone();
    let mut last_seg = segs[n - 1].clone();
    out.append(&mut third);
    out.append(&mut second);
    out.push('.');
    out.append(&mut last_seg);
    let r = string_from_chars(&out);
    proof {
        assert(r@ =~= spec_process(all));
    }
    r
}

/// No separator survives the strip.
pub proof fn lemma_strip_sep_free(s: Seq<char>)
    ensures
        forall|i: int| 0 <= i < spec_strip(s).len() ==> !spec_sep(#[trigger] spec_strip(s)[i]),
    decreases s.len(),
{
    if s.len() > 0 {
        lemma_strip_sep_free(s.drop_last());
        let rest = spec_strip(s.drop_last());
        if !spec_sep(s.last()) {
            assert(spec_strip(s) == rest.push(s.last()));
            assert forall|i: int|
                0 <= i < spec_strip(s).len() implies !spec_sep(#[trigger] spec_strip(s)[i]) by {
                if i < rest.len() {
                    assert(spec_strip(s)[i] == rest[i]);
                } else {
                    assert(spec_strip(s)[i] == s.last());
                }
            }
        }
    }
}

/// Stripping a separator-free name changes nothing.
pub proof fn lemma_strip_of_sep_free(s: Seq<char>)
    requires
        forall|i: int| 0 <= i < s.len() ==> !spec_sep(#[trigger] s[i]),
    ensures
        spec_strip(s) == s,
    decreases s.len(),
{
    if s.len() > 0 {
        assert forall|i: int|
            0 <= i < s.drop_last().len() implies !spec_sep(#[trigger] s.drop_last()[i]) by {
            assert(s.drop_last()[i] == s[i]);
        }
        lemma_strip_of_sep_free(s.drop_last());
        assert(!spec_sep(s.last()));
        assert(spec_strip(s) =~= s);
    }
}

/// A dot-free name is one single segment.
pub proof fn lemma_dot_split_free(u: Seq<char>)
    requires
        forall|i: int| 0 <= i < u.len() ==> #[trigger] u[i] != '.',
    ensures
        spec_dot_split(u) == seq![u],
    decreases u.len(),
{
    if u.len() > 0 {
        assert forall|i: int|
            0 <= i < u.drop_last().len() implies #[trigger] u.drop_last()[i] != '.' by {
            assert(u.drop_last()[i] == u[i]);
        }
        lemma_dot_split_free(u.drop_last());
        assert(u.last() != '.');
        assert(u.drop_last().push(u.last()) =~= u);
        assert(spec_dot_split(u) =~~= seq![u]);
    } else {
        assert(u =~= Seq::<char>::empty());
        assert(spec_dot_split(u) =~~= seq![u]);
    }
}

/// Two dot-free halves around a single dot split into exactly those two
/// segments.
pub proof fn lemma_dot_split_two(u: Seq<char>, v: Seq<char>)
    requires
        forall|i: int| 0 <= i < u.len() ==> #[trigger] u[i] != '.',
        forall|i: int| 0 <= i < v.len() ==> #[trigger] v[i] != '.',
    ensures
        spec_dot_split(u + seq!['.'] + v) == seq![u, v],
    decreases v.len(),
{
    let t = u + seq!['.'] + v;
    if v.len() == 0 {
        assert(t.drop_last() =~= u);
        assert(t.last() == '.');
        lemma_dot_split_free(u);
        assert(v =~= Seq::<char>::empty());
        assert(spec_dot_split(t) =~= seq![u, v]);
    } else {
        assert forall|i: int|
            0 <= i < v.drop_last().len() implies #[trigger] v.drop_last()[i] != '.' by {
            assert(v.drop_last()[i] == v[i]);
        }
        lemma_dot_split_two(u, v.drop_last());
        assert(t.drop_last() =~= u + seq!['.'] + v.drop_last());
        assert(t.last() == v.last());
        assert(t.last() != '.');
        assert(spec_dot_split(t) == spec_dot_split(t.drop_last()).update(
            spec_dot_split(t.drop_last()).len() - 1,
            spec_dot_split(t.drop_last()).last().push(t.last()),
        ));
        assert(v.drop_last().push(v.last()) =~= v);
        assert(spec_dot_split(t) =~= seq![u, v]);
    }
}

/// Every character of every segment comes from the split name and is not
/// a dot.
pub proof fn lemma_dot_split_chars(s: Seq<char>, k: int)
    requires
        0 <= k < spec_dot_split(s).len(),
    ensures
        forall|j: int|
            0 <= j < spec_dot_split(s)[k].len() ==> #[trigger] spec_dot_split(s)[k][j] != '.',
        forall|j: int|
            0 <= j < spec_dot_split(s)[k].len() ==> exists|i: int|
                0 <= i < s.len() && s[i] == #[trigger] spec_dot_split(s)[k][j],
    decreases s.len(),
{
    if s.len() > 0 {
        let rest = spec_dot_split(s.drop_last());
        lemma_dot_split_nonempty(s.drop_last());
        if s.last() == '.' {
            if k < rest.len() {
                lemma_dot_split_chars(s.drop_last(), k);
                assert forall|j: int|
                    0 <= j < spec_dot_split(s)[k].len() implies exists|i: int|
                    0 <= i < s.len() && s[i] == #[trigger] spec_dot_split(s)[k][j] by {
                    let j2 = choose|i: int|
                        0 <= i < s.drop_last().len() && s.drop_last()[i] == spec_dot_split(s)[k][j];
                    assert(s[j2] == spec_dot_split(s)[k][j]);
                }
            }
        } else {
            if k < rest.len() - 1 {
                lemma_dot_split_chars(s.drop_last(), k);
                assert forall|j: int|
                    0 <= j < spec_dot_split(s)[k].len() implies exists|i: int|
                    0 <= i < s.len() && s[i] == #[trigger] spec_dot_split(s)[k][j] by {
                    let j2 = choose|i: int|
                        0 <= i < s.drop_last().len() && s.drop_last()[i] == spec_dot_split(s)[k][j];
                    assert(s[j2] == spec_dot_split(s)[k][j]);
                }
            } else {
                lemma_dot_split_chars(s.drop_last(), rest.len() - 1);
                assert(spec_dot_split(s)[k] == rest.last().push(s.last()));
                assert forall|j: int|
                    0 <= j < spec_dot_split(s)[k].len() implies #[trigger] spec_dot_split(s)[k][j]
                    != '.' by {
                    if j < rest.last().len() {
                        assert(spec_dot_split(s)[k][j] == rest[rest.len() - 1][j]);
                    } else {
                        assert(spec_dot_split(s)[k][j] == s.last());
                    }
                }
                assert forall|j: int|
                    0 <= j < spec_dot_split(s)[k].len() implies exists|i: int|
                    0 <= i < s.len() && s[i] == #[trigger] spec_dot_split(s)[k][j] by {
                    if j < rest.last().len() {
                        assert(rest[rest.len() - 1][j] == spec_dot_split(s)[k][j]);
                        let j2 = choose|i: int|
                            0 <= i < s.drop_last().len() && s.drop_last()[i] == rest[rest.len()
                                - 1][j];
                        assert(s[j2] == spec_dot_split(s)[k][j]);
                    } else {
                        assert(s[s.len() - 1] == spec_dot_split(s)[k][j]);
                    }
                }
            }
        }
    }
}

/// Sanitizing is idempotent: a name that already came out of the
/// sanitizer passes through it unchanged, dots and all.
pub proof fn lemma_process_idempotent(s: Seq<char>)
    ensures
        spec_process(spec_process(s)) == spec_process(s),
{
    let st = spec_strip(s);
    let segs = spec_dot_split(st);
    lemma_dot_split_nonempty(st);
    lemma_strip_sep_free(s);
    if segs.len() >= 3 {
        let a = segs[segs.len() - 3];
        let b = segs[segs.len() - 2];
        let c = segs[segs.len() - 1];
        let out = spec_process(s);
        assert(out == a + b + seq!['.'] + c);
        lemma_dot_split_chars(st, segs.len() - 3);
        lemma_dot_split_chars(st, segs.len() - 2);
        lemma_dot_split_chars(st, segs.len() - 1);
        assert forall|i: int| 0 <= i < out.len() implies !spec_sep(#[trigger] out[i]) by {
            if i < a.len() {
                assert(out[i] == a[i]);
                let j2 = choose|j: int| 0 <= j < st.len() && st[j] == a[i];
                assert(!spec_sep(st[j2]));
            } else if i < a.len() + b.len() {
                assert(out[i] == b[i - a.len()]);
                let j2 = choose|j: int| 0 <= j < st.len() && st[j] == b[i - a.len()];
                assert(!spec_sep(st[j2]));
            } else if i == a.len() + b.len() {
                assert(out[i] == '.');
            } else {
                assert(out[i] == c[i - (a.len() + b.len() + 1)]);
                let j2 = choose|j: int|
                    0 <= j < st.len() && st[j] == c[i - (a.len() + b.len() + 1)];
                assert(!spec_sep(st[j2]));
            }
        }
        lemma_strip_of_sep_free(out);
        let ab = a + b;
        assert forall|i: int| 0 <= i < ab.len() implies #[trigger] ab[i] != '.' by {
            if i < a.len() {
                assert(ab[i] == a[i]);
            } else {
                assert(ab[i] == b[i - a.len()]);
            }
        }
        lemma_dot_split_two(ab, c);
        assert(ab + seq!['.'] + c =~= out);
        assert(spec_dot_split(out) == seq![ab, c]);
        assert(spec_process(out) == spec_strip(out));
        assert(spec_process(spec_process(s)) == spec_process(s));
    } else {
        assert(spec_process(s) == st);
        lemma_strip_of_sep_free(st);
        assert(spec_strip(st) == st);
        assert(spec_process(st) == st);
    }
}

/// Whether a stored message was built from the given incoming message.
pub open spec fn loaded_from(r: LoadedMessage, msg: RawMessage) -> bool {
    &&& r.content.content@.map_values(|s: String| s@) == msg.content@.map_values(
        |s: String| s@,
    )
    &&& r.content.attachments@.map_values(|s: String| s@) == msg.attachments@.map_values(
        |a: crate::message::RawAttachment| a.remote.filename@,
    )
    &&& r.content.attachment_url@.map_values(|s: String| s@) == msg.attachments@.map_values(
        |a: crate::message::RawAttachment| a.location@,
    )
    &&& r.content.time == msg.timestamp
    &&& r.prev@.len() == 0
    &&& r.next@.len() == 0
    &&& r.user == msg.author_id
    &&& r.first_time == msg.timestamp
    &&& r.id == msg.id
    &&& r.username@ == msg.author_name@
}

/// The download tasks spawned by a whole batch of incoming messages.
pub open spec fn spec_downloads_all(msgs: Seq<RawMessage>) -> Seq<Task>
    decreases msgs.len(),
{
    if msgs.len() == 0 {
        Seq::empty()
    } else {
        spec_downloads_all(msgs.drop_last()) + spec_downloads(msgs.last().attachments@)
    }
}

/// Converts one fetched batch into stored messages, queueing a download
/// for every attachment of theirs that is not on disk yet.
pub fn load_all(raw: Vec<RawMessage>, tasks: &mut Vec<Task>) -> (r: Vec<LoadedMessage>)
    ensures
        r@.len() == raw@.len(),
        forall|i: int| 0 <= i < raw@.len() ==> loaded_from(#[trigger] r@[i], raw@[i]),
        final(tasks)@ == old(tasks)@ + spec_downloads_all(raw@),
{
    let ghost all: Seq<RawMessage> = raw@;
    let mut raw = raw;
    let mut r: Vec<LoadedMessage> = Vec::new();
    let mut i: usize = 0;
    proof {
        assert(all.subrange(0, 0) =~= Seq::<RawMessage>::empty());
        assert(spec_downloads_all(all.subrange(0, 0)) =~= Seq::<Task>::empty());
        assert(old(tasks)@ + Seq::<Task>::empty() =~= old(tasks)@);
        assert(raw@ =~= all.skip(0));
    }
    let msg_count = raw.len();
    proof {
        assert(all.len() == msg_count as int);
    }
    while raw.len() > 0
        invariant
            i <= all.len(),
            all.len() <= usize::MAX,
            raw@ == all.skip(i as int),
            r@.len() == i,
            forall|k: int| 0 <= k < i ==> loaded_from(#[trigger] r@[k], all[k]),
            tasks@ == old(tasks)@ + spec_downloads_all(all.subrange(0, i as int)),
        decreases all.len() - i,
    {
        proof {
            assert(all.skip(i as int).len() > 0);
            assert(i < all.len());
        }
        let msg = raw.remove(0);
        proof {
            assert(msg == all[i as int]);
            assert(all.skip(i as int).remove(0) =~= all.skip(i + 1));
            assert(all.subrange(0, i + 1).drop_last() =~= all.subrange(0, i as int));
            assert(all.subrange(0, i + 1).last() == all[i as int]);
        }
        let m = LoadedMessage::from_message(msg, tasks);
        r.push(m);
        i = i + 1;
        proof {
            assert(tasks@ =~= old(tasks)@ + spec_downloads_all(all.subrange(0, i as int)));
        }
    }
    proof {
        assert(all.subrange(0, all.len() as int) =~= all);
        assert(i == all.len());
    }
    r
}

/// Builds the product answering a backward history fetch.
pub fn product_before(channel: ChannelRef, raw: Vec<RawMessage>, tasks: &mut Vec<Task>) -> (p:
    Product)
    ensures
        p matches Product::MessagesBefore(msgs, ch) && ch == channel && msgs@.len() == raw@.len()
            && (forall|i: int|
            0 <= i < raw@.len() ==> loaded_from(#[trigger] msgs@[i], raw@[i])),
        final(tasks)@ == old(tasks)@ + spec_downloads_all(raw@),
{
    let msgs = load_all(raw, tasks);
    Product::MessagesBefore(msgs, channel)
}

/// Builds the product answering a forward history fetch.
pub fn product_after(channel: ChannelRef, raw: Vec<RawMessage>, tasks: &mut Vec<Task>) -> (p:
    Product)
    ensures
        p matches Product::MessagesAfter(msgs, ch) && ch == channel && msgs@.len() == raw@.len()
            && (forall|i: int|
            0 <= i < raw@.len() ==> loaded_from(#[trigger] msgs@[i], raw@[i])),
        final(tasks)@ == old(tasks)@ + spec_downloads_all(raw@),
{
    let msgs = load_all(raw, tasks);
    Product::MessagesAfter(msgs, channel)
}

/// Builds the product answering an initial fetch.
pub fn product_new(channel: ChannelRef, raw: Vec<RawMessage>, tasks: &mut Vec<Task>) -> (p:
    Product)
    ensures
        p matches Product::MessagesNew(msgs, ch) && ch == channel && msgs@.len() == raw@.len() && (
        forall|i: int|
            0 <= i < raw@.len() ==> loaded_from(#[trigger] msgs@[i], raw@[i])),
        final(tasks)@ == old(tasks)@ + spec_downloads_all(raw@),
{
    let msgs = load_all(raw, tasks);
    Product::MessagesNew(msgs, channel)
}

/// The worker's control state.  The execution loop around it queues
/// submitted tasks, hands out one batch at a time, and is told when the
/// batch has finished and which follow-up tasks it spawned.
pub struct Worker {
    /// Tasks waiting for the next batch, follow-ups included.
    pub queue: Vec<Task>,
    /// How many tasks of the current batch are still out.
    pub in_flight: usize,
    /// A drain checkpoint is owed as soon as everything settles.
    pub draining: bool,
    /// The worker must stop as soon as everything settles.
    pub killing: bool,
    /// No further batch may start.
    pub stopped: bool,
}

impl Worker {
    /// Nothing queued, nothing in flight.
    pub open spec fn idle(&self) -> bool {
        self.queue@.len() == 0 && self.in_flight == 0
    }

    pub fn new() -> (r: Worker)
        ensures
            r.idle(),
            !r.draining,
            !r.killing,
            !r.stopped,
    {
        Worker { queue: Vec::new(), in_flight: 0, draining: false, killing: false, stopped: false }
    }

    /// Accepts a task; once the worker has stopped, the task is dropped.
    pub fn submit(&mut self, t: Task)
        ensures
            final(self).queue@ == if old(self).stopped {
                old(self).queue@
            } else {
                old(self).queue@.push(t)
            },
            final(self).in_flight == old(self).in_flight,
            final(self).draining == old(self).draining,
            final(self).killing == old(self).killing,
            final(self).stopped == old(self).stopped,
    {
        if !self.stopped {
            self.queue.push(t);
        }
    }

    /// Registers a drain or kill request.
    pub fn control(&mut self, c: Control)
        ensures
            final(self).draining == (old(self).draining || c is Drain),
            final(self).killing == (old(self).killing || c is Kill),
            final(self).queue@ == old(self).queue@,
            final(self).in_flight == old(self).in_flight,
            final(self).stopped == old(self).stopped,
    {
        match c {
            Control::Drain => self.draining = true,
            Control::Kill => self.killing = true,
        }
    }

    /// Takes everything queued as the next batch to execute.
    pub fn begin_batch(&mut self) -> (batch: Vec<Task>)
        requires
            old(self).in_flight == 0,
            !old(self).stopped,
        ensures
            batch@ == old(self).queue@,
            final(self).queue@.len() == 0,
            final(self).in_flight == batch@.len(),
            final(self).draining == old(self).draining,
            final(self).killing == old(self).killing,
            final(self).stopped == old(self).stopped,
    {
        let mut batch: Vec<Task> = Vec::new();
        core::mem::swap(&mut batch, &mut self.queue);
        self.in_flight = batch.len();
        batch
    }

    /// The batch has finished; its follow-up tasks join the queue.  The
    /// checkpoint products are owed only once nothing is queued or in
    /// flight: exactly then `CanSave` (for a drain) or `Killed` (for a
    /// kill, which also stops the worker) comes back.
    pub fn finish_batch(&mut self, follow_ups: Vec<Task>) -> (emit: Option<Product>)
        ensures
            final(self).queue@ == old(self).queue@ + follow_ups@,
            final(self).in_flight == 0,
            emit matches Some(p) ==> (p is CanSave || p is Killed) && final(self).idle(),
            emit matches Some(p) && p is Killed ==> final(self).stopped,
            old(self).killing && old(self).queue@.len() + follow_ups@.len() == 0 ==> emit
                == Some(Product::Killed),
            emit is Some <==> (old(self).killing || old(self).draining) && old(self).queue@.len()
                + follow_ups@.len() == 0,
            final(self).stopped == (old(self).stopped || (old(self).killing && old(self).queue@.len() + follow_ups@.len() == 0)),
            final(self).killing == old(self).killing,
            final(self).draining == (old(self).draining && !(old(self).queue@.len()
                + follow_ups@.len() == 0)),
    {
        let mut follow_ups = follow_ups;
        self.in_flight = 0;
        self.queue.append(&mut follow_ups);
        if self.queue.len() == 0 {
            if self.killing {
                self.stopped = true;
                self.draining = false;
                return Some(Product::Killed);
            }
            if self.draining {
                self.draining = false;
                return Some(Product::CanSave);
            }
        }
        None
    }
}

} // verus!
