//! Orchestrator-side state: which input mode the client is in and which
//! column of the tree currently has the focus.

use vstd::prelude::*;

use crate::file::ExtConfig;
use crate::message::{RawMessage, UserDict};
use crate::messages::Messages;
use crate::render::Grid;
use crate::save::{Autosave, ParserSave};
use crate::servers::Servers;
use crate::task::{Product, Task};
use crate::textbox::Textbox;

verus! {

/// How many entries one history fetch asks for; a full page means more
/// history may exist.
pub const REQUEST_LEN: usize = 50;

/// The input mode of the update loop.
#[derive(PartialEq, Eq, Structural)]
pub enum State {
    Idle,
    Message,
    Filter,
    Quit,
    Visual,
}

/// An inbound live event from the gateway connection.
pub enum Response {
    Message(crate::message::RawMessage),
}

/// Which of the four columns the navigation keys act on.
#[derive(Clone, Copy, PartialEq, Eq, Structural)]
pub enum Context {
    Server,
    Category,
    Channel,
    Message,
}

/// Whether a channel with this identifier and workspace exists nowhere
/// in the tree: a product or live event for it is then stale and is
/// dropped as a no-op.
pub open spec fn spec_channel_absent(servers: Servers, channel: u64, guild: Option<u64>) -> bool {
    forall|s: int, c: int, h: int|
        0 <= s < servers.contents@.len() && 0 <= c < servers.contents@[s].contents@.len() && 0 <= h
            < servers.contents@[s].contents@[c].contents@.len() ==> !(
        servers.contents@[s].s_id == guild && crate::servers::channel_matches(
            #[trigger] servers.contents@[s].contents@[c].contents@[h],
            channel,
        ))
}

/// The orchestrator's own state: everything the single-threaded update
/// loop mutates while it consumes key events, live events and worker
/// products.  The loop itself, and all input and output, live outside
/// the library and drive this state through its methods.
pub struct Parser {
    pub state: State,
    pub grid: Grid,
    pub user_dict: UserDict,
    pub file_options: ExtConfig,
    pub autosave: Autosave,
    pub servers: Servers,
    pub message_box: Textbox,
    pub temp_box: Textbox,
}

impl Parser {
    pub open spec fn wf(&self) -> bool {
        &&& self.grid.wf()
        &&& self.servers.wf()
        &&& self.message_box.wf()
        &&& self.temp_box.wf()
        &&& self.file_options.wf()
    }

    /// A fresh client on a terminal of the given size, with nothing
    /// fetched yet.
    pub fn new(max_x: usize, max_y: usize, now: u64, default_program: String) -> (r: Parser)
        requires
            max_x >= 1,
            max_y >= 1,
        ensures
            r.wf(),
            r.state is Idle,
            r.servers.labels@.len() == 1,
            r.user_dict.contents@ == Map::<u64, crate::message::UserInfo>::empty(),
            r.autosave.last_time == now,
            r.grid.end_x == max_x,
            r.grid.end_y == max_y,
    {
        Parser {
            state: State::Idle,
            grid: Grid::new(max_x, max_y),
            user_dict: UserDict::new(),
            file_options: ExtConfig::new(default_program),
            autosave: Autosave::new(now),
            servers: Servers::new(),
            message_box: Textbox::new(max_x),
            temp_box: Textbox::new(max_x),
        }
    }

    /// Restores a client from its snapshot; fetch states come back the
    /// way the snapshot rules say.
    pub fn from_save(
        save: ParserSave,
        max_x: usize,
        max_y: usize,
        now: u64,
    ) -> (r: Parser)
        requires
            max_x >= 1,
            max_y >= 1,
            save.servers.wf(),
            save.file_options.wf(),
        ensures
            r.wf(),
            r.state is Idle,
            crate::save::reloads_servers(save.servers, r.servers),
            r.user_dict == save.user_dict,
            r.file_options == save.file_options,
            r.autosave.last_time == now,
    {
        Parser {
            state: State::Idle,
            grid: Grid::new(max_x, max_y),
            user_dict: save.user_dict,
            file_options: save.file_options,
            autosave: Autosave::new(now),
            servers: save.servers.reload(),
            message_box: Textbox::new(max_x),
            temp_box: Textbox::new(max_x),
        }
    }

    /// Routes an inbound live event.
    pub fn handle_response(&mut self, resp: Response) -> (r: Vec<Task>)
        requires
            old(self).wf(),
        ensures
            final(self).wf(),
            crate::message::dict_extended(
                old(self).user_dict.contents@,
                final(self).user_dict.contents@,
            ),
            ({
                match resp {
                    Response::Message(msg) => {
                        &&& (spec_channel_absent(old(self).servers, msg.channel_id, msg.guild_id)
                            ==> *final(self) == *old(self) && r@.len() == 0)
                        &&& (!spec_channel_absent(old(self).servers, msg.channel_id, msg.guild_id)
                            ==> exists|s: int, c: int, h: int|
                            #![trigger old(self).servers.contents@[s].contents@[c].contents@[h]]
                            {
                                let old_slot =
                                    old(self).servers.contents@[s].contents@[c].contents@[h];
                                let new_slot =
                                    final(self).servers.contents@[s].contents@[c].contents@[h];
                                &&& crate::servers::slot_replaced(
                                    old(self).servers,
                                    final(self).servers,
                                    s,
                                    c,
                                    h,
                                    new_slot,
                                )
                                &&& old(self).servers.contents@[s].s_id == msg.guild_id
                                &&& crate::servers::channel_matches(old_slot, msg.channel_id)
                                &&& crate::messages::live_step(old_slot, new_slot, msg, r@)
                            })
                    },
                }
            }),
    {
        match resp {
            Response::Message(message) => self.add_message(message),
        }
    }

    /// Hands a live message to the channel it belongs to.  A message for
    /// a channel that is not in the tree — removed, or never known — is
    /// dropped as a no-op.
    pub fn add_message(&mut self, message: RawMessage) -> (r: Vec<Task>)
        requires
            old(self).wf(),
        ensures
            final(self).wf(),
            crate::message::dict_extended(
                old(self).user_dict.contents@,
                final(self).user_dict.contents@,
            ),
            spec_channel_absent(old(self).servers, message.channel_id, message.guild_id)
                ==> *final(self) == *old(self) && r@.len() == 0,
            !spec_channel_absent(old(self).servers, message.channel_id, message.guild_id)
                ==> exists|s: int, c: int, h: int|
                #![trigger old(self).servers.contents@[s].contents@[c].contents@[h]]
                {
                    let old_slot = old(self).servers.contents@[s].contents@[c].contents@[h];
                    let new_slot = final(self).servers.contents@[s].contents@[c].contents@[h];
                    &&& crate::servers::slot_replaced(
                        old(self).servers,
                        final(self).servers,
                        s,
                        c,
                        h,
                        new_slot,
                    )
                    &&& old(self).servers.contents@[s].s_id == message.guild_id
                    &&& crate::servers::channel_matches(old_slot, message.channel_id)
                    &&& crate::messages::live_step(old_slot, new_slot, message, r@)
                },
    {
        let found = self.servers.find_channel(message.channel_id, message.guild_id);
        match found {
            Some((s, c, h)) => {
                let slot = self.servers.grab3(s, c, h);
                let tasks = slot.receive_message(&mut self.user_dict, message);
                proof {
                    assert(crate::servers::slot_replaced(
                        old(self).servers,
                        self.servers,
                        s as int,
                        c as int,
                        h as int,
                        self.servers.contents@[s as int].contents@[c as int].contents@[h as int],
                    ));
                }
                tasks
            },
            None => Vec::new(),
        }
    }

    /// Applies one worker product.  Returns whether the product was a
    /// checkpoint — the signal that a save may happen now — together
    /// with any follow-up tasks.  A product for a channel that is not in
    /// the tree is dropped as a no-op; one whose channel is found
    /// touches exactly that channel's slot, by the store's own rules.
    pub fn handle_product(&mut self, p: Product) -> (r: (bool, Vec<Task>))
        requires
            old(self).wf(),
        ensures
            final(self).wf(),
            r.0 == (p is CanSave || p is Killed),
            p is CanSave || p is Killed ==> *final(self) == *old(self) && r.1@.len() == 0,
            crate::message::dict_extended(
                old(self).user_dict.contents@,
                final(self).user_dict.contents@,
            ),
            ({
                match p {
                    Product::MessagesBefore(content, channel) => {
                        &&& (spec_channel_absent(old(self).servers, channel.id, channel.guild)
                            ==> *final(self) == *old(self) && r.1@.len() == 0)
                        &&& (!spec_channel_absent(old(self).servers, channel.id, channel.guild)
                            ==> exists|s: int, c: int, h: int|
                            #![trigger old(self).servers.contents@[s].contents@[c].contents@[h]]
                            {
                                let old_slot =
                                    old(self).servers.contents@[s].contents@[c].contents@[h];
                                let new_slot =
                                    final(self).servers.contents@[s].contents@[c].contents@[h];
                                &&& crate::servers::slot_replaced(
                                    old(self).servers,
                                    final(self).servers,
                                    s,
                                    c,
                                    h,
                                    new_slot,
                                )
                                &&& old(self).servers.contents@[s].s_id == channel.guild
                                &&& crate::servers::channel_matches(old_slot, channel.id)
                                &&& old_slot matches Messages::Loaded(v) ==> {
                                    &&& content@.len() == 0 ==> (new_slot
                                        matches Messages::Loaded(st) && st.before is Finished
                                        && st.labels@ == v.labels@)
                                    &&& content@.len() > 0 ==> (new_slot matches Messages::Loaded(
                                        st,
                                    ) && st.before is Unloaded && st.labels@ == content@.reverse()
                                        + v.labels@)
                                }
                                &&& !(old_slot is Loaded) ==> new_slot == old_slot
                            })
                    },
                    Product::MessagesAfter(content, channel) => {
                        &&& (spec_channel_absent(old(self).servers, channel.id, channel.guild)
                            ==> *final(self) == *old(self) && r.1@.len() == 0)
                        &&& (!spec_channel_absent(old(self).servers, channel.id, channel.guild)
                            ==> exists|s: int, c: int, h: int|
                            #![trigger old(self).servers.contents@[s].contents@[c].contents@[h]]
                            {
                                let old_slot =
                                    old(self).servers.contents@[s].contents@[c].contents@[h];
                                let new_slot =
                                    final(self).servers.contents@[s].contents@[c].contents@[h];
                                &&& crate::servers::slot_replaced(
                                    old(self).servers,
                                    final(self).servers,
                                    s,
                                    c,
                                    h,
                                    new_slot,
                                )
                                &&& old(self).servers.contents@[s].s_id == channel.guild
                                &&& crate::servers::channel_matches(old_slot, channel.id)
                                &&& old_slot matches Messages::Loaded(v) ==> {
                                    &&& content@.len() == 0 ==> (new_slot
                                        matches Messages::Loaded(st) && st.after is Finished
                                        && st.labels@ == v.labels@)
                                    &&& content@.len() > 0 ==> (new_slot matches Messages::Loaded(
                                        st,
                                    ) && st.after is Unloaded && st.labels@ == v.labels@
                                        + content@)
                                }
                                &&& !(old_slot is Loaded) ==> new_slot == old_slot
                            })
                    },
                    Product::MessagesNew(content, channel) => {
                        &&& (spec_channel_absent(old(self).servers, channel.id, channel.guild)
                            ==> *final(self) == *old(self) && r.1@.len() == 0)
                        &&& (!spec_channel_absent(old(self).servers, channel.id, channel.guild)
                            ==> exists|s: int, c: int, h: int|
                            #![trigger old(self).servers.contents@[s].contents@[c].contents@[h]]
                            {
                                let old_slot =
                                    old(self).servers.contents@[s].contents@[c].contents@[h];
                                let new_slot =
                                    final(self).servers.contents@[s].contents@[c].contents@[h];
                                &&& crate::servers::slot_replaced(
                                    old(self).servers,
                                    final(self).servers,
                                    s,
                                    c,
                                    h,
                                    new_slot,
                                )
                                &&& old(self).servers.contents@[s].s_id == channel.guild
                                &&& crate::servers::channel_matches(old_slot, channel.id)
                                &&& old_slot matches Messages::Loading(ch0) ==> (new_slot
                                    matches Messages::Loaded(st) && st.id == ch0 && st.labels@
                                    == content@.reverse() && st.after is Finished && st.before
                                    == (if content@.len() >= REQUEST_LEN {
                                    crate::messages::LoadingState::Unloaded
                                } else {
                                    crate::messages::LoadingState::Finished
                                }))
                                &&& !(old_slot is Loading) ==> new_slot == old_slot
                            })
                    },
                    Product::Can(resp) => match resp {
                        Response::Message(msg) => {
                            &&& (spec_channel_absent(
                                old(self).servers,
                                msg.channel_id,
                                msg.guild_id,
                            ) ==> *final(self) == *old(self) && r.1@.len() == 0)
                            &&& (!spec_channel_absent(
                                old(self).servers,
                                msg.channel_id,
                                msg.guild_id,
                            ) ==> exists|s: int, c: int, h: int|
                                #![trigger old(self).servers.contents@[s].contents@[c].contents@[h]]
                                {
                                    let old_slot =
                                        old(self).servers.contents@[s].contents@[c].contents@[h];
                                    let new_slot =
                                        final(self).servers.contents@[s].contents@[c].contents@[h];
                                    &&& crate::servers::slot_replaced(
                                        old(self).servers,
                                        final(self).servers,
                                        s,
                                        c,
                                        h,
                                        new_slot,
                                    )
                                    &&& old(self).servers.contents@[s].s_id == msg.guild_id
                                    &&& crate::servers::channel_matches(old_slot, msg.channel_id)
                                    &&& crate::messages::live_step(old_slot, new_slot, msg, r.1@)
                                })
                        },
                    },
                    _ => true,
                }
            }),
    {
        match p {
            Product::MessagesBefore(content, channel) => {
                let found = self.servers.find_channel(channel.id, channel.guild);
                match found {
                    Some((s, c, h)) => {
                        let slot = self.servers.grab3(s, c, h);
                        match slot {
                            Messages::Loaded(val) => {
                                val.receive_update(&mut self.user_dict, content);
                            },
                            _ => {},
                        }
                        proof {
                            assert(crate::servers::slot_replaced(
                                old(self).servers,
                                self.servers,
                                s as int,
                                c as int,
                                h as int,
                                self.servers.contents@[s as int].contents@[c as int].contents@[h as int],
                            ));
                        }
                        (false, Vec::new())
                    },
                    None => (false, Vec::new()),
                }
            },
            Product::MessagesAfter(content, channel) => {
                let found = self.servers.find_channel(channel.id, channel.guild);
                match found {
                    Some((s, c, h)) => {
                        let slot = self.servers.grab3(s, c, h);
                        match slot {
                            Messages::Loaded(val) => {
                                val.receive_update_after(&mut self.user_dict, content);
                            },
                            _ => {},
                        }
                        proof {
                            assert(crate::servers::slot_replaced(
                                old(self).servers,
                                self.servers,
                                s as int,
                                c as int,
                                h as int,
                                self.servers.contents@[s as int].contents@[c as int].contents@[h as int],
                            ));
                        }
                        (false, Vec::new())
                    },
                    None => (false, Vec::new()),
                }
            },
            Product::MessagesNew(content, channel) => {
                let found = self.servers.find_channel(channel.id, channel.guild);
                match found {
                    Some((s, c, h)) => {
                        let more_messages: bool = content.len() >= REQUEST_LEN;
                        let slot = self.servers.grab3(s, c, h);
                        slot.receive_new(&mut self.user_dict, content, more_messages);
                        proof {
                            assert(crate::servers::slot_replaced(
                                old(self).servers,
                                self.servers,
                                s as int,
                                c as int,
                                h as int,
                                self.servers.contents@[s as int].contents@[c as int].contents@[h as int],
                            ));
                        }
                        (false, Vec::new())
                    },
                    None => (false, Vec::new()),
                }
            },
            Product::CanSave => (true, Vec::new()),
            Product::Killed => (true, Vec::new()),
            Product::Can(val) => {
                let tasks = self.handle_response(val);
                (false, tasks)
            },
        }
    }
}

} // verus!
