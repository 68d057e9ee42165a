//! The dispatcher: owns the configuration snapshot, the handler registries
//! and both outbound queues; classifies every inbound transport event and
//! routes it, enqueuing outbound operations and chat replies.

use vstd::prelude::*;

use crate::config::{
    built_from, spec_build_error_fits, spec_config_error_message, spec_raw_valid, BotConfig,
    ConfigError, RawBotConfig,
};
use crate::queue::FifoQueue;
use crate::re_acl::acl_matches;
use crate::re_engine::{re_captures1, re_pattern, regex_captures1};
use crate::re_mut::spec_rewrite;
use crate::str_util::{
    is_prefix_of, lemma_prefix_concat, spec_split_char_once, spec_split_ws_once, split_char_once,
    split_ws_once, starts_with, str_eq,
};
use crate::strmap::{assoc_get, assoc_get_wild, get_wild, StrMap};

verus! {

/// The origin fields of an inbound event: who sent it.
#[derive(Debug)]
pub struct Origin {
    pub nick: String,
    pub user: String,
    pub host: String,
}

/// One parsed inbound transport event.
#[derive(Debug)]
pub enum EventKind {
    /// A chat message to a channel or directly to the bot.
    PrivMsg { target: String, text: String },
    /// Someone joined a channel.
    Join { channel: String },
    /// Someone changed nickname.
    NickChange { newnick: String },
    /// Anything else; only raw-event observers see it.
    Other,
}

#[derive(Debug)]
pub struct Event {
    pub origin: Option<Origin>,
    pub kind: EventKind,
}

/// A queued privileged outbound action. Each variant carries all data its
/// execution needs, by value; nothing refers back to dispatcher state.
#[derive(Debug)]
pub enum IrcOp {
    /// Grant voice: channel, nick.
    ModeVoice(String, String),
    /// Grant operator: channel, nick.
    ModeOper(String, String),
    /// Invite: nick, channel.
    Invite(String, String),
    /// Change the bot's nickname.
    Nick(String),
    /// Join a channel.
    Join(String),
    /// Duplicate-URL check: db path, url, channel, timezone name, expiry days.
    UrlCheck(String, String, String, String, i64),
    /// Fetch a page and announce its title: url, channel.
    UrlTitle(String, String),
    /// Persist a URL sighting: db path, url, channel, nick, timestamp.
    UrlLog(String, String, String, String, i64),
    /// Templated remote fetch: url template, argument text, channel, and the
    /// compiled output filter.
    UrlFetch(String, String, String, regex::Regex),
}

/// The ghost form of an operation; a `UrlFetch` filter is represented by its
/// pattern text.
pub ghost enum SpecOp {
    ModeVoice(Seq<char>, Seq<char>),
    ModeOper(Seq<char>, Seq<char>),
    Invite(Seq<char>, Seq<char>),
    Nick(Seq<char>),
    Join(Seq<char>),
    UrlCheck(Seq<char>, Seq<char>, Seq<char>, Seq<char>, i64),
    UrlTitle(Seq<char>, Seq<char>),
    UrlLog(Seq<char>, Seq<char>, Seq<char>, Seq<char>, i64),
    UrlFetch(Seq<char>, Seq<char>, Seq<char>, Seq<char>),
}

impl View for IrcOp {
    type V = SpecOp;

    open spec fn view(&self) -> SpecOp {
        match self {
            IrcOp::ModeVoice(c, n) => SpecOp::ModeVoice(c@, n@),
            IrcOp::ModeOper(c, n) => SpecOp::ModeOper(c@, n@),
            IrcOp::Invite(n, c) => SpecOp::Invite(n@, c@),
            IrcOp::Nick(n) => SpecOp::Nick(n@),
            IrcOp::Join(c) => SpecOp::Join(c@),
            IrcOp::UrlCheck(d, u, c, t, e) => SpecOp::UrlCheck(d@, u@, c@, t@, *e),
            IrcOp::UrlTitle(u, c) => SpecOp::UrlTitle(u@, c@),
            IrcOp::UrlLog(d, u, c, n, s) => SpecOp::UrlLog(d@, u@, c@, n@, *s),
            IrcOp::UrlFetch(t, a, c, f) => SpecOp::UrlFetch(t@, a@, c@, re_pattern(*f)),
        }
    }
}

/// A queued chat reply: target and text.
#[derive(Debug)]
pub struct IrcMsg {
    pub target: String,
    pub msg: String,
}

impl View for IrcMsg {
    type V = (Seq<char>, Seq<char>);

    open spec fn view(&self) -> (Seq<char>, Seq<char>) {
        (self.target@, self.msg@)
    }
}

/// The commands the bot reacts to; the keyword each one listens on is a
/// configuration value.
#[derive(Clone, Copy, PartialEq, Eq, Structural, Debug)]
pub enum BotCmd {
    /// Reload the runtime configuration.
    Reload,
    /// Dump the ACLs as private replies.
    DumpAcl,
    /// Say something to a channel.
    Say,
    /// Change the bot's nickname.
    Nick,
    /// Make the bot join a channel.
    JoinChannel,
    /// Invite the sender to the configured channel.
    Invite,
    /// Grant operator if the sender passes the ACL, else voice.
    ModeO,
    /// Grant voice.
    ModeV,
}

impl View for BotCmd {
    type V = BotCmd;

    open spec fn view(&self) -> BotCmd {
        *self
    }
}

impl DeepView for BotCmd {
    type V = BotCmd;

    open spec fn deep_view(&self) -> BotCmd {
        *self
    }
}

/// A raw-event observer.
#[derive(Clone, Copy, PartialEq, Eq, Structural, Debug)]
pub enum IrcCmdHandler {
    /// Grant operator to anyone joining who passes the auto-op ACL.
    AutoOpOnJoin,
}

/// What one inbound event came to: whether some handler reacted, and whether
/// a configuration reload was requested.
#[derive(Clone, Copy, PartialEq, Eq, Structural, Debug)]
pub struct Dispatch {
    pub handled: bool,
    pub reload: bool,
}

/// The throttle delay between two executed operations, in seconds.
pub const IRC_OP_THROTTLE: u64 = 3;

/// The throttle delay between two sent chat replies, in seconds.
pub const IRC_MSG_THROTTLE: u64 = 2;

/// The nickname of the last-seen event's sender, for events without origin.
pub const NO_NICK: &'static str = "NONE";

/// The dispatcher. It owns the configuration snapshot, the handler
/// registries, the sender context of the last-seen event, and the two
/// outbound queues.
pub struct IrcBot {
    bot_cfg: BotConfig,
    mynick: String,
    msg_nick: String,
    msg_user: String,
    msg_host: String,
    msg_userhost: String,
    op_queue: FifoQueue<IrcOp>,
    msg_queue: FifoQueue<IrcMsg>,
    handlers_irc_cmd: Vec<IrcCmdHandler>,
    handlers_privmsg_open: StrMap<BotCmd>,
    handlers_privmsg_priv: StrMap<BotCmd>,
    handlers_chanmsg: StrMap<BotCmd>,
}

impl IrcBot {
    /// The installed configuration snapshot.
    pub closed spec fn cfg(&self) -> BotConfig {
        self.bot_cfg
    }

    pub closed spec fn spec_mynick(&self) -> Seq<char> {
        self.mynick@
    }

    pub closed spec fn spec_msg_nick(&self) -> Seq<char> {
        self.msg_nick@
    }

    pub closed spec fn spec_msg_user(&self) -> Seq<char> {
        self.msg_user@
    }

    pub closed spec fn spec_msg_host(&self) -> Seq<char> {
        self.msg_host@
    }

    pub closed spec fn spec_msg_userhost(&self) -> Seq<char> {
        self.msg_userhost@
    }

    /// The queued operations, in enqueue order.
    pub closed spec fn ops(&self) -> Seq<SpecOp> {
        self.op_queue@.map_values(|o: IrcOp| o@)
    }

    /// The queued chat replies, in enqueue order.
    pub closed spec fn msgs(&self) -> Seq<(Seq<char>, Seq<char>)> {
        self.msg_queue@.map_values(|m: IrcMsg| m@)
    }

    pub closed spec fn observers(&self) -> Seq<IrcCmdHandler> {
        self.handlers_irc_cmd@
    }

    pub closed spec fn priv_handlers(&self) -> Seq<(Seq<char>, BotCmd)> {
        self.handlers_privmsg_priv@
    }

    pub closed spec fn open_handlers(&self) -> Seq<(Seq<char>, BotCmd)> {
        self.handlers_privmsg_open@
    }

    pub closed spec fn chan_handlers(&self) -> Seq<(Seq<char>, BotCmd)> {
        self.handlers_chanmsg@
    }

    /// The dispatcher relies on its snapshot being well formed; every
    /// constructor and reload establishes this, and nothing disturbs it.
    pub open spec fn wf(&self) -> bool {
        self.cfg().wf()
    }
}

/// The sender context and nickname are unchanged between the two states.
pub open spec fn same_sender(a: IrcBot, b: IrcBot) -> bool {
    &&& a.spec_mynick() == b.spec_mynick()
    &&& a.spec_msg_nick() == b.spec_msg_nick()
    &&& a.spec_msg_user() == b.spec_msg_user()
    &&& a.spec_msg_host() == b.spec_msg_host()
    &&& a.spec_msg_userhost() == b.spec_msg_userhost()
}

/// All four handler registries are unchanged between the two states.
pub open spec fn same_handlers(a: IrcBot, b: IrcBot) -> bool {
    &&& a.observers() == b.observers()
    &&& a.priv_handlers() == b.priv_handlers()
    &&& a.open_handlers() == b.open_handlers()
    &&& a.chan_handlers() == b.chan_handlers()
}

/// Both queues are unchanged between the two states.
pub open spec fn same_queues(a: IrcBot, b: IrcBot) -> bool {
    &&& a.ops() == b.ops()
    &&& a.msgs() == b.msgs()
}

/// The open ("any sender") command registrations derived from a snapshot,
/// newest registration first.
pub open spec fn spec_open_handlers(cfg: BotConfig) -> Seq<(Seq<char>, BotCmd)> {
    seq![
        (cfg.cmd_mode_v@, BotCmd::ModeV),
        (cfg.cmd_mode_o@, BotCmd::ModeO),
        (cfg.cmd_invite@, BotCmd::Invite),
    ]
}

/// The privileged-sender command registrations derived from a snapshot,
/// newest registration first.
pub open spec fn spec_priv_handlers(cfg: BotConfig) -> Seq<(Seq<char>, BotCmd)> {
    seq![
        (cfg.cmd_say@, BotCmd::Say),
        (cfg.cmd_reload@, BotCmd::Reload),
        (cfg.cmd_nick@, BotCmd::Nick),
        (cfg.cmd_join@, BotCmd::JoinChannel),
        (cfg.cmd_dumpacl@, BotCmd::DumpAcl),
    ]
}

impl IrcBot {
    /// A fresh dispatcher over a just-built snapshot: empty registries, empty
    /// queues, sentinel sender context. Fails exactly as a build from these
    /// raw values fails.
    pub fn new(raw: RawBotConfig, mynick: &str) -> (r: Result<IrcBot, ConfigError>)
        ensures
            spec_raw_valid(raw) && raw.url_cmd_list@.len() == 0 ==> r is Ok,
            r matches Err(e) ==> spec_build_error_fits(e, raw),
            r matches Ok(b) ==> built_from(b.cfg(), raw) && spec_raw_valid(raw) && b.wf()
                && b.spec_mynick() == mynick@ && b.spec_msg_nick() == NO_NICK@
                && b.spec_msg_user() == NO_NICK@ && b.spec_msg_host() == NO_NICK@
                && b.spec_msg_userhost() == "NONE@NONE"@ && b.ops() == Seq::<SpecOp>::empty()
                && b.msgs() == Seq::<(Seq<char>, Seq<char>)>::empty() && b.observers()
                == Seq::<IrcCmdHandler>::empty() && b.priv_handlers() == Seq::<(
                Seq<char>,
                BotCmd,
            )>::empty() && b.open_handlers() == Seq::<(Seq<char>, BotCmd)>::empty()
                && b.chan_handlers() == Seq::<(Seq<char>, BotCmd)>::empty(),
            !spec_raw_valid(raw) ==> r is Err,
    {
        let bot_cfg = match BotConfig::build(raw) {
            Ok(c) => c,
            Err(e) => {
                return Err(e);
            }
        };
        let b = IrcBot {
            bot_cfg,
            mynick: mynick.to_owned(),
            msg_nick: NO_NICK.to_owned(),
            msg_user: NO_NICK.to_owned(),
            msg_host: NO_NICK.to_owned(),
            msg_userhost: "NONE@NONE".to_owned(),
            op_queue: FifoQueue::new(),
            msg_queue: FifoQueue::new(),
            handlers_irc_cmd: Vec::new(),
            handlers_privmsg_open: StrMap::new(),
            handlers_privmsg_priv: StrMap::new(),
            handlers_chanmsg: StrMap::new(),
        };
        proof {
            assert(b.ops() =~= Seq::<SpecOp>::empty());
            assert(b.msgs() =~= Seq::<(Seq<char>, Seq<char>)>::empty());
        }
        Ok(b)
    }

    /// The bot's current nickname.
    pub fn mynick(&self) -> (r: &str)
        ensures
            r@ == self.spec_mynick(),
    {
        self.mynick.as_str()
    }

    /// Nickname of the last-seen event's sender.
    pub fn msg_nick(&self) -> (r: &str)
        ensures
            r@ == self.spec_msg_nick(),
    {
        self.msg_nick.as_str()
    }

    /// User field of the last-seen event's sender.
    pub fn msg_user(&self) -> (r: &str)
        ensures
            r@ == self.spec_msg_user(),
    {
        self.msg_user.as_str()
    }

    /// Host field of the last-seen event's sender.
    pub fn msg_host(&self) -> (r: &str)
        ensures
            r@ == self.spec_msg_host(),
    {
        self.msg_host.as_str()
    }

    /// Identity string (user@host) of the last-seen event's sender.
    pub fn msg_userhost(&self) -> (r: &str)
        ensures
            r@ == self.spec_msg_userhost(),
    {
        self.msg_userhost.as_str()
    }

    /// The installed snapshot, read-only.
    pub fn bot_cfg(&self) -> (r: &BotConfig)
        ensures
            *r == self.cfg(),
    {
        &self.bot_cfg
    }

    /// Empty all four handler registries.
    pub fn clear_handlers(&mut self)
        ensures
            final(self).observers() == Seq::<IrcCmdHandler>::empty(),
            final(self).priv_handlers() == Seq::<(Seq<char>, BotCmd)>::empty(),
            final(self).open_handlers() == Seq::<(Seq<char>, BotCmd)>::empty(),
            final(self).chan_handlers() == Seq::<(Seq<char>, BotCmd)>::empty(),
            final(self).cfg() == old(self).cfg(),
            same_sender(*old(self), *final(self)),
            same_queues(*old(self), *final(self)),
    {
        self.handlers_irc_cmd = Vec::new();
        self.handlers_privmsg_open = StrMap::new();
        self.handlers_privmsg_priv = StrMap::new();
        self.handlers_chanmsg = StrMap::new();
    }

    /// Register a raw-event observer; observers run in registration order.
    pub fn register_irc_cmd(&mut self, handler: IrcCmdHandler)
        ensures
            final(self).observers() == old(self).observers().push(handler),
            final(self).priv_handlers() == old(self).priv_handlers(),
            final(self).open_handlers() == old(self).open_handlers(),
            final(self).chan_handlers() == old(self).chan_handlers(),
            final(self).cfg() == old(self).cfg(),
            same_sender(*old(self), *final(self)),
            same_queues(*old(self), *final(self)),
    {
        self.handlers_irc_cmd.push(handler);
    }

    /// Register a privileged-sender private-message command. Lookup is
    /// first-match over the newest-first table, so registering a keyword
    /// again replaces its handler.
    pub fn register_privmsg_priv(&mut self, cmd: String, handler: BotCmd)
        ensures
            final(self).priv_handlers() == seq![(cmd@, handler)] + old(self).priv_handlers(),
            final(self).observers() == old(self).observers(),
            final(self).open_handlers() == old(self).open_handlers(),
            final(self).chan_handlers() == old(self).chan_handlers(),
            final(self).cfg() == old(self).cfg(),
            same_sender(*old(self), *final(self)),
            same_queues(*old(self), *final(self)),
    {
        self.handlers_privmsg_priv.insert(cmd, handler);
    }

    /// Register an any-sender private-message command; re-registration of a
    /// keyword replaces its handler.
    pub fn register_privmsg_open(&mut self, cmd: String, handler: BotCmd)
        ensures
            final(self).open_handlers() == seq![(cmd@, handler)] + old(self).open_handlers(),
            final(self).observers() == old(self).observers(),
            final(self).priv_handlers() == old(self).priv_handlers(),
            final(self).chan_handlers() == old(self).chan_handlers(),
            final(self).cfg() == old(self).cfg(),
            same_sender(*old(self), *final(self)),
            same_queues(*old(self), *final(self)),
    {
        self.handlers_privmsg_open.insert(cmd, handler);
    }

    /// Register a channel-message command; re-registration of a keyword
    /// replaces its handler.
    pub fn register_chanmsg(&mut self, cmd: String, handler: BotCmd)
        ensures
            final(self).chan_handlers() == seq![(cmd@, handler)] + old(self).chan_handlers(),
            final(self).observers() == old(self).observers(),
            final(self).priv_handlers() == old(self).priv_handlers(),
            final(self).open_handlers() == old(self).open_handlers(),
            final(self).cfg() == old(self).cfg(),
            same_sender(*old(self), *final(self)),
            same_queues(*old(self), *final(self)),
    {
        self.handlers_chanmsg.insert(cmd, handler);
    }

    /// Clear and repopulate the registries from the installed snapshot's
    /// command keywords: the join observer, the open commands (invite, +o,
    /// +v) and the privileged ones (dump ACL, join, nick, reload, say).
    pub fn setup_handlers(&mut self)
        ensures
            final(self).observers() == seq![IrcCmdHandler::AutoOpOnJoin],
            final(self).open_handlers() == spec_open_handlers(old(self).cfg()),
            final(self).priv_handlers() == spec_priv_handlers(old(self).cfg()),
            final(self).chan_handlers() == Seq::<(Seq<char>, BotCmd)>::empty(),
            final(self).cfg() == old(self).cfg(),
            same_sender(*old(self), *final(self)),
            same_queues(*old(self), *final(self)),
    {
        self.clear_handlers();
        self.register_irc_cmd(IrcCmdHandler::AutoOpOnJoin);
        let cmd_invite = self.bot_cfg().cmd_invite.clone();
        self.register_privmsg_open(cmd_invite, BotCmd::Invite);
        let cmd_mode_o = self.bot_cfg().cmd_mode_o.clone();
        self.register_privmsg_open(cmd_mode_o, BotCmd::ModeO);
        let cmd_mode_v = self.bot_cfg().cmd_mode_v.clone();
        self.register_privmsg_open(cmd_mode_v, BotCmd::ModeV);
        let cmd_dumpacl = self.bot_cfg().cmd_dumpacl.clone();
        self.register_privmsg_priv(cmd_dumpacl, BotCmd::DumpAcl);
        let cmd_join = self.bot_cfg().cmd_join.clone();
        self.register_privmsg_priv(cmd_join, BotCmd::JoinChannel);
        let cmd_nick = self.bot_cfg().cmd_nick.clone();
        self.register_privmsg_priv(cmd_nick, BotCmd::Nick);
        let cmd_reload = self.bot_cfg().cmd_reload.clone();
        self.register_privmsg_priv(cmd_reload, BotCmd::Reload);
        let cmd_say = self.bot_cfg().cmd_say.clone();
        self.register_privmsg_priv(cmd_say, BotCmd::Say);
        proof {
            assert(final(self).observers() =~= seq![IrcCmdHandler::AutoOpOnJoin]);
            assert(final(self).open_handlers() =~= spec_open_handlers(old(self).cfg()));
            assert(final(self).priv_handlers() =~= spec_priv_handlers(old(self).cfg()));
        }
    }

    /// Enqueue one outbound operation; never blocks, never fails.
    pub fn new_op(&mut self, op: IrcOp)
        ensures
            final(self).ops() == old(self).ops().push(op@),
            final(self).msgs() == old(self).msgs(),
            final(self).cfg() == old(self).cfg(),
            same_sender(*old(self), *final(self)),
            same_handlers(*old(self), *final(self)),
    {
        let ghost g = op@;
        self.op_queue.enqueue(op);
        proof {
            assert(final(self).ops() =~= old(self).ops().push(g));
        }
    }

    /// Enqueue one chat reply; never blocks, never fails.
    pub fn new_msg(&mut self, target: String, msg: String)
        ensures
            final(self).msgs() == old(self).msgs().push((target@, msg@)),
            final(self).ops() == old(self).ops(),
            final(self).cfg() == old(self).cfg(),
            same_sender(*old(self), *final(self)),
            same_handlers(*old(self), *final(self)),
    {
        let ghost g = (target@, msg@);
        self.msg_queue.enqueue(IrcMsg { target, msg });
        proof {
            assert(final(self).msgs() =~= old(self).msgs().push(g));
        }
    }

    /// Hand every queued operation to the consumer, in enqueue order,
    /// leaving the operation queue empty.
    pub fn take_ops(&mut self) -> (r: Vec<IrcOp>)
        ensures
            r@.map_values(|o: IrcOp| o@) == old(self).ops(),
            final(self).ops() == Seq::<SpecOp>::empty(),
            final(self).msgs() == old(self).msgs(),
            final(self).cfg() == old(self).cfg(),
            same_sender(*old(self), *final(self)),
            same_handlers(*old(self), *final(self)),
    {
        let r = self.op_queue.take_all();
        proof {
            assert(final(self).ops() =~= Seq::<SpecOp>::empty());
        }
        r
    }

    /// Hand every queued chat reply to the consumer, in enqueue order,
    /// leaving the message queue empty.
    pub fn take_msgs(&mut self) -> (r: Vec<IrcMsg>)
        ensures
            r@.map_values(|m: IrcMsg| m@) == old(self).msgs(),
            final(self).msgs() == Seq::<(Seq<char>, Seq<char>)>::empty(),
            final(self).ops() == old(self).ops(),
            final(self).cfg() == old(self).cfg(),
            same_sender(*old(self), *final(self)),
            same_handlers(*old(self), *final(self)),
    {
        let r = self.msg_queue.take_all();
        proof {
            assert(final(self).msgs() =~= Seq::<(Seq<char>, Seq<char>)>::empty());
        }
        r
    }

    /// Install a snapshot built from new raw values, atomically: on any build
    /// failure the previously active snapshot, registries and queues are left
    /// fully intact and the error is returned to the caller.
    pub fn reload(&mut self, raw: RawBotConfig) -> (r: Result<bool, ConfigError>)
        ensures
            r matches Ok(b) ==> b && built_from(final(self).cfg(), raw) && spec_raw_valid(raw)
                && final(self).wf() && same_sender(*old(self), *final(self)) && same_handlers(
                *old(self),
                *final(self),
            ) && same_queues(*old(self), *final(self)),
            r is Err ==> *final(self) == *old(self),
            !spec_raw_valid(raw) ==> r is Err,
            spec_raw_valid(raw) && raw.url_cmd_list@.len() == 0 ==> r is Ok,
            r matches Err(e) ==> spec_build_error_fits(e, raw),
    {
        match BotConfig::build(raw) {
            Ok(cfg) => {
                self.bot_cfg = cfg;
                Ok(true)
            }
            Err(e) => Err(e),
        }
    }
}

/// The queued effect of handling part of one event: operations and replies
/// to enqueue (in order), whether a handler reacted, and whether a reload was
/// requested.
pub ghost struct Effect {
    pub ops: Seq<SpecOp>,
    pub msgs: Seq<(Seq<char>, Seq<char>)>,
    pub handled: bool,
    pub reload: bool,
}

/// The neutral effect: nothing enqueued, nothing handled.
pub open spec fn spec_no_effect() -> Effect {
    Effect { ops: seq![], msgs: seq![], handled: false, reload: false }
}

/// Two effects in order; handled and reload combine disjunctively.
pub open spec fn spec_effect_seq(a: Effect, b: Effect) -> Effect {
    Effect {
        ops: a.ops + b.ops,
        msgs: a.msgs + b.msgs,
        handled: a.handled || b.handled,
        reload: a.reload || b.reload,
    }
}

/// The ACL dump: both rule lists as private replies to the requester, each
/// list closed with a terminator line.
pub open spec fn spec_dump_msgs(bot: IrcBot, nick: Seq<char>) -> Seq<(Seq<char>, Seq<char>)> {
    seq![(nick, "My +o ACL:"@)] + bot.cfg().mode_o_acl@.map_values(|p: Seq<char>| (nick, p))
        + seq![(nick, "<EOF>"@), (nick, "My auto +o ACL:"@)] + bot.cfg().auto_o_acl@.map_values(
        |p: Seq<char>| (nick, p),
    ) + seq![(nick, "<EOF>"@)]
}

/// Where a say command goes: to the named channel when the argument text
/// starts with '#' and has a space after the channel name, else to the
/// configured channel, with the whole argument text.
pub open spec fn spec_say_msg(bot: IrcBot, args: Seq<char>) -> (Seq<char>, Seq<char>) {
    if args.len() > 0 && args[0] == '#' && spec_split_char_once(args, ' ') is Some {
        spec_split_char_once(args, ' ')->0
    } else {
        (bot.cfg().channel@, args)
    }
}

/// What one command does, given the dispatcher state and the argument text.
/// Every command reacts (handled is true); the mode-grant command falls back
/// to voice when the sender's identity passes no ACL rule.
pub open spec fn spec_run_cmd(
    bot: IrcBot,
    nick: Seq<char>,
    userhost: Seq<char>,
    c: BotCmd,
    args: Seq<char>,
) -> Effect {
    let chan = bot.cfg().channel@;
    match c {
        BotCmd::Reload => Effect { ops: seq![], msgs: seq![], handled: true, reload: true },
        BotCmd::DumpAcl => Effect {
            ops: seq![],
            msgs: spec_dump_msgs(bot, nick),
            handled: true,
            reload: false,
        },
        BotCmd::Say => Effect {
            ops: seq![],
            msgs: seq![spec_say_msg(bot, args)],
            handled: true,
            reload: false,
        },
        BotCmd::Nick => Effect {
            ops: seq![SpecOp::Nick(args)],
            msgs: seq![],
            handled: true,
            reload: false,
        },
        BotCmd::JoinChannel => Effect {
            ops: seq![SpecOp::Join(args)],
            msgs: seq![],
            handled: true,
            reload: false,
        },
        BotCmd::Invite => Effect {
            ops: seq![SpecOp::Invite(nick, chan)],
            msgs: seq![],
            handled: true,
            reload: false,
        },
        BotCmd::ModeO => Effect {
            ops: seq![
                if acl_matches(bot.cfg().mode_o_acl@, userhost) {
                    SpecOp::ModeOper(chan, nick)
                } else {
                    SpecOp::ModeVoice(chan, nick)
                },
            ],
            msgs: seq![],
            handled: true,
            reload: false,
        },
        BotCmd::ModeV => Effect {
            ops: seq![SpecOp::ModeVoice(chan, nick)],
            msgs: seq![],
            handled: true,
            reload: false,
        },
    }
}

/// The effect of trying the privileged command table.
pub open spec fn spec_priv_attempt(
    bot: IrcBot,
    nick: Seq<char>,
    userhost: Seq<char>,
    kw: Seq<char>,
    args: Seq<char>,
) -> Effect {
    match assoc_get(bot.priv_handlers(), kw) {
        Some(c) => spec_run_cmd(bot, nick, userhost, c, args),
        None => spec_no_effect(),
    }
}

/// The effect of trying the open command table.
pub open spec fn spec_open_attempt(
    bot: IrcBot,
    nick: Seq<char>,
    userhost: Seq<char>,
    kw: Seq<char>,
    args: Seq<char>,
) -> Effect {
    match assoc_get(bot.open_handlers(), kw) {
        Some(c) => spec_run_cmd(bot, nick, userhost, c, args),
        None => spec_no_effect(),
    }
}

/// The effect of a private message: a privileged sender's keyword goes to
/// the privileged table first; if that does not react, and for everyone
/// else, the open table is tried. An unrecognized keyword is ignored. The
/// privileged-sender map is consulted by exact nickname: the wildcard entry
/// is special only in the per-channel maps.
pub open spec fn spec_privmsg_effect(
    bot: IrcBot,
    nick: Seq<char>,
    userhost: Seq<char>,
    kw: Seq<char>,
    args: Seq<char>,
) -> Effect {
    let privileged = assoc_get(bot.cfg().privileged_nicks@, nick) == Some(true);
    if privileged {
        let e1 = spec_priv_attempt(bot, nick, userhost, kw, args);
        if e1.handled {
            e1
        } else {
            spec_effect_seq(e1, spec_open_attempt(bot, nick, userhost, kw, args))
        }
    } else {
        spec_open_attempt(bot, nick, userhost, kw, args)
    }
}

/// Access-control law: a sender not marked privileged never reaches the
/// privileged command table; only the open table can react, so a keyword
/// bound only in the privileged table (the say command, for one) enqueues
/// nothing from such a sender and the message counts as unhandled.
pub proof fn lemma_privmsg_access_control(
    bot: IrcBot,
    nick: Seq<char>,
    userhost: Seq<char>,
    kw: Seq<char>,
    args: Seq<char>,
)
    requires
        assoc_get(bot.cfg().privileged_nicks@, nick) != Some(true),
    ensures
        spec_privmsg_effect(bot, nick, userhost, kw, args) == spec_open_attempt(
            bot,
            nick,
            userhost,
            kw,
            args,
        ),
        assoc_get(bot.open_handlers(), kw) is None ==> spec_privmsg_effect(
            bot,
            nick,
            userhost,
            kw,
            args,
        ) == spec_no_effect(),
{
}

/// The command effects depend only on the snapshot, the sender context and
/// the registries, all of which handling one command leaves unchanged.
proof fn lemma_effect_same(
    a: IrcBot,
    b: IrcBot,
    nick: Seq<char>,
    userhost: Seq<char>,
    c: BotCmd,
    args: Seq<char>,
)
    requires
        a.cfg() == b.cfg(),
    ensures
        spec_run_cmd(a, nick, userhost, c, args) == spec_run_cmd(b, nick, userhost, c, args),
{
    assert(spec_dump_msgs(a, nick) =~= spec_dump_msgs(b, nick));
}

proof fn lemma_open_attempt_same(
    a: IrcBot,
    b: IrcBot,
    nick: Seq<char>,
    userhost: Seq<char>,
    kw: Seq<char>,
    args: Seq<char>,
)
    requires
        a.cfg() == b.cfg(),
        a.open_handlers() == b.open_handlers(),
    ensures
        spec_open_attempt(a, nick, userhost, kw, args) == spec_open_attempt(
            b,
            nick,
            userhost,
            kw,
            args,
        ),
{
    match assoc_get(a.open_handlers(), kw) {
        Some(c) => {
            lemma_effect_same(a, b, nick, userhost, c, args);
        }
        None => {}
    }
}

impl IrcBot {
    /// Dump both ACLs to the requester as private replies.
    fn dump_acl(&mut self)
        ensures
            final(self).msgs() == old(self).msgs() + spec_dump_msgs(*old(self), old(self).spec_msg_nick()),
            final(self).ops() == old(self).ops(),
            final(self).cfg() == old(self).cfg(),
            same_sender(*old(self), *final(self)),
            same_handlers(*old(self), *final(self)),
    {
        let ghost nick0 = old(self).spec_msg_nick();
        let nick = self.msg_nick.clone();
        self.new_msg(nick.clone(), "My +o ACL:".to_owned());
        let n = self.bot_cfg.mode_o_acl.len();
        let mut i: usize = 0;
        proof {
            assert(old(self).cfg().mode_o_acl@.map_values(
                |p: Seq<char>| (nick0, p),
            ).take(0) =~= Seq::<(Seq<char>, Seq<char>)>::empty());
            assert(self.msgs() =~= old(self).msgs() + seq![(nick0, "My +o ACL:"@)]);
        }
        while i < n
            invariant
                i <= n,
                n == old(self).cfg().mode_o_acl@.len(),
                nick@ == nick0,
                self.cfg() == old(self).cfg(),
                same_sender(*old(self), *self),
                same_handlers(*old(self), *self),
                self.ops() == old(self).ops(),
                self.msgs() == old(self).msgs() + seq![(nick0, "My +o ACL:"@)] + old(
                    self,
                ).cfg().mode_o_acl@.map_values(|p: Seq<char>| (nick0, p)).take(i as int),
            decreases n - i,
        {
            let p = self.bot_cfg.mode_o_acl.patterns()[i].clone();
            let ghost ms = self.msgs();
            self.new_msg(nick.clone(), p);
            proof {
                assert(old(self).cfg().mode_o_acl@.map_values(
                    |p: Seq<char>| (nick0, p),
                ).take(i as int + 1) =~= old(self).cfg().mode_o_acl@.map_values(
                    |p: Seq<char>| (nick0, p),
                ).take(i as int).push((nick0, old(self).cfg().mode_o_acl@[i as int])));
                assert(self.msgs() =~= ms.push((nick0, old(self).cfg().mode_o_acl@[i as int])));
            }
            i = i + 1;
        }
        proof {
            assert(old(self).cfg().mode_o_acl@.map_values(|p: Seq<char>| (nick0, p)).take(
                n as int,
            ) =~= old(self).cfg().mode_o_acl@.map_values(|p: Seq<char>| (nick0, p)));
        }
        self.new_msg(nick.clone(), "<EOF>".to_owned());
        self.new_msg(nick.clone(), "My auto +o ACL:".to_owned());
        let ghost mid = self.msgs();
        let n2 = self.bot_cfg.auto_o_acl.len();
        let mut j: usize = 0;
        proof {
            assert(old(self).cfg().auto_o_acl@.map_values(|p: Seq<char>| (nick0, p)).take(0)
                =~= Seq::<(Seq<char>, Seq<char>)>::empty());
            assert(self.msgs() =~= mid + old(self).cfg().auto_o_acl@.map_values(
                |p: Seq<char>| (nick0, p),
            ).take(0));
        }
        while j < n2
            invariant
                j <= n2,
                n2 == old(self).cfg().auto_o_acl@.len(),
                nick@ == nick0,
                self.cfg() == old(self).cfg(),
                same_sender(*old(self), *self),
                same_handlers(*old(self), *self),
                self.ops() == old(self).ops(),
                self.msgs() == mid + old(self).cfg().auto_o_acl@.map_values(
                    |p: Seq<char>| (nick0, p),
                ).take(j as int),
            decreases n2 - j,
        {
            let p = self.bot_cfg.auto_o_acl.patterns()[j].clone();
            let ghost ms = self.msgs();
            self.new_msg(nick.clone(), p);
            proof {
                assert(old(self).cfg().auto_o_acl@.map_values(
                    |p: Seq<char>| (nick0, p),
                ).take(j as int + 1) =~= old(self).cfg().auto_o_acl@.map_values(
                    |p: Seq<char>| (nick0, p),
                ).take(j as int).push((nick0, old(self).cfg().auto_o_acl@[j as int])));
                assert(self.msgs() =~= ms.push((nick0, old(self).cfg().auto_o_acl@[j as int])));
            }
            j = j + 1;
        }
        proof {
            assert(old(self).cfg().auto_o_acl@.map_values(|p: Seq<char>| (nick0, p)).take(
                n2 as int,
            ) =~= old(self).cfg().auto_o_acl@.map_values(|p: Seq<char>| (nick0, p)));
        }
        self.new_msg(nick, "<EOF>".to_owned());
        proof {
            assert(self.msgs() =~= old(self).msgs() + spec_dump_msgs(*old(self), old(self).spec_msg_nick()));
        }
    }

    /// Execute one command with the given argument text, enqueuing its
    /// operations and replies; returns (handled, reload requested).
    fn run_cmd(&mut self, c: BotCmd, args: &str) -> (r: (bool, bool))
        ensures
            ({
                let e = spec_run_cmd(*old(self), old(self).spec_msg_nick(), old(self).spec_msg_userhost(), c, args@);
                &&& final(self).ops() == old(self).ops() + e.ops
                &&& final(self).msgs() == old(self).msgs() + e.msgs
                &&& r.0 == e.handled
                &&& r.1 == e.reload
                &&& final(self).cfg() == old(self).cfg()
                &&& same_sender(*old(self), *final(self))
                &&& same_handlers(*old(self), *final(self))
            }),
    {
        let ghost e = spec_run_cmd(*old(self), old(self).spec_msg_nick(), old(self).spec_msg_userhost(), c, args@);
        match c {
            BotCmd::Reload => {
                proof {
                    assert(self.ops() =~= old(self).ops() + e.ops);
                    assert(self.msgs() =~= old(self).msgs() + e.msgs);
                }
                (true, true)
            }
            BotCmd::DumpAcl => {
                self.dump_acl();
                proof {
                    assert(self.ops() =~= old(self).ops() + e.ops);
                }
                (true, false)
            }
            BotCmd::Say => {
                let n = args.unicode_len();
                if n > 0 && args.get_char(0) == '#' {
                    match split_char_once(args, ' ') {
                        Some((chan, m)) => {
                            self.new_msg(chan, m);
                        }
                        None => {
                            let chan = self.bot_cfg.channel.clone();
                            self.new_msg(chan, args.to_owned());
                        }
                    }
                } else {
                    let chan = self.bot_cfg.channel.clone();
                    self.new_msg(chan, args.to_owned());
                }
                proof {
                    assert(self.ops() =~= old(self).ops() + e.ops);
                    assert(self.msgs() =~= old(self).msgs() + e.msgs);
                }
                (true, false)
            }
            BotCmd::Nick => {
                self.new_op(IrcOp::Nick(args.to_owned()));
                proof {
                    assert(self.ops() =~= old(self).ops() + e.ops);
                    assert(self.msgs() =~= old(self).msgs() + e.msgs);
                }
                (true, false)
            }
            BotCmd::JoinChannel => {
                self.new_op(IrcOp::Join(args.to_owned()));
                proof {
                    assert(self.ops() =~= old(self).ops() + e.ops);
                    assert(self.msgs() =~= old(self).msgs() + e.msgs);
                }
                (true, false)
            }
            BotCmd::Invite => {
                let nick = self.msg_nick.clone();
                let chan = self.bot_cfg.channel.clone();
                self.new_op(IrcOp::Invite(nick, chan));
                proof {
                    assert(self.ops() =~= old(self).ops() + e.ops);
                    assert(self.msgs() =~= old(self).msgs() + e.msgs);
                }
                (true, false)
            }
            BotCmd::ModeO => {
                let acl_resp = self.bot_cfg.mode_o_acl.re_match(self.msg_userhost.as_str());
                let chan = self.bot_cfg.channel.clone();
                let nick = self.msg_nick.clone();
                match acl_resp {
                    Some(m) => {
                        proof {
                            assert(acl_matches(
                                old(self).cfg().mode_o_acl@,
                                old(self).spec_msg_userhost(),
                            ));
                        }
                        self.new_op(IrcOp::ModeOper(chan, nick));
                    }
                    None => {
                        self.new_op(IrcOp::ModeVoice(chan, nick));
                    }
                }
                proof {
                    assert(self.ops() =~= old(self).ops() + e.ops);
                    assert(self.msgs() =~= old(self).msgs() + e.msgs);
                }
                (true, false)
            }
            BotCmd::ModeV => {
                let chan = self.bot_cfg.channel.clone();
                let nick = self.msg_nick.clone();
                self.new_op(IrcOp::ModeVoice(chan, nick));
                proof {
                    assert(self.ops() =~= old(self).ops() + e.ops);
                    assert(self.msgs() =~= old(self).msgs() + e.msgs);
                }
                (true, false)
            }
        }
    }

    /// Try the privileged command table for a keyword.
    fn handle_privmsg_priv(&mut self, kw: &str, args: &str) -> (r: (bool, bool))
        ensures
            ({
                let e = spec_priv_attempt(*old(self), old(self).spec_msg_nick(), old(self).spec_msg_userhost(), kw@, args@);
                &&& final(self).ops() == old(self).ops() + e.ops
                &&& final(self).msgs() == old(self).msgs() + e.msgs
                &&& r.0 == e.handled
                &&& r.1 == e.reload
                &&& final(self).cfg() == old(self).cfg()
                &&& same_sender(*old(self), *final(self))
                &&& same_handlers(*old(self), *final(self))
            }),
    {
        let found = match self.handlers_privmsg_priv.get(kw) {
            Some(c) => Some(*c),
            None => None,
        };
        match found {
            Some(c) => self.run_cmd(c, args),
            None => {
                proof {
                    assert(self.ops() =~= old(self).ops() + spec_no_effect().ops);
                    assert(self.msgs() =~= old(self).msgs() + spec_no_effect().msgs);
                }
                (false, false)
            }
        }
    }

    /// Try the open command table for a keyword.
    fn handle_privmsg_open(&mut self, kw: &str, args: &str) -> (r: (bool, bool))
        ensures
            ({
                let e = spec_open_attempt(*old(self), old(self).spec_msg_nick(), old(self).spec_msg_userhost(), kw@, args@);
                &&& final(self).ops() == old(self).ops() + e.ops
                &&& final(self).msgs() == old(self).msgs() + e.msgs
                &&& r.0 == e.handled
                &&& r.1 == e.reload
                &&& final(self).cfg() == old(self).cfg()
                &&& same_sender(*old(self), *final(self))
                &&& same_handlers(*old(self), *final(self))
            }),
    {
        let found = match self.handlers_privmsg_open.get(kw) {
            Some(c) => Some(*c),
            None => None,
        };
        match found {
            Some(c) => self.run_cmd(c, args),
            None => {
                proof {
                    assert(self.ops() =~= old(self).ops() + spec_no_effect().ops);
                    assert(self.msgs() =~= old(self).msgs() + spec_no_effect().msgs);
                }
                (false, false)
            }
        }
    }

    /// Handle a private message: keyword lookup per sender privilege.
    fn handle_privmsg(&mut self, kw: &str, args: &str) -> (r: (bool, bool))
        ensures
            ({
                let e = spec_privmsg_effect(*old(self), old(self).spec_msg_nick(), old(self).spec_msg_userhost(), kw@, args@);
                &&& final(self).ops() == old(self).ops() + e.ops
                &&& final(self).msgs() == old(self).msgs() + e.msgs
                &&& r.0 == e.handled
                &&& r.1 == e.reload
                &&& final(self).cfg() == old(self).cfg()
                &&& same_sender(*old(self), *final(self))
                &&& same_handlers(*old(self), *final(self))
            }),
    {
        let is_priv = match self.bot_cfg.privileged_nicks.get(self.msg_nick.as_str()) {
            Some(b) => *b,
            None => false,
        };
        if is_priv {
            let e1 = self.handle_privmsg_priv(kw, args);
            if e1.0 {
                return e1;
            }
            let ghost mid = *self;
            let e2 = self.handle_privmsg_open(kw, args);
            proof {
                lemma_open_attempt_same(*old(self), mid, old(self).spec_msg_nick(), old(self).spec_msg_userhost(), kw@, args@);
                let e = spec_privmsg_effect(*old(self), old(self).spec_msg_nick(), old(self).spec_msg_userhost(), kw@, args@);
                assert(self.ops() =~= old(self).ops() + e.ops);
                assert(self.msgs() =~= old(self).msgs() + e.msgs);
            }
            (e1.0 || e2.0, e1.1 || e2.1)
        } else {
            self.handle_privmsg_open(kw, args)
        }
    }
}

/// Some blacklist entry is a prefix of the URL.
pub open spec fn spec_blacklisted(bl: Seq<Seq<char>>, url: Seq<char>) -> bool {
    exists|i: int| 0 <= i < bl.len() && is_prefix_of(#[trigger] bl[i], url)
}

/// The operations one detected URL produces, in order: the duplicate check
/// (where logging and duplicate complaints are enabled for the channel, with
/// the channel's expiry window, default seven days, and timezone, default
/// UTC), the history log (where logging is enabled), the title fetch (where
/// enabled), and a title fetch for the rewritten URL (where rewriting is
/// enabled and a rewrite rule matches). A blacklisted URL produces nothing.
pub open spec fn spec_url_ops(
    bot: IrcBot,
    nick: Seq<char>,
    channel: Seq<char>,
    now: i64,
    url: Seq<char>,
) -> Seq<SpecOp> {
    let cfg = bot.cfg();
    if spec_blacklisted(cfg.url_blacklist.deep_view(), url) {
        seq![]
    } else {
        (if assoc_get_wild(cfg.url_log_channels@, channel) == Some(true) {
            (if assoc_get_wild(cfg.url_dup_complain_channels@, channel) == Some(true) {
                let days = match assoc_get_wild(cfg.url_dup_expire_days@, channel) {
                    Some(d) => d,
                    None => 7i64,
                };
                let tzname = match assoc_get_wild(cfg.url_dup_timezone@, channel) {
                    Some(t) => t,
                    None => "UTC"@,
                };
                seq![SpecOp::UrlCheck(cfg.url_log_db@, url, channel, tzname, days)]
            } else {
                seq![]
            }) + seq![SpecOp::UrlLog(cfg.url_log_db@, url, channel, nick, now)]
        } else {
            seq![]
        }) + (if assoc_get_wild(cfg.url_fetch_channels@, channel) == Some(true) {
            seq![SpecOp::UrlTitle(url, channel)]
        } else {
            seq![]
        }) + (if assoc_get_wild(cfg.url_mut_channels@, channel) == Some(true) && spec_rewrite(
            cfg.url_mut_re@,
            url,
        ) is Some {
            seq![SpecOp::UrlTitle(spec_rewrite(cfg.url_mut_re@, url)->0, channel)]
        } else {
            seq![]
        })
    }
}

/// The replies one detected URL produces: the rewritten URL announced to the
/// channel, where rewriting is enabled and a rule matches.
pub open spec fn spec_url_msgs(bot: IrcBot, channel: Seq<char>, url: Seq<char>) -> Seq<(
    Seq<char>,
    Seq<char>,
)> {
    let cfg = bot.cfg();
    if !spec_blacklisted(cfg.url_blacklist.deep_view(), url) && assoc_get_wild(
        cfg.url_mut_channels@,
        channel,
    ) == Some(true) && spec_rewrite(cfg.url_mut_re@, url) is Some {
        seq![(channel, spec_rewrite(cfg.url_mut_re@, url)->0)]
    } else {
        seq![]
    }
}

pub open spec fn spec_urls_ops(
    bot: IrcBot,
    nick: Seq<char>,
    channel: Seq<char>,
    now: i64,
    urls: Seq<Seq<char>>,
) -> Seq<SpecOp>
    decreases urls.len(),
{
    if urls.len() == 0 {
        seq![]
    } else {
        spec_urls_ops(bot, nick, channel, now, urls.drop_last()) + spec_url_ops(
            bot,
            nick,
            channel,
            now,
            urls.last(),
        )
    }
}

pub open spec fn spec_urls_msgs(bot: IrcBot, channel: Seq<char>, urls: Seq<Seq<char>>) -> Seq<(
    Seq<char>,
    Seq<char>,
)>
    decreases urls.len(),
{
    if urls.len() == 0 {
        seq![]
    } else {
        spec_urls_msgs(bot, channel, urls.drop_last()) + spec_url_msgs(bot, channel, urls.last())
    }
}

/// The effect of a channel message: a registered channel keyword runs its
/// command; else a keyword of the form `!name`, on a channel with templated
/// commands enabled and `name` configured, enqueues one templated fetch; else
/// every URL-pattern capture in the text produces its per-URL operations and
/// replies, and the event counts as handled iff some URL was detected.
pub open spec fn spec_chanmsg_effect(
    bot: IrcBot,
    nick: Seq<char>,
    userhost: Seq<char>,
    channel: Seq<char>,
    text: Seq<char>,
    kw: Seq<char>,
    args: Seq<char>,
    now: i64,
) -> Effect {
    let cfg = bot.cfg();
    match assoc_get(bot.chan_handlers(), kw) {
        Some(c) => spec_run_cmd(bot, nick, userhost, c, args),
        None => {
            if kw.len() > 0 && kw[0] == '!' && assoc_get_wild(cfg.url_cmd_channels@, channel)
                == Some(true) && assoc_get(cfg.url_cmd_list@, kw.drop_first()) is Some {
                let uc = assoc_get(cfg.url_cmd_list@, kw.drop_first())->0;
                Effect {
                    ops: seq![SpecOp::UrlFetch(uc.url_tmpl, args, channel, uc.output_filter)],
                    msgs: seq![],
                    handled: true,
                    reload: false,
                }
            } else {
                let urls = regex_captures1(cfg.url_regex@, text);
                Effect {
                    ops: spec_urls_ops(bot, nick, channel, now, urls),
                    msgs: spec_urls_msgs(bot, channel, urls),
                    handled: urls.len() > 0,
                    reload: false,
                }
            }
        }
    }
}

/// Whether some blacklist entry is a prefix of `url`.
fn url_blacklisted(bl: &Vec<String>, url: &str) -> (r: bool)
    ensures
        r == spec_blacklisted(bl.deep_view(), url@),
{
    let n = bl.len();
    let mut i: usize = 0;
    while i < n
        invariant
            i <= n,
            n == bl@.len(),
            forall|j: int| 0 <= j < i ==> !is_prefix_of(#[trigger] bl.deep_view()[j], url@),
        decreases n - i,
    {
        if starts_with(url, bl[i].as_str()) {
            proof {
                assert(is_prefix_of(bl.deep_view()[i as int], url@));
            }
            return true;
        }
        i = i + 1;
    }
    false
}

impl IrcBot {
    /// Handle a channel message, per `spec_chanmsg_effect`.
    fn do_chanmsg(&mut self, channel: &str, text: &str, kw: &str, args: &str, now: i64) -> (r: (
        bool,
        bool,
    ))
        requires
            old(self).wf(),
        ensures
            ({
                let e = spec_chanmsg_effect(
                    *old(self),
                    old(self).spec_msg_nick(),
                    old(self).spec_msg_userhost(),
                    channel@,
                    text@,
                    kw@,
                    args@,
                    now,
                );
                &&& final(self).ops() == old(self).ops() + e.ops
                &&& final(self).msgs() == old(self).msgs() + e.msgs
                &&& r.0 == e.handled
                &&& r.1 == e.reload
                &&& final(self).cfg() == old(self).cfg()
                &&& same_sender(*old(self), *final(self))
                &&& same_handlers(*old(self), *final(self))
            }),
    {
        let found = match self.handlers_chanmsg.get(kw) {
            Some(c) => Some(*c),
            None => None,
        };
        if let Some(c) = found {
            return self.run_cmd(c, args);
        }
        let kwn = kw.unicode_len();
        if kwn > 0 && kw.get_char(0) == '!' {
            let cmd_flag = match get_wild(&self.bot_cfg.url_cmd_channels, channel) {
                Some(b) => *b,
                None => false,
            };
            if cmd_flag {
                let u_cmd = kw.substring_char(1, kwn);
                proof {
                    assert(kw@.subrange(1, kwn as int) =~= kw@.drop_first());
                }
                let mut fetch_op: Option<IrcOp> = None;
                match self.bot_cfg.url_cmd_list.get(u_cmd) {
                    Some(uc) => {
                        fetch_op = Some(
                            IrcOp::UrlFetch(
                                uc.url_tmpl().clone(),
                                args.to_owned(),
                                channel.to_owned(),
                                uc.filter_re().clone(),
                            ),
                        );
                    }
                    None => {}
                }
                if let Some(op) = fetch_op {
                    let ghost e = spec_chanmsg_effect(
                        *old(self),
                        old(self).spec_msg_nick(),
                        old(self).spec_msg_userhost(),
                        channel@,
                        text@,
                        kw@,
                        args@,
                        now,
                    );
                    self.new_op(op);
                    proof {
                        assert(self.ops() =~= old(self).ops() + e.ops);
                        assert(self.msgs() =~= old(self).msgs() + e.msgs);
                    }
                    return (true, false);
                }
            }
        }
        let urls = re_captures1(&self.bot_cfg.url_re, text);
        let ghost gurls = regex_captures1(old(self).cfg().url_regex@, text@);
        proof {
            assert(urls.deep_view() == gurls);
        }
        let n = urls.len();
        let mut i: usize = 0;
        proof {
            assert(gurls.take(0) =~= Seq::<Seq<char>>::empty());
            assert(self.ops() =~= old(self).ops() + spec_urls_ops(
                *old(self),
                old(self).spec_msg_nick(),
                channel@,
                now,
                gurls.take(0),
            ));
            assert(self.msgs() =~= old(self).msgs() + spec_urls_msgs(
                *old(self),
                channel@,
                gurls.take(0),
            ));
        }
        while i < n
            invariant
                i <= n,
                n == urls@.len(),
                urls.deep_view() == gurls,
                old(self).wf(),
                self.cfg() == old(self).cfg(),
                same_sender(*old(self), *self),
                same_handlers(*old(self), *self),
                self.ops() == old(self).ops() + spec_urls_ops(
                    *old(self),
                    old(self).spec_msg_nick(),
                    channel@,
                    now,
                    gurls.take(i as int),
                ),
                self.msgs() == old(self).msgs() + spec_urls_msgs(
                    *old(self),
                    channel@,
                    gurls.take(i as int),
                ),
            decreases n - i,
    {
            proof {
                assert(gurls.take(i as int + 1).drop_last() =~= gurls.take(i as int));
                assert(gurls.take(i as int + 1).last() == gurls[i as int]);
                assert(urls.deep_view()[i as int] == urls@[i as int]@);
            }
            let ghost ops_pre = self.ops();
            let ghost msgs_pre = self.msgs();
            let blk = url_blacklisted(&self.bot_cfg.url_blacklist, urls[i].as_str());
            if !blk {
                let log_flag = match get_wild(&self.bot_cfg.url_log_channels, channel) {
                    Some(b) => *b,
                    None => false,
                };
                if log_flag {
                    let dup_flag = match get_wild(&self.bot_cfg.url_dup_complain_channels, channel)
                        {
                        Some(b) => *b,
                        None => false,
                    };
                    if dup_flag {
                        let days = match get_wild(&self.bot_cfg.url_dup_expire_days, channel) {
                            Some(d) => *d,
                            None => 7,
                        };
                        let tzname = match get_wild(&self.bot_cfg.url_dup_timezone, channel) {
                            Some(t) => t.clone(),
                            None => "UTC".to_owned(),
                        };
                        let db = self.bot_cfg.url_log_db.clone();
                        let u = urls[i].clone();
                        self.new_op(IrcOp::UrlCheck(db, u, channel.to_owned(), tzname, days));
                    }
                    let db = self.bot_cfg.url_log_db.clone();
                    let nick = self.msg_nick.clone();
                    let u = urls[i].clone();
                    self.new_op(IrcOp::UrlLog(db, u, channel.to_owned(), nick, now));
                }
                let fetch_flag = match get_wild(&self.bot_cfg.url_fetch_channels, channel) {
                    Some(b) => *b,
                    None => false,
                };
                if fetch_flag {
                    let u = urls[i].clone();
                    self.new_op(IrcOp::UrlTitle(u, channel.to_owned()));
                }
                let mut_flag = match get_wild(&self.bot_cfg.url_mut_channels, channel) {
                    Some(b) => *b,
                    None => false,
                };
                if mut_flag {
                    let rewritten = self.bot_cfg.url_mut_re.re_mut(urls[i].as_str());
                    if let Some(m) = rewritten {
                        let new_url = m.1;
                        self.new_msg(channel.to_owned(), new_url.clone());
                        self.new_op(IrcOp::UrlTitle(new_url, channel.to_owned()));
                    }
                }
            }
            proof {
                assert(self.ops() =~= ops_pre + spec_url_ops(
                    *old(self),
                    old(self).spec_msg_nick(),
                    channel@,
                    now,
                    gurls[i as int],
                ));
                assert(self.msgs() =~= msgs_pre + spec_url_msgs(
                    *old(self),
                    channel@,
                    gurls[i as int],
                ));
                assert(self.ops() =~= old(self).ops() + spec_urls_ops(
                    *old(self),
                    old(self).spec_msg_nick(),
                    channel@,
                    now,
                    gurls.take(i as int + 1),
                ));
                assert(self.msgs() =~= old(self).msgs() + spec_urls_msgs(
                    *old(self),
                    channel@,
                    gurls.take(i as int + 1),
                ));
            }
            i = i + 1;
        }
        proof {
            assert(gurls.take(n as int) =~= gurls);
        }
        (n > 0, false)
    }
}

/// Nickname of an event's sender, with the sentinel for origin-less events.
pub open spec fn spec_ev_nick(ev: Event) -> Seq<char> {
    match ev.origin {
        Some(o) => o.nick@,
        None => NO_NICK@,
    }
}

pub open spec fn spec_ev_user(ev: Event) -> Seq<char> {
    match ev.origin {
        Some(o) => o.user@,
        None => NO_NICK@,
    }
}

pub open spec fn spec_ev_host(ev: Event) -> Seq<char> {
    match ev.origin {
        Some(o) => o.host@,
        None => NO_NICK@,
    }
}

/// The identity string (user@host) of an event's sender.
pub open spec fn spec_ev_userhost(ev: Event) -> Seq<char> {
    match ev.origin {
        Some(o) => o.user@ + "@"@ + o.host@,
        None => "NONE@NONE"@,
    }
}

/// What one observer does with one event: the join observer grants operator
/// to anyone joining (other than the bot itself) whose identity passes the
/// auto-op ACL, and reports the event handled exactly then.
pub open spec fn spec_observer_effect(bot: IrcBot, h: IrcCmdHandler, ev: Event) -> (
    Seq<SpecOp>,
    bool,
) {
    match h {
        IrcCmdHandler::AutoOpOnJoin => match ev.kind {
            EventKind::Join { channel } => {
                if spec_ev_nick(ev) == bot.spec_mynick() {
                    (seq![], false)
                } else if acl_matches(bot.cfg().auto_o_acl@, spec_ev_userhost(ev)) {
                    (seq![SpecOp::ModeOper(channel@, spec_ev_nick(ev))], true)
                } else {
                    (seq![], false)
                }
            },
            _ => (seq![], false),
        },
    }
}

/// Observers run in registration order; the first one that reports the event
/// handled stops the run.
pub open spec fn spec_observers_effect(bot: IrcBot, obs: Seq<IrcCmdHandler>, ev: Event) -> (
    Seq<SpecOp>,
    bool,
)
    decreases obs.len(),
{
    if obs.len() == 0 {
        (seq![], false)
    } else {
        let first = spec_observer_effect(bot, obs[0], ev);
        if first.1 {
            (first.0, true)
        } else {
            let rest = spec_observers_effect(bot, obs.drop_first(), ev);
            (first.0 + rest.0, rest.1)
        }
    }
}

/// The whole effect of one inbound event: every registered observer runs
/// first (in order, stopping at the first that handles the event); then a
/// directed message to the bot's own nickname is handled as a private
/// command and a message to anything else as a channel message.
pub open spec fn spec_handle_event(bot: IrcBot, ev: Event, now: i64) -> Effect {
    let nick = spec_ev_nick(ev);
    let userhost = spec_ev_userhost(ev);
    let obs = spec_observers_effect(bot, bot.observers(), ev);
    let kind_e = match ev.kind {
        EventKind::PrivMsg { target, text } => {
            let kwargs = spec_split_ws_once(text@);
            if target@ == bot.spec_mynick() {
                spec_privmsg_effect(bot, nick, userhost, kwargs.0, kwargs.1)
            } else {
                spec_chanmsg_effect(bot, nick, userhost, target@, text@, kwargs.0, kwargs.1, now)
            }
        },
        _ => spec_no_effect(),
    };
    Effect {
        ops: obs.0 + kind_e.ops,
        msgs: kind_e.msgs,
        handled: obs.1 || kind_e.handled,
        reload: kind_e.reload,
    }
}

/// The bot's nickname after an event: a nickname-change notification for the
/// bot's own previous nickname updates it; nothing else does.
pub open spec fn spec_new_mynick(bot: IrcBot, ev: Event) -> Seq<char> {
    match ev.kind {
        EventKind::NickChange { newnick } => {
            if spec_ev_nick(ev) == bot.spec_mynick() {
                newnick@
            } else {
                bot.spec_mynick()
            }
        },
        _ => bot.spec_mynick(),
    }
}

/// Observer effects depend only on the snapshot and the bot's nickname.
proof fn lemma_observers_same(a: IrcBot, b: IrcBot, obs: Seq<IrcCmdHandler>, ev: Event)
    requires
        a.cfg() == b.cfg(),
        a.spec_mynick() == b.spec_mynick(),
    ensures
        spec_observers_effect(a, obs, ev) == spec_observers_effect(b, obs, ev),
    decreases obs.len(),
{
    if obs.len() > 0 {
        lemma_observers_same(a, b, obs.drop_first(), ev);
    }
}

proof fn lemma_priv_attempt_same(
    a: IrcBot,
    b: IrcBot,
    nick: Seq<char>,
    userhost: Seq<char>,
    kw: Seq<char>,
    args: Seq<char>,
)
    requires
        a.cfg() == b.cfg(),
        a.priv_handlers() == b.priv_handlers(),
    ensures
        spec_priv_attempt(a, nick, userhost, kw, args) == spec_priv_attempt(
            b,
            nick,
            userhost,
            kw,
            args,
        ),
{
    match assoc_get(a.priv_handlers(), kw) {
        Some(c) => {
            lemma_effect_same(a, b, nick, userhost, c, args);
        }
        None => {}
    }
}

/// The private-message effect depends only on the snapshot and the two
/// command tables.
proof fn lemma_privmsg_same(
    a: IrcBot,
    b: IrcBot,
    nick: Seq<char>,
    userhost: Seq<char>,
    kw: Seq<char>,
    args: Seq<char>,
)
    requires
        a.cfg() == b.cfg(),
        a.priv_handlers() == b.priv_handlers(),
        a.open_handlers() == b.open_handlers(),
    ensures
        spec_privmsg_effect(a, nick, userhost, kw, args) == spec_privmsg_effect(
            b,
            nick,
            userhost,
            kw,
            args,
        ),
{
    lemma_priv_attempt_same(a, b, nick, userhost, kw, args);
    lemma_open_attempt_same(a, b, nick, userhost, kw, args);
}

proof fn lemma_urls_same(
    a: IrcBot,
    b: IrcBot,
    nick: Seq<char>,
    channel: Seq<char>,
    now: i64,
    urls: Seq<Seq<char>>,
)
    requires
        a.cfg() == b.cfg(),
    ensures
        spec_urls_ops(a, nick, channel, now, urls) == spec_urls_ops(b, nick, channel, now, urls),
        spec_urls_msgs(a, channel, urls) == spec_urls_msgs(b, channel, urls),
    decreases urls.len(),
{
    if urls.len() > 0 {
        lemma_urls_same(a, b, nick, channel, now, urls.drop_last());
    }
}

/// The channel-message effect depends only on the snapshot and the channel
/// command table.
proof fn lemma_chanmsg_same(
    a: IrcBot,
    b: IrcBot,
    nick: Seq<char>,
    userhost: Seq<char>,
    channel: Seq<char>,
    text: Seq<char>,
    kw: Seq<char>,
    args: Seq<char>,
    now: i64,
)
    requires
        a.cfg() == b.cfg(),
        a.chan_handlers() == b.chan_handlers(),
    ensures
        spec_chanmsg_effect(a, nick, userhost, channel, text, kw, args, now)
            == spec_chanmsg_effect(b, nick, userhost, channel, text, kw, args, now),
{
    match assoc_get(a.chan_handlers(), kw) {
        Some(c) => {
            lemma_effect_same(a, b, nick, userhost, c, args);
        }
        None => {
            lemma_urls_same(a, b, nick, channel, now, regex_captures1(a.cfg().url_regex@, text));
        }
    }
}

impl IrcBot {
    /// Run one observer against the current event; the sender context must
    /// already reflect the event.
    fn run_observer(&mut self, h: IrcCmdHandler, ev: &Event) -> (r: bool)
        requires
            old(self).spec_msg_nick() == spec_ev_nick(*ev),
            old(self).spec_msg_userhost() == spec_ev_userhost(*ev),
        ensures
            ({
                let e = spec_observer_effect(*old(self), h, *ev);
                &&& final(self).ops() == old(self).ops() + e.0
                &&& r == e.1
                &&& final(self).msgs() == old(self).msgs()
                &&& final(self).cfg() == old(self).cfg()
                &&& same_sender(*old(self), *final(self))
                &&& same_handlers(*old(self), *final(self))
            }),
    {
        let ghost e = spec_observer_effect(*old(self), h, *ev);
        match h {
            IrcCmdHandler::AutoOpOnJoin => match &ev.kind {
                EventKind::Join { channel } => {
                    if str_eq(self.msg_nick.as_str(), self.mynick.as_str()) {
                        proof {
                            assert(self.ops() =~= old(self).ops() + e.0);
                        }
                        false
                    } else {
                        let acl_resp = self.bot_cfg.auto_o_acl.re_match(
                            self.msg_userhost.as_str(),
                        );
                        match acl_resp {
                            Some(m) => {
                                proof {
                                    assert(acl_matches(
                                        old(self).cfg().auto_o_acl@,
                                        spec_ev_userhost(*ev),
                                    ));
                                }
                                let nick = self.msg_nick.clone();
                                self.new_op(IrcOp::ModeOper(channel.clone(), nick));
                                proof {
                                    assert(self.ops() =~= old(self).ops() + e.0);
                                }
                                true
                            }
                            None => {
                                proof {
                                    assert(self.ops() =~= old(self).ops() + e.0);
                                }
                                false
                            }
                        }
                    }
                }
                _ => {
                    proof {
                        assert(self.ops() =~= old(self).ops() + e.0);
                    }
                    false
                }
            },
        }
    }

    /// Consume one inbound event: update the sender context from the event's
    /// origin (sentinels where it has none), run every registered observer
    /// in order stopping at the first that handles the event, then classify
    /// and route the event per `spec_handle_event`. A nickname change for
    /// the bot's own nickname updates the tracked nickname. Handlers only
    /// enqueue; nothing here blocks on the transport.
    pub fn handle_event(&mut self, ev: &Event, now: i64) -> (r: Dispatch)
        requires
            old(self).wf(),
        ensures
            ({
                let e = spec_handle_event(*old(self), *ev, now);
                &&& final(self).ops() == old(self).ops() + e.ops
                &&& final(self).msgs() == old(self).msgs() + e.msgs
                &&& r.handled == e.handled
                &&& r.reload == e.reload
            }),
            final(self).cfg() == old(self).cfg(),
            final(self).wf(),
            same_handlers(*old(self), *final(self)),
            final(self).spec_mynick() == spec_new_mynick(*old(self), *ev),
            final(self).spec_msg_nick() == spec_ev_nick(*ev),
            final(self).spec_msg_user() == spec_ev_user(*ev),
            final(self).spec_msg_host() == spec_ev_host(*ev),
            final(self).spec_msg_userhost() == spec_ev_userhost(*ev),
    {
        match &ev.origin {
            Some(o) => {
                self.msg_nick = o.nick.clone();
                self.msg_user = o.user.clone();
                self.msg_host = o.host.clone();
                self.msg_userhost = o.user.clone().concat("@").concat(o.host.as_str());
            }
            None => {
                self.msg_nick = NO_NICK.to_owned();
                self.msg_user = NO_NICK.to_owned();
                self.msg_host = NO_NICK.to_owned();
                self.msg_userhost = "NONE@NONE".to_owned();
            }
        }
        let ghost bot0 = *self;
        let ghost obs_all = spec_observers_effect(bot0, bot0.observers(), *ev);
        let n_obs = self.handlers_irc_cmd.len();
        let mut oi: usize = 0;
        let mut obs_handled = false;
        let ghost mut acc: Seq<SpecOp> = seq![];
        proof {
            assert(bot0.observers().skip(0) =~= bot0.observers());
            assert(self.ops() =~= bot0.ops() + acc);
        }
        while oi < n_obs && !obs_handled
            invariant
                oi <= n_obs,
                n_obs == bot0.observers().len(),
                bot0.cfg() == old(self).cfg(),
                bot0.spec_mynick() == old(self).spec_mynick(),
                bot0.spec_msg_nick() == spec_ev_nick(*ev),
                bot0.spec_msg_user() == spec_ev_user(*ev),
                bot0.spec_msg_host() == spec_ev_host(*ev),
                bot0.spec_msg_userhost() == spec_ev_userhost(*ev),
                same_handlers(bot0, *old(self)),
                bot0.msgs() == old(self).msgs(),
                bot0.ops() == old(self).ops(),
                obs_all == spec_observers_effect(bot0, bot0.observers(), *ev),
                self.cfg() == bot0.cfg(),
                same_sender(bot0, *self),
                same_handlers(bot0, *self),
                self.msgs() == bot0.msgs(),
                self.ops() == bot0.ops() + acc,
                !obs_handled ==> ({
                    let rest = spec_observers_effect(bot0, bot0.observers().skip(oi as int), *ev);
                    obs_all == (acc + rest.0, rest.1)
                }),
                obs_handled ==> obs_all == (acc, true),
            decreases n_obs - oi,
        {
            let h = self.handlers_irc_cmd[oi];
            let ghost pre = *self;
            let hd = self.run_observer(h, ev);
            proof {
                let e0 = spec_observer_effect(bot0, bot0.observers()[oi as int], *ev);
                assert(spec_observer_effect(pre, h, *ev) == e0);
                let suf = bot0.observers().skip(oi as int);
                assert(suf.len() > 0);
                assert(suf[0] == bot0.observers()[oi as int]);
                assert(suf.drop_first() =~= bot0.observers().skip(oi as int + 1));
                acc = acc + e0.0;
                assert(self.ops() =~= bot0.ops() + acc);
                if !e0.1 {
                    let rest1 = spec_observers_effect(
                        bot0,
                        bot0.observers().skip(oi as int + 1),
                        *ev,
                    );
                    assert(obs_all == (acc + rest1.0, rest1.1));
                }
            }
            if hd {
                obs_handled = true;
            }
            oi = oi + 1;
        }
        proof {
            if !obs_handled {
                assert(bot0.observers().skip(n_obs as int) =~= Seq::<IrcCmdHandler>::empty());
                assert(obs_all.0 =~= acc);
            }
            assert(self.ops() == bot0.ops() + obs_all.0);
            assert(obs_handled == obs_all.1);
            lemma_observers_same(bot0, *old(self), bot0.observers(), *ev);
        }
        let ghost mid = *self;
        let kind_r: (bool, bool) = match &ev.kind {
            EventKind::PrivMsg { target, text } => {
                let kwargs = split_ws_once(text.as_str());
                if str_eq(target.as_str(), self.mynick.as_str()) {
                    let rr = self.handle_privmsg(kwargs.0.as_str(), kwargs.1.as_str());
                    proof {
                        lemma_privmsg_same(
                            mid,
                            *old(self),
                            spec_ev_nick(*ev),
                            spec_ev_userhost(*ev),
                            kwargs.0@,
                            kwargs.1@,
                        );
                    }
                    rr
                } else {
                    let rr = self.do_chanmsg(
                        target.as_str(),
                        text.as_str(),
                        kwargs.0.as_str(),
                        kwargs.1.as_str(),
                        now,
                    );
                    proof {
                        lemma_chanmsg_same(
                            mid,
                            *old(self),
                            spec_ev_nick(*ev),
                            spec_ev_userhost(*ev),
                            target@,
                            text@,
                            kwargs.0@,
                            kwargs.1@,
                            now,
                        );
                    }
                    rr
                }
            }
            EventKind::NickChange { newnick } => {
                if str_eq(self.msg_nick.as_str(), self.mynick.as_str()) {
                    self.mynick = newnick.clone();
                }
                (false, false)
            }
            _ => { (false, false) }
        };
        proof {
            let e = spec_handle_event(*old(self), *ev, now);
            assert(self.ops() =~= old(self).ops() + e.ops);
            assert(self.msgs() =~= old(self).msgs() + e.msgs);
        }
        Dispatch { handled: obs_handled || kind_r.0, reload: kind_r.1 }
    }

    /// Complete one requested reload: install the new snapshot and re-derive
    /// the handler registries from its command keywords, replying success to
    /// the requester; on a failed load (`None`) or a rejected configuration,
    /// leave snapshot and registries fully intact and reply with the
    /// failure. Returns whether the new snapshot was installed.
    pub fn apply_reload(&mut self, raw: Option<RawBotConfig>) -> (r: bool)
        ensures
            r ==> ({
                &&& raw is Some
                &&& built_from(final(self).cfg(), raw->0)
                &&& spec_raw_valid(raw->0)
                &&& final(self).wf()
                &&& final(self).observers() == seq![IrcCmdHandler::AutoOpOnJoin]
                &&& final(self).open_handlers() == spec_open_handlers(final(self).cfg())
                &&& final(self).priv_handlers() == spec_priv_handlers(final(self).cfg())
                &&& final(self).chan_handlers() == Seq::<(Seq<char>, BotCmd)>::empty()
                &&& final(self).msgs() == old(self).msgs().push(
                    (old(self).spec_msg_nick(), "*** Reload successful."@),
                )
            }),
            !r ==> ({
                &&& final(self).cfg() == old(self).cfg()
                &&& same_handlers(*old(self), *final(self))
                &&& exists|m: Seq<char>|
                    final(self).msgs() == old(self).msgs().push(
                        (old(self).spec_msg_nick(), m),
                    ) && is_prefix_of("Could not parse runtime config: "@, m)
            }),
            raw matches Some(rw) && !spec_raw_valid(rw) ==> !r,
            raw matches Some(rw) && spec_raw_valid(rw) && rw.url_cmd_list@.len() == 0 ==> r,
            final(self).ops() == old(self).ops(),
            same_sender(*old(self), *final(self)),
    {
        let nick = self.msg_nick.clone();
        match raw {
            None => {
                let m = "Could not parse runtime config: ".to_owned().concat(
                    "unreadable config file",
                );
                let ghost mg = m@;
                proof {
                    lemma_prefix_concat(
                        "Could not parse runtime config: "@,
                        "unreadable config file"@,
                    );
                }
                self.new_msg(nick, m);
                proof {
                    assert(self.msgs() == old(self).msgs().push(
                        (old(self).spec_msg_nick(), mg),
                    ) && is_prefix_of("Could not parse runtime config: "@, mg));
                }
                false
            }
            Some(rw) => {
                match self.reload(rw) {
                    Ok(_) => {
                        self.setup_handlers();
                        self.new_msg(nick, "*** Reload successful.".to_owned());
                        true
                    }
                    Err(e) => {
                        let m = "Could not parse runtime config: ".to_owned().concat(
                            e.message().as_str(),
                        );
                        let ghost mg = m@;
                        proof {
                            lemma_prefix_concat(
                                "Could not parse runtime config: "@,
                                spec_config_error_message(e),
                            );
                        }
                        self.new_msg(nick, m);
                        proof {
                            assert(self.msgs() == old(self).msgs().push(
                                (old(self).spec_msg_nick(), mg),
                            ) && is_prefix_of("Could not parse runtime config: "@, mg));
                        }
                        false
                    }
                }
            }
        }
    }
}

} // verus!
