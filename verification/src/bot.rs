//! Top-level bot state and the event dispatcher.

use vstd::prelude::*;

verus! {

use crate::db::DB;
use crate::request_handlers::Action;
use crate::request_handlers::AppInfo;
use crate::request_handlers::BotError;
use crate::request_handlers::ChatType;
use crate::request_handlers::MsgInfo;

/// Bootstrap configuration: the invite codes and the three well-known
/// group chats.
#[derive(Debug, PartialEq)]
pub struct BotConfig {
    /// Invite code for the Genesis (admin) group.
    pub genesis_qr: String,
    /// Invite code for a one-to-one chat with the bot.
    pub invite_qr: String,
    /// Backing group chat of the tester pool.
    pub tester_group: u64,
    /// Backing group chat of the publisher pool.
    pub reviewee_group: u64,
    /// The Genesis (admin) chat.
    pub genesis_group: u64,
}

impl Clone for BotConfig {
    fn clone(&self) -> (r: Self)
        ensures
            r == *self,
    {
        BotConfig {
            genesis_qr: self.genesis_qr.clone(),
            invite_qr: self.invite_qr.clone(),
            tester_group: self.tester_group,
            reviewee_group: self.reviewee_group,
            genesis_group: self.genesis_group,
        }
    }
}

/// The bot's state: the store model and the bootstrap configuration.
pub struct State {
    pub db: DB,
    pub config: BotConfig,
}

impl State {
    /// All published apps, for the storefront.
    pub fn get_apps(&self) -> (r: Vec<AppInfo>)
        ensures
            r@ == crate::db::active_apps(self.db.apps_rows()),
    {
        self.db.get_active_app_infos()
    }
}

/// What bootstrap leaves in a store: the configuration, and the three
/// well-known groups registered under their roles.  Should two of the
/// configured groups share an id, the later registration wins, in the
/// order genesis, publishers, testers.
pub open spec fn configured_role(config: BotConfig, pre: DB, c: u64) -> Option<ChatType> {
    if c == config.tester_group {
        Some(ChatType::TesterPool)
    } else if c == config.reviewee_group {
        Some(ChatType::PublisherPool)
    } else if c == config.genesis_group {
        Some(ChatType::Genesis)
    } else {
        pre.chat_role(c)
    }
}

/// First-run bootstrap: stores the configuration and registers the three
/// well-known groups — the Genesis chat and the two pool-backing groups —
/// under their roles.  The groups themselves are created by the
/// messaging transport; this records what they are.
pub fn configure(db: &mut DB, config: &BotConfig)
    requires
        old(db).wf(),
    ensures
        final(db).wf(),
        final(db).config_v() == Some(*config),
        forall|c: u64| #[trigger] final(db).chat_role(c) == configured_role(*config, *old(db), c),
        final(db).chats_rows() == old(db).chats_rows(),
        final(db).apps_rows() == old(db).apps_rows(),
        crate::db::pools_unchanged(*old(db), *final(db)),
{
    db.set_config(config);
    db.set_chat_type(config.genesis_group, ChatType::Genesis);
    let ghost mid1 = *db;
    db.set_chat_type(config.reviewee_group, ChatType::PublisherPool);
    let ghost mid2 = *db;
    db.set_chat_type(config.tester_group, ChatType::TesterPool);
    proof {
        assert forall|c: u64| #[trigger]
            db.chat_role(c) == configured_role(*config, *old(db), c) by {
            assert(mid2.chat_role(c) == (if c == config.reviewee_group {
                Some(ChatType::PublisherPool)
            } else {
                mid1.chat_role(c)
            }));
        }
    }
}

/// One decoded platform event, as the transport hands it over.
pub enum BotEvent {
    /// A new message arrived in a chat.
    IncomingMsg { chat_id: u64, msg: MsgInfo },
    /// A structured status update arrived from a mini-app; `chat_id` is
    /// the chat of the message it belongs to.
    WebxdcStatusUpdate { chat_id: u64, payload: String },
    /// The membership of a chat changed; `members` is its current
    /// membership.
    ChatModified { chat_id: u64, members: Vec<u64> },
}

/// The platform reserves the lowest contact identities for itself; pool
/// replacement drops them from a membership list.
pub open spec fn drop_special(s: Seq<u64>) -> Seq<u64>
    decreases s.len(),
{
    if s.len() == 0 {
        Seq::empty()
    } else if s.last() > 9 {
        drop_special(s.drop_last()).push(s.last())
    } else {
        drop_special(s.drop_last())
    }
}

/// Drops the platform-special contacts from a membership list.
fn filter_special(members: &Vec<u64>) -> (r: Vec<u64>)
    ensures
        r@ == drop_special(members@),
{
    let mut r: Vec<u64> = Vec::new();
    let mut i: usize = 0;
    while i < members.len()
        invariant
            i <= members.len(),
            r@ == drop_special(members@.take(i as int)),
        decreases members.len() - i,
    {
        proof {
            assert(members@.take(i + 1).drop_last() =~= members@.take(i as int));
            assert(members@.take(i + 1).last() == members@[i as int]);
        }
        if members[i] > 9 {
            r.push(members[i]);
        }
        i = i + 1;
    }
    proof {
        assert(members@.take(members@.len() as int) =~= members@);
    }
    r
}

/// The storefront greeting for a chat first contacting the bot: the
/// welcome text and the storefront webxdc.
pub open spec fn storefront_actions(acts: Seq<Action>, chat: u64) -> bool {
    &&& acts.len() == 2
    &&& crate::request_handlers::submit::is_send_text(
        acts[0],
        chat,
        crate::messages::appstore_message_spec(),
    )
    &&& (acts[1] matches Action::SendAppstoreXdc { chat: c } && c == chat)
}

/// A chat with no registered role got its implicit Shop role, and no
/// other chat's role moved.
pub open spec fn shop_role_assigned(pre: State, post: State, chat_id: u64) -> bool {
    &&& (forall|c: u64| #[trigger]
        post.db.chat_role(c) == (if c == chat_id {
            Some(ChatType::Shop)
        } else {
            pre.db.chat_role(c)
        }))
    &&& post.db.chats_rows() == pre.db.chats_rows()
    &&& post.db.apps_rows() == pre.db.apps_rows()
    &&& crate::db::pools_unchanged(pre.db, post.db)
    &&& post.db.config_v() == pre.db.config_v()
    &&& post.config == pre.config
}

/// What one incoming chat message leads to, by the role of its chat.  A
/// chat with no role becomes a Shop chat and gets the storefront
/// greeting; every known role goes to its own handler; the pool-backing
/// chats ignore messages.
pub open spec fn handle_dc_message_post(
    pre: State,
    post: State,
    chat_id: u64,
    msg: MsgInfo,
    rand: u64,
    r: Result<Seq<Action>, BotError>,
) -> bool {
    match pre.db.chat_role(chat_id) {
        None => shop_role_assigned(pre, post, chat_id) && (r matches Ok(acts)
            && storefront_actions(acts, chat_id)),
        Some(ChatType::Submit) => match msg.webxdc_bytes {
            Some(b) => crate::request_handlers::submit::handle_webxdc_post(
                pre,
                post,
                chat_id,
                b@,
                (match msg.file_path {
                    Some(p) => p@,
                    None => Seq::<char>::empty(),
                }),
                r,
            ),
            None => match msg.text {
                Some(t) => post == pre && crate::request_handlers::submit::handle_message_post(
                    pre,
                    chat_id,
                    t@,
                    rand,
                    r,
                ),
                None => post == pre && r == Ok::<Seq<Action>, BotError>(Seq::empty()),
            },
        },
        Some(ChatType::Shop) => post == pre && (r matches Ok(acts) && acts.len() == 1 && (match msg
            .webxdc_bytes {
            Some(_) => acts[0] matches Action::DelegateShopWebxdc { chat } && chat == chat_id,
            None => acts[0] matches Action::DelegateShopMessage { chat } && chat == chat_id,
        })),
        Some(ChatType::Genesis) => post == pre && (match msg.text {
            Some(t) => crate::request_handlers::genisis::handle_message_post(
                pre,
                msg.sender,
                t@,
                r,
            ),
            None => r == Ok::<Seq<Action>, BotError>(Seq::empty()),
        }),
        Some(ChatType::TesterPool) => post == pre && r == Ok::<Seq<Action>, BotError>(
            Seq::empty(),
        ),
        Some(ChatType::PublisherPool) => post == pre && r == Ok::<Seq<Action>, BotError>(
            Seq::empty(),
        ),
        Some(ChatType::Review) => match msg.text {
            Some(t) => crate::request_handlers::review::handle_release_post(
                pre,
                post,
                chat_id,
                t@,
                r,
            ),
            None => post == pre && r == Ok::<Seq<Action>, BotError>(Seq::empty()),
        },
    }
}

/// Routes one incoming chat message by the role of its chat.
pub fn handle_dc_message(state: &mut State, chat_id: u64, msg: &MsgInfo, rand: u64) -> (r: Result<
    Vec<Action>,
    BotError,
>)
    requires
        old(state).db.wf(),
    ensures
        final(state).db.wf(),
        handle_dc_message_post(
            *old(state),
            *final(state),
            chat_id,
            *msg,
            rand,
            match r {
                Ok(acts) => Ok(acts@),
                Err(e) => Err(e),
            },
        ),
{
    match state.db.get_chat_type(chat_id) {
        Some(ChatType::Submit) => match &msg.webxdc_bytes {
            Some(b) => match &msg.file_path {
                Some(p) => crate::request_handlers::submit::handle_webxdc(state, chat_id, b, p),
                None => crate::request_handlers::submit::handle_webxdc(
                    state,
                    chat_id,
                    b,
                    &String::new(),
                ),
            },
            None => match &msg.text {
                Some(t) => crate::request_handlers::submit::handle_message(
                    &*state,
                    chat_id,
                    t,
                    rand,
                ),
                None => Ok(Vec::new()),
            },
        },
        Some(ChatType::Shop) => {
            let mut acts: Vec<Action> = Vec::new();
            match &msg.webxdc_bytes {
                Some(_) => acts.push(Action::DelegateShopWebxdc { chat: chat_id }),
                None => acts.push(Action::DelegateShopMessage { chat: chat_id }),
            }
            Ok(acts)
        },
        Some(ChatType::Genesis) => match &msg.text {
            Some(t) => crate::request_handlers::genisis::handle_message(&*state, msg.sender, t),
            None => Ok(Vec::new()),
        },
        Some(ChatType::TesterPool) => Ok(Vec::new()),
        Some(ChatType::PublisherPool) => Ok(Vec::new()),
        Some(ChatType::Review) => match &msg.text {
            Some(t) => crate::request_handlers::review::handle_message(state, chat_id, t),
            None => Ok(Vec::new()),
        },
        None => {
            state.db.set_chat_type(chat_id, ChatType::Shop);
            let mut acts: Vec<Action> = Vec::new();
            acts.push(
                Action::SendText {
                    chat: chat_id,
                    text: crate::messages::appstore_message().to_owned(),
                },
            );
            acts.push(Action::SendAppstoreXdc { chat: chat_id });
            Ok(acts)
        },
    }
}

/// What one structured status update leads to, by the role of the chat
/// its message belongs to.  Review-stage status updates are out of this
/// core's scope and are ignored.
pub open spec fn handle_dc_webxdc_update_post(
    pre: State,
    post: State,
    chat_id: u64,
    payload: Seq<char>,
    r: Result<Seq<Action>, BotError>,
) -> bool {
    match pre.db.chat_role(chat_id) {
        None => post == pre && r == Err::<Seq<Action>, BotError>(BotError::NotFound),
        Some(ChatType::Submit) => crate::request_handlers::submit::handle_status_update_post(
            pre,
            post,
            chat_id,
            payload,
            r,
        ),
        Some(ChatType::Shop) => post == pre && (r matches Ok(acts) && acts.len() == 1 && (acts[0]
            matches Action::DelegateShopStatusUpdate { chat } && chat == chat_id)),
        Some(_) => post == pre && r == Ok::<Seq<Action>, BotError>(Seq::empty()),
    }
}

/// Routes one structured status update by the role of its chat.
pub fn handle_dc_webxdc_update(state: &mut State, chat_id: u64, payload: &String) -> (r: Result<
    Vec<Action>,
    BotError,
>)
    requires
        old(state).db.wf(),
    ensures
        final(state).db.wf(),
        handle_dc_webxdc_update_post(
            *old(state),
            *final(state),
            chat_id,
            payload@,
            match r {
                Ok(acts) => Ok(acts@),
                Err(e) => Err(e),
            },
        ),
{
    match state.db.get_chat_type(chat_id) {
        None => Err(BotError::NotFound),
        Some(ChatType::Submit) => crate::request_handlers::submit::handle_status_update(
            state,
            chat_id,
            payload,
        ),
        Some(ChatType::Shop) => {
            let mut acts: Vec<Action> = Vec::new();
            acts.push(Action::DelegateShopStatusUpdate { chat: chat_id });
            Ok(acts)
        },
        Some(_) => Ok(Vec::new()),
    }
}

/// What one membership change leads to: the pool backed by the chat is
/// replaced with the chat's current membership, less the platform's
/// special contacts; a chat with no role is greeted as a new Shop chat
/// instead.
pub open spec fn handle_chat_modified_post(
    pre: State,
    post: State,
    chat_id: u64,
    members: Seq<u64>,
    r: Result<Seq<Action>, BotError>,
) -> bool {
    match pre.db.chat_role(chat_id) {
        None => shop_role_assigned(pre, post, chat_id) && (r matches Ok(acts)
            && storefront_actions(acts, chat_id)),
        Some(ChatType::Genesis) => {
            &&& post.db.genesis_pool() == crate::db::dedup_spec(drop_special(members))
            &&& post.db.publisher_pool() == pre.db.publisher_pool()
            &&& post.db.tester_pool() == pre.db.tester_pool()
            &&& crate::db::non_pools_unchanged(pre.db, post.db)
            &&& post.config == pre.config
            &&& r == Ok::<Seq<Action>, BotError>(Seq::empty())
        },
        Some(ChatType::TesterPool) => {
            &&& post.db.tester_pool() == crate::db::dedup_spec(drop_special(members))
            &&& post.db.genesis_pool() == pre.db.genesis_pool()
            &&& post.db.publisher_pool() == pre.db.publisher_pool()
            &&& crate::db::non_pools_unchanged(pre.db, post.db)
            &&& post.config == pre.config
            &&& r == Ok::<Seq<Action>, BotError>(Seq::empty())
        },
        Some(ChatType::PublisherPool) => {
            &&& post.db.publisher_pool() == crate::db::dedup_spec(drop_special(members))
            &&& post.db.genesis_pool() == pre.db.genesis_pool()
            &&& post.db.tester_pool() == pre.db.tester_pool()
            &&& crate::db::non_pools_unchanged(pre.db, post.db)
            &&& post.config == pre.config
            &&& r == Ok::<Seq<Action>, BotError>(Seq::empty())
        },
        Some(_) => post == pre && r == Ok::<Seq<Action>, BotError>(Seq::empty()),
    }
}

/// Refreshes the pool backed by a chat after a membership change.
pub fn handle_chat_modified(state: &mut State, chat_id: u64, members: &Vec<u64>) -> (r: Result<
    Vec<Action>,
    BotError,
>)
    requires
        old(state).db.wf(),
    ensures
        final(state).db.wf(),
        handle_chat_modified_post(
            *old(state),
            *final(state),
            chat_id,
            members@,
            match r {
                Ok(acts) => Ok(acts@),
                Err(e) => Err(e),
            },
        ),
{
    match state.db.get_chat_type(chat_id) {
        None => {
            state.db.set_chat_type(chat_id, ChatType::Shop);
            let mut acts: Vec<Action> = Vec::new();
            acts.push(
                Action::SendText {
                    chat: chat_id,
                    text: crate::messages::appstore_message().to_owned(),
                },
            );
            acts.push(Action::SendAppstoreXdc { chat: chat_id });
            Ok(acts)
        },
        Some(ChatType::Genesis) => {
            let filtered = filter_special(members);
            state.db.set_genesis_contacts(&filtered);
            Ok(Vec::new())
        },
        Some(ChatType::TesterPool) => {
            let filtered = filter_special(members);
            state.db.set_tester_contacts(&filtered);
            Ok(Vec::new())
        },
        Some(ChatType::PublisherPool) => {
            let filtered = filter_special(members);
            state.db.set_publisher_contacts(&filtered);
            Ok(Vec::new())
        },
        Some(ChatType::Shop) => Ok(Vec::new()),
        Some(ChatType::Submit) => Ok(Vec::new()),
        Some(ChatType::Review) => Ok(Vec::new()),
    }
}

/// The chat an event pertains to.
pub open spec fn event_chat(e: BotEvent) -> u64 {
    match e {
        BotEvent::IncomingMsg { chat_id, .. } => chat_id,
        BotEvent::WebxdcStatusUpdate { chat_id, .. } => chat_id,
        BotEvent::ChatModified { chat_id, .. } => chat_id,
    }
}

/// Whether handling `e` in state `pre` registers the implicit Shop role:
/// exactly when the event's chat has no role yet and the event is a
/// message or a membership change.
pub open spec fn assigns_shop(pre: State, e: BotEvent) -> bool {
    &&& pre.db.chat_role(event_chat(e)) is None
    &&& !(e matches BotEvent::WebxdcStatusUpdate { .. })
}

/// Routes one decoded platform event to exactly one handler, by the role
/// of the chat it pertains to.
///
/// The role clause states the registry's discipline: a chat with no role
/// gets Shop on its first message or membership event, and no event ever
/// removes or changes another chat's role here — so the implicit
/// assignment happens at most once per chat, and later events find the
/// role registered.  The published clause states that publication is one
/// way: no event unpublishes an app record.
pub fn dc_event_handler(state: &mut State, event: &BotEvent, rand: u64) -> (r: Result<
    Vec<Action>,
    BotError,
>)
    requires
        old(state).db.wf(),
    ensures
        final(state).db.wf(),
        forall|c: u64| #[trigger]
            final(state).db.chat_role(c) == (if assigns_shop(*old(state), *event) && c
                == event_chat(*event) {
                Some(ChatType::Shop)
            } else {
                old(state).db.chat_role(c)
            }),
        forall|k: u64|
            (match old(state).db.app_at(k) {
                Some(a) => a.active,
                None => false,
            }) ==> (match #[trigger] final(state).db.app_at(k) {
                Some(b) => b.active,
                None => false,
            }),
        match *event {
            BotEvent::IncomingMsg { chat_id, msg } => handle_dc_message_post(
                *old(state),
                *final(state),
                chat_id,
                msg,
                rand,
                match r {
                    Ok(acts) => Ok(acts@),
                    Err(e) => Err(e),
                },
            ),
            BotEvent::WebxdcStatusUpdate { chat_id, payload } => handle_dc_webxdc_update_post(
                *old(state),
                *final(state),
                chat_id,
                payload@,
                match r {
                    Ok(acts) => Ok(acts@),
                    Err(e) => Err(e),
                },
            ),
            BotEvent::ChatModified { chat_id, members } => handle_chat_modified_post(
                *old(state),
                *final(state),
                chat_id,
                members@,
                match r {
                    Ok(acts) => Ok(acts@),
                    Err(e) => Err(e),
                },
            ),
        },
{
    match event {
        BotEvent::IncomingMsg { chat_id, msg } => handle_dc_message(state, *chat_id, msg, rand),
        BotEvent::WebxdcStatusUpdate { chat_id, payload } => handle_dc_webxdc_update(
            state,
            *chat_id,
            payload,
        ),
        BotEvent::ChatModified { chat_id, members } => handle_chat_modified(
            state,
            *chat_id,
            members,
        ),
    }
}

} // verus!
