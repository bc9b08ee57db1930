//! Handling of events in Submit-role chats.

use vstd::prelude::*;

verus! {

use vstd::string::StrSliceExecFns;
use vstd::string::StringExecFns;
use crate::bot::State;
use crate::db::ChatRecord;
use crate::db::DB;
use crate::db::sample_spec;
use crate::db::lemma_sample_props;
use crate::request_handlers::Action;
use crate::request_handlers::AppInfo;
use crate::request_handlers::AppInfoView;
use crate::request_handlers::BotError;
use crate::request_handlers::GeneralFrontendResponse;
use crate::request_handlers::complete_spec;
use crate::request_handlers::updated_app_view;
use crate::request_handlers::xdc_extract_of;
use crate::request_handlers::review::HandlePublishError;
use crate::request_handlers::review::PublishPlan;
use crate::request_handlers::review::plan_wf;
use crate::utils::json_text_str_at;
use crate::utils::json_text_str_field;
use crate::utils::str_eq;

/// Join record of one submission chat: the originating chat, the uploaded
/// bundle message and the app record it produced.
#[derive(Clone, Copy, Debug, PartialEq, Eq, Structural)]
pub struct SubmitChat {
    /// The chat the submission lives in.
    pub creator_chat: u64,
    /// The webxdc message the submitter uploaded.
    pub creator_webxdc: u64,
    /// Store key of the submission's app record.
    pub app_info: u64,
}

impl SubmitChat {
    /// The app record this submission is about.
    pub fn get_app_info(&self, db: &DB) -> (r: Option<AppInfo>)
        ensures
            r == db.app_at(self.app_info),
    {
        db.get_app_info(self.app_info)
    }
}

/// Whether `a` is a text message `text` into chat `chat`.
pub open spec fn is_send_text(a: Action, chat: u64, text: Seq<char>) -> bool {
    &&& a matches Action::SendText { chat: c, text: t }
    &&& c == chat
    &&& t@ == text
}

/// The two messages reporting a pool shortage: the specific shortage to
/// the Genesis chat, a short notice to the submitter.
pub open spec fn shortage_actions(
    acts: Seq<Action>,
    genesis: u64,
    submitter: u64,
    msg: Seq<char>,
) -> bool {
    &&& acts.len() == 2
    &&& is_send_text(acts[0], genesis, msg)
    &&& is_send_text(acts[1], submitter, "Problem creating your review chat"@)
}

/// The single action carrying a well-formed publish plan: the sampled
/// publisher, the three distinct sampled testers and the group's name.
pub open spec fn publish_plan_action(
    db: DB,
    sc: SubmitChat,
    app: AppInfo,
    rand: u64,
    acts: Seq<Action>,
) -> bool {
    &&& acts.len() == 1
    &&& acts[0] matches Action::CreateReviewGroup { plan }
    &&& plan.submit == sc
    &&& plan.publisher == db.publisher_pool()[(rand as int) % (db.publisher_pool().len() as int)]
    &&& plan.testers@ == sample_spec(db.tester_pool(), 3, rand)
    &&& plan.group_name@ == "Testing: "@ + app.name@
    &&& plan_wf(plan)
}

/// What a text message in a Submit chat leads to.  No branch mutates any
/// state: a shortage leaves everything untouched and answers with exactly
/// one message to the Genesis chat and one to the submitter; a successful
/// `/publish` only plans the transition, which the event loop completes.
pub open spec fn handle_message_post(
    state: State,
    chat_id: u64,
    text: Seq<char>,
    rand: u64,
    r: Result<Seq<Action>, BotError>,
) -> bool {
    let db = state.db;
    match db.chat_rec(chat_id) {
        Some(ChatRecord::Submit(sc)) => if text.len() == 0 || text[0] != '/' {
            r == Ok::<Seq<Action>, BotError>(Seq::empty())
        } else if text == "/publish"@ {
            match db.app_at(sc.app_info) {
                None => r == Err::<Seq<Action>, BotError>(BotError::NotFound),
                Some(app) => if db.publisher_pool().len() == 0 {
                    r matches Ok(acts) && shortage_actions(
                        acts,
                        state.config.genesis_group,
                        chat_id,
                        "Not enough reviewee in pool"@,
                    )
                } else if db.tester_pool().len() < 3 {
                    r matches Ok(acts) && shortage_actions(
                        acts,
                        state.config.genesis_group,
                        chat_id,
                        "Not enough testers in pool"@,
                    )
                } else {
                    r matches Ok(acts) && publish_plan_action(db, sc, app, rand, acts)
                },
            }
        } else {
            r matches Ok(acts) && acts.len() == 1 && is_send_text(
                acts[0],
                chat_id,
                "Command not found"@,
            )
        },
        _ => r == Err::<Seq<Action>, BotError>(BotError::NotFound),
    }
}

/// Handles a text message in a Submit chat.  `/publish` starts the
/// Submitted-to-InReview transition: it samples one publisher and three
/// distinct testers (`rand` picks the sampling point) and hands back the
/// plan; with an insufficient pool it reports the shortage and changes
/// nothing.  Nothing here mutates the store: the plan is carried out by
/// [`crate::request_handlers::review::ReviewChat::from_submit_chat`].
pub fn handle_message(state: &State, chat_id: u64, msg_text: &String, rand: u64) -> (r: Result<
    Vec<Action>,
    BotError,
>)
    requires
        state.db.wf(),
    ensures
        handle_message_post(
            *state,
            chat_id,
            msg_text@,
            rand,
            match r {
                Ok(acts) => Ok(acts@),
                Err(e) => Err(e),
            },
        ),
{
    let submit_chat = match state.db.get_submit_chat(chat_id) {
        Some(sc) => sc,
        None => {
            return Err(BotError::NotFound);
        },
    };
    let t = msg_text.as_str();
    if t.unicode_len() == 0 || t.get_char(0) != '/' {
        let acts: Vec<Action> = Vec::new();
        proof {
            assert(acts@ =~= Seq::<Action>::empty());
        }
        return Ok(acts);
    }
    if str_eq(t, "/publish") {
        let app = match state.db.get_app_info(submit_chat.app_info) {
            Some(a) => a,
            None => {
                return Err(BotError::NotFound);
            },
        };
        let publisher = match state.db.get_random_publisher(rand) {
            Some(p) => p,
            None => {
                let mut acts: Vec<Action> = Vec::new();
                acts.push(
                    Action::SendText {
                        chat: state.config.genesis_group,
                        text: HandlePublishError::NotEnoughPublishers.message(),
                    },
                );
                acts.push(
                    Action::SendText {
                        chat: chat_id,
                        text: "Problem creating your review chat".to_owned(),
                    },
                );
                return Ok(acts);
            },
        };
        let testers = state.db.get_random_testers(3, rand);
        if testers.len() < 3 {
            let mut acts: Vec<Action> = Vec::new();
            acts.push(
                Action::SendText {
                    chat: state.config.genesis_group,
                    text: HandlePublishError::NotEnoughTesters.message(),
                },
            );
            acts.push(
                Action::SendText {
                    chat: chat_id,
                    text: "Problem creating your review chat".to_owned(),
                },
            );
            return Ok(acts);
        }
        let t3: [u64; 3] = [testers[0], testers[1], testers[2]];
        let mut group_name = String::from_str("Testing: ");
        group_name.append(app.name.as_str());
        let plan = PublishPlan { submit: submit_chat, publisher, testers: t3, group_name };
        proof {
            lemma_sample_props(state.db.tester_pool(), 3, rand);
            assert(plan.testers@ =~= sample_spec(state.db.tester_pool(), 3, rand));
        }
        let mut acts: Vec<Action> = Vec::new();
        acts.push(Action::CreateReviewGroup { plan });
        Ok(acts)
    } else {
        let mut acts: Vec<Action> = Vec::new();
        acts.push(Action::SendText { chat: chat_id, text: "Command not found".to_owned() });
        Ok(acts)
    }
}

/// Whether `a` is the status-update reply `resp` to the webxdc message
/// `msg`.
pub open spec fn is_status_update(a: Action, msg: u64, resp: GeneralFrontendResponse) -> bool {
    &&& a matches Action::SendStatusUpdate { msg: m, response }
    &&& m == msg
    &&& response == resp
}

/// The replies after a persisted app update: the missing-fields list to
/// the submitter while the app stays incomplete, and always a typed reply
/// to the helper webxdc.
pub open spec fn update_reply_actions(
    acts: Seq<Action>,
    chat: u64,
    helper_msg: u64,
    updated: AppInfoView,
    resp: GeneralFrontendResponse,
) -> bool {
    if complete_spec(updated) {
        acts.len() == 1 && is_status_update(acts[0], helper_msg, resp)
    } else {
        acts.len() == 2 && is_send_text(acts[0], chat, crate::request_handlers::missing_message_spec(updated))
            && is_status_update(acts[1], helper_msg, resp)
    }
}

/// What a webxdc re-upload in a Submit chat leads to: a bad bundle is
/// reported to the submitter and changes nothing; otherwise the app
/// record is rewritten from the bundle and the submitter is told what is
/// still missing, while the mini-app is told whether the version changed.
pub open spec fn handle_webxdc_post(
    pre: State,
    post: State,
    chat_id: u64,
    file: Seq<u8>,
    path: Seq<char>,
    r: Result<Seq<Action>, BotError>,
) -> bool {
    match pre.db.chat_rec(chat_id) {
        Some(ChatRecord::Submit(sc)) => match pre.db.app_at(sc.app_info) {
            None => r == Err::<Seq<Action>, BotError>(BotError::NotFound) && post == pre,
            Some(app) => match xdc_extract_of(file) {
                None => post == pre && (r matches Ok(acts) && acts.len() == 1 && is_send_text(
                    acts[0],
                    chat_id,
                    "Invalid webxdc bundle"@,
                )),
                Some(ext) => {
                    let updated = AppInfoView {
                        xdc_blob_path: path,
                        ..updated_app_view(app@, ext)
                    };
                    let resp = if app.version != ext.0.version {
                        GeneralFrontendResponse::Outdated { critical: true, version: ext.0.version }
                    } else {
                        GeneralFrontendResponse::UpdateSent
                    };
                    &&& crate::db::apps_only_changed(pre.db, post.db)
                    &&& post.config == pre.config
                    &&& (forall|k: u64|
                        k != sc.app_info ==> #[trigger] post.db.app_at(k) == pre.db.app_at(k))
                    &&& (post.db.app_at(sc.app_info) matches Some(a) && a@ == updated)
                    &&& (r matches Ok(acts) && update_reply_actions(
                        acts,
                        chat_id,
                        sc.creator_webxdc,
                        updated,
                        resp,
                    ))
                },
            },
        },
        _ => r == Err::<Seq<Action>, BotError>(BotError::NotFound) && post == pre,
    }
}

/// Handles a webxdc bundle uploaded into a Submit chat: re-extracts the
/// app's fields, records where the bundle lies, persists the update and
/// reports completeness.
pub fn handle_webxdc(state: &mut State, chat_id: u64, file: &Vec<u8>, path: &String) -> (r: Result<
    Vec<Action>,
    BotError,
>)
    requires
        old(state).db.wf(),
    ensures
        final(state).db.wf(),
        handle_webxdc_post(
            *old(state),
            *final(state),
            chat_id,
            file@,
            path@,
            match r {
                Ok(acts) => Ok(acts@),
                Err(e) => Err(e),
            },
        ),
{
    let submit_chat = match state.db.get_submit_chat(chat_id) {
        Some(sc) => sc,
        None => {
            return Err(BotError::NotFound);
        },
    };
    let mut app = match state.db.get_app_info(submit_chat.app_info) {
        Some(a) => a,
        None => {
            return Err(BotError::NotFound);
        },
    };
    let ghost prior_version = app.version;
    let upgraded = match app.update_from_xdc(file) {
        Ok(u) => u,
        Err(e) => {
            let mut acts: Vec<Action> = Vec::new();
            acts.push(Action::SendText { chat: chat_id, text: e.message() });
            return Ok(acts);
        },
    };
    app.xdc_blob_path = path.clone();
    state.db.update_app_info(&app, submit_chat.app_info);
    let mut acts: Vec<Action> = Vec::new();
    if !app.is_complete() {
        acts.push(
            Action::SendText {
                chat: chat_id,
                text: crate::request_handlers::missing_text(&app),
            },
        );
    }
    let resp = if upgraded {
        GeneralFrontendResponse::Outdated { critical: true, version: app.version }
    } else {
        GeneralFrontendResponse::UpdateSent
    };
    acts.push(Action::SendStatusUpdate { msg: submit_chat.creator_webxdc, response: resp });
    Ok(acts)
}

/// The app-record fields a structured status update may carry; a present
/// field overwrites the stored one, an absent field keeps it.
pub open spec fn merged_app_view(prior: AppInfoView, u: Seq<char>) -> AppInfoView {
    AppInfoView {
        name: (match json_text_str_at(u, "/payload/name"@) {
            Some(s) => s,
            None => prior.name,
        }),
        description: (match json_text_str_at(u, "/payload/description"@) {
            Some(s) => s,
            None => prior.description,
        }),
        source_code_url: (match json_text_str_at(u, "/payload/source_code_url"@) {
            Some(s) => Some(s),
            None => prior.source_code_url,
        }),
        submitter_uri: (match json_text_str_at(u, "/payload/submitter_uri"@) {
            Some(s) => Some(s),
            None => prior.submitter_uri,
        }),
        ..prior
    }
}

/// Whether the payload carries an app edit at all.
pub open spec fn is_edit_payload(u: Seq<char>) -> bool {
    ||| json_text_str_at(u, "/payload/name"@) is Some
    ||| json_text_str_at(u, "/payload/description"@) is Some
    ||| json_text_str_at(u, "/payload/source_code_url"@) is Some
    ||| json_text_str_at(u, "/payload/submitter_uri"@) is Some
}

/// What a structured status update in a Submit chat leads to: a payload
/// carrying no app edit is ignored; otherwise the carried fields are
/// merged into the app record, persisted, and completeness is reported.
pub open spec fn handle_status_update_post(
    pre: State,
    post: State,
    chat_id: u64,
    u: Seq<char>,
    r: Result<Seq<Action>, BotError>,
) -> bool {
    if !is_edit_payload(u) {
        post == pre && r == Ok::<Seq<Action>, BotError>(Seq::empty())
    } else {
        match pre.db.chat_rec(chat_id) {
            Some(ChatRecord::Submit(sc)) => match pre.db.app_at(sc.app_info) {
                None => r == Err::<Seq<Action>, BotError>(BotError::NotFound) && post == pre,
                Some(app) => {
                    let updated = merged_app_view(app@, u);
                    &&& crate::db::apps_only_changed(pre.db, post.db)
                    &&& post.config == pre.config
                    &&& (forall|k: u64|
                        k != sc.app_info ==> #[trigger] post.db.app_at(k) == pre.db.app_at(k))
                    &&& (post.db.app_at(sc.app_info) matches Some(a) && a@ == updated)
                    &&& (r matches Ok(acts) && update_reply_actions(
                        acts,
                        chat_id,
                        sc.creator_webxdc,
                        updated,
                        GeneralFrontendResponse::UpdateSent,
                    ))
                },
            },
            _ => r == Err::<Seq<Action>, BotError>(BotError::NotFound) && post == pre,
        }
    }
}

/// Handles a structured status update from the mini-app UI in a Submit
/// chat: merges the carried partial app record, persists it and reports
/// completeness.
pub fn handle_status_update(state: &mut State, chat_id: u64, update: &String) -> (r: Result<
    Vec<Action>,
    BotError,
>)
    requires
        old(state).db.wf(),
    ensures
        final(state).db.wf(),
        handle_status_update_post(
            *old(state),
            *final(state),
            chat_id,
            update@,
            match r {
                Ok(acts) => Ok(acts@),
                Err(e) => Err(e),
            },
        ),
{
    let name_f = json_text_str_field(update.as_str(), "/payload/name");
    let desc_f = json_text_str_field(update.as_str(), "/payload/description");
    let scu_f = json_text_str_field(update.as_str(), "/payload/source_code_url");
    let uri_f = json_text_str_field(update.as_str(), "/payload/submitter_uri");
    if name_f.is_none() && desc_f.is_none() && scu_f.is_none() && uri_f.is_none() {
        let acts: Vec<Action> = Vec::new();
        proof {
            assert(acts@ =~= Seq::<Action>::empty());
        }
        return Ok(acts);
    }
    let submit_chat = match state.db.get_submit_chat(chat_id) {
        Some(sc) => sc,
        None => {
            return Err(BotError::NotFound);
        },
    };
    let mut app = match state.db.get_app_info(submit_chat.app_info) {
        Some(a) => a,
        None => {
            return Err(BotError::NotFound);
        },
    };
    match name_f {
        Some(s) => {
            app.name = s;
        },
        None => {},
    }
    match desc_f {
        Some(s) => {
            app.description = s;
        },
        None => {},
    }
    match scu_f {
        Some(s) => {
            app.source_code_url = Some(s);
        },
        None => {},
    }
    match uri_f {
        Some(s) => {
            app.submitter_uri = Some(s);
        },
        None => {},
    }
    state.db.update_app_info(&app, submit_chat.app_info);
    let mut acts: Vec<Action> = Vec::new();
    if !app.is_complete() {
        acts.push(
            Action::SendText {
                chat: chat_id,
                text: crate::request_handlers::missing_text(&app),
            },
        );
    }
    acts.push(
        Action::SendStatusUpdate {
            msg: submit_chat.creator_webxdc,
            response: GeneralFrontendResponse::UpdateSent,
        },
    );
    Ok(acts)
}

} // verus!
