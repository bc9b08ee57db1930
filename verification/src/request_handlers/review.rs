//! Handling of events in Review-role chats, and the Submitted-to-InReview
//! transition.

use vstd::prelude::*;

verus! {

use crate::bot::State;
use crate::db::ChatRecord;
use crate::db::DB;
use crate::db::pools_unchanged;
use crate::db::review_by_chat;
use crate::db::sample_spec;
use crate::db::lemma_sample_props;
use crate::messages::creat_review_group_init_message;
use crate::messages::creat_review_group_init_message_spec;
use crate::request_handlers::Action;
use crate::request_handlers::AppInfo;
use crate::request_handlers::AppInfoView;
use crate::request_handlers::BotError;
use crate::request_handlers::ChatType;
use crate::request_handlers::complete_spec;
use crate::request_handlers::lemma_empty_description_is_missing;
use crate::request_handlers::missing_fields_spec;
use crate::request_handlers::missing_message_spec;
use crate::request_handlers::missing_text;
use crate::request_handlers::submit::is_send_text;
use crate::utils::str_eq;

/// Join record of one submission under review: the review group, the
/// assigned publisher and testers, and the two helper webxdc messages.
#[derive(Clone, Copy, Debug, PartialEq)]
pub struct ReviewChat {
    /// Helper webxdc living in the submit chat.
    pub review_helper: u64,
    /// Helper webxdc living in the review chat.
    pub submit_helper: u64,
    /// The review group chat.
    pub review_chat: u64,
    /// The chat the submission originated in; primary key of the record.
    pub submit_chat: u64,
    /// The assigned publisher contact.
    pub publisher: u64,
    /// The three assigned tester contacts.
    pub testers: [u64; 3],
    /// Store key of the submission's app record.
    pub app_info: u64,
}

/// The shortages that abort a publish request; both are retryable once the
/// pools refill.
#[derive(Clone, Copy, Debug, PartialEq, Eq, Structural)]
pub enum HandlePublishError {
    /// Fewer than three contacts in the tester pool.
    NotEnoughTesters,
    /// No contact in the publisher pool.
    NotEnoughPublishers,
}

impl HandlePublishError {
    /// The user-facing text for this shortage.
    pub fn message(&self) -> (r: String)
        ensures
            *self is NotEnoughTesters ==> r@ == "Not enough testers in pool"@,
            *self is NotEnoughPublishers ==> r@ == "Not enough reviewee in pool"@,
    {
        match self {
            HandlePublishError::NotEnoughTesters => "Not enough testers in pool".to_owned(),
            HandlePublishError::NotEnoughPublishers => "Not enough reviewee in pool".to_owned(),
        }
    }
}

/// Everything decided for a Submitted-to-InReview transition before the
/// review group exists: the sampled contacts and the group's name.  The
/// event loop creates the group, adds exactly the planned members, delivers
/// the helper webxdc and then completes the transition.
#[derive(Debug, PartialEq)]
pub struct PublishPlan {
    /// The submission being promoted.
    pub submit: crate::request_handlers::submit::SubmitChat,
    /// The sampled publisher contact.
    pub publisher: u64,
    /// The three sampled tester contacts.
    pub testers: [u64; 3],
    /// Name for the review group, derived from the app's name.
    pub group_name: String,
}

/// A plan is well formed when its three testers are distinct.
pub open spec fn plan_wf(plan: PublishPlan) -> bool {
    plan.testers@.no_duplicates()
}

/// The members the review group shall have: the testers and, when not
/// already among them, the publisher.
pub open spec fn plan_members_spec(plan: PublishPlan) -> Seq<u64> {
    if plan.testers@.contains(plan.publisher) {
        plan.testers@
    } else {
        plan.testers@.push(plan.publisher)
    }
}

impl PublishPlan {
    /// True exactly when the plan's three testers are distinct.
    pub fn is_valid(&self) -> (r: bool)
        ensures
            r == plan_wf(*self),
    {
        let t0 = self.testers[0];
        let t1 = self.testers[1];
        let t2 = self.testers[2];
        let distinct = t0 != t1 && t0 != t2 && t1 != t2;
        proof {
            if distinct {
                assert forall|i: int, j: int|
                    0 <= i < self.testers@.len() && 0 <= j < self.testers@.len() && i != j
                    implies self.testers@[i] != self.testers@[j] by {
                }
            }
        }
        distinct
    }

    /// The contacts to add to the review group, without duplicates.
    pub fn members(&self) -> (r: Vec<u64>)
        ensures
            r@ == plan_members_spec(*self),
    {
        let t0 = self.testers[0];
        let t1 = self.testers[1];
        let t2 = self.testers[2];
        let mut r: Vec<u64> = Vec::new();
        r.push(t0);
        r.push(t1);
        r.push(t2);
        proof {
            assert(r@ =~= self.testers@);
        }
        if t0 != self.publisher && t1 != self.publisher && t2 != self.publisher {
            proof {
                assert(!self.testers@.contains(self.publisher)) by {
                    if self.testers@.contains(self.publisher) {
                        let k = choose|k: int|
                            0 <= k < self.testers@.len() && self.testers@[k] == self.publisher;
                    }
                }
            }
            r.push(self.publisher);
        } else {
            proof {
                assert(self.testers@.contains(self.publisher)) by {
                    if t0 == self.publisher {
                        assert(self.testers@[0] == self.publisher);
                    } else if t1 == self.publisher {
                        assert(self.testers@[1] == self.publisher);
                    } else {
                        assert(self.testers@[2] == self.publisher);
                    }
                }
            }
        }
        r
    }
}

/// The record a carried-out plan stores: same originating chat, the new
/// review group, the sampled contacts, and the two helper webxdc
/// messages.
pub open spec fn planned_review_chat(
    plan: PublishPlan,
    review_chat_id: u64,
    submit_helper: u64,
) -> ReviewChat {
    ReviewChat {
        review_helper: plan.submit.creator_webxdc,
        submit_helper: submit_helper,
        review_chat: review_chat_id,
        submit_chat: plan.submit.creator_chat,
        publisher: plan.publisher,
        testers: plan.testers,
        app_info: plan.submit.app_info,
    }
}

/// The sends after the review group exists: the introduction naming
/// publisher and testers, the app pushed into the review helper, and the
/// acknowledgement to the submitter.
pub open spec fn review_intro_actions(
    acts: Seq<Action>,
    rc: ReviewChat,
    app: AppInfo,
    tester_names: Seq<Seq<char>>,
    publisher_name: Seq<char>,
) -> bool {
    &&& acts.len() == 3
    &&& is_send_text(
        acts[0],
        rc.review_chat,
        creat_review_group_init_message_spec(tester_names, publisher_name),
    )
    &&& (acts[1] matches Action::SendAppInfo { msg, app: a } && msg == rc.submit_helper && a
        == app)
    &&& is_send_text(acts[2], rc.submit_chat, "I've submitted your app for review"@)
}

/// What completing a publish plan leads to: the submission's join record
/// is rewritten in place, under its originating chat id, into the record
/// under review, and the new group's registry role becomes Review.
pub open spec fn from_submit_chat_post(
    pre: State,
    post: State,
    plan: PublishPlan,
    review_chat_id: u64,
    submit_helper: u64,
    tester_names: Seq<Seq<char>>,
    publisher_name: Seq<char>,
    r: Result<(ReviewChat, Seq<Action>), BotError>,
) -> bool {
    match pre.db.app_at(plan.submit.app_info) {
        None => r == Err::<(ReviewChat, Seq<Action>), BotError>(BotError::NotFound) && post == pre,
        Some(app) => {
            let rc = planned_review_chat(plan, review_chat_id, submit_helper);
            &&& (forall|c: u64| #[trigger]
                post.db.chat_rec(c) == (if c == plan.submit.creator_chat {
                    Some(ChatRecord::Review(rc))
                } else {
                    pre.db.chat_rec(c)
                }))
            &&& (forall|c: u64| #[trigger]
                post.db.chat_role(c) == (if c == review_chat_id {
                    Some(ChatType::Review)
                } else {
                    pre.db.chat_role(c)
                }))
            &&& post.db.apps_rows() == pre.db.apps_rows()
            &&& pools_unchanged(pre.db, post.db)
            &&& post.db.config_v() == pre.db.config_v()
            &&& post.config == pre.config
            &&& (r matches Ok(p) && p.0 == rc && review_intro_actions(
                p.1,
                rc,
                app,
                tester_names,
                publisher_name,
            ))
        },
    }
}

impl ReviewChat {
    /// Completes a planned Submitted-to-InReview transition once the
    /// event loop has created the review group (`review_chat_id`), added
    /// exactly the planned members and delivered the review helper
    /// webxdc (`submit_helper`): upgrades the join record in place and
    /// registers the group's Review role.
    pub fn from_submit_chat(
        state: &mut State,
        plan: &PublishPlan,
        review_chat_id: u64,
        submit_helper: u64,
        tester_names: &Vec<String>,
        publisher_name: &String,
    ) -> (r: Result<(ReviewChat, Vec<Action>), BotError>)
        requires
            old(state).db.wf(),
        ensures
            final(state).db.wf(),
            from_submit_chat_post(
                *old(state),
                *final(state),
                *plan,
                review_chat_id,
                submit_helper,
                tester_names@.map_values(|t: String| t@),
                publisher_name@,
                match r {
                    Ok(p) => Ok((p.0, p.1@)),
                    Err(e) => Err(e),
                },
            ),
    {
        let app = match state.db.get_app_info(plan.submit.app_info) {
            Some(a) => a,
            None => {
                return Err(BotError::NotFound);
            },
        };
        let review_chat = ReviewChat {
            review_helper: plan.submit.creator_webxdc,
            submit_helper,
            review_chat: review_chat_id,
            submit_chat: plan.submit.creator_chat,
            publisher: plan.publisher,
            testers: plan.testers,
            app_info: plan.submit.app_info,
        };
        state.db.upgrade_to_review_chat(&review_chat);
        let ghost mid = state.db;
        state.db.set_chat_type(review_chat_id, ChatType::Review);
        proof {
            assert forall|c: u64| #[trigger]
                state.db.chat_rec(c) == (if c == plan.submit.creator_chat {
                    Some(ChatRecord::Review(review_chat))
                } else {
                    old(state).db.chat_rec(c)
                }) by {
                assert(state.db.chat_rec(c) == mid.chat_rec(c));
            }
            assert forall|c: u64| #[trigger]
                state.db.chat_role(c) == (if c == review_chat_id {
                    Some(ChatType::Review)
                } else {
                    old(state).db.chat_role(c)
                }) by {
                assert(mid.chat_role(c) == old(state).db.chat_role(c));
            }
        }
        let mut acts: Vec<Action> = Vec::new();
        acts.push(
            Action::SendText {
                chat: review_chat_id,
                text: creat_review_group_init_message(tester_names, publisher_name),
            },
        );
        acts.push(Action::SendAppInfo { msg: submit_helper, app });
        acts.push(
            Action::SendText {
                chat: plan.submit.creator_chat,
                text: "I've submitted your app for review".to_owned(),
            },
        );
        Ok((review_chat, acts))
    }

    /// The app record this review is about.
    pub fn get_app_info(&self, db: &DB) -> (r: Option<AppInfo>)
        ensures
            r == db.app_at(self.app_info),
    {
        db.get_app_info(self.app_info)
    }
}

/// What a text message in a Review chat leads to.  `/release` publishes
/// the app when it is complete — a one-way step — and otherwise changes
/// nothing and names the missing fields; any other text is ignored.
pub open spec fn handle_release_post(
    pre: State,
    post: State,
    chat_id: u64,
    text: Seq<char>,
    r: Result<Seq<Action>, BotError>,
) -> bool {
    if text != "/release"@ {
        post == pre && r == Ok::<Seq<Action>, BotError>(Seq::empty())
    } else {
        match review_by_chat(pre.db.chats_rows(), chat_id) {
            None => r == Err::<Seq<Action>, BotError>(BotError::NotFound) && post == pre,
            Some(rc) => match pre.db.app_at(rc.app_info) {
                None => r == Err::<Seq<Action>, BotError>(BotError::NotFound) && post == pre,
                Some(app) => if complete_spec(app@) {
                    &&& crate::db::apps_only_changed(pre.db, post.db)
                    &&& post.config == pre.config
                    &&& (forall|k: u64|
                        k != rc.app_info ==> #[trigger] post.db.app_at(k) == pre.db.app_at(k))
                    &&& post.db.app_at(rc.app_info) == Some(AppInfo { active: true, ..app })
                    &&& (r matches Ok(acts) && acts.len() == 1 && is_send_text(
                        acts[0],
                        chat_id,
                        "App published"@,
                    ))
                } else {
                    post == pre && (r matches Ok(acts) && acts.len() == 1 && is_send_text(
                        acts[0],
                        chat_id,
                        missing_message_spec(app@),
                    ))
                },
            },
        }
    }
}

/// Handles a text message in a Review chat.
pub fn handle_message(state: &mut State, chat_id: u64, msg_text: &String) -> (r: Result<
    Vec<Action>,
    BotError,
>)
    requires
        old(state).db.wf(),
    ensures
        final(state).db.wf(),
        handle_release_post(
            *old(state),
            *final(state),
            chat_id,
            msg_text@,
            match r {
                Ok(acts) => Ok(acts@),
                Err(e) => Err(e),
            },
        ),
{
    if !str_eq(msg_text.as_str(), "/release") {
        let acts: Vec<Action> = Vec::new();
        proof {
            assert(acts@ =~= Seq::<Action>::empty());
        }
        return Ok(acts);
    }
    let review_chat = match state.db.get_review_chat(chat_id) {
        Some(rc) => rc,
        None => {
            return Err(BotError::NotFound);
        },
    };
    let app = match state.db.get_app_info(review_chat.app_info) {
        Some(a) => a,
        None => {
            return Err(BotError::NotFound);
        },
    };
    let mut acts: Vec<Action> = Vec::new();
    if app.is_complete() {
        state.db.publish_app(review_chat.app_info);
        acts.push(Action::SendText { chat: chat_id, text: "App published".to_owned() });
    } else {
        acts.push(Action::SendText { chat: chat_id, text: missing_text(&app) });
    }
    Ok(acts)
}

/// `/release` on an app with an empty description cannot publish it: the
/// app is incomplete, so the handler leaves every record unchanged, and
/// the missing-fields list in its reply names "description".
pub proof fn lemma_release_empty_description(a: AppInfoView)
    requires
        a.description.len() == 0,
    ensures
        !complete_spec(a),
        missing_fields_spec(a).contains("description"@),
{
    lemma_empty_description_is_missing(a);
}

/// A publisher and three testers sampled from well-formed pools make a
/// well-formed plan: the planned review-group members are exactly the
/// sampled publisher plus the three sampled testers, without duplicates,
/// and each comes from its pool.
pub proof fn lemma_sampled_plan_members(db: DB, plan: PublishPlan, rand: u64)
    requires
        db.wf(),
        db.publisher_pool().len() > 0,
        db.tester_pool().len() >= 3,
        plan.publisher == db.publisher_pool()[(rand as int) % (db.publisher_pool().len() as int)],
        plan.testers@ == sample_spec(db.tester_pool(), 3, rand),
    ensures
        plan_wf(plan),
        plan_members_spec(plan).no_duplicates(),
        forall|c: u64|
            plan_members_spec(plan).contains(c) <==> (plan.testers@.contains(c) || c
                == plan.publisher),
        forall|i: int| 0 <= i < 3 ==> db.tester_pool().contains(#[trigger] plan.testers@[i]),
        db.publisher_pool().contains(plan.publisher),
{
    lemma_sample_props(db.tester_pool(), 3, rand);
    lemma_plan_members(plan);
    let pp = db.publisher_pool();
    assert(pp[(rand as int) % (pp.len() as int)] == plan.publisher);
    assert(0 <= (rand as int) % (pp.len() as int) < pp.len());
}

/// The members of a planned review group are exactly the sampled testers
/// plus the sampled publisher, and contain no duplicates.
pub proof fn lemma_plan_members(plan: PublishPlan)
    requires
        plan_wf(plan),
    ensures
        plan_members_spec(plan).no_duplicates(),
        forall|c: u64|
            plan_members_spec(plan).contains(c) <==> (plan.testers@.contains(c) || c
                == plan.publisher),
{
    let m = plan_members_spec(plan);
    if plan.testers@.contains(plan.publisher) {
        assert forall|c: u64| m.contains(c) implies (plan.testers@.contains(c) || c
            == plan.publisher) by {}
    } else {
        assert(m.drop_last() =~= plan.testers@);
        assert forall|c: u64| (plan.testers@.contains(c) || c == plan.publisher) implies m.contains(
            c,
        ) by {
            if c == plan.publisher {
                assert(m[m.len() - 1] == c);
            } else {
                let k = choose|k: int| 0 <= k < plan.testers@.len() && plan.testers@[k] == c;
                assert(m[k] == c);
            }
        }
        assert forall|c: u64| m.contains(c) implies (plan.testers@.contains(c) || c
            == plan.publisher) by {
            let k = choose|k: int| 0 <= k < m.len() && m[k] == c;
            if k < m.len() - 1 {
                assert(plan.testers@[k] == c);
            }
        }
    }
}

} // verus!
