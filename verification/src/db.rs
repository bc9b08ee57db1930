//! The record store model: chat roles, chat records, contact pools, app
//! records and the bootstrap configuration.
//!
//! The persistent store engine is an outside collaborator; this module is
//! the exact model of what the bot keeps in it.  Every operation states in
//! full what it reads or rewrites, so the handlers above it can be held to
//! the pipeline's invariants.

use vstd::prelude::*;

verus! {

use crate::bot::BotConfig;
use crate::request_handlers::AppInfo;
use crate::request_handlers::ChatType;
use crate::request_handlers::review::ReviewChat;
use crate::request_handlers::submit::SubmitChat;

/// One chat's join record, evolving through the submission lifecycle: the
/// same store row is a [`SubmitChat`] until the publish step upgrades it in
/// place to a [`ReviewChat`].
#[derive(Clone, Copy, Debug, PartialEq)]
pub enum ChatRecord {
    Submit(SubmitChat),
    Review(ReviewChat),
}

/// The value stored under key `k`: the first row with that key.
pub open spec fn assoc_get<V>(rows: Seq<(u64, V)>, k: u64) -> Option<V>
    decreases rows.len(),
{
    if rows.len() == 0 {
        None
    } else if rows[0].0 == k {
        Some(rows[0].1)
    } else {
        assoc_get(rows.drop_first(), k)
    }
}

/// The keys of a row sequence, in row order.
pub open spec fn assoc_keys<V>(rows: Seq<(u64, V)>) -> Seq<u64> {
    rows.map_values(|p: (u64, V)| p.0)
}

/// A key that no row carries is not bound.
pub proof fn lemma_assoc_get_none<V>(rows: Seq<(u64, V)>, k: u64)
    requires
        forall|j: int| 0 <= j < rows.len() ==> (#[trigger] rows[j]).0 != k,
    ensures
        assoc_get(rows, k) is None,
    decreases rows.len(),
{
    if rows.len() > 0 {
        lemma_assoc_get_none(rows.drop_first(), k);
    }
}

/// The first row carrying a key binds it.
pub proof fn lemma_assoc_get_at<V>(rows: Seq<(u64, V)>, k: u64, i: int)
    requires
        0 <= i < rows.len(),
        rows[i].0 == k,
        forall|j: int| 0 <= j < i ==> (#[trigger] rows[j]).0 != k,
    ensures
        assoc_get(rows, k) == Some(rows[i].1),
    decreases i,
{
    if i > 0 {
        lemma_assoc_get_at(rows.drop_first(), k, i - 1);
    }
}

/// Rewriting the one row that carries a key rebinds that key and nothing
/// else.
pub proof fn lemma_assoc_get_update<V>(rows: Seq<(u64, V)>, i: int, v: V, k2: u64)
    requires
        0 <= i < rows.len(),
        forall|j: int| 0 <= j < i ==> (#[trigger] rows[j]).0 != rows[i].0,
    ensures
        assoc_get(rows.update(i, (rows[i].0, v)), k2) == if k2 == rows[i].0 {
            Some(v)
        } else {
            assoc_get(rows, k2)
        },
    decreases i,
{
    let updated = rows.update(i, (rows[i].0, v));
    if i == 0 {
        if k2 != rows[0].0 {
            assert(updated.drop_first() =~= rows.drop_first());
        }
    } else {
        lemma_assoc_get_update(rows.drop_first(), i - 1, v, k2);
        assert(updated.drop_first() =~= rows.drop_first().update(i - 1, (rows[i].0, v)));
        assert(rows.drop_first()[i - 1] == rows[i]);
    }
}

/// Appending a row with a fresh key binds that key and nothing else.
pub proof fn lemma_assoc_get_push<V>(rows: Seq<(u64, V)>, k: u64, v: V, k2: u64)
    requires
        forall|j: int| 0 <= j < rows.len() ==> (#[trigger] rows[j]).0 != k,
    ensures
        assoc_get(rows.push((k, v)), k2) == if k2 == k {
            Some(v)
        } else {
            assoc_get(rows, k2)
        },
    decreases rows.len(),
{
    if rows.len() == 0 {
        if k2 != k {
            assert(rows.push((k, v)).drop_first() =~= Seq::<(u64, V)>::empty());
        }
    } else {
        assert(rows.push((k, v))[0] == rows[0]);
        lemma_assoc_get_push(rows.drop_first(), k, v, k2);
        assert(rows.push((k, v)).drop_first() =~= rows.drop_first().push((k, v)));
    }
}

/// `s` with every repeated element dropped, first occurrences kept.
pub open spec fn dedup_spec(s: Seq<u64>) -> Seq<u64>
    decreases s.len(),
{
    if s.len() == 0 {
        Seq::empty()
    } else if dedup_spec(s.drop_last()).contains(s.last()) {
        dedup_spec(s.drop_last())
    } else {
        dedup_spec(s.drop_last()).push(s.last())
    }
}

/// Deduplication yields a duplicate-free sequence holding exactly the
/// elements it was given.
pub proof fn lemma_dedup_props(s: Seq<u64>)
    ensures
        dedup_spec(s).no_duplicates(),
        forall|x: u64| dedup_spec(s).contains(x) <==> s.contains(x),
    decreases s.len(),
{
    if s.len() > 0 {
        lemma_dedup_props(s.drop_last());
        let prior = dedup_spec(s.drop_last());
        assert forall|x: u64| s.contains(x) implies (s.drop_last().contains(x) || s.last()
            == x) by {
            let k = choose|k: int| 0 <= k < s.len() && s[k] == x;
            if k < s.len() - 1 {
                assert(s.drop_last()[k] == x);
            }
        }
        assert forall|x: u64| (s.drop_last().contains(x) || s.last() == x) implies s.contains(
            x,
        ) by {
            if s.drop_last().contains(x) {
                let k = choose|k: int| 0 <= k < s.drop_last().len() && s.drop_last()[k] == x;
                assert(s[k] == x);
            } else {
                assert(s[s.len() - 1] == x);
            }
        }
        if !prior.contains(s.last()) {
            let d = prior.push(s.last());
            assert forall|i: int, j: int| 0 <= i < d.len() && 0 <= j < d.len() && i != j implies d[i]
                != d[j] by {
                if i < d.len() - 1 && j < d.len() - 1 {
                    assert(prior[i] == d[i] && prior[j] == d[j]);
                } else if i == d.len() - 1 {
                    assert(prior[j] == d[j]);
                    assert(prior.contains(d[j]));
                } else {
                    assert(prior[i] == d[i]);
                    assert(prior.contains(d[i]));
                }
            }
            assert forall|x: u64| d.contains(x) implies (prior.contains(x) || x == s.last()) by {
                let k = choose|k: int| 0 <= k < d.len() && d[k] == x;
                if k < d.len() - 1 {
                    assert(prior[k] == x);
                }
            }
            assert forall|x: u64| (prior.contains(x) || x == s.last()) implies d.contains(x) by {
                if prior.contains(x) {
                    let k = choose|k: int| 0 <= k < prior.len() && prior[k] == x;
                    assert(d[k] == x);
                } else {
                    assert(d[d.len() - 1] == x);
                }
            }
        }
    }
}

/// Whether `v` holds `x`.
fn vec_contains(v: &Vec<u64>, x: u64) -> (r: bool)
    ensures
        r == v@.contains(x),
{
    let mut i: usize = 0;
    while i < v.len()
        invariant
            i <= v.len(),
            forall|j: int| 0 <= j < i ==> v@[j] != x,
        decreases v.len() - i,
    {
        if v[i] == x {
            return true;
        }
        i = i + 1;
    }
    proof {
        if v@.contains(x) {
            let k = choose|k: int| 0 <= k < v@.len() && v@[k] == x;
        }
    }
    false
}

/// `contacts` with repeats dropped.
fn dedup_contacts(contacts: &Vec<u64>) -> (r: Vec<u64>)
    ensures
        r@ == dedup_spec(contacts@),
{
    let mut r: Vec<u64> = Vec::new();
    let mut i: usize = 0;
    while i < contacts.len()
        invariant
            i <= contacts.len(),
            r@ == dedup_spec(contacts@.take(i as int)),
        decreases contacts.len() - i,
    {
        let x = contacts[i];
        proof {
            assert(contacts@.take(i + 1).drop_last() =~= contacts@.take(i as int));
            assert(contacts@.take(i + 1).last() == contacts@[i as int]);
        }
        if !vec_contains(&r, x) {
            r.push(x);
        }
        i = i + 1;
    }
    proof {
        assert(contacts@.take(contacts@.len() as int) =~= contacts@);
    }
    r
}

/// Index of the first row carrying `k`.
fn table_find<V>(rows: &Vec<(u64, V)>, k: u64) -> (r: Option<usize>)
    ensures
        match r {
            Some(i) => i < rows@.len() && rows@[i as int].0 == k && (forall|j: int|
                0 <= j < i ==> (#[trigger] rows@[j]).0 != k) && assoc_get(rows@, k) == Some(
                rows@[i as int].1,
            ),
            None => assoc_get(rows@, k) is None && forall|j: int|
                0 <= j < rows@.len() ==> (#[trigger] rows@[j]).0 != k,
        },
{
    let mut i: usize = 0;
    while i < rows.len()
        invariant
            i <= rows.len(),
            forall|j: int| 0 <= j < i ==> (#[trigger] rows@[j]).0 != k,
        decreases rows.len() - i,
    {
        if rows[i].0 == k {
            proof {
                lemma_assoc_get_at(rows@, k, i as int);
            }
            return Some(i);
        }
        i = i + 1;
    }
    proof {
        lemma_assoc_get_none(rows@, k);
    }
    None
}

/// Binds `k` to `v`, rewriting the row that carries `k` or appending one.
fn table_upsert<V>(rows: &mut Vec<(u64, V)>, k: u64, v: V)
    requires
        assoc_keys(old(rows)@).no_duplicates(),
    ensures
        assoc_keys(final(rows)@).no_duplicates(),
        forall|k2: u64| #[trigger]
            assoc_get(final(rows)@, k2) == (if k2 == k {
                Some(v)
            } else {
                assoc_get(old(rows)@, k2)
            }),
{
    let found = table_find(rows, k);
    match found {
        Some(i) => {
            proof {
                assert forall|j: int| 0 <= j < i implies (#[trigger] rows@[j]).0
                    != rows@[i as int].0 by {
                    assert(assoc_keys(rows@)[j] == rows@[j].0);
                    assert(assoc_keys(rows@)[i as int] == rows@[i as int].0);
                }
            }
            let ghost pre = rows@;
            rows.set(i, (k, v));
            proof {
                assert forall|k2: u64| #[trigger]
                    assoc_get(rows@, k2) == (if k2 == k {
                        Some(v)
                    } else {
                        assoc_get(pre, k2)
                    }) by {
                    lemma_assoc_get_update(pre, i as int, v, k2);
                }
                assert(assoc_keys(rows@) =~= assoc_keys(pre));
            }
        },
        None => {
            let ghost pre = rows@;
            rows.push((k, v));
            proof {
                assert forall|k2: u64| #[trigger]
                    assoc_get(rows@, k2) == (if k2 == k {
                        Some(v)
                    } else {
                        assoc_get(pre, k2)
                    }) by {
                    lemma_assoc_get_push(pre, k, v, k2);
                }
                let keys = assoc_keys(rows@);
                assert(keys =~= assoc_keys(pre).push(k));
                assert forall|a: int, b: int|
                    0 <= a < keys.len() && 0 <= b < keys.len() && a != b implies keys[a]
                    != keys[b] by {
                    if a < keys.len() - 1 && b < keys.len() - 1 {
                        assert(assoc_keys(pre)[a] == keys[a] && assoc_keys(pre)[b] == keys[b]);
                    } else if a == keys.len() - 1 {
                        assert(pre[b].0 == keys[b]);
                    } else {
                        assert(pre[a].0 == keys[a]);
                    }
                }
            }
        },
    }
}

/// Binds `k` to `v` only when no row carries `k` yet; reports whether it
/// inserted.
fn table_insert_new<V>(rows: &mut Vec<(u64, V)>, k: u64, v: V) -> (r: bool)
    requires
        assoc_keys(old(rows)@).no_duplicates(),
    ensures
        assoc_keys(final(rows)@).no_duplicates(),
        r == (assoc_get(old(rows)@, k) is None),
        r ==> final(rows)@ == old(rows)@.push((k, v)),
        !r ==> final(rows)@ == old(rows)@,
        forall|k2: u64| #[trigger]
            assoc_get(final(rows)@, k2) == (if k2 == k && assoc_get(old(rows)@, k) is None {
                Some(v)
            } else {
                assoc_get(old(rows)@, k2)
            }),
{
    let found = table_find(rows, k);
    match found {
        Some(_) => false,
        None => {
            let ghost pre = rows@;
            rows.push((k, v));
            proof {
                assert forall|k2: u64| #[trigger]
                    assoc_get(rows@, k2) == (if k2 == k {
                        Some(v)
                    } else {
                        assoc_get(pre, k2)
                    }) by {
                    lemma_assoc_get_push(pre, k, v, k2);
                }
                let keys = assoc_keys(rows@);
                assert(keys =~= assoc_keys(pre).push(k));
                assert forall|a: int, b: int|
                    0 <= a < keys.len() && 0 <= b < keys.len() && a != b implies keys[a]
                    != keys[b] by {
                    if a < keys.len() - 1 && b < keys.len() - 1 {
                        assert(assoc_keys(pre)[a] == keys[a] && assoc_keys(pre)[b] == keys[b]);
                    } else if a == keys.len() - 1 {
                        assert(pre[b].0 == keys[b]);
                    } else {
                        assert(pre[a].0 == keys[a]);
                    }
                }
            }
            true
        },
    }
}

/// Adds a contact to a duplicate-free pool unless already held.
fn pool_add(pool: &mut Vec<u64>, x: u64)
    requires
        old(pool)@.no_duplicates(),
    ensures
        final(pool)@.no_duplicates(),
        final(pool)@ == (if old(pool)@.contains(x) {
            old(pool)@
        } else {
            old(pool)@.push(x)
        }),
{
    if !vec_contains(pool, x) {
        let ghost pre = pool@;
        pool.push(x);
        proof {
            assert forall|a: int, b: int|
                0 <= a < pool@.len() && 0 <= b < pool@.len() && a != b implies pool@[a]
                != pool@[b] by {
                if a < pool@.len() - 1 && b < pool@.len() - 1 {
                } else if a == pool@.len() - 1 {
                    assert(pre.contains(pre[b]));
                } else {
                    assert(pre.contains(pre[a]));
                }
            }
        }
    }
}

/// The first Review record whose review-group chat is `c`, in row order.
pub open spec fn review_by_chat(rows: Seq<(u64, ChatRecord)>, c: u64) -> Option<ReviewChat>
    decreases rows.len(),
{
    if rows.len() == 0 {
        None
    } else {
        match rows[0].1 {
            ChatRecord::Review(rc) => if rc.review_chat == c {
                Some(rc)
            } else {
                review_by_chat(rows.drop_first(), c)
            },
            ChatRecord::Submit(_) => review_by_chat(rows.drop_first(), c),
        }
    }
}

/// A rotation-window sample: `count` consecutive entries of `pool`
/// starting at a point picked by `rand`, or the whole pool when it is
/// shorter than `count`.
pub open spec fn sample_spec(pool: Seq<u64>, count: int, rand: u64) -> Seq<u64> {
    let n = pool.len() as int;
    let c = if count <= n {
        count
    } else {
        n
    };
    let start = if n == c {
        0
    } else {
        (rand as int) % (n - c + 1)
    };
    pool.subrange(start, start + c)
}

/// A sample of a duplicate-free pool is duplicate-free, has the expected
/// length, and draws only pool members.
pub proof fn lemma_sample_props(pool: Seq<u64>, count: int, rand: u64)
    requires
        pool.no_duplicates(),
        count >= 0,
    ensures
        sample_spec(pool, count, rand).len() == (if count <= pool.len() {
            count
        } else {
            pool.len() as int
        }),
        sample_spec(pool, count, rand).no_duplicates(),
        forall|i: int|
            0 <= i < sample_spec(pool, count, rand).len() ==> pool.contains(
                #[trigger] sample_spec(pool, count, rand)[i],
            ),
{
    let s = sample_spec(pool, count, rand);
    let n = pool.len() as int;
    let c = if count <= n {
        count
    } else {
        n
    };
    let start = if n == c {
        0
    } else {
        (rand as int) % (n - c + 1)
    };
    assert(0 <= start && start + c <= n);
    assert forall|i: int| 0 <= i < s.len() implies pool.contains(#[trigger] s[i]) by {
        assert(s[i] == pool[start + i]);
    }
}

/// The bot's record store: chat roles, chat join records, the three
/// contact pools, app records and the bootstrap configuration.
pub struct DB {
    pub chat_types: Vec<(u64, ChatType)>,
    pub chats: Vec<(u64, ChatRecord)>,
    pub genesis: Vec<u64>,
    pub publishers: Vec<u64>,
    pub testers: Vec<u64>,
    pub app_infos: Vec<(u64, AppInfo)>,
    pub config: Option<BotConfig>,
}

/// The three pools of `b` hold what they held in `a`.
pub open spec fn pools_unchanged(a: DB, b: DB) -> bool {
    &&& b.genesis_pool() == a.genesis_pool()
    &&& b.publisher_pool() == a.publisher_pool()
    &&& b.tester_pool() == a.tester_pool()
}

/// Only the app table of `b` may differ from `a`'s.
pub open spec fn apps_only_changed(a: DB, b: DB) -> bool {
    &&& b.chat_types@ == a.chat_types@
    &&& b.chats_rows() == a.chats_rows()
    &&& pools_unchanged(a, b)
    &&& b.config_v() == a.config_v()
}

/// Neither the chat roles, the chat records, the app records nor the
/// configuration of `b` differ from `a`'s.
pub open spec fn non_pools_unchanged(a: DB, b: DB) -> bool {
    &&& b.chat_types@ == a.chat_types@
    &&& b.chats_rows() == a.chats_rows()
    &&& b.apps_rows() == a.apps_rows()
    &&& b.config_v() == a.config_v()
}

impl DB {
    /// The role registered for chat `c`.
    pub open spec fn chat_role(&self, c: u64) -> Option<ChatType> {
        assoc_get(self.chat_types@, c)
    }

    /// The join record stored under chat `c` (its originating chat id).
    pub open spec fn chat_rec(&self, c: u64) -> Option<ChatRecord> {
        assoc_get(self.chats@, c)
    }

    /// All join-record rows, in storage order.
    pub open spec fn chats_rows(&self) -> Seq<(u64, ChatRecord)> {
        self.chats@
    }

    pub open spec fn genesis_pool(&self) -> Seq<u64> {
        self.genesis@
    }

    pub open spec fn publisher_pool(&self) -> Seq<u64> {
        self.publishers@
    }

    pub open spec fn tester_pool(&self) -> Seq<u64> {
        self.testers@
    }

    /// The app record stored under key `k`.
    pub open spec fn app_at(&self, k: u64) -> Option<AppInfo> {
        assoc_get(self.app_infos@, k)
    }

    /// All app-record rows, in storage order.
    pub open spec fn apps_rows(&self) -> Seq<(u64, AppInfo)> {
        self.app_infos@
    }

    pub open spec fn config_v(&self) -> Option<BotConfig> {
        self.config
    }

    /// Store well-formedness: every table keyed uniquely, every pool free
    /// of duplicates.
    pub open spec fn wf(&self) -> bool {
        &&& assoc_keys(self.chat_types@).no_duplicates()
        &&& assoc_keys(self.chats@).no_duplicates()
        &&& assoc_keys(self.app_infos@).no_duplicates()
        &&& self.genesis@.no_duplicates()
        &&& self.publishers@.no_duplicates()
        &&& self.testers@.no_duplicates()
    }

    /// A fresh, empty store.
    pub fn new() -> (r: DB)
        ensures
            r.wf(),
            forall|c: u64| #[trigger] r.chat_role(c) is None,
            forall|c: u64| #[trigger] r.chat_rec(c) is None,
            forall|k: u64| #[trigger] r.app_at(k) is None,
            r.chats_rows() == Seq::<(u64, ChatRecord)>::empty(),
            r.apps_rows() == Seq::<(u64, AppInfo)>::empty(),
            r.genesis_pool() == Seq::<u64>::empty(),
            r.publisher_pool() == Seq::<u64>::empty(),
            r.tester_pool() == Seq::<u64>::empty(),
            r.config_v() is None,
    {
        DB {
            chat_types: Vec::new(),
            chats: Vec::new(),
            genesis: Vec::new(),
            publishers: Vec::new(),
            testers: Vec::new(),
            app_infos: Vec::new(),
            config: None,
        }
    }

    /// The role of chat `chat_id`, when one is registered.
    pub fn get_chat_type(&self, chat_id: u64) -> (r: Option<ChatType>)
        ensures
            r == self.chat_role(chat_id),
    {
        match table_find(&self.chat_types, chat_id) {
            Some(i) => Some(self.chat_types[i].1),
            None => None,
        }
    }

    /// Registers `chat_type` for `chat_id`, replacing any earlier role.
    pub fn set_chat_type(&mut self, chat_id: u64, chat_type: ChatType)
        requires
            old(self).wf(),
        ensures
            final(self).wf(),
            forall|c: u64| #[trigger]
                final(self).chat_role(c) == (if c == chat_id {
                    Some(chat_type)
                } else {
                    old(self).chat_role(c)
                }),
            final(self).chats_rows() == old(self).chats_rows(),
            final(self).apps_rows() == old(self).apps_rows(),
            pools_unchanged(*old(self), *final(self)),
            final(self).config_v() == old(self).config_v(),
    {
        table_upsert(&mut self.chat_types, chat_id, chat_type);
    }

    /// The join record of chat `chat_id`, while still in submission.
    pub fn get_submit_chat(&self, chat_id: u64) -> (r: Option<SubmitChat>)
        ensures
            r == (match self.chat_rec(chat_id) {
                Some(ChatRecord::Submit(s)) => Some(s),
                _ => None,
            }),
    {
        match table_find(&self.chats, chat_id) {
            Some(i) => match self.chats[i].1 {
                ChatRecord::Submit(s) => Some(s),
                ChatRecord::Review(_) => None,
            },
            None => None,
        }
    }

    /// The record under review whose review group is `chat_id`.
    pub fn get_review_chat(&self, chat_id: u64) -> (r: Option<ReviewChat>)
        ensures
            r == review_by_chat(self.chats_rows(), chat_id),
    {
        proof {
            assert(self.chats@.skip(0) =~= self.chats@);
        }
        let mut i: usize = 0;
        while i < self.chats.len()
            invariant
                i <= self.chats.len(),
                review_by_chat(self.chats@, chat_id) == review_by_chat(
                    self.chats@.skip(i as int),
                    chat_id,
                ),
            decreases self.chats.len() - i,
        {
            let hit = match &self.chats[i].1 {
                ChatRecord::Review(rc) => rc.review_chat == chat_id,
                ChatRecord::Submit(_) => false,
            };
            proof {
                assert(self.chats@.skip(i as int)[0] == self.chats@[i as int]);
                assert(self.chats@.skip(i as int).drop_first() =~= self.chats@.skip(i + 1));
            }
            if hit {
                match self.chats[i].1 {
                    ChatRecord::Review(rc) => {
                        return Some(rc);
                    },
                    ChatRecord::Submit(_) => {
                        proof {
                            assert(false);
                        }
                    },
                }
            }
            i = i + 1;
        }
        proof {
            assert(self.chats@.skip(self.chats@.len() as int) =~= Seq::<(u64, ChatRecord)>::empty());
        }
        None
    }

    /// Creates the join record of a fresh submission chat; reports whether
    /// the chat was indeed new.
    pub fn create_submit(&mut self, chat: &SubmitChat) -> (r: bool)
        requires
            old(self).wf(),
        ensures
            final(self).wf(),
            r == (old(self).chat_rec(chat.creator_chat) is None),
            forall|c: u64| #[trigger]
                final(self).chat_rec(c) == (if c == chat.creator_chat && old(self).chat_rec(
                    chat.creator_chat,
                ) is None {
                    Some(ChatRecord::Submit(*chat))
                } else {
                    old(self).chat_rec(c)
                }),
            r ==> final(self).chats_rows() == old(self).chats_rows().push(
                (chat.creator_chat, ChatRecord::Submit(*chat)),
            ),
            !r ==> final(self).chats_rows() == old(self).chats_rows(),
            final(self).chat_types@ == old(self).chat_types@,
            final(self).apps_rows() == old(self).apps_rows(),
            pools_unchanged(*old(self), *final(self)),
            final(self).config_v() == old(self).config_v(),
    {
        table_insert_new(&mut self.chats, chat.creator_chat, ChatRecord::Submit(*chat))
    }

    /// Rewrites the submission's join record, in place under its
    /// originating chat id, into the given record under review.
    pub fn upgrade_to_review_chat(&mut self, chat: &ReviewChat)
        requires
            old(self).wf(),
        ensures
            final(self).wf(),
            forall|c: u64| #[trigger]
                final(self).chat_rec(c) == (if c == chat.submit_chat {
                    Some(ChatRecord::Review(*chat))
                } else {
                    old(self).chat_rec(c)
                }),
            final(self).chat_types@ == old(self).chat_types@,
            final(self).apps_rows() == old(self).apps_rows(),
            pools_unchanged(*old(self), *final(self)),
            final(self).config_v() == old(self).config_v(),
    {
        table_upsert(&mut self.chats, chat.submit_chat, ChatRecord::Review(*chat));
    }

    /// Adds one contact to the genesis pool.
    pub fn add_contact_to_genesis(&mut self, contact_id: u64)
        requires
            old(self).wf(),
        ensures
            final(self).wf(),
            final(self).genesis_pool() == (if old(self).genesis_pool().contains(contact_id) {
                old(self).genesis_pool()
            } else {
                old(self).genesis_pool().push(contact_id)
            }),
            final(self).publisher_pool() == old(self).publisher_pool(),
            final(self).tester_pool() == old(self).tester_pool(),
            non_pools_unchanged(*old(self), *final(self)),
    {
        pool_add(&mut self.genesis, contact_id);
    }

    /// Adds one contact to the publisher pool.
    pub fn create_publisher(&mut self, contact_id: u64)
        requires
            old(self).wf(),
        ensures
            final(self).wf(),
            final(self).publisher_pool() == (if old(self).publisher_pool().contains(contact_id) {
                old(self).publisher_pool()
            } else {
                old(self).publisher_pool().push(contact_id)
            }),
            final(self).genesis_pool() == old(self).genesis_pool(),
            final(self).tester_pool() == old(self).tester_pool(),
            non_pools_unchanged(*old(self), *final(self)),
    {
        pool_add(&mut self.publishers, contact_id);
    }

    /// Adds one contact to the tester pool.
    pub fn create_tester(&mut self, contact_id: u64)
        requires
            old(self).wf(),
        ensures
            final(self).wf(),
            final(self).tester_pool() == (if old(self).tester_pool().contains(contact_id) {
                old(self).tester_pool()
            } else {
                old(self).tester_pool().push(contact_id)
            }),
            final(self).genesis_pool() == old(self).genesis_pool(),
            final(self).publisher_pool() == old(self).publisher_pool(),
            non_pools_unchanged(*old(self), *final(self)),
    {
        pool_add(&mut self.testers, contact_id);
    }

    /// Replaces the genesis pool with exactly the given contacts,
    /// whatever it held before.
    pub fn set_genesis_contacts(&mut self, contacts: &Vec<u64>)
        requires
            old(self).wf(),
        ensures
            final(self).wf(),
            final(self).genesis_pool() == dedup_spec(contacts@),
            final(self).publisher_pool() == old(self).publisher_pool(),
            final(self).tester_pool() == old(self).tester_pool(),
            non_pools_unchanged(*old(self), *final(self)),
    {
        self.genesis = dedup_contacts(contacts);
        proof {
            lemma_dedup_props(contacts@);
        }
    }

    /// Replaces the publisher pool with exactly the given contacts,
    /// whatever it held before.
    pub fn set_publisher_contacts(&mut self, contacts: &Vec<u64>)
        requires
            old(self).wf(),
        ensures
            final(self).wf(),
            final(self).publisher_pool() == dedup_spec(contacts@),
            final(self).genesis_pool() == old(self).genesis_pool(),
            final(self).tester_pool() == old(self).tester_pool(),
            non_pools_unchanged(*old(self), *final(self)),
    {
        self.publishers = dedup_contacts(contacts);
        proof {
            lemma_dedup_props(contacts@);
        }
    }

    /// Replaces the tester pool with exactly the given contacts, whatever
    /// it held before.
    pub fn set_tester_contacts(&mut self, contacts: &Vec<u64>)
        requires
            old(self).wf(),
        ensures
            final(self).wf(),
            final(self).tester_pool() == dedup_spec(contacts@),
            final(self).genesis_pool() == old(self).genesis_pool(),
            final(self).publisher_pool() == old(self).publisher_pool(),
            non_pools_unchanged(*old(self), *final(self)),
    {
        self.testers = dedup_contacts(contacts);
        proof {
            lemma_dedup_props(contacts@);
        }
    }

    /// The first contact of the publisher pool, when the pool holds one.
    pub fn get_publisher(&self) -> (r: Option<u64>)
        ensures
            r == (if self.publisher_pool().len() == 0 {
                None::<u64>
            } else {
                Some(self.publisher_pool()[0])
            }),
    {
        if self.publishers.len() == 0 {
            None
        } else {
            Some(self.publishers[0])
        }
    }

    /// A publisher drawn from the pool at a point picked by `rand`; `None`
    /// exactly when the pool is empty.
    pub fn get_random_publisher(&self, rand: u64) -> (r: Option<u64>)
        ensures
            r == (if self.publisher_pool().len() == 0 {
                None::<u64>
            } else {
                Some(self.publisher_pool()[(rand as int) % (self.publisher_pool().len() as int)])
            }),
    {
        let n = self.publishers.len();
        if n == 0 {
            None
        } else {
            let idx = (rand % (n as u64)) as usize;
            Some(self.publishers[idx])
        }
    }

    /// The whole tester pool.
    pub fn get_testers(&self) -> (r: Vec<u64>)
        ensures
            r@ == self.tester_pool(),
    {
        let mut r: Vec<u64> = Vec::new();
        let mut i: usize = 0;
        while i < self.testers.len()
            invariant
                i <= self.testers.len(),
                r@ == self.testers@.take(i as int),
            decreases self.testers.len() - i,
        {
            r.push(self.testers[i]);
            i = i + 1;
        }
        proof {
            assert(self.testers@.take(self.testers@.len() as int) =~= self.testers@);
        }
        r
    }

    /// Up to `count` distinct testers drawn from the pool at a point
    /// picked by `rand`; fewer only when the pool itself holds fewer.
    pub fn get_random_testers(&self, count: usize, rand: u64) -> (r: Vec<u64>)
        ensures
            r@ == sample_spec(self.tester_pool(), count as int, rand),
    {
        let n = self.testers.len();
        let c = if count <= n {
            count
        } else {
            n
        };
        if c == 0 {
            let r: Vec<u64> = Vec::new();
            proof {
                let s = sample_spec(self.tester_pool(), count as int, rand);
                assert(s =~= Seq::<u64>::empty());
            }
            return r;
        }
        let start: usize = if n == c {
            0
        } else {
            let window = (n - c + 1) as u64;
            proof {
                assert(1 <= n - c + 1 <= n);
            }
            (rand % window) as usize
        };
        proof {
            assert(start + c <= n);
        }
        let mut r: Vec<u64> = Vec::new();
        let mut i: usize = 0;
        while i < c
            invariant
                i <= c,
                n == self.testers@.len(),
                start + c <= n,
                r@ == self.testers@.subrange(start as int, start as int + i as int),
            decreases c - i,
        {
            r.push(self.testers[start + i]);
            proof {
                assert(self.testers@.subrange(start as int, start as int + i + 1) =~= self.testers@
                    .subrange(start as int, start as int + i as int).push(
                    self.testers@[start + i as int],
                ));
            }
            i = i + 1;
        }
        r
    }

    /// Stores the bootstrap configuration, replacing any earlier one.
    pub fn set_config(&mut self, config: &BotConfig)
        requires
            old(self).wf(),
        ensures
            final(self).wf(),
            final(self).config_v() == Some(*config),
            final(self).chat_types@ == old(self).chat_types@,
            final(self).chats_rows() == old(self).chats_rows(),
            final(self).apps_rows() == old(self).apps_rows(),
            pools_unchanged(*old(self), *final(self)),
    {
        self.config = Some(config.clone());
    }

    /// The stored bootstrap configuration, when one exists.
    pub fn get_config(&self) -> (r: Option<BotConfig>)
        ensures
            r == self.config_v(),
    {
        match &self.config {
            Some(c) => Some(c.clone()),
            None => None,
        }
    }

    /// Stores a fresh app record under `resource_id`; reports whether the
    /// key was indeed new.
    pub fn create_app_info(&mut self, app_info: &AppInfo, resource_id: u64) -> (r: bool)
        requires
            old(self).wf(),
        ensures
            final(self).wf(),
            r == (old(self).app_at(resource_id) is None),
            forall|k: u64| #[trigger]
                final(self).app_at(k) == (if k == resource_id && old(self).app_at(
                    resource_id,
                ) is None {
                    Some(*app_info)
                } else {
                    old(self).app_at(k)
                }),
            r ==> final(self).apps_rows() == old(self).apps_rows().push(
                (resource_id, *app_info),
            ),
            !r ==> final(self).apps_rows() == old(self).apps_rows(),
            final(self).chat_types@ == old(self).chat_types@,
            final(self).chats_rows() == old(self).chats_rows(),
            pools_unchanged(*old(self), *final(self)),
            final(self).config_v() == old(self).config_v(),
    {
        table_insert_new(&mut self.app_infos, resource_id, app_info.clone())
    }

    /// Rewrites the app record under `id` to the given value.
    pub fn update_app_info(&mut self, app_info: &AppInfo, id: u64)
        requires
            old(self).wf(),
        ensures
            final(self).wf(),
            forall|k: u64| #[trigger]
                final(self).app_at(k) == (if k == id {
                    Some(*app_info)
                } else {
                    old(self).app_at(k)
                }),
            final(self).chat_types@ == old(self).chat_types@,
            final(self).chats_rows() == old(self).chats_rows(),
            pools_unchanged(*old(self), *final(self)),
            final(self).config_v() == old(self).config_v(),
    {
        table_upsert(&mut self.app_infos, id, app_info.clone());
    }

    /// Marks the app record under `id` published; a one-way step, never
    /// undone by any operation of this store.  Reports whether the record
    /// exists.
    pub fn publish_app(&mut self, id: u64) -> (r: bool)
        requires
            old(self).wf(),
        ensures
            final(self).wf(),
            r == (old(self).app_at(id) is Some),
            forall|k: u64| #[trigger]
                final(self).app_at(k) == (if k == id && old(self).app_at(id) is Some {
                    Some(AppInfo { active: true, ..old(self).app_at(id).unwrap() })
                } else {
                    old(self).app_at(k)
                }),
            final(self).chat_types@ == old(self).chat_types@,
            final(self).chats_rows() == old(self).chats_rows(),
            pools_unchanged(*old(self), *final(self)),
            final(self).config_v() == old(self).config_v(),
    {
        let found = table_find(&self.app_infos, id);
        match found {
            Some(i) => {
                let mut a = self.app_infos[i].1.clone();
                a.active = true;
                let ghost pre = self.app_infos@;
                proof {
                    assert forall|j: int| 0 <= j < i implies (#[trigger] pre[j]).0
                        != pre[i as int].0 by {
                        assert(assoc_keys(pre)[j] == pre[j].0);
                        assert(assoc_keys(pre)[i as int] == pre[i as int].0);
                    }
                }
                self.app_infos.set(i, (id, a));
                proof {
                    assert forall|k: u64| #[trigger]
                        assoc_get(self.app_infos@, k) == (if k == id {
                            Some(AppInfo { active: true, ..assoc_get(pre, id).unwrap() })
                        } else {
                            assoc_get(pre, k)
                        }) by {
                        lemma_assoc_get_update(pre, i as int, a, k);
                    }
                    assert(assoc_keys(self.app_infos@) =~= assoc_keys(pre));
                }
                true
            },
            None => false,
        }
    }

    /// The app record stored under `resource_id`, when one exists.
    pub fn get_app_info(&self, resource_id: u64) -> (r: Option<AppInfo>)
        ensures
            r == self.app_at(resource_id),
    {
        match table_find(&self.app_infos, resource_id) {
            Some(i) => Some(self.app_infos[i].1.clone()),
            None => None,
        }
    }

    /// All published app records, in storage order.
    pub fn get_active_app_infos(&self) -> (r: Vec<AppInfo>)
        ensures
            r@ == active_apps(self.apps_rows()),
    {
        let mut r: Vec<AppInfo> = Vec::new();
        let mut i: usize = 0;
        while i < self.app_infos.len()
            invariant
                i <= self.app_infos.len(),
                r@ == active_apps(self.app_infos@.take(i as int)),
            decreases self.app_infos.len() - i,
        {
            proof {
                assert(self.app_infos@.take(i + 1).drop_last() =~= self.app_infos@.take(i as int));
                assert(self.app_infos@.take(i + 1).last() == self.app_infos@[i as int]);
            }
            if self.app_infos[i].1.active {
                r.push(self.app_infos[i].1.clone());
            }
            i = i + 1;
        }
        proof {
            assert(self.app_infos@.take(self.app_infos@.len() as int) =~= self.app_infos@);
        }
        r
    }
}

/// The published records among `rows`, in storage order.
pub open spec fn active_apps(rows: Seq<(u64, AppInfo)>) -> Seq<AppInfo>
    decreases rows.len(),
{
    if rows.len() == 0 {
        Seq::empty()
    } else if rows.last().1.active {
        active_apps(rows.drop_last()).push(rows.last().1)
    } else {
        active_apps(rows.drop_last())
    }
}

/// Replacing a pool then reading it back yields exactly the given set of
/// contacts, whatever the pool held before: the replace operations leave
/// the pool equal to `dedup_spec(contacts)`, a value of the given
/// contacts alone, and the pool reads return the pool as it stands.
pub proof fn lemma_pool_replace_read(contacts: Seq<u64>)
    ensures
        dedup_spec(contacts).no_duplicates(),
        forall|x: u64| dedup_spec(contacts).contains(x) <==> contacts.contains(x),
{
    lemma_dedup_props(contacts);
}

/// Reloading a key just stored yields exactly the stored value, whatever
/// the store held before: the record round-trips field for field.
pub proof fn lemma_app_info_round_trip(rows: Seq<(u64, AppInfo)>, k: u64, v: AppInfo)
    requires
        assoc_keys(rows).no_duplicates(),
    ensures
        assoc_get(upsert_rows(rows, k, v), k) == Some(v),
{
    if assoc_get(rows, k) is None {
        assert forall|j: int| 0 <= j < rows.len() implies (#[trigger] rows[j]).0 != k by {
            if rows[j].0 == k {
                lemma_assoc_get_at_first(rows, k);
            }
        }
        lemma_assoc_get_push(rows, k, v, k);
    } else {
        assert(exists|j: int| 0 <= j < rows.len() && (#[trigger] rows[j]).0 == k) by {
            if forall|j: int| 0 <= j < rows.len() ==> (#[trigger] rows[j]).0 != k {
                lemma_assoc_get_none(rows, k);
            }
        }
        lemma_assoc_get_at_first(rows, k);
        let i = first_key_index(rows, k);
        assert forall|j: int| 0 <= j < i implies (#[trigger] rows[j]).0 != rows[i].0 by {
            assert(assoc_keys(rows)[j] == rows[j].0);
            assert(assoc_keys(rows)[i] == rows[i].0);
        }
        lemma_assoc_get_update(rows, i, v, k);
    }
}

/// Helper for stating the round trip: the rows after binding `k` to `v`.
pub open spec fn upsert_rows(rows: Seq<(u64, AppInfo)>, k: u64, v: AppInfo) -> Seq<
    (u64, AppInfo),
> {
    if assoc_get(rows, k) is None {
        rows.push((k, v))
    } else {
        rows.update(first_key_index(rows, k), (k, v))
    }
}

/// The index of the first row carrying `k`.
pub open spec fn first_key_index<V>(rows: Seq<(u64, V)>, k: u64) -> int
    decreases rows.len(),
{
    if rows.len() == 0 {
        0
    } else if rows[0].0 == k {
        0
    } else {
        1 + first_key_index(rows.drop_first(), k)
    }
}

/// When some row carries `k`, the first such row binds it.
pub proof fn lemma_assoc_get_at_first<V>(rows: Seq<(u64, V)>, k: u64)
    requires
        exists|j: int| 0 <= j < rows.len() && (#[trigger] rows[j]).0 == k,
    ensures
        0 <= first_key_index(rows, k) < rows.len(),
        rows[first_key_index(rows, k)].0 == k,
        assoc_get(rows, k) == Some(rows[first_key_index(rows, k)].1),
    decreases rows.len(),
{
    if rows[0].0 != k {
        let j = choose|j: int| 0 <= j < rows.len() && (#[trigger] rows[j]).0 == k;
        assert(rows.drop_first()[j - 1].0 == k);
        lemma_assoc_get_at_first(rows.drop_first(), k);
    }
}

} // verus!
