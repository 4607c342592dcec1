//! Client sessions and the subscriptions of all clients.

use vstd::prelude::*;
use crate::protocol::qos::QoS;
use crate::string_map::{
    StringMap, keys_unique, has_key, key_index, lookup, insert_entry, remove_entry, map_entries,
    lemma_map_entries_insert, lemma_map_entries_remove, lemma_map_entries_lookup,
    lemma_map_entries_keys, lemma_swap_then_insert, lemma_insert_unique, lemma_remove_unique,
};
use crate::text::str_eq;
use crate::types::message::{Message, MessageView};
use crate::types::properties::opt_chars;

verus! {

/// Abstract value of a `Subscription`.
pub struct SubscriptionView {
    pub client_id: Seq<char>,
    pub topic_filter: Seq<char>,
    pub qos: QoS,
}

/// One client's subscription to a topic filter.
#[derive(Debug)]
pub struct Subscription {
    pub client_id: String,
    pub topic_filter: String,
    pub qos: QoS,
}

impl View for Subscription {
    type V = SubscriptionView;

    open spec fn view(&self) -> SubscriptionView {
        SubscriptionView { client_id: self.client_id@, topic_filter: self.topic_filter@, qos: self.qos }
    }
}

impl Clone for Subscription {
    /// A copy with the same client, filter and QoS.
    fn clone(&self) -> (r: Self)
        ensures
            r@ == self@,
    {
        Subscription { client_id: self.client_id.clone(), topic_filter: self.topic_filter.clone(), qos: self.qos }
    }
}

impl Subscription {
    /// The subscription of `client_id` to `topic_filter` at `qos`.
    pub fn new(client_id: String, topic_filter: String, qos: QoS) -> (r: Self)
        ensures
            r@ == (SubscriptionView { client_id: client_id@, topic_filter: topic_filter@, qos }),
    {
        Subscription { client_id, topic_filter, qos }
    }
}

/// The views of a list of subscriptions.
pub open spec fn subscription_views(v: Seq<Subscription>) -> Seq<SubscriptionView> {
    v.map_values(|s: Subscription| s@)
}

/// The views of a list of messages.
pub open spec fn message_views(v: Seq<Message>) -> Seq<MessageView> {
    v.map_values(|m: Message| m@)
}

/// A copy of a list of subscriptions.
pub(crate) fn clone_subscriptions(v: &Vec<Subscription>) -> (r: Vec<Subscription>)
    ensures
        subscription_views(r@) == subscription_views(v@),
{
    let mut out: Vec<Subscription> = Vec::new();
    let mut i: usize = 0;
    while i < v.len()
        invariant
            i <= v@.len(),
            subscription_views(out@) == subscription_views(v@.take(i as int)),
        decreases v@.len() - i,
    {
        let c = v[i].clone();
        proof {
            assert(c@ == v@[i as int]@);
            assert(subscription_views(out@.push(c)) =~= subscription_views(out@).push(c@));
            assert(v@.take(i + 1) =~= v@.take(i as int).push(v@[i as int]));
            assert(subscription_views(v@.take(i as int).push(v@[i as int])) =~= subscription_views(v@.take(i as int)).push(v@[i as int]@));
        }
        out.push(c);
        i = i + 1;
    }
    assert(v@.take(v@.len() as int) =~= v@);
    out
}

/// A copy of a list of messages.
pub(crate) fn clone_messages(v: &Vec<Message>) -> (r: Vec<Message>)
    ensures
        message_views(r@) == message_views(v@),
{
    let mut out: Vec<Message> = Vec::new();
    let mut i: usize = 0;
    while i < v.len()
        invariant
            i <= v@.len(),
            message_views(out@) == message_views(v@.take(i as int)),
        decreases v@.len() - i,
    {
        let c = v[i].clone();
        proof {
            assert(c@ == v@[i as int]@);
            assert(message_views(out@.push(c)) =~= message_views(out@).push(c@));
            assert(v@.take(i + 1) =~= v@.take(i as int).push(v@[i as int]));
            assert(message_views(v@.take(i as int).push(v@[i as int])) =~= message_views(v@.take(i as int)).push(v@[i as int]@));
        }
        out.push(c);
        i = i + 1;
    }
    assert(v@.take(v@.len() as int) =~= v@);
    out
}

/// A copy of an optional string.
fn clone_opt_string(o: &Option<String>) -> (r: Option<String>)
    ensures
        opt_chars(r) == opt_chars(*o),
{
    match o {
        Some(s) => Some(s.clone()),
        None => None,
    }
}

/// Abstract value of a `Session`.
pub struct SessionView {
    pub client_id: Seq<char>,
    pub username: Option<Seq<char>>,
    pub clean_session: bool,
    pub subscriptions: Seq<(Seq<char>, QoS)>,
    pub pending_messages: Seq<MessageView>,
}

/// A client's session: who it is, whether it asked for a clean session,
/// its subscriptions and the messages waiting for it.
#[derive(Debug)]
pub struct Session {
    pub client_id: String,
    pub username: Option<String>,
    pub clean_session: bool,
    pub subscriptions: StringMap<QoS>,
    pub pending_messages: Vec<Message>,
}

impl View for Session {
    type V = SessionView;

    open spec fn view(&self) -> SessionView {
        SessionView {
            client_id: self.client_id@,
            username: opt_chars(self.username),
            clean_session: self.clean_session,
            subscriptions: self.subscriptions.view(),
            pending_messages: message_views(self.pending_messages@),
        }
    }
}

impl Clone for Session {
    /// A copy with the same identity, subscriptions and pending messages.
    fn clone(&self) -> (r: Self)
        ensures
            r@ == self@,
    {
        let subscriptions = self.subscriptions.clone();
        assert(subscriptions.view() =~= self.subscriptions.view());
        Session {
            client_id: self.client_id.clone(),
            username: clone_opt_string(&self.username),
            clean_session: self.clean_session,
            subscriptions,
            pending_messages: clone_messages(&self.pending_messages),
        }
    }
}

impl Session {
    /// A fresh session without subscriptions or pending messages.
    pub fn new(client_id: String, username: Option<String>, clean_session: bool) -> (r: Self)
        ensures
            r@ == (SessionView {
                client_id: client_id@,
                username: opt_chars(username),
                clean_session,
                subscriptions: Seq::empty(),
                pending_messages: Seq::empty(),
            }),
    {
        let r = Session {
            client_id,
            username,
            clean_session,
            subscriptions: StringMap::new(),
            pending_messages: Vec::new(),
        };
        assert(r@.pending_messages =~= Seq::<MessageView>::empty());
        r
    }
}


/// The sessions of a map, each as its view.
pub open spec fn session_views(m: Seq<(Seq<char>, Session)>) -> Seq<(Seq<char>, SessionView)> {
    map_entries(m, |x: Session| x@)
}

/// The subscription lists of a map, each as its views.
pub open spec fn subscription_lists(m: Seq<(Seq<char>, Vec<Subscription>)>) -> Seq<(Seq<char>, Seq<SubscriptionView>)> {
    map_entries(m, |v: Vec<Subscription>| subscription_views(v@))
}

/// The subscriptions to `topic_filter` (none when there is no entry).
pub open spec fn subscribers(subs: Seq<(Seq<char>, Seq<SubscriptionView>)>, topic_filter: Seq<char>) -> Seq<SubscriptionView> {
    match lookup(subs, topic_filter) {
        Some(l) => l,
        None => Seq::empty(),
    }
}

/// The subscriptions after `client_id` subscribes to `topic_filter` at
/// `qos`: the subscription joins the end of that filter's list.
pub open spec fn subs_after_add(
    subs: Seq<(Seq<char>, Seq<SubscriptionView>)>,
    client_id: Seq<char>,
    topic_filter: Seq<char>,
    qos: QoS,
) -> Seq<(Seq<char>, Seq<SubscriptionView>)> {
    insert_entry(
        subs,
        topic_filter,
        subscribers(subs, topic_filter).push(SubscriptionView { client_id, topic_filter, qos }),
    )
}

/// The subscriptions after `client_id` unsubscribes from `topic_filter`:
/// that client's entries leave the filter's list, and a list left empty is
/// dropped.
pub open spec fn subs_after_remove(
    subs: Seq<(Seq<char>, Seq<SubscriptionView>)>,
    client_id: Seq<char>,
    topic_filter: Seq<char>,
) -> Seq<(Seq<char>, Seq<SubscriptionView>)> {
    if has_key(subs, topic_filter) {
        let kept = subscribers(subs, topic_filter).filter(|x: SubscriptionView| x.client_id != client_id);
        if kept.len() == 0 {
            remove_entry(subs, topic_filter)
        } else {
            insert_entry(subs, topic_filter, kept)
        }
    } else {
        subs
    }
}

/// The sessions after the session of `client_id`, if any, records a
/// subscription.
pub open spec fn sessions_after_add(
    sessions: Seq<(Seq<char>, SessionView)>,
    client_id: Seq<char>,
    topic_filter: Seq<char>,
    qos: QoS,
) -> Seq<(Seq<char>, SessionView)> {
    match lookup(sessions, client_id) {
        Some(x) => insert_entry(
            sessions,
            client_id,
            SessionView { subscriptions: insert_entry(x.subscriptions, topic_filter, qos), ..x },
        ),
        None => sessions,
    }
}

/// The sessions after the session of `client_id`, if any, drops a
/// subscription.
pub open spec fn sessions_after_remove(
    sessions: Seq<(Seq<char>, SessionView)>,
    client_id: Seq<char>,
    topic_filter: Seq<char>,
) -> Seq<(Seq<char>, SessionView)> {
    match lookup(sessions, client_id) {
        Some(x) => insert_entry(
            sessions,
            client_id,
            SessionView { subscriptions: remove_entry(x.subscriptions, topic_filter), ..x },
        ),
        None => sessions,
    }
}

/// All sessions and all subscriptions of a broker.
pub struct SessionManager {
    sessions: StringMap<Session>,
    subscriptions: StringMap<Vec<Subscription>>,
}

impl SessionManager {
    /// The sessions, by client ID.
    pub closed spec fn sessions_view(&self) -> Seq<(Seq<char>, SessionView)> {
        session_views(self.sessions.view())
    }

    /// The subscription lists, by topic filter.
    pub closed spec fn subscriptions_view(&self) -> Seq<(Seq<char>, Seq<SubscriptionView>)> {
        subscription_lists(self.subscriptions.view())
    }

    /// No session and no subscription.
    pub fn new() -> (r: Self)
        ensures
            r.sessions_view() == Seq::<(Seq<char>, SessionView)>::empty(),
            r.subscriptions_view() == Seq::<(Seq<char>, Seq<SubscriptionView>)>::empty(),
    {
        let r = SessionManager { sessions: StringMap::new(), subscriptions: StringMap::new() };
        assert(r.sessions_view() =~= Seq::<(Seq<char>, SessionView)>::empty());
        assert(r.subscriptions_view() =~= Seq::<(Seq<char>, Seq<SubscriptionView>)>::empty());
        r
    }

    /// Every client has one session at most and every topic filter one
    /// subscription list at most.
    pub fn check_wf(&self)
        ensures
            keys_unique(self.sessions_view()),
            keys_unique(self.subscriptions_view()),
    {
        self.sessions.check_unique();
        self.subscriptions.check_unique();
        proof {
            lemma_map_entries_keys(self.sessions.view(), |x: Session| x@, Seq::empty());
            lemma_map_entries_keys(
                self.subscriptions.view(),
                |v: Vec<Subscription>| subscription_views(v@),
                Seq::empty(),
            );
        }
    }

    /// Starts a fresh session for `client_id`, replacing any session it had.
    pub fn create_session(&mut self, client_id: String, username: Option<String>, clean_session: bool)
        ensures
            final(self).sessions_view() == insert_entry(
                old(self).sessions_view(),
                client_id@,
                SessionView {
                    client_id: client_id@,
                    username: opt_chars(username),
                    clean_session,
                    subscriptions: Seq::empty(),
                    pending_messages: Seq::empty(),
                },
            ),
            final(self).subscriptions_view() == old(self).subscriptions_view(),
    {
        self.sessions.check_unique();
        let session = Session::new(client_id.clone(), username, clean_session);
        proof {
            lemma_map_entries_insert(self.sessions.view(), |x: Session| x@, client_id@, session);
        }
        self.sessions.insert(client_id, session);
    }

    /// A copy of the session of `client_id`, if there is one.
    pub fn get_session(&self, client_id: &str) -> (r: Option<Session>)
        ensures
            r matches Some(x) ==> lookup(self.sessions_view(), client_id@) == Some(x@),
            r is None ==> lookup(self.sessions_view(), client_id@) is None,
    {
        self.sessions.check_unique();
        proof {
            lemma_map_entries_lookup(self.sessions.view(), |x: Session| x@, client_id@);
        }
        match self.sessions.get(client_id) {
            Some(x) => Some(x.clone()),
            None => None,
        }
    }

    /// Drops the session of `client_id`.
    pub fn remove_session(&mut self, client_id: &str)
        ensures
            final(self).sessions_view() == remove_entry(old(self).sessions_view(), client_id@),
            final(self).subscriptions_view() == old(self).subscriptions_view(),
    {
        self.sessions.check_unique();
        proof {
            lemma_map_entries_remove(self.sessions.view(), |x: Session| x@, client_id@);
        }
        let _ = self.sessions.remove(client_id);
    }

    /// Records that `client_id` subscribes to `topic_filter` at `qos`: the
    /// subscription joins the filter's list (a client subscribing twice is
    /// listed twice), and the client's session, if any, records the filter.
    pub fn add_subscription(&mut self, client_id: String, topic_filter: String, qos: QoS)
        ensures
            final(self).subscriptions_view() == subs_after_add(
                old(self).subscriptions_view(),
                client_id@,
                topic_filter@,
                qos,
            ),
            final(self).sessions_view() == sessions_after_add(
                old(self).sessions_view(),
                client_id@,
                topic_filter@,
                qos,
            ),
    {
        let sub = Subscription::new(client_id.clone(), topic_filter.clone(), qos);
        self.subscriptions.check_unique();
        let ghost subs0 = self.subscriptions.view();
        let ghost f = |v: Vec<Subscription>| subscription_views(v@);
        proof {
            lemma_map_entries_lookup(subs0, f, topic_filter@);
        }
        let empty: Vec<Subscription> = Vec::new();
        let ghost ph = empty;
        let mut list = match self.subscriptions.swap_value(topic_filter.as_str(), empty) {
            Some(l) => l,
            None => Vec::new(),
        };
        proof {
            assert(subscription_views(list@) == subscribers(subscription_lists(subs0), topic_filter@)) by {
                if !has_key(subs0, topic_filter@) {
                    assert(subscription_views(list@) =~= Seq::<SubscriptionView>::empty());
                }
            }
        }
        let ghost before_push = list@;
        list.push(sub);
        proof {
            assert(subscription_views(list@) =~= subscription_views(before_push).push(sub@));
            if has_key(subs0, topic_filter@) {
                lemma_swap_then_insert(subs0, topic_filter@, ph, list);
            }
            lemma_map_entries_insert(subs0, f, topic_filter@, list);
        }
        self.subscriptions.insert(topic_filter.clone(), list);
        self.sessions.check_unique();
        let ghost sess0 = self.sessions.view();
        let ghost g = |x: Session| x@;
        proof {
            lemma_map_entries_lookup(sess0, g, client_id@);
        }
        let placeholder = Session::new(String::new(), None, false);
        match self.sessions.swap_value(client_id.as_str(), placeholder) {
            Some(mut session) => {
                session.subscriptions.insert(topic_filter, qos);
                proof {
                    lemma_swap_then_insert(sess0, client_id@, placeholder, session);
                    lemma_map_entries_insert(sess0, g, client_id@, session);
                }
                self.sessions.insert(client_id, session);
            },
            None => {},
        }
    }

    /// Records that `client_id` unsubscribes from `topic_filter`: its
    /// entries leave the filter's list (dropped when left empty), and its
    /// session, if any, forgets the filter.
    pub fn remove_subscription(&mut self, client_id: &str, topic_filter: &str)
        ensures
            final(self).subscriptions_view() == subs_after_remove(
                old(self).subscriptions_view(),
                client_id@,
                topic_filter@,
            ),
            final(self).sessions_view() == sessions_after_remove(
                old(self).sessions_view(),
                client_id@,
                topic_filter@,
            ),
    {
        self.subscriptions.check_unique();
        let ghost subs0 = self.subscriptions.view();
        let ghost f = |v: Vec<Subscription>| subscription_views(v@);
        proof {
            lemma_map_entries_lookup(subs0, f, topic_filter@);
            lemma_map_entries_keys(subs0, f, topic_filter@);
        }
        let empty: Vec<Subscription> = Vec::new();
        let ghost ph = empty;
        match self.subscriptions.swap_value(topic_filter, empty) {
            Some(list) => {
                let kept = keep_others(&list, client_id);
                proof {
                    lemma_swap_then_insert(subs0, topic_filter@, ph, kept);
                    lemma_map_entries_insert(subs0, f, topic_filter@, kept);
                }
                if kept.len() == 0 {
                    proof {
                        let s1 = subs0.update(key_index(subs0, topic_filter@), (topic_filter@, ph));
                        assert(remove_entry(s1, topic_filter@) =~= remove_entry(subs0, topic_filter@)) by {
                            crate::string_map::lemma_key_index_unique(subs0, key_index(subs0, topic_filter@));
                            assert(keys_unique(s1)) by {
                                assert forall|x: int, y: int| 0 <= x < y < s1.len() implies s1[x].0 != s1[y].0 by {
                                    assert(s1[x].0 == subs0[x].0);
                                    assert(s1[y].0 == subs0[y].0);
                                }
                            }
                            crate::string_map::lemma_key_index_unique(s1, key_index(subs0, topic_filter@));
                        }
                        lemma_map_entries_remove(subs0, f, topic_filter@);
                    }
                    let _ = self.subscriptions.remove(topic_filter);
                } else {
                    self.subscriptions.insert(topic_filter.to_owned(), kept);
                }
            },
            None => {},
        }
        self.sessions.check_unique();
        let ghost sess0 = self.sessions.view();
        let ghost g = |x: Session| x@;
        proof {
            lemma_map_entries_lookup(sess0, g, client_id@);
        }
        let placeholder = Session::new(String::new(), None, false);
        match self.sessions.swap_value(client_id, placeholder) {
            Some(mut session) => {
                let _ = session.subscriptions.remove(topic_filter);
                proof {
                    lemma_swap_then_insert(sess0, client_id@, placeholder, session);
                    lemma_map_entries_insert(sess0, g, client_id@, session);
                }
                self.sessions.insert(client_id.to_owned(), session);
            },
            None => {},
        }
    }

    /// Copies of the subscriptions to exactly `topic_filter`.
    pub fn get_subscriptions(&self, topic_filter: &str) -> (r: Vec<Subscription>)
        ensures
            subscription_views(r@) == subscribers(self.subscriptions_view(), topic_filter@),
    {
        self.subscriptions.check_unique();
        proof {
            lemma_map_entries_lookup(self.subscriptions.view(), |v: Vec<Subscription>| subscription_views(v@), topic_filter@);
        }
        match self.subscriptions.get(topic_filter) {
            Some(list) => clone_subscriptions(list),
            None => {
                let r: Vec<Subscription> = Vec::new();
                assert(subscription_views(r@) =~= Seq::<SubscriptionView>::empty());
                r
            },
        }
    }

    /// A copy of every subscription list, by topic filter.
    pub fn get_all_subscriptions(&self) -> (r: StringMap<Vec<Subscription>>)
        ensures
            subscription_lists(r.view()) == self.subscriptions_view(),
    {
        let n = self.subscriptions.len();
        let mut out: StringMap<Vec<Subscription>> = StringMap::new();
        let mut i: usize = 0;
        self.subscriptions.check_unique();
        while i < n
            invariant
                n == self.subscriptions.view().len(),
                i <= n,
                keys_unique(self.subscriptions.view()),
                subscription_lists(out.view()) == subscription_lists(self.subscriptions.view().take(i as int)),
                out.view().len() == i,
                forall|j: int| 0 <= j < i ==> #[trigger] out.view()[j].0 == self.subscriptions.view()[j].0,
            decreases n - i,
        {
            let (k, v) = self.subscriptions.entry_at(i);
            let copy = clone_subscriptions(v);
            let ghost before = out.view();
            proof {
                assert(!has_key(before, k@)) by {
                    if has_key(before, k@) {
                        let j = crate::string_map::key_index(before, k@);
                        assert(self.subscriptions.view()[j].0 == k@);
                    }
                }
            }
            out.insert(k.clone(), copy);
            proof {
                assert(out.view() == before.push((k@, copy)));
                let sv = self.subscriptions.view();
                assert(sv.take(i + 1) =~= sv.take(i as int).push(sv[i as int]));
                assert(subscription_lists(before.push((k@, copy))) =~= subscription_lists(before).push(
                    (k@, subscription_views(copy@)),
                ));
                assert(subscription_lists(sv.take(i as int).push(sv[i as int])) =~= subscription_lists(
                    sv.take(i as int),
                ).push((sv[i as int].0, subscription_views(sv[i as int].1@))));
                assert(subscription_lists(out.view()) =~= subscription_lists(sv.take(i + 1)));
            }
            i = i + 1;
        }
        assert(self.subscriptions.view().take(n as int) =~= self.subscriptions.view());
        out
    }
}

/// The subscriptions of a list that are not `client_id`'s, in order.
fn keep_others(list: &Vec<Subscription>, client_id: &str) -> (r: Vec<Subscription>)
    ensures
        subscription_views(r@) == subscription_views(list@).filter(|x: SubscriptionView| x.client_id != client_id@),
{
    let ghost p = |x: SubscriptionView| x.client_id != client_id@;
    let mut out: Vec<Subscription> = Vec::new();
    let mut i: usize = 0;
    proof {
        reveal(Seq::filter);
        assert(subscription_views(list@.take(0)) =~= Seq::<SubscriptionView>::empty());
        assert(subscription_views(out@) =~= Seq::<SubscriptionView>::empty());
    }
    while i < list.len()
        invariant
            i <= list@.len(),
            p == (|x: SubscriptionView| x.client_id != client_id@),
            subscription_views(out@) == subscription_views(list@.take(i as int)).filter(p),
        decreases list@.len() - i,
    {
        let ghost before = out@;
        let ghost w = subscription_views(list@.take(i + 1));
        proof {
            reveal(Seq::filter);
            assert(list@.take(i + 1) =~= list@.take(i as int).push(list@[i as int]));
            assert(w =~= subscription_views(list@.take(i as int)).push(list@[i as int]@));
            assert(w.drop_last() =~= subscription_views(list@.take(i as int)));
        }
        if !str_eq(list[i].client_id.as_str(), client_id) {
            let c = list[i].clone();
            out.push(c);
            proof {
                assert(subscription_views(out@) =~= subscription_views(before).push(c@));
            }
        }
        i = i + 1;
    }
    assert(list@.take(list@.len() as int) =~= list@);
    out
}


/// Subscribing adds the subscription at the end of the filter's list and
/// leaves every other filter's list as it was.
pub proof fn lemma_subscribe_appends(
    subs: Seq<(Seq<char>, Seq<SubscriptionView>)>,
    client_id: Seq<char>,
    topic_filter: Seq<char>,
    qos: QoS,
    other: Seq<char>,
)
    requires
        keys_unique(subs),
    ensures
        subscribers(subs_after_add(subs, client_id, topic_filter, qos), topic_filter) == subscribers(
            subs,
            topic_filter,
        ).push(SubscriptionView { client_id, topic_filter, qos }),
        other != topic_filter ==> subscribers(subs_after_add(subs, client_id, topic_filter, qos), other)
            == subscribers(subs, other),
{
    let l = subscribers(subs, topic_filter).push(SubscriptionView { client_id, topic_filter, qos });
    lemma_insert_unique(subs, topic_filter, l);
    lemma_lookup_insert_other(subs, topic_filter, l, other);
}

/// Looking up another key is not affected by an insertion.
pub proof fn lemma_lookup_insert_other<V>(s: Seq<(Seq<char>, V)>, k: Seq<char>, v: V, other: Seq<char>)
    requires
        keys_unique(s),
    ensures
        other != k ==> lookup(insert_entry(s, k, v), other) == lookup(s, other),
{
    if other != k {
        let r = insert_entry(s, k, v);
        lemma_insert_unique(s, k, v);
        if has_key(s, other) {
            let i = key_index(s, other);
            crate::string_map::lemma_key_index_unique(s, i);
            assert(r[i] == s[i]);
            crate::string_map::lemma_key_index_unique(r, i);
        } else if has_key(r, other) {
            let j = key_index(r, other);
            assert(s[j].0 == other);
        }
    }
}

/// A session created for a client is the one then found for it; other
/// clients' sessions stay as they were; a removed session is no longer
/// found.
pub proof fn lemma_created_session_found(
    sessions: Seq<(Seq<char>, SessionView)>,
    client_id: Seq<char>,
    session: SessionView,
    other: Seq<char>,
)
    requires
        keys_unique(sessions),
    ensures
        lookup(insert_entry(sessions, client_id, session), client_id) == Some(session),
        other != client_id ==> lookup(insert_entry(sessions, client_id, session), other) == lookup(sessions, other),
        lookup(remove_entry(sessions, client_id), client_id) is None,
{
    crate::string_map::lemma_insert_unique(sessions, client_id, session);
    lemma_lookup_insert_other(sessions, client_id, session, other);
    crate::string_map::lemma_remove_unique(sessions, client_id);
}

/// Unsubscribing takes every subscription of that client off the filter's
/// list and keeps the other clients' subscriptions, in order.
pub proof fn lemma_unsubscribe_removes(
    subs: Seq<(Seq<char>, Seq<SubscriptionView>)>,
    client_id: Seq<char>,
    topic_filter: Seq<char>,
)
    requires
        keys_unique(subs),
    ensures
        subscribers(subs_after_remove(subs, client_id, topic_filter), topic_filter) == subscribers(
            subs,
            topic_filter,
        ).filter(|x: SubscriptionView| x.client_id != client_id),
        forall|i: int|
            0 <= i < subscribers(subs_after_remove(subs, client_id, topic_filter), topic_filter).len()
                ==> (#[trigger] subscribers(subs_after_remove(subs, client_id, topic_filter), topic_filter)[i]).client_id
                != client_id,
{
    let p = |x: SubscriptionView| x.client_id != client_id;
    let kept = subscribers(subs, topic_filter).filter(p);
    if has_key(subs, topic_filter) {
        if kept.len() == 0 {
            lemma_remove_unique(subs, topic_filter);
        } else {
            lemma_insert_unique(subs, topic_filter, kept);
        }
    } else {
        reveal(Seq::filter);
        assert(kept =~= Seq::<SubscriptionView>::empty());
    }
    let after = subscribers(subs_after_remove(subs, client_id, topic_filter), topic_filter);
    assert forall|i: int| 0 <= i < after.len() implies (#[trigger] after[i]).client_id != client_id by {
        subscribers(subs, topic_filter).lemma_filter_pred(p, i);
    }
}

/// A client that had no subscription to a filter and subscribes and then
/// unsubscribes leaves that filter's subscribers as they were.
pub proof fn lemma_subscribe_then_unsubscribe(
    subs: Seq<(Seq<char>, Seq<SubscriptionView>)>,
    client_id: Seq<char>,
    topic_filter: Seq<char>,
    qos: QoS,
)
    requires
        keys_unique(subs),
        forall|i: int| 0 <= i < subscribers(subs, topic_filter).len()
            ==> (#[trigger] subscribers(subs, topic_filter)[i]).client_id != client_id,
    ensures
        subscribers(
            subs_after_remove(subs_after_add(subs, client_id, topic_filter, qos), client_id, topic_filter),
            topic_filter,
        ) == subscribers(subs, topic_filter),
{
    let l0 = subscribers(subs, topic_filter);
    let x = SubscriptionView { client_id, topic_filter, qos };
    let p = |y: SubscriptionView| y.client_id != client_id;
    lemma_subscribe_appends(subs, client_id, topic_filter, qos, topic_filter);
    lemma_insert_unique(subs, topic_filter, l0.push(x));
    let added = subs_after_add(subs, client_id, topic_filter, qos);
    lemma_unsubscribe_removes(added, client_id, topic_filter);
    assert(l0.push(x).filter(p) == l0) by {
        reveal(Seq::filter);
        assert(l0.push(x).drop_last() =~= l0);
        lemma_filter_all(l0, p);
    }
}

/// Filtering keeps a sequence whose items all pass.
pub proof fn lemma_filter_all<A>(s: Seq<A>, p: spec_fn(A) -> bool)
    requires
        forall|i: int| 0 <= i < s.len() ==> p(#[trigger] s[i]),
    ensures
        s.filter(p) == s,
    decreases s.len(),
{
    reveal(Seq::filter);
    if s.len() > 0 {
        lemma_filter_all(s.drop_last(), p);
        assert(s.drop_last().push(s.last()) =~= s);
    }
}

} // verus!
