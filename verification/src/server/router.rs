//! Retained messages and the topics they are found under.

use vstd::prelude::*;
use crate::string_map::{
    StringMap, keys_unique, has_key, lookup, insert_entry, remove_entry, map_entries,
    lemma_map_entries_insert, lemma_map_entries_remove, lemma_map_entries_lookup,
    lemma_insert_unique, lemma_remove_unique,
};
use crate::types::message::{Message, MessageView};
use super::topic::{topic_matches, topic_matches_spec, lemma_topic_matches_itself};

verus! {

/// The retained messages of a map, each as its view.
pub open spec fn retained_views(m: Seq<(Seq<char>, Message)>) -> Seq<(Seq<char>, MessageView)> {
    map_entries(m, |x: Message| x@)
}

/// The retained entries whose topic `filter` matches, in entry order.
pub open spec fn matching_entries(
    retained: Seq<(Seq<char>, MessageView)>,
    filter: Seq<char>,
) -> Seq<(Seq<char>, MessageView)> {
    retained.filter(|e: (Seq<char>, MessageView)| topic_matches_spec(filter, e.0))
}

/// The retained messages for each filter in turn: for every filter, the
/// messages of the topics it matches, in entry order.
pub open spec fn retained_for_filters(
    retained: Seq<(Seq<char>, MessageView)>,
    filters: Seq<Seq<char>>,
) -> Seq<MessageView>
    decreases filters.len(),
{
    if filters.len() == 0 {
        Seq::empty()
    } else {
        retained_for_filters(retained, filters.drop_last()) + matching_entries(
            retained,
            filters.last(),
        ).map_values(|e: (Seq<char>, MessageView)| e.1)
    }
}

/// The retained messages of a broker, by topic.
pub struct MessageRouter {
    retained_messages: StringMap<Message>,
}

impl MessageRouter {
    /// The retained messages, by topic.
    pub closed spec fn retained_view(&self) -> Seq<(Seq<char>, MessageView)> {
        retained_views(self.retained_messages.view())
    }

    /// Whether every topic occurs once (always true).
    pub open spec fn wf(&self) -> bool {
        keys_unique(self.retained_view())
    }

    /// No retained message.
    pub fn new() -> (r: Self)
        ensures
            r.retained_view() == Seq::<(Seq<char>, MessageView)>::empty(),
    {
        let r = MessageRouter { retained_messages: StringMap::new() };
        assert(r.retained_view() =~= Seq::<(Seq<char>, MessageView)>::empty());
        r
    }

    /// Every topic has one retained message at most.
    pub fn check_wf(&self)
        ensures
            self.wf(),
    {
        self.retained_messages.check_unique();
        proof {
            crate::string_map::lemma_map_entries_keys(self.retained_messages.view(), |x: Message| x@, Seq::empty());
        }
    }

    /// Retains `message` under `topic`, replacing the message retained
    /// there.
    pub fn store_retained_message(&mut self, topic: String, message: Message)
        ensures
            final(self).retained_view() == insert_entry(old(self).retained_view(), topic@, message@),
    {
        self.retained_messages.check_unique();
        proof {
            lemma_map_entries_insert(self.retained_messages.view(), |x: Message| x@, topic@, message);
        }
        self.retained_messages.insert(topic, message);
    }

    /// Drops the message retained under `topic`.
    pub fn clear_retained_message(&mut self, topic: &str)
        ensures
            final(self).retained_view() == remove_entry(old(self).retained_view(), topic@),
    {
        self.retained_messages.check_unique();
        proof {
            lemma_map_entries_remove(self.retained_messages.view(), |x: Message| x@, topic@);
        }
        let _ = self.retained_messages.remove(topic);
    }

    /// A copy of the message retained under exactly `topic`.
    pub fn get_retained_message(&self, topic: &str) -> (r: Option<Message>)
        ensures
            r matches Some(m) ==> lookup(self.retained_view(), topic@) == Some(m@),
            r is None ==> lookup(self.retained_view(), topic@) is None,
    {
        self.retained_messages.check_unique();
        proof {
            lemma_map_entries_lookup(self.retained_messages.view(), |x: Message| x@, topic@);
        }
        match self.retained_messages.get(topic) {
            Some(m) => Some(m.clone()),
            None => None,
        }
    }

    /// A copy of every retained message, by topic.
    pub fn get_all_retained_messages(&self) -> (r: StringMap<Message>)
        ensures
            retained_views(r.view()) == self.retained_view(),
    {
        let n = self.retained_messages.len();
        let mut out: StringMap<Message> = StringMap::new();
        let mut i: usize = 0;
        self.retained_messages.check_unique();
        let ghost sv = self.retained_messages.view();
        while i < n
            invariant
                sv == self.retained_messages.view(),
                n == sv.len(),
                i <= n,
                keys_unique(sv),
                retained_views(out.view()) == retained_views(sv.take(i as int)),
                out.view().len() == i,
                forall|j: int| 0 <= j < i ==> #[trigger] out.view()[j].0 == sv[j].0,
            decreases n - i,
        {
            let (k, m) = self.retained_messages.entry_at(i);
            let copy = m.clone();
            let ghost before = out.view();
            proof {
                assert(!has_key(before, k@)) by {
                    if has_key(before, k@) {
                        let j = crate::string_map::key_index(before, k@);
                        assert(sv[j].0 == k@);
                    }
                }
            }
            out.insert(k.clone(), copy);
            proof {
                assert(out.view() == before.push((k@, copy)));
                assert(sv.take(i + 1) =~= sv.take(i as int).push(sv[i as int]));
                assert(retained_views(before.push((k@, copy))) =~= retained_views(before).push((k@, copy@)));
                assert(retained_views(sv.take(i as int).push(sv[i as int])) =~= retained_views(sv.take(i as int)).push(
                    (sv[i as int].0, sv[i as int].1@),
                ));
            }
            i = i + 1;
        }
        assert(sv.take(n as int) =~= sv);
        out
    }

    /// Whether topic filter `filter` matches topic `topic`.
    pub fn topic_matches(filter: &str, topic: &str) -> (r: bool)
        ensures
            r == topic_matches_spec(filter@, topic@),
    {
        topic_matches(filter, topic)
    }

    /// The topics with a retained message that `topic_filter` matches, in
    /// entry order.
    pub fn find_matching_topics(&self, topic_filter: &str) -> (r: Vec<String>)
        ensures
            r@.map_values(|t: String| t@) == matching_entries(self.retained_view(), topic_filter@).map_values(
                |e: (Seq<char>, MessageView)| e.0,
            ),
    {
        let ghost rv = self.retained_view();
        let ghost p = |e: (Seq<char>, MessageView)| topic_matches_spec(topic_filter@, e.0);
        let n = self.retained_messages.len();
        let mut out: Vec<String> = Vec::new();
        let mut i: usize = 0;
        proof {
            reveal(Seq::filter);
            assert(rv.take(0).filter(p) =~= Seq::<(Seq<char>, MessageView)>::empty());
            assert(out@.map_values(|t: String| t@) =~= Seq::<Seq<char>>::empty());
        }
        while i < n
            invariant
                rv == self.retained_view(),
                rv == retained_views(self.retained_messages.view()),
                n == rv.len(),
                i <= n,
                p == (|e: (Seq<char>, MessageView)| topic_matches_spec(topic_filter@, e.0)),
                out@.map_values(|t: String| t@) == rv.take(i as int).filter(p).map_values(
                    |e: (Seq<char>, MessageView)| e.0,
                ),
            decreases n - i,
        {
            let (k, m) = self.retained_messages.entry_at(i);
            let ghost before = out@;
            proof {
                reveal(Seq::filter);
                assert(rv.take(i + 1).drop_last() =~= rv.take(i as int));
                assert(rv.take(i + 1).last() == rv[i as int]);
                assert(rv[i as int].0 == k@);
            }
            if topic_matches(topic_filter, k.as_str()) {
                out.push(k.clone());
                proof {
                    assert(out@.map_values(|t: String| t@) =~= before.map_values(|t: String| t@).push(k@));
                    assert(rv.take(i as int).filter(p).push(rv[i as int]).map_values(
                        |e: (Seq<char>, MessageView)| e.0,
                    ) =~= rv.take(i as int).filter(p).map_values(|e: (Seq<char>, MessageView)| e.0).push(k@));
                }
            }
            i = i + 1;
        }
        assert(rv.take(n as int) =~= rv);
        out
    }

    /// The retained messages of every topic that one of `topic_filters`
    /// matches: filter by filter, and for each filter in entry order.
    pub fn get_retained_messages_for_filters(&self, topic_filters: &[String]) -> (r: Vec<Message>)
        ensures
            r@.map_values(|m: Message| m@) == retained_for_filters(
                self.retained_view(),
                topic_filters@.map_values(|t: String| t@),
            ),
    {
        let ghost fs = topic_filters@.map_values(|t: String| t@);
        let mut out: Vec<Message> = Vec::new();
        let mut i: usize = 0;
        proof {
            assert(fs.take(0) =~= Seq::<Seq<char>>::empty());
            assert(out@.map_values(|m: Message| m@) =~= Seq::<MessageView>::empty());
        }
        while i < topic_filters.len()
            invariant
                fs == topic_filters@.map_values(|t: String| t@),
                i <= fs.len(),
                out@.map_values(|m: Message| m@) == retained_for_filters(self.retained_view(), fs.take(i as int)),
            decreases fs.len() - i,
        {
            let ghost before = out@.map_values(|m: Message| m@);
            self.append_matching(topic_filters[i].as_str(), &mut out);
            proof {
                assert(fs.take(i + 1).drop_last() =~= fs.take(i as int));
                assert(fs.take(i + 1).last() == topic_filters@[i as int]@);
            }
            i = i + 1;
        }
        assert(fs.take(fs.len() as int) =~= fs);
        out
    }

    /// Appends copies of the retained messages that `filter` matches.
    fn append_matching(&self, filter: &str, out: &mut Vec<Message>)
        ensures
            final(out)@.map_values(|m: Message| m@) == old(out)@.map_values(|m: Message| m@) + matching_entries(
                self.retained_view(),
                filter@,
            ).map_values(|e: (Seq<char>, MessageView)| e.1),
    {
        let ghost rv = self.retained_view();
        let ghost p = |e: (Seq<char>, MessageView)| topic_matches_spec(filter@, e.0);
        let ghost base = out@.map_values(|m: Message| m@);
        let n = self.retained_messages.len();
        let mut i: usize = 0;
        proof {
            reveal(Seq::filter);
            assert(rv.take(0).filter(p) =~= Seq::<(Seq<char>, MessageView)>::empty());
            assert(out@.map_values(|m: Message| m@) =~= base + Seq::<MessageView>::empty());
        }
        while i < n
            invariant
                rv == self.retained_view(),
                rv == retained_views(self.retained_messages.view()),
                n == rv.len(),
                i <= n,
                p == (|e: (Seq<char>, MessageView)| topic_matches_spec(filter@, e.0)),
                base == old(out)@.map_values(|m: Message| m@),
                out@.map_values(|m: Message| m@) == base + rv.take(i as int).filter(p).map_values(
                    |e: (Seq<char>, MessageView)| e.1,
                ),
            decreases n - i,
        {
            let (k, m) = self.retained_messages.entry_at(i);
            let ghost before = out@;
            proof {
                reveal(Seq::filter);
                assert(rv.take(i + 1).drop_last() =~= rv.take(i as int));
                assert(rv.take(i + 1).last() == rv[i as int]);
                assert(rv[i as int] == (k@, m@));
            }
            if topic_matches(filter, k.as_str()) {
                let c = m.clone();
                out.push(c);
                proof {
                    assert(out@.map_values(|x: Message| x@) =~= before.map_values(|x: Message| x@).push(c@));
                    assert(rv.take(i as int).filter(p).push(rv[i as int]).map_values(
                        |e: (Seq<char>, MessageView)| e.1,
                    ) =~= rv.take(i as int).filter(p).map_values(|e: (Seq<char>, MessageView)| e.1).push(m@));
                }
            }
            i = i + 1;
        }
        assert(rv.take(n as int) =~= rv);
    }
}

/// A message retained under a topic is what is then found under that topic.
pub proof fn lemma_store_then_get(retained: Seq<(Seq<char>, MessageView)>, topic: Seq<char>, message: MessageView)
    requires
        keys_unique(retained),
    ensures
        lookup(insert_entry(retained, topic, message), topic) == Some(message),
{
    lemma_insert_unique(retained, topic, message);
}

/// After clearing a topic nothing is found under it.
pub proof fn lemma_clear_then_get(retained: Seq<(Seq<char>, MessageView)>, topic: Seq<char>)
    requires
        keys_unique(retained),
    ensures
        lookup(remove_entry(retained, topic), topic) is None,
{
    lemma_remove_unique(retained, topic);
}

/// The messages one filter is sent are exactly those retained under a topic
/// that the filter matches.
pub proof fn lemma_filter_gets_matching(retained: Seq<(Seq<char>, MessageView)>, filter: Seq<char>, m: MessageView)
    ensures
        matching_entries(retained, filter).map_values(|e: (Seq<char>, MessageView)| e.1).contains(m) <==> exists|j: int|
            0 <= j < retained.len() && topic_matches_spec(filter, #[trigger] retained[j].0) && retained[j].1 == m,
{
    let p = |e: (Seq<char>, MessageView)| topic_matches_spec(filter, e.0);
    let me = matching_entries(retained, filter);
    let mv = me.map_values(|e: (Seq<char>, MessageView)| e.1);
    if mv.contains(m) {
        let k = choose|k: int| 0 <= k < mv.len() && mv[k] == m;
        assert(mv[k] == me[k].1);
        retained.lemma_filter_pred(p, k);
        assert(me.contains(me[k]));
        retained.lemma_filter_contains_rev(p, me[k]);
        let j = choose|j: int| 0 <= j < retained.len() && retained[j] == me[k];
        assert(topic_matches_spec(filter, retained[j].0) && retained[j].1 == m);
    }
    if exists|j: int| 0 <= j < retained.len() && topic_matches_spec(filter, #[trigger] retained[j].0) && retained[j].1 == m {
        let j = choose|j: int| 0 <= j < retained.len() && topic_matches_spec(filter, #[trigger] retained[j].0) && retained[j].1 == m;
        retained.lemma_filter_contains(p, j);
        let k = choose|k: int| 0 <= k < me.len() && me[k] == retained[j];
        assert(mv[k] == m);
    }
}

/// A retained message is sent for a list of filters exactly when it is
/// retained under a topic that one of the filters matches.
pub proof fn lemma_retained_sent_iff_matching(
    retained: Seq<(Seq<char>, MessageView)>,
    filters: Seq<Seq<char>>,
    m: MessageView,
)
    ensures
        retained_for_filters(retained, filters).contains(m) <==> exists|i: int, j: int|
            0 <= i < filters.len() && 0 <= j < retained.len() && #[trigger] topic_matches_spec(filters[i], retained[j].0)
                && retained[j].1 == m,
    decreases filters.len(),
{
    if filters.len() > 0 {
        let init = filters.drop_last();
        let f = filters.last();
        lemma_retained_sent_iff_matching(retained, init, m);
        lemma_filter_gets_matching(retained, f, m);
        let pre = retained_for_filters(retained, init);
        let tail = matching_entries(retained, f).map_values(|e: (Seq<char>, MessageView)| e.1);
        let all = pre + tail;
        assert(retained_for_filters(retained, filters) == all);
        if all.contains(m) {
            let k = choose|k: int| 0 <= k < all.len() && all[k] == m;
            if k < pre.len() {
                assert(pre[k] == m);
                assert(pre.contains(m));
                let (i, j) = choose|i: int, j: int|
                    0 <= i < init.len() && 0 <= j < retained.len() && #[trigger] topic_matches_spec(init[i], retained[j].0)
                        && retained[j].1 == m;
                assert(filters[i] == init[i]);
            } else {
                assert(tail[k - pre.len()] == m);
                assert(tail.contains(m));
                let j = choose|j: int|
                    0 <= j < retained.len() && topic_matches_spec(f, #[trigger] retained[j].0) && retained[j].1 == m;
                assert(filters[filters.len() - 1] == f);
                assert(topic_matches_spec(filters[filters.len() - 1], retained[j].0));
            }
        }
        if exists|i: int, j: int|
            0 <= i < filters.len() && 0 <= j < retained.len() && #[trigger] topic_matches_spec(filters[i], retained[j].0)
                && retained[j].1 == m {
            let (i, j) = choose|i: int, j: int|
                0 <= i < filters.len() && 0 <= j < retained.len() && #[trigger] topic_matches_spec(filters[i], retained[j].0)
                    && retained[j].1 == m;
            if i < filters.len() - 1 {
                assert(init[i] == filters[i]);
                assert(topic_matches_spec(init[i], retained[j].0));
                assert(pre.contains(m));
                let k = choose|k: int| 0 <= k < pre.len() && pre[k] == m;
                assert(all[k] == m);
            } else {
                assert(topic_matches_spec(f, retained[j].0));
                assert(tail.contains(m));
                let k = choose|k: int| 0 <= k < tail.len() && tail[k] == m;
                assert(all[pre.len() + k] == m);
            }
            assert(all.contains(m));
        }
    }
}

/// A subscription to exactly a topic with a retained message is sent that
/// message.
pub proof fn lemma_exact_filter_gets_retained(retained: Seq<(Seq<char>, MessageView)>, i: int)
    requires
        0 <= i < retained.len(),
    ensures
        matching_entries(retained, retained[i].0).contains(retained[i]),
{
    lemma_topic_matches_itself(retained[i].0);
    let p = |e: (Seq<char>, MessageView)| topic_matches_spec(retained[i].0, e.0);
    retained.lemma_filter_contains_rev(p, retained[i]);
    assert(retained.contains(retained[i]));
}

} // verus!
