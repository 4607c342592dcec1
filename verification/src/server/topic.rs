//! Topic names and topic filters: levels and wildcard matching.

use vstd::prelude::*;
use crate::text::str_chars;

verus! {

/// The levels of a topic: the pieces between `/` separators, as `split('/')`
/// gives them (an empty topic has one empty level).
pub open spec fn levels(s: Seq<char>) -> Seq<Seq<char>>
    decreases s.len(),
{
    if s.len() == 0 {
        seq![Seq::empty()]
    } else {
        let l = levels(s.drop_last());
        if s.last() == '/' {
            l.push(Seq::empty())
        } else {
            l.update(l.len() - 1, l.last().push(s.last()))
        }
    }
}

/// A topic has at least one level.
pub proof fn lemma_levels_nonempty(s: Seq<char>)
    ensures
        levels(s).len() >= 1,
    decreases s.len(),
{
    if s.len() > 0 {
        lemma_levels_nonempty(s.drop_last());
    }
}

/// The multi-level wildcard level `#`.
pub open spec fn hash_level() -> Seq<char> {
    seq!['#']
}

/// The single-level wildcard level `+`.
pub open spec fn plus_level() -> Seq<char> {
    seq!['+']
}

/// Whether filter levels `f` match topic levels `t`, walking both from the
/// first level: `#` matches whatever is left (also nothing, as the last
/// filter level), `+` matches any one level, other levels must be equal, and
/// both must end together.
pub open spec fn levels_match(f: Seq<Seq<char>>, t: Seq<Seq<char>>) -> bool
    decreases f.len(),
{
    if f.len() == 0 || t.len() == 0 {
        (f.len() == 0 && t.len() == 0) || (f.len() == 1 && f[0] == hash_level())
    } else if f[0] == hash_level() {
        true
    } else if f[0] == plus_level() || f[0] == t[0] {
        levels_match(f.drop_first(), t.drop_first())
    } else {
        false
    }
}

/// Whether topic filter `filter` matches topic `topic`.
pub open spec fn topic_matches_spec(filter: Seq<char>, topic: Seq<char>) -> bool {
    levels_match(levels(filter), levels(topic))
}

/// The levels of `s`, as vectors of characters.
pub(crate) fn split_levels(s: &str) -> (r: Vec<Vec<char>>)
    ensures
        r@.map_values(|l: Vec<char>| l@) == levels(s@),
{
    let chars = str_chars(s);
    let ghost cs = s@;
    let mut out: Vec<Vec<char>> = Vec::new();
    let mut cur: Vec<char> = Vec::new();
    let mut i: usize = 0;
    proof {
        assert(cs.take(0) =~= Seq::<char>::empty());
        assert(out@.map_values(|l: Vec<char>| l@).push(cur@) =~= levels(cs.take(0)));
    }
    while i < chars.len()
        invariant
            chars@ == cs,
            i <= cs.len(),
            out@.map_values(|l: Vec<char>| l@).push(cur@) == levels(cs.take(i as int)),
        decreases cs.len() - i,
    {
        let c = chars[i];
        let ghost before = out@.map_values(|l: Vec<char>| l@).push(cur@);
        proof {
            assert(cs.take(i + 1).drop_last() =~= cs.take(i as int));
            assert(cs.take(i + 1).last() == c);
        }
        if c == '/' {
            let done = cur;
            cur = Vec::new();
            out.push(done);
            proof {
                assert(out@.map_values(|l: Vec<char>| l@).push(cur@) =~= before.push(Seq::empty()));
            }
        } else {
            let ghost old_cur = cur@;
            cur.push(c);
            proof {
                assert(out@.map_values(|l: Vec<char>| l@).push(cur@) =~= before.update(
                    before.len() - 1,
                    before.last().push(c),
                ));
            }
        }
        i = i + 1;
    }
    proof {
        assert(cs.take(cs.len() as int) =~= cs);
    }
    let ghost before = out@.map_values(|l: Vec<char>| l@);
    out.push(cur);
    proof {
        assert(out@.map_values(|l: Vec<char>| l@) =~= before.push(cur@));
    }
    out
}

/// Whether two character vectors are equal.
pub(crate) fn chars_eq(a: &Vec<char>, b: &Vec<char>) -> (r: bool)
    ensures
        r == (a@ == b@),
{
    if a.len() != b.len() {
        return false;
    }
    let mut i: usize = 0;
    while i < a.len()
        invariant
            a@.len() == b@.len(),
            i <= a@.len(),
            forall|j: int| 0 <= j < i ==> a@[j] == b@[j],
        decreases a@.len() - i,
    {
        if a[i] != b[i] {
            return false;
        }
        i = i + 1;
    }
    assert(a@ =~= b@);
    true
}

/// Whether a level is the single character `w`.
fn is_wildcard(l: &Vec<char>, w: char) -> (r: bool)
    ensures
        r == (l@ == seq![w]),
{
    let r = l.len() == 1 && l[0] == w;
    proof {
        if l@.len() == 1 && l@[0] == w {
            assert(l@ =~= seq![w]);
        }
    }
    r
}

/// Whether topic filter `filter` matches topic `topic`: levels are compared
/// in order, `+` matches any one level and `#` the rest of the topic.
pub fn topic_matches(filter: &str, topic: &str) -> (r: bool)
    ensures
        r == topic_matches_spec(filter@, topic@),
{
    let fl = split_levels(filter);
    let tl = split_levels(topic);
    let ghost f = fl@.map_values(|l: Vec<char>| l@);
    let ghost t = tl@.map_values(|l: Vec<char>| l@);
    proof {
        lemma_levels_nonempty(filter@);
        assert(f.skip(0) =~= f);
        assert(t.skip(0) =~= t);
    }
    let mut i: usize = 0;
    while i < fl.len() && i < tl.len()
        invariant
            f == fl@.map_values(|l: Vec<char>| l@),
            t == tl@.map_values(|l: Vec<char>| l@),
            f == levels(filter@),
            t == levels(topic@),
            f.len() >= 1,
            i <= f.len(),
            i <= t.len(),
            levels_match(f, t) == levels_match(f.skip(i as int), t.skip(i as int)),
        decreases f.len() - i,
    {
        proof {
            assert(f.skip(i as int)[0] == f[i as int]);
            assert(t.skip(i as int)[0] == t[i as int]);
            assert(f.skip(i as int).drop_first() =~= f.skip(i + 1));
            assert(t.skip(i as int).drop_first() =~= t.skip(i + 1));
        }
        if is_wildcard(&fl[i], '#') {
            return true;
        } else if is_wildcard(&fl[i], '+') || chars_eq(&fl[i], &tl[i]) {
            i = i + 1;
        } else {
            return false;
        }
    }
    if i == fl.len() && i == tl.len() {
        return true;
    }
    if i == fl.len() - 1 && is_wildcard(&fl[i], '#') {
        proof {
            assert(f.skip(i as int)[0] == f[i as int]);
        }
        return true;
    }
    proof {
        if i < f.len() {
            assert(f.skip(i as int)[0] == f[i as int]);
        }
    }
    false
}

/// A topic written back from its levels: the levels joined by `/`.
pub open spec fn join_levels(l: Seq<Seq<char>>) -> Seq<char>
    decreases l.len(),
{
    if l.len() <= 1 {
        if l.len() == 1 {
            l[0]
        } else {
            Seq::empty()
        }
    } else {
        join_levels(l.drop_last()) + seq!['/'] + l.last()
    }
}

/// Joining the levels of a topic gives the topic back.
proof fn lemma_join_levels(s: Seq<char>)
    ensures
        join_levels(levels(s)) == s,
    decreases s.len(),
{
    lemma_levels_nonempty(s);
    if s.len() > 0 {
        let l = levels(s.drop_last());
        lemma_join_levels(s.drop_last());
        lemma_levels_nonempty(s.drop_last());
        if s.last() == '/' {
            assert(l.push(Seq::empty()).drop_last() =~= l);
            assert(join_levels(l) + seq!['/'] + Seq::<char>::empty() =~= s);
        } else {
            let u = l.update(l.len() - 1, l.last().push(s.last()));
            if l.len() == 1 {
                assert(u[0] =~= s);
            } else {
                assert(u.drop_last() =~= l.drop_last());
                assert(join_levels(l.drop_last()) + seq!['/'] + l.last().push(s.last()) =~= (join_levels(
                    l.drop_last(),
                ) + seq!['/'] + l.last()).push(s.last()));
                assert(s =~= s.drop_last().push(s.last()));
            }
        }
    }
}

/// The levels of `a/b` are the levels of `a` followed by those of `b`.
proof fn lemma_levels_concat(a: Seq<char>, b: Seq<char>)
    ensures
        levels(a + seq!['/'] + b) == levels(a) + levels(b),
    decreases b.len(),
{
    let ab = a + seq!['/'] + b;
    lemma_levels_nonempty(b);
    if b.len() == 0 {
        assert(ab.drop_last() =~= a);
        assert(levels(a).push(Seq::<char>::empty()) =~= levels(a) + seq![Seq::<char>::empty()]);
        assert(levels(b) == seq![Seq::<char>::empty()]);
    } else {
        let b1 = b.drop_last();
        lemma_levels_concat(a, b1);
        lemma_levels_nonempty(b1);
        assert(ab.drop_last() =~= a + seq!['/'] + b1);
        assert(ab.last() == b.last());
        let la = levels(a);
        let lb = levels(b1);
        if b.last() == '/' {
            assert((la + lb).push(Seq::empty()) =~= la + lb.push(Seq::empty()));
        } else {
            let ll = la + lb;
            assert(ll.update(ll.len() - 1, ll.last().push(b.last())) =~= la + lb.update(
                lb.len() - 1,
                lb.last().push(b.last()),
            ));
        }
    }
}

/// Every character of every level of `s` is a character of `s`.
proof fn lemma_levels_chars(s: Seq<char>)
    ensures
        forall|i: int, j: int|
            0 <= i < levels(s).len() && 0 <= j < levels(s)[i].len() ==> s.contains(#[trigger] levels(s)[i][j]),
    decreases s.len(),
{
    lemma_levels_nonempty(s);
    if s.len() > 0 {
        let s1 = s.drop_last();
        lemma_levels_chars(s1);
        lemma_levels_nonempty(s1);
        let l = levels(s1);
        assert forall|i: int, j: int|
            0 <= i < levels(s).len() && 0 <= j < levels(s)[i].len() implies s.contains(#[trigger] levels(s)[i][j]) by {
            if s.last() == '/' {
                if i < l.len() {
                    assert(levels(s)[i] == l[i]);
                    assert(s1.contains(l[i][j]));
                    let k = choose|k: int| 0 <= k < s1.len() && s1[k] == l[i][j];
                    assert(s[k] == s1[k]);
                }
            } else {
                if i < l.len() - 1 || j < l[i].len() {
                    assert(levels(s)[i][j] == l[i][j]);
                    assert(s1.contains(l[i][j]));
                    let k = choose|k: int| 0 <= k < s1.len() && s1[k] == l[i][j];
                    assert(s[k] == s1[k]);
                } else {
                    assert(levels(s)[i][j] == s.last());
                    assert(s[s.len() - 1] == s.last());
                }
            }
        }
    }
}

/// Whether a topic filter holds no wildcard character.
pub open spec fn no_wildcards(f: Seq<char>) -> bool {
    !f.contains('+') && !f.contains('#')
}

/// Filter levels without wildcards match exactly the same levels.
proof fn lemma_levels_match_plain(f: Seq<Seq<char>>, t: Seq<Seq<char>>)
    requires
        forall|i: int| 0 <= i < f.len() ==> #[trigger] f[i] != hash_level() && f[i] != plus_level(),
    ensures
        levels_match(f, t) == (f == t),
    decreases f.len(),
{
    if f.len() > 0 && t.len() > 0 {
        lemma_levels_match_plain(f.drop_first(), t.drop_first());
        if f[0] == t[0] && f.drop_first() == t.drop_first() {
            assert forall|i: int| 0 <= i < f.len() implies f[i] == t[i] by {
                if i > 0 {
                    assert(f[i] == f.drop_first()[i - 1]);
                    assert(t[i] == t.drop_first()[i - 1]);
                }
            }
            assert(f =~= t);
        }
        if f == t {
            assert(f.drop_first() =~= t.drop_first());
        }
    } else if f.len() > 0 {
        assert(f != t);
    } else if t.len() > 0 {
        assert(f != t);
    } else {
        assert(f =~= t);
    }
}

/// No level of a filter without wildcard characters is a wildcard level.
proof fn lemma_plain_levels(f: Seq<char>)
    requires
        no_wildcards(f),
    ensures
        forall|i: int| 0 <= i < levels(f).len() ==> #[trigger] levels(f)[i] != hash_level() && levels(f)[i]
            != plus_level(),
{
    lemma_levels_chars(f);
    assert forall|i: int| 0 <= i < levels(f).len() implies #[trigger] levels(f)[i] != hash_level() && levels(f)[i]
        != plus_level() by {
        if levels(f)[i] == hash_level() {
            assert(levels(f)[i][0] == '#');
        }
        if levels(f)[i] == plus_level() {
            assert(levels(f)[i][0] == '+');
        }
    }
}

/// A filter without wildcards matches exactly the topic it spells.
pub proof fn lemma_plain_filter_matches_exactly(f: Seq<char>, topic: Seq<char>)
    requires
        no_wildcards(f),
    ensures
        topic_matches_spec(f, topic) == (f == topic),
{
    lemma_plain_levels(f);
    lemma_levels_match_plain(levels(f), levels(topic));
    lemma_join_levels(f);
    lemma_join_levels(topic);
}

/// Levels followed by `#` match what starts with those levels.
proof fn lemma_levels_match_hash_suffix(f: Seq<Seq<char>>, t: Seq<Seq<char>>)
    requires
        forall|i: int| 0 <= i < f.len() ==> #[trigger] f[i] != hash_level() && f[i] != plus_level(),
    ensures
        levels_match(f.push(hash_level()), t) == (t.len() >= f.len() && t.take(f.len() as int) == f),
    decreases f.len(),
{
    let fh = f.push(hash_level());
    if f.len() == 0 {
        assert(fh =~= seq![hash_level()]);
        assert(t.take(0) =~= f);
        assert(fh[0] == hash_level());
        assert(levels_match(fh, t));
    } else if t.len() == 0 {
        assert(!levels_match(fh, t));
    } else {
        assert(fh[0] == f[0]);
        assert(fh.drop_first() =~= f.drop_first().push(hash_level()));
        lemma_levels_match_hash_suffix(f.drop_first(), t.drop_first());
        if t.len() >= f.len() && t.take(f.len() as int) == f {
            assert(t[0] == t.take(f.len() as int)[0]);
            assert(t.drop_first().take(f.len() - 1) =~= f.drop_first());
        }
        if f[0] == t[0] && t.drop_first().len() >= f.drop_first().len() && t.drop_first().take(
            f.drop_first().len() as int,
        ) == f.drop_first() {
            assert forall|i: int| 0 <= i < f.len() implies t.take(f.len() as int)[i] == f[i] by {
                if i > 0 {
                    assert(t[i] == t.drop_first()[i - 1]);
                    assert(f[i] == f.drop_first()[i - 1]);
                    assert(t.drop_first().take(f.drop_first().len() as int)[i - 1] == t.drop_first()[i - 1]);
                }
            }
            assert(t.take(f.len() as int) =~= f);
        }
        assert(f[0] != hash_level() && f[0] != plus_level());
        assert(levels_match(fh, t) == (f[0] == t[0] && levels_match(fh.drop_first(), t.drop_first())));
        if t.len() >= f.len() && t.take(f.len() as int) == f {
            assert(f[0] == t[0]);
        }
    }
}

/// The filter `f/#`, for `f` without wildcards, matches `f` itself and
/// every topic below it, and nothing else.
pub proof fn lemma_hash_suffix_matches_below(f: Seq<char>, topic: Seq<char>)
    requires
        no_wildcards(f),
    ensures
        topic_matches_spec(f + seq!['/', '#'], topic) == (topic == f || (topic.len() > f.len()
            && topic.take(f.len() as int + 1) == f.push('/'))),
{
    let lf = levels(f);
    let lt = levels(topic);
    lemma_plain_levels(f);
    lemma_levels_concat(f, seq!['#']);
    assert(f + seq!['/'] + seq!['#'] =~= f + seq!['/', '#']);
    reveal_with_fuel(levels, 2);
    assert(seq!['#'].drop_last() =~= Seq::<char>::empty());
    assert(levels(seq!['#']) =~= seq![hash_level()]);
    assert(lf + seq![hash_level()] =~= lf.push(hash_level()));
    lemma_levels_match_hash_suffix(lf, lt);
    lemma_join_levels(f);
    lemma_join_levels(topic);
    lemma_levels_nonempty(f);
    lemma_levels_nonempty(topic);
    let below = topic.len() > f.len() && topic.take(f.len() as int + 1) == f.push('/');
    if lt.len() >= lf.len() && lt.take(lf.len() as int) == lf {
        if lt.len() == lf.len() {
            assert(lt =~= lf);
        } else {
            let rest = lt.skip(lf.len() as int);
            assert(lt =~= lf + rest);
            lemma_join_concat(lf, rest);
            assert(topic == f + seq!['/'] + join_levels(rest));
            assert(topic.take(f.len() as int + 1) =~= f.push('/'));
        }
    }
    if topic == f {
        assert(lt.take(lf.len() as int) =~= lf);
    }
    if below {
        let r = topic.skip(f.len() as int + 1);
        assert forall|i: int| 0 <= i < topic.len() implies topic[i] == (f + seq!['/'] + r)[i] by {
            if i <= f.len() {
                assert(topic[i] == topic.take(f.len() as int + 1)[i]);
                assert(f.push('/')[i] == (f + seq!['/'] + r)[i]);
            }
        }
        assert(topic =~= f + seq!['/'] + r);
        lemma_levels_concat(f, r);
        lemma_levels_nonempty(r);
        assert(lt.take(lf.len() as int) =~= lf);
    }
}

/// Joining two nonempty lists of levels puts a `/` between their joins.
proof fn lemma_join_concat(a: Seq<Seq<char>>, b: Seq<Seq<char>>)
    requires
        a.len() >= 1,
        b.len() >= 1,
    ensures
        join_levels(a + b) == join_levels(a) + seq!['/'] + join_levels(b),
    decreases b.len(),
{
    if b.len() == 1 {
        assert((a + b).drop_last() =~= a);
        assert((a + b).last() == b[0]);
    } else {
        lemma_join_concat(a, b.drop_last());
        assert((a + b).drop_last() =~= a + b.drop_last());
        assert((a + b).last() == b.last());
    }
}

/// Every topic matches itself as a filter.
pub proof fn lemma_topic_matches_itself(topic: Seq<char>)
    ensures
        topic_matches_spec(topic, topic),
{
    lemma_levels_match_self(levels(topic));
}

/// Levels match themselves.
proof fn lemma_levels_match_self(l: Seq<Seq<char>>)
    ensures
        levels_match(l, l),
    decreases l.len(),
{
    if l.len() > 0 {
        lemma_levels_match_self(l.drop_first());
    }
}

/// The filter `#` matches every topic.
pub proof fn lemma_hash_matches_all(topic: Seq<char>)
    ensures
        topic_matches_spec(seq!['#'], topic),
{
    lemma_levels_nonempty(topic);
    reveal_with_fuel(levels, 2);
    assert(seq!['#'].drop_last() =~= Seq::<char>::empty());
    assert(levels(seq!['#']) =~= seq![hash_level()]);
}

/// The filter `+` matches exactly the topics of one level.
pub proof fn lemma_plus_matches_one_level(topic: Seq<char>)
    ensures
        topic_matches_spec(seq!['+'], topic) == (levels(topic).len() == 1),
{
    lemma_levels_nonempty(topic);
    reveal_with_fuel(levels, 2);
    assert(seq!['+'].drop_last() =~= Seq::<char>::empty());
    assert(levels(seq!['+']) =~= seq![plus_level()]);
    let t = levels(topic);
    assert(plus_level()[0] != hash_level()[0]);
    assert(plus_level() != hash_level());
    assert(seq![plus_level()].drop_first() =~= Seq::<Seq<char>>::empty());
    reveal_with_fuel(levels_match, 3);
    assert(levels_match(seq![plus_level()], t) == levels_match(Seq::<Seq<char>>::empty(), t.drop_first()));
    if t.len() == 1 {
        assert(t.drop_first() =~= Seq::<Seq<char>>::empty());
    }
}

} // verus!
