//! Search in the task log: the names that hold the query, whatever the
//! case of either, each name once, the most relevant first.

use crate::tasks::Task;
use crate::text::begins_with;
use crate::text::chars_of;
use crate::text::contains;
use crate::text::lemma_sorts_before_is_asymmetric;
use crate::text::lemma_sorts_before_is_transitive;
use crate::text::occurs_in;
use crate::text::place;
use crate::text::sorts_before;
use crate::text::starts_with;
use crate::text::Placement;
use vstd::prelude::*;

verus! {

/// The lowercase form of a text, as the standard library computes it from
/// the Unicode character tables.
pub uninterp spec fn lowercase_of(text: Seq<char>) -> Seq<char>;

/// Calls `str::to_lowercase` of the standard library, which maps each
/// character by the Unicode tables it was built with and reads nothing
/// else. The contract is not proved: it says that the result is the
/// lowercase form of the argument, by the name above, and no more.
#[verifier::external_body]
fn to_lowercase(text: &str) -> (lower: String)
    ensures
        lower@ == lowercase_of(text@),
{
    text.to_lowercase()
}

/// How well a name answers a query, best first.
#[derive(Clone, Copy, Debug, PartialEq, Eq, Structural)]
pub enum Relevance {
    /// The name is the query, up to case.
    Exact,
    /// The name begins with the query, up to case.
    Prefix,
    /// The query stands further inside the name.
    Inner,
}

impl Relevance {
    /// The place of a relevance in the order: the lower, the better.
    pub open spec fn grade(self) -> int {
        match self {
            Relevance::Exact => 0,
            Relevance::Prefix => 1,
            Relevance::Inner => 2,
        }
    }
}

/// The relevance of a name whose lowercase form is `folded` to a query
/// whose lowercase form is `query`.
pub open spec fn relevance_of(folded: Seq<char>, query: Seq<char>) -> Relevance {
    if folded == query {
        Relevance::Exact
    } else if begins_with(folded, query) {
        Relevance::Prefix
    } else {
        Relevance::Inner
    }
}

/// What a found name is ordered by: its relevance, then the name itself.
pub type Key = (Relevance, Seq<char>);

/// Whether key `a` comes before key `b`: by the better relevance, and
/// among names of one relevance by code point.
pub open spec fn ranks_before(a: Key, b: Key) -> bool {
    a.0.grade() < b.0.grade() || (a.0 == b.0 && sorts_before(a.1, b.1))
}

/// Computes the relevance of a name from its lowercase form and that of
/// the query.
pub fn relevance(folded: &Vec<char>, query: &Vec<char>) -> (r: Relevance)
    ensures
        r == relevance_of(folded@, query@),
{
    if !starts_with(folded, query) {
        proof {
            if folded@ == query@ {
                assert(folded@.subrange(0, query@.len() as int) =~= query@);
            }
        }
        Relevance::Inner
    } else if folded.len() == query.len() {
        proof {
            assert(folded@.subrange(0, query@.len() as int) =~= folded@);
        }
        Relevance::Exact
    } else {
        Relevance::Prefix
    }
}

/// A name that was found, with its relevance.
struct Hit {
    name: String,
    relevance: Relevance,
}

impl Hit {
    spec fn key(self) -> Key {
        (self.relevance, self.name@)
    }
}

/// The found names in their order. No key stands in it twice.
pub struct Ranking {
    hits: Vec<Hit>,
}

impl Ranking {
    /// The keys of the found names, first to last.
    pub closed spec fn keys(&self) -> Seq<Key> {
        self.hits@.map_values(|hit: Hit| hit.key())
    }

    /// Whether the keys stand in strictly ascending order.
    pub open spec fn wf(&self) -> bool {
        forall|i: int, j: int|
            0 <= i < j < self.keys().len() ==> ranks_before(
                #[trigger] self.keys()[i],
                #[trigger] self.keys()[j],
            )
    }

    /// Whether `key` is among the keys.
    pub open spec fn holds(&self, key: Key) -> bool {
        self.keys().contains(key)
    }

    /// A ranking of nothing.
    pub fn new() -> (ranking: Ranking)
        ensures
            ranking.wf(),
            ranking.keys() == Seq::<Key>::empty(),
    {
        let ranking = Ranking { hits: Vec::new() };
        proof {
            assert(ranking.keys() =~= Seq::<Key>::empty());
        }
        ranking
    }

    /// How many names were found.
    pub fn len(&self) -> (n: usize)
        ensures
            n == self.keys().len(),
    {
        self.hits.len()
    }

    /// Puts a name with its relevance at its place, unless it stands there
    /// already with that relevance.
    pub fn note(&mut self, name: String, relevance: Relevance)
        requires
            old(self).wf(),
        ensures
            final(self).wf(),
            forall|key: Key|
                final(self).holds(key) <==> (old(self).holds(key) || key == (relevance, name@)),
            old(self).holds((relevance, name@)) ==> final(self).keys() == old(self).keys(),
    {
        let chars = chars_of(name.as_str());
        let ghost new_key: Key = (relevance, name@);
        let ghost before = self.keys();
        let mut at: usize = 0;
        let mut placed = false;
        while !placed && at < self.hits.len()
            invariant
                at <= self.hits.len(),
                self.keys() == before,
                self.wf(),
                chars@ == name@,
                new_key == (relevance, name@),
                forall|i: int| 0 <= i < at ==> ranks_before(#[trigger] self.keys()[i], new_key),
                placed ==> at < self.hits.len() && ranks_before(new_key, self.keys()[at as int]),
            decreases self.hits.len() - at, if placed { 0int } else { 1int },
        {
            let placement = place_key(&self.hits[at], relevance, &chars);
            assert(self.keys()[at as int] == self.hits[at as int].key());
            match placement {
                Placement::Before => {
                    at = at + 1;
                },
                Placement::Same => {
                    proof {
                        assert(self.keys()[at as int] == new_key);
                    }
                    return ;
                },
                Placement::After => {
                    placed = true;
                },
            }
        }
        proof {
            // The new key stands nowhere yet: it comes after every key
            // before `at` and before every key from `at` on.
            lemma_key_order_is_strict(new_key, new_key);
            assert forall|i: int| 0 <= i < before.len() implies before[i] != new_key by {
                if before[i] == new_key && i > at {
                    lemma_key_order_is_transitive(new_key, before[at as int], before[i]);
                }
            }
        }
        self.hits.insert(at, Hit { name, relevance });
        proof {
            let after = self.keys();
            assert(after =~= before.insert(at as int, new_key));
            assert forall|i: int, j: int| 0 <= i < j < after.len() implies ranks_before(
                #[trigger] after[i],
                #[trigger] after[j],
            ) by {
                if i == at && j - 1 > at {
                    lemma_key_order_is_transitive(new_key, before[at as int], before[j - 1]);
                } else if i < at && at < j {
                    assert(after[i] == before[i]);
                    assert(after[j] == before[j - 1]);
                } else if at < i {
                    assert(after[i] == before[i - 1]);
                    assert(after[j] == before[j - 1]);
                }
            }
            assert forall|key: Key| after.contains(key) <==> (before.contains(key) || key
                == new_key) by {
                if after.contains(key) {
                    let i = choose|i: int| 0 <= i < after.len() && after[i] == key;
                    if i < at {
                        assert(before[i] == key);
                    } else if i > at {
                        assert(before[i - 1] == key);
                    }
                }
                if before.contains(key) {
                    let i = choose|i: int| 0 <= i < before.len() && before[i] == key;
                    if i < at {
                        assert(after[i] == key);
                    } else {
                        assert(after[i + 1] == key);
                    }
                }
                if key == new_key {
                    assert(after[at as int] == key);
                }
            }
        }
    }

    /// The found names, the most relevant first.
    pub fn names(&self) -> (names: Vec<String>)
        ensures
            names.len() == self.keys().len(),
            forall|i: int| 0 <= i < names.len() ==> (#[trigger] names[i])@ == self.keys()[i].1,
    {
        let mut names: Vec<String> = Vec::new();
        let mut i: usize = 0;
        while i < self.hits.len()
            invariant
                i <= self.hits.len(),
                names.len() == i,
                forall|k: int| 0 <= k < i ==> (#[trigger] names[k])@ == self.keys()[k].1,
            decreases self.hits.len() - i,
        {
            names.push(self.hits[i].name.clone());
            i = i + 1;
        }
        names
    }
}

/// Whether a name holds a query, whatever the case of either.
pub open spec fn is_found(name: Seq<char>, query: Seq<char>) -> bool {
    occurs_in(lowercase_of(query), lowercase_of(name))
}

/// The key by which a name is ordered in the answer to a query.
pub open spec fn key_of(name: Seq<char>, query: Seq<char>) -> Key {
    (relevance_of(lowercase_of(name), lowercase_of(query)), name)
}

/// Whether the task at position `at` holds the query and has `name`.
pub open spec fn found_at(tasks: Seq<Task>, query: Seq<char>, at: int, name: Seq<char>) -> bool {
    &&& 0 <= at < tasks.len()
    &&& tasks[at].name@ == name
    &&& is_found(name, query)
}

/// Whether `name` is the name of a task that holds the query.
pub open spec fn is_found_among(tasks: Seq<Task>, query: Seq<char>, name: Seq<char>) -> bool {
    exists|at: int| found_at(tasks, query, at, name)
}

/// Whether `name` stands in `names`.
pub open spec fn is_listed(names: Seq<String>, name: Seq<char>) -> bool {
    exists|i: int| 0 <= i < names.len() && (#[trigger] names[i])@ == name
}

/// Whether `names` answers the search for `query` in `tasks`: it holds the
/// names of the tasks that hold the query and no others, in ascending
/// order of their keys, so each of them once.
pub open spec fn answers(tasks: Seq<Task>, query: Seq<char>, names: Seq<String>) -> bool {
    &&& forall|i: int|
        0 <= i < names.len() ==> is_found_among(tasks, query, (#[trigger] names[i])@)
    &&& forall|name: Seq<char>| #[trigger]
        is_found_among(tasks, query, name) ==> is_listed(names, name)
    &&& forall|i: int, k: int|
        0 <= i < k < names.len() ==> ranks_before(
            key_of((#[trigger] names[i])@, query),
            key_of((#[trigger] names[k])@, query),
        )
}

/// Takes one name into the ranking if its lowercase form `folded` holds
/// `query`, the lowercase form of what is searched for.
pub fn note_if_found(ranking: &mut Ranking, name: &String, folded: &str, query: &Vec<char>) -> (found:
    bool)
    requires
        old(ranking).wf(),
    ensures
        final(ranking).wf(),
        found == occurs_in(query@, folded@),
        forall|key: Key|
            final(ranking).holds(key) <==> (old(ranking).holds(key) || (found && key == (
                relevance_of(folded@, query@),
                name@,
            ))),
{
    let folded_chars = chars_of(folded);
    if contains(&folded_chars, query) {
        let r = relevance(&folded_chars, query);
        ranking.note(name.clone(), r);
        true
    } else {
        false
    }
}

/// The names of the tasks that hold `query`, whatever the case of either:
/// each name once; first the names that are the query, then those that
/// begin with it, then the rest; within each of the three by code point.
pub fn search_tasks(tasks: &Vec<Task>, query: &str) -> (names: Vec<String>)
    ensures
        answers(tasks@, query@, names@),
{
    let lowered = to_lowercase(query);
    let wanted = chars_of(lowered.as_str());
    let mut ranking = Ranking::new();
    let mut done: usize = 0;
    while done < tasks.len()
        invariant
            done <= tasks.len(),
            wanted@ == lowercase_of(query@),
            ranking.wf(),
            forall|key: Key|
                ranking.holds(key) <==> exists|at: int|
                    at < done && #[trigger] found_at(tasks@, query@, at, key.1) && key == key_of(
                        key.1,
                        query@,
                    ),
        decreases tasks.len() - done,
    {
        let ghost earlier = ranking;
        let task = &tasks[done];
        let folded = to_lowercase(task.name.as_str());
        let found = note_if_found(&mut ranking, &task.name, folded.as_str(), &wanted);
        proof {
            let new_key = key_of(task.name@, query@);
            assert(found == is_found(task.name@, query@));
            assert forall|key: Key| ranking.holds(key) implies exists|at: int|
                at < done + 1 && #[trigger] found_at(tasks@, query@, at, key.1) && key == key_of(
                    key.1,
                    query@,
                ) by {
                if earlier.holds(key) {
                    let at = choose|at: int|
                        at < done && #[trigger] found_at(tasks@, query@, at, key.1) && key
                            == key_of(key.1, query@);
                    assert(at < done + 1 && found_at(tasks@, query@, at, key.1));
                } else {
                    assert(found_at(tasks@, query@, done as int, key.1));
                }
            }
            assert forall|key: Key|
                (exists|at: int|
                    at < done + 1 && #[trigger] found_at(tasks@, query@, at, key.1) && key
                        == key_of(key.1, query@)) implies ranking.holds(key) by {
                let at = choose|at: int|
                    at < done + 1 && #[trigger] found_at(tasks@, query@, at, key.1) && key
                        == key_of(key.1, query@);
                if at < done {
                    assert(earlier.holds(key));
                } else {
                    assert(key == new_key);
                }
            }
        }
        done = done + 1;
    }
    let names = ranking.names();
    proof {
        let keys = ranking.keys();
        assert forall|i: int| 0 <= i < names@.len() implies is_found_among(
            tasks@,
            query@,
            (#[trigger] names@[i])@,
        ) && keys[i] == key_of(names@[i]@, query@) by {
            assert(names[i]@ == keys[i].1);
            assert(ranking.holds(keys[i]));
        }
        assert forall|name: Seq<char>| #[trigger]
            is_found_among(tasks@, query@, name) implies is_listed(names@, name) by {
            let at = choose|at: int| found_at(tasks@, query@, at, name);
            let key = key_of(name, query@);
            assert(found_at(tasks@, query@, at, key.1));
            assert(ranking.holds(key));
            let i = choose|i: int| 0 <= i < keys.len() && keys[i] == key;
            assert(names[i]@ == name);
            assert(names@[i]@ == name);
        }
        assert forall|i: int, k: int| 0 <= i < k < names@.len() implies ranks_before(
            key_of((#[trigger] names@[i])@, query@),
            key_of((#[trigger] names@[k])@, query@),
        ) by {
            assert(ranks_before(keys[i], keys[k]));
        }
    }
    names
}

/// Two answers to one search hold the same names in the same order: what
/// `answers` asks of a list leaves no choice.
pub proof fn lemma_answer_is_unique(
    tasks: Seq<Task>,
    query: Seq<char>,
    first: Seq<String>,
    second: Seq<String>,
)
    requires
        answers(tasks, query, first),
        answers(tasks, query, second),
    ensures
        first.len() == second.len(),
        forall|i: int| 0 <= i < first.len() ==> (#[trigger] first[i])@ == second[i]@,
{
    lemma_answers_agree_up_to(tasks, query, first, second, first.len() as int);
    lemma_answers_agree_up_to(tasks, query, second, first, second.len() as int);
}

/// Where `name` stands in `names`, if it is listed there.
spec fn position_in(names: Seq<String>, name: Seq<char>) -> int {
    choose|i: int| 0 <= i < names.len() && (#[trigger] names[i])@ == name
}

/// Two answers to one search agree on their first `upto` names, and the
/// second is at least that long.
proof fn lemma_answers_agree_up_to(
    tasks: Seq<Task>,
    query: Seq<char>,
    first: Seq<String>,
    second: Seq<String>,
    upto: int,
)
    requires
        answers(tasks, query, first),
        answers(tasks, query, second),
        0 <= upto <= first.len(),
    ensures
        upto <= second.len(),
        forall|i: int| 0 <= i < upto ==> (#[trigger] first[i])@ == second[i]@,
    decreases upto,
{
    if upto > 0 {
        let at = upto - 1;
        lemma_answers_agree_up_to(tasks, query, first, second, at);
        let name = first[at]@;
        // The name at `at` in the first answer stands somewhere in the second.
        assert(is_found_among(tasks, query, name));
        assert(is_listed(second, name));
        let there = position_in(second, name);
        assert(0 <= there < second.len() && second[there]@ == name);
        lemma_key_order_is_strict(key_of(name, query), key_of(name, query));
        if there < at {
            // Then it stands twice in the first answer.
            assert(first[there]@ == second[there]@);
            assert(ranks_before(key_of(first[there]@, query), key_of(first[at]@, query)));
            assert(false);
        }
        if there > at {
            // Then what the second answer has at `at` comes before it, and
            // stands in the first answer after `at`.
            let other = second[at]@;
            assert(ranks_before(key_of(second[at]@, query), key_of(second[there]@, query)));
            assert(is_found_among(tasks, query, other));
            assert(is_listed(first, other));
            let back = position_in(first, other);
            assert(0 <= back < first.len() && first[back]@ == other);
            lemma_key_order_is_strict(key_of(other, query), key_of(name, query));
            if back < at {
                assert(first[back]@ == second[back]@);
                assert(ranks_before(key_of(second[back]@, query), key_of(second[at]@, query)));
                lemma_key_order_is_strict(key_of(other, query), key_of(other, query));
                assert(false);
            } else if back > at {
                assert(ranks_before(key_of(first[at]@, query), key_of(first[back]@, query)));
                assert(false);
            } else {
                assert(false);
            }
        }
    }
}

/// The order of keys is transitive.
pub proof fn lemma_key_order_is_transitive(a: Key, b: Key, c: Key)
    requires
        ranks_before(a, b),
        ranks_before(b, c),
    ensures
        ranks_before(a, c),
{
    if a.0 == b.0 && b.0 == c.0 {
        lemma_sorts_before_is_transitive(a.1, b.1, c.1);
    }
}

/// No key comes before itself, and of two keys at most one comes before
/// the other.
pub proof fn lemma_key_order_is_strict(a: Key, b: Key)
    ensures
        !ranks_before(a, a),
        !(ranks_before(a, b) && ranks_before(b, a)),
{
    lemma_sorts_before_is_asymmetric(a.1, b.1);
    lemma_sorts_before_is_asymmetric(a.1, a.1);
}

/// Places the key of `hit` relative to the key made of `relevance` and the
/// name whose characters are `chars`.
fn place_key(hit: &Hit, relevance: Relevance, chars: &Vec<char>) -> (placement: Placement)
    ensures
        placement == Placement::Before <==> ranks_before(hit.key(), (relevance, chars@)),
        placement == Placement::Same <==> hit.key() == (relevance, chars@),
        placement == Placement::After <==> ranks_before((relevance, chars@), hit.key()),
{
    let mine = grade_of(hit.relevance);
    let other = grade_of(relevance);
    if mine < other {
        Placement::Before
    } else if mine > other {
        Placement::After
    } else {
        let own = chars_of(hit.name.as_str());
        proof {
            lemma_sorts_before_is_asymmetric(own@, chars@);
        }
        place(&own, chars)
    }
}

/// The grade of a relevance as a number.
fn grade_of(relevance: Relevance) -> (grade: u8)
    ensures
        grade == relevance.grade(),
{
    match relevance {
        Relevance::Exact => 0,
        Relevance::Prefix => 1,
        Relevance::Inner => 2,
    }
}

} // verus!
