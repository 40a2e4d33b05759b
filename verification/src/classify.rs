use crate::seasons::{SeasonAvailability, SeasonState};
use vstd::prelude::*;

verus! {

/// The monitored seasons of a series, sorted by state into three lists of
/// season numbers. Each list keeps the order in which the seasons were given.
#[derive(Debug)]
pub struct Classification {
    pub available: Vec<i32>,
    pub completed_incomplete: Vec<i32>,
    pub ongoing: Vec<i32>,
}

/// The mathematical value of a [`Classification`].
pub struct ClassificationView {
    pub available: Seq<i32>,
    pub completed_incomplete: Seq<i32>,
    pub ongoing: Seq<i32>,
}

impl View for Classification {
    type V = ClassificationView;

    open spec fn view(&self) -> ClassificationView {
        ClassificationView {
            available: self.available@,
            completed_incomplete: self.completed_incomplete@,
            ongoing: self.ongoing@,
        }
    }
}

/// Gives the number of a season that is in `state`, and nothing for another.
pub open spec fn number_if_in(state: SeasonState) -> spec_fn(SeasonAvailability) -> Option<i32> {
    |season: SeasonAvailability|
        if season.spec_state() == state {
            Some(season.season_number)
        } else {
            None
        }
}

/// The numbers of the seasons that are in `state`, in the order given.
pub open spec fn spec_numbers_in(seasons: Seq<SeasonAvailability>, state: SeasonState) -> Seq<i32> {
    seasons.filter_map(number_if_in(state))
}

/// The three lists that the seasons fall into.
pub open spec fn spec_partition(seasons: Seq<SeasonAvailability>) -> ClassificationView {
    ClassificationView {
        available: spec_numbers_in(seasons, SeasonState::Available),
        completed_incomplete: spec_numbers_in(seasons, SeasonState::CompletedIncomplete),
        ongoing: spec_numbers_in(seasons, SeasonState::Ongoing),
    }
}

/// Sorts the seasons by state.
pub fn partition(seasons: &Vec<SeasonAvailability>) -> (sorted: Classification)
    ensures
        sorted@ == spec_partition(seasons@),
{
    let mut available: Vec<i32> = Vec::new();
    let mut completed_incomplete: Vec<i32> = Vec::new();
    let mut ongoing: Vec<i32> = Vec::new();
    let mut i: usize = 0;
    while i < seasons.len()
        invariant
            i <= seasons.len(),
            available@ == spec_numbers_in(seasons@.take(i as int), SeasonState::Available),
            completed_incomplete@ == spec_numbers_in(
                seasons@.take(i as int),
                SeasonState::CompletedIncomplete,
            ),
            ongoing@ == spec_numbers_in(seasons@.take(i as int), SeasonState::Ongoing),
        decreases seasons.len() - i,
    {
        proof {
            seasons@.lemma_filter_map_take_succ(number_if_in(SeasonState::Available), i as int);
            seasons@.lemma_filter_map_take_succ(
                number_if_in(SeasonState::CompletedIncomplete),
                i as int,
            );
            seasons@.lemma_filter_map_take_succ(number_if_in(SeasonState::Ongoing), i as int);
        }
        let season = &seasons[i];
        match season.state() {
            SeasonState::Available => available.push(season.season_number),
            SeasonState::CompletedIncomplete => completed_incomplete.push(season.season_number),
            SeasonState::Ongoing => ongoing.push(season.season_number),
        }
        i += 1;
    }
    proof {
        assert(seasons@.take(seasons.len() as int) =~= seasons@);
    }
    Classification { available, completed_incomplete, ongoing }
}

/// A number stands in the list of a state exactly when a season of that
/// number is in that state.
pub proof fn lemma_numbers_in_contains(
    seasons: Seq<SeasonAvailability>,
    state: SeasonState,
    number: i32,
)
    ensures
        spec_numbers_in(seasons, state).contains(number) <==> exists|i: int|
            0 <= i < seasons.len() && (#[trigger] seasons[i]).season_number == number
                && seasons[i].spec_state() == state,
    decreases seasons.len(),
{
    let f = number_if_in(state);
    if seasons.len() > 0 {
        let rest = seasons.drop_last();
        let last = seasons.last();
        lemma_numbers_in_contains(rest, state, number);
        let kept = rest.filter_map(f);
        if spec_numbers_in(seasons, state).contains(number) {
            if f(last) == Some(number) {
                assert(seasons[seasons.len() - 1].season_number == number);
            } else {
                if f(last) is Some {
                    let grown = kept + seq![f(last)->0];
                    let at = choose|k: int| 0 <= k < grown.len() && grown[k] == number;
                    assert(at < kept.len());
                    assert(kept[at] == number);
                }
                assert(kept.contains(number));
                let i = choose|i: int|
                    0 <= i < rest.len() && (#[trigger] rest[i]).season_number == number && rest[i].spec_state()
                        == state;
                assert(seasons[i] == rest[i]);
            }
        }
        if exists|i: int|
            0 <= i < seasons.len() && (#[trigger] seasons[i]).season_number == number
                && seasons[i].spec_state() == state {
            let i = choose|i: int|
                0 <= i < seasons.len() && (#[trigger] seasons[i]).season_number == number
                    && seasons[i].spec_state() == state;
            if i == seasons.len() - 1 {
                let grown = kept + seq![number];
                assert(grown[kept.len() as int] == number);
            } else {
                assert(rest[i] == seasons[i]);
                assert(kept.contains(number));
                let at = choose|k: int| 0 <= k < kept.len() && kept[k] == number;
                if f(last) is Some {
                    let grown = kept + seq![f(last)->0];
                    assert(grown[at] == number);
                }
            }
        }
    }
}

/// Every season is listed under its own state.
pub proof fn lemma_partition_covers(seasons: Seq<SeasonAvailability>, i: int)
    requires
        0 <= i < seasons.len(),
    ensures
        spec_numbers_in(seasons, seasons[i].spec_state()).contains(seasons[i].season_number),
{
    lemma_numbers_in_contains(seasons, seasons[i].spec_state(), seasons[i].season_number);
}

/// Where no two seasons share a number, no number stands in two lists.
pub proof fn lemma_partition_disjoint(
    seasons: Seq<SeasonAvailability>,
    first: SeasonState,
    second: SeasonState,
    number: i32,
)
    requires
        forall|i: int, j: int|
            0 <= i < j < seasons.len() ==> (#[trigger] seasons[i]).season_number != (
            #[trigger] seasons[j]).season_number,
        first != second,
    ensures
        !(spec_numbers_in(seasons, first).contains(number) && spec_numbers_in(
            seasons,
            second,
        ).contains(number)),
{
    lemma_numbers_in_contains(seasons, first, number);
    lemma_numbers_in_contains(seasons, second, number);
}

/// Membership in `pool` as a function value.
pub open spec fn member_of(pool: Seq<i32>) -> spec_fn(i32) -> bool {
    |number: i32| pool.contains(number)
}

/// The requested seasons that stand in `pool`, in the order of the request.
pub open spec fn spec_requested_in(requested: Seq<i32>, pool: Seq<i32>) -> Seq<i32> {
    requested.filter(member_of(pool))
}

impl ClassificationView {
    /// The seasons that have finished airing, whether complete on disk or not.
    pub open spec fn finished(self) -> Seq<i32> {
        self.completed_incomplete + self.available
    }

    /// The requested seasons that are available.
    pub open spec fn available_requested(self, requested: Seq<i32>) -> Seq<i32> {
        spec_requested_in(requested, self.available)
    }

    /// The requested seasons that have finished airing.
    pub open spec fn completed_requested(self, requested: Seq<i32>) -> Seq<i32> {
        spec_requested_in(requested, self.finished())
    }

    /// The request is satisfied: some requested season has finished airing,
    /// and the requested seasons that have finished are the available ones.
    pub open spec fn fully_available(self, requested: Seq<i32>) -> bool {
        self.completed_requested(requested).len() > 0 && self.completed_requested(requested)
            == self.available_requested(requested)
    }
}

/// Tells whether `number` stands in `pool`.
pub fn contains_number(pool: &Vec<i32>, number: i32) -> (found: bool)
    ensures
        found == pool@.contains(number),
{
    let mut i: usize = 0;
    while i < pool.len()
        invariant
            i <= pool.len(),
            forall|j: int| 0 <= j < i ==> pool@[j] != number,
        decreases pool.len() - i,
    {
        if pool[i] == number {
            return true;
        }
        i += 1;
    }
    false
}

/// Keeps the requested seasons that stand in `first` or in `second`.
pub fn requested_in_either(requested: &Vec<i32>, first: &Vec<i32>, second: &Vec<i32>) -> (kept:
    Vec<i32>)
    ensures
        kept@ == spec_requested_in(requested@, first@ + second@),
{
    let ghost pool = first@ + second@;
    let mut kept: Vec<i32> = Vec::new();
    let mut i: usize = 0;
    while i < requested.len()
        invariant
            i <= requested.len(),
            pool == first@ + second@,
            kept@ == requested@.take(i as int).filter(member_of(pool)),
        decreases requested.len() - i,
    {
        let number = requested[i];
        let keep = contains_number(first, number) || contains_number(second, number);
        proof {
            requested@.lemma_take_succ_push(i as int);
            requested@.take(i as int).lemma_filter_push(number, member_of(pool));
            if first@.contains(number) {
                let at = choose|k: int| 0 <= k < first@.len() && first@[k] == number;
                assert(pool[at] == number);
            }
            if second@.contains(number) {
                let at = choose|k: int| 0 <= k < second@.len() && second@[k] == number;
                assert(pool[first@.len() + at] == number);
            }
            if pool.contains(number) {
                let at = choose|k: int| 0 <= k < pool.len() && pool[k] == number;
                if at < first@.len() {
                    assert(first@[at] == number);
                } else {
                    assert(second@[at - first@.len()] == number);
                }
            }
            assert(keep == member_of(pool)(number));
        }
        if keep {
            kept.push(number);
        }
        i += 1;
    }
    proof {
        assert(requested@.take(requested.len() as int) =~= requested@);
    }
    kept
}

/// Keeps the requested seasons that stand in `pool`.
pub fn requested_in(requested: &Vec<i32>, pool: &Vec<i32>) -> (kept: Vec<i32>)
    ensures
        kept@ == spec_requested_in(requested@, pool@),
{
    let none: Vec<i32> = Vec::new();
    let kept = requested_in_either(requested, pool, &none);
    proof {
        assert(pool@ + none@ =~= pool@);
    }
    kept
}

/// Tells whether two lists hold the same numbers in the same order.
pub fn same_numbers(left: &Vec<i32>, right: &Vec<i32>) -> (same: bool)
    ensures
        same == (left@ == right@),
{
    if left.len() != right.len() {
        return false;
    }
    let mut i: usize = 0;
    while i < left.len()
        invariant
            i <= left.len(),
            left.len() == right.len(),
            forall|j: int| 0 <= j < i ==> left@[j] == right@[j],
        decreases left.len() - i,
    {
        if left[i] != right[i] {
            return false;
        }
        i += 1;
    }
    proof {
        assert(left@ =~= right@);
    }
    true
}

impl Classification {
    /// The requested seasons that are available.
    pub fn available_requested(&self, requested: &Vec<i32>) -> (kept: Vec<i32>)
        ensures
            kept@ == self@.available_requested(requested@),
    {
        requested_in(requested, &self.available)
    }

    /// The requested seasons that have finished airing.
    pub fn completed_requested(&self, requested: &Vec<i32>) -> (kept: Vec<i32>)
        ensures
            kept@ == self@.completed_requested(requested@),
    {
        requested_in_either(requested, &self.completed_incomplete, &self.available)
    }

    /// Applies the rule of full availability: where the request is
    /// satisfied, gives the requested seasons that are available.
    pub fn full_availability(&self, requested: &Vec<i32>) -> (seasons: Option<Vec<i32>>)
        ensures
            seasons.deep_view() == if self@.fully_available(requested@) {
                Some(self@.available_requested(requested@))
            } else {
                None
            },
    {
        let available = self.available_requested(requested);
        let completed = self.completed_requested(requested);
        if completed.len() != 0 && same_numbers(&completed, &available) {
            assert(available.deep_view() =~= available@);
            Some(available)
        } else {
            None
        }
    }
}

/// Filtering by a narrower test keeps no more than filtering by a wider one,
/// and the two keep the same exactly when the tests agree on every element.
pub proof fn lemma_filter_narrower(
    s: Seq<i32>,
    wide: spec_fn(i32) -> bool,
    narrow: spec_fn(i32) -> bool,
)
    requires
        forall|x: i32| #[trigger] narrow(x) ==> wide(x),
    ensures
        s.filter(narrow).len() <= s.filter(wide).len(),
        (s.filter(wide) == s.filter(narrow)) <==> (forall|i: int|
            0 <= i < s.len() ==> wide(#[trigger] s[i]) == narrow(s[i])),
        s.filter(wide).len() > 0 <==> exists|i: int| 0 <= i < s.len() && wide(#[trigger] s[i]),
    decreases s.len(),
{
    reveal(Seq::filter);
    if s.len() > 0 {
        let rest = s.drop_last();
        let last = s.last();
        lemma_filter_narrower(rest, wide, narrow);
        assert(s =~= rest.push(last));
        rest.lemma_filter_push(last, wide);
        rest.lemma_filter_push(last, narrow);
        let w = rest.filter(wide);
        let n = rest.filter(narrow);
        assert forall|i: int| 0 <= i < rest.len() implies rest[i] == s[i] by {}
        if wide(last) == narrow(last) {
            if s.filter(wide) == s.filter(narrow) {
                if wide(last) {
                    assert(w =~= w.push(last).drop_last());
                    assert(n =~= n.push(last).drop_last());
                }
                assert(w == n);
                assert forall|i: int| 0 <= i < s.len() implies wide(#[trigger] s[i]) == narrow(
                    s[i],
                ) by {
                    if i < rest.len() {
                        assert(rest[i] == s[i]);
                    }
                }
            }
            if forall|i: int| 0 <= i < s.len() ==> wide(#[trigger] s[i]) == narrow(s[i]) {
                assert forall|i: int| 0 <= i < rest.len() implies wide(#[trigger] rest[i])
                    == narrow(rest[i]) by {
                    assert(rest[i] == s[i]);
                }
                assert(w == n);
            }
        } else {
            assert(wide(s[s.len() - 1]) != narrow(s[s.len() - 1]));
        }
        if wide(last) {
            assert(wide(s[s.len() - 1]));
        }
        if exists|i: int| 0 <= i < s.len() && wide(#[trigger] s[i]) {
            let i = choose|i: int| 0 <= i < s.len() && wide(#[trigger] s[i]);
            if i < rest.len() {
                assert(wide(rest[i]));
            }
        }
        if exists|i: int| 0 <= i < rest.len() && wide(#[trigger] rest[i]) {
            let i = choose|i: int| 0 <= i < rest.len() && wide(#[trigger] rest[i]);
            assert(wide(s[i]));
        }
    }
}

/// The rule of full availability in words: the request is satisfied exactly
/// when at least one requested season has finished airing and every
/// requested season that has finished airing is available.
pub proof fn lemma_fully_available_meaning(sorted: ClassificationView, requested: Seq<i32>)
    ensures
        sorted.fully_available(requested) <==> {
            &&& exists|i: int|
                0 <= i < requested.len() && sorted.finished().contains(#[trigger] requested[i])
            &&& forall|i: int|
                0 <= i < requested.len() && sorted.finished().contains(#[trigger] requested[i])
                    ==> sorted.available.contains(requested[i])
        },
{
    let wide = member_of(sorted.finished());
    let narrow = member_of(sorted.available);
    assert forall|x: i32| #[trigger] narrow(x) implies wide(x) by {
        let at = choose|k: int| 0 <= k < sorted.available.len() && sorted.available[k] == x;
        assert(sorted.finished()[sorted.completed_incomplete.len() + at] == x);
    }
    lemma_filter_narrower(requested, wide, narrow);
    if sorted.fully_available(requested) {
        assert forall|i: int|
            0 <= i < requested.len() && sorted.finished().contains(
                #[trigger] requested[i],
            ) implies sorted.available.contains(requested[i]) by {
            assert(wide(requested[i]) == narrow(requested[i]));
        }
        let i = choose|i: int| 0 <= i < requested.len() && wide(#[trigger] requested[i]);
        assert(sorted.finished().contains(requested[i]));
    }
    if (exists|i: int|
        0 <= i < requested.len() && sorted.finished().contains(#[trigger] requested[i]))
        && (forall|i: int|
        0 <= i < requested.len() && sorted.finished().contains(#[trigger] requested[i])
            ==> sorted.available.contains(requested[i])) {
        let i = choose|i: int|
            0 <= i < requested.len() && sorted.finished().contains(#[trigger] requested[i]);
        assert(wide(requested[i]));
        assert forall|i: int| 0 <= i < requested.len() implies wide(#[trigger] requested[i])
            == narrow(requested[i]) by {}
    }
}

} // verus!
