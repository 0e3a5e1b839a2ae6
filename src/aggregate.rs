//! Accumulation of job outcomes into the report. Each image name is settled
//! at most once: by one result or by one failure.
use vstd::prelude::*;
use crate::measure::{CompressionResult, JobFailure, ResultView};

verus! {

/// The image names of a sequence of results, in order.
pub open spec fn names(s: Seq<ResultView>) -> Seq<Seq<char>> {
    s.map_values(|r: ResultView| r.image_name)
}

/// No two results share an image name.
pub open spec fn distinct_names(s: Seq<ResultView>) -> bool {
    names(s).no_duplicates()
}

/// The results after submitting `r`, given those already held and the names
/// of the jobs that already failed: a result for a name that is already
/// settled is turned away, any other is appended.
pub open spec fn submit_spec(
    results: Seq<ResultView>,
    failed: Seq<Seq<char>>,
    r: ResultView,
) -> Seq<ResultView> {
    if names(results).contains(r.image_name) || failed.contains(r.image_name) {
        results
    } else {
        results.push(r)
    }
}

/// The results held after submitting `s`, one by one, to a fresh aggregator.
pub open spec fn collect(s: Seq<ResultView>) -> Seq<ResultView>
    decreases s.len(),
{
    if s.len() == 0 {
        Seq::empty()
    } else {
        submit_spec(collect(s.drop_last()), Seq::empty(), s.last())
    }
}

/// A job that produced no result, and why.
pub struct FailedJob {
    pub image_name: String,
    pub failure: JobFailure,
}

/// Collects the outcome of every job of a run.
pub struct MetricsAggregator {
    results: Vec<CompressionResult>,
    failures: Vec<FailedJob>,
}

/// The finalized, immutable collection of a run's results, in submission
/// order, at most one per image name.
pub struct Report {
    entries: Vec<CompressionResult>,
}

impl MetricsAggregator {
    /// The results submitted so far, in order.
    pub closed spec fn results(&self) -> Seq<ResultView> {
        self.results@.map_values(|r: CompressionResult| r@)
    }

    /// The names of the failed jobs recorded so far, in order.
    pub closed spec fn failed_names(&self) -> Seq<Seq<char>> {
        self.failures@.map_values(|f: FailedJob| f.image_name@)
    }

    /// The reasons of the failed jobs recorded so far, in order.
    pub closed spec fn failure_reasons(&self) -> Seq<JobFailure> {
        self.failures@.map_values(|f: FailedJob| f.failure)
    }

    /// Whether `name` already has a result or a failure.
    pub open spec fn settled(&self, name: Seq<char>) -> bool {
        names(self.results()).contains(name) || self.failed_names().contains(name)
    }

    #[verifier::type_invariant]
    spec fn inv(&self) -> bool {
        &&& distinct_names(self.results())
        &&& self.failed_names().no_duplicates()
        &&& forall|n: Seq<char>|
            #![trigger names(self.results()).contains(n), self.failed_names().contains(n)]
            !(names(self.results()).contains(n) && self.failed_names().contains(n))
    }

    /// An aggregator that holds nothing.
    pub fn new() -> (r: MetricsAggregator)
        ensures
            r.results() == Seq::<ResultView>::empty(),
            r.failed_names() == Seq::<Seq<char>>::empty(),
            r.failure_reasons() == Seq::<JobFailure>::empty(),
    {
        let r = MetricsAggregator { results: Vec::new(), failures: Vec::new() };
        proof {
            assert(r.results() =~= Seq::<ResultView>::empty());
            assert(r.failed_names() =~= Seq::<Seq<char>>::empty());
            assert(r.failure_reasons() =~= Seq::<JobFailure>::empty());
        }
        r
    }

    /// Whether `name` already has a result or a failure.
    pub fn is_settled(&self, name: &String) -> (r: bool)
        ensures
            r == self.settled(name@),
    {
        let mut i: usize = 0;
        while i < self.results.len()
            invariant
                i <= self.results@.len(),
                forall|k: int| 0 <= k < i ==> self.results@[k]@.image_name != name@,
            decreases self.results@.len() - i,
        {
            if self.results[i].image_name().eq(name) {
                proof {
                    assert(names(self.results())[i as int] == name@);
                }
                return true;
            }
            i = i + 1;
        }
        let mut j: usize = 0;
        while j < self.failures.len()
            invariant
                j <= self.failures@.len(),
                forall|k: int| 0 <= k < j ==> self.failures@[k].image_name@ != name@,
            decreases self.failures@.len() - j,
        {
            if self.failures[j].image_name.eq(name) {
                proof {
                    assert(self.failed_names()[j as int] == name@);
                }
                return true;
            }
            j = j + 1;
        }
        proof {
            assert(!names(self.results()).contains(name@));
            assert(!self.failed_names().contains(name@));
        }
        false
    }

    /// Inserts the result of a job whose name is not settled yet; returns
    /// whether it was inserted.
    pub fn submit(&mut self, r: CompressionResult) -> (accepted: bool)
        ensures
            accepted == !old(self).settled(r@.image_name),
            final(self).results() == submit_spec(
                old(self).results(),
                old(self).failed_names(),
                r@,
            ),
            final(self).failed_names() == old(self).failed_names(),
            final(self).failure_reasons() == old(self).failure_reasons(),
    {
        proof {
            use_type_invariant(&*self);
        }
        if self.is_settled(r.image_name()) {
            return false;
        }
        let ghost name = r@.image_name;
        let ghost before = self.results();
        let mut taken = MetricsAggregator::new();
        core::mem::swap(self, &mut taken);
        proof {
            use_type_invariant(&taken);
        }
        let MetricsAggregator { mut results, failures } = taken;
        results.push(r);
        let ghost after = results@.map_values(|c: CompressionResult| c@);
        proof {
            assert(after =~= before.push(r@));
            assert(names(after) =~= names(before).push(name));
            assert forall|n: Seq<char>| names(after).contains(n) implies (n == name || names(
                before,
            ).contains(n)) by {
                let k = choose|k: int| 0 <= k < names(after).len() && names(after)[k] == n;
                if k < names(before).len() {
                    assert(names(before)[k] == n);
                }
            }
        }
        *self = MetricsAggregator { results, failures };
        true
    }

    /// Records the failure of a job whose name is not settled yet; returns
    /// whether it was recorded.
    pub fn record_failure(&mut self, image_name: String, failure: JobFailure) -> (accepted: bool)
        ensures
            accepted == !old(self).settled(image_name@),
            final(self).results() == old(self).results(),
            accepted ==> final(self).failed_names() == old(self).failed_names().push(image_name@),
            accepted ==> final(self).failure_reasons() == old(self).failure_reasons().push(
                failure,
            ),
            !accepted ==> final(self).failed_names() == old(self).failed_names(),
            !accepted ==> final(self).failure_reasons() == old(self).failure_reasons(),
    {
        proof {
            use_type_invariant(&*self);
        }
        if self.is_settled(&image_name) {
            return false;
        }
        let ghost name = image_name@;
        let ghost before = self.failed_names();
        let ghost reasons = self.failure_reasons();
        let mut taken = MetricsAggregator::new();
        core::mem::swap(self, &mut taken);
        proof {
            use_type_invariant(&taken);
        }
        let MetricsAggregator { results, mut failures } = taken;
        failures.push(FailedJob { image_name, failure });
        let ghost after = failures@.map_values(|f: FailedJob| f.image_name@);
        proof {
            assert(after =~= before.push(name));
            assert(failures@.map_values(|f: FailedJob| f.failure) =~= reasons.push(failure));
            assert forall|n: Seq<char>| after.contains(n) implies (n == name || before.contains(
                n,
            )) by {
                let k = choose|k: int| 0 <= k < after.len() && after[k] == n;
                if k < before.len() {
                    assert(before[k] == n);
                }
            }
        }
        *self = MetricsAggregator { results, failures };
        true
    }

    /// How many jobs produced a result.
    pub fn succeeded(&self) -> (r: usize)
        ensures
            r == self.results().len(),
    {
        self.results.len()
    }

    /// How many jobs failed.
    pub fn failed(&self) -> (r: usize)
        ensures
            r == self.failed_names().len(),
    {
        self.failures.len()
    }

    /// The failed jobs, in the order they were recorded.
    pub fn failures(&self) -> (r: &Vec<FailedJob>)
        ensures
            r@.map_values(|f: FailedJob| f.image_name@) == self.failed_names(),
            r@.map_values(|f: FailedJob| f.failure) == self.failure_reasons(),
    {
        &self.failures
    }

    /// Ends the run: the report holds the submitted results, in order, no
    /// two with the same name.
    pub fn finalize(self) -> (r: Report)
        ensures
            r@ == self.results(),
            distinct_names(r@),
    {
        proof {
            use_type_invariant(&self);
        }
        Report { entries: self.results }
    }
}

impl View for Report {
    type V = Seq<ResultView>;

    closed spec fn view(&self) -> Seq<ResultView> {
        self.entries@.map_values(|r: CompressionResult| r@)
    }
}

impl Report {
    pub fn len(&self) -> (r: usize)
        ensures
            r == self@.len(),
    {
        self.entries.len()
    }

    /// The entry at `index`, in submission order.
    pub fn entry(&self, index: usize) -> (r: &CompressionResult)
        requires
            index < self@.len(),
        ensures
            r@ == self@[index as int],
    {
        &self.entries[index]
    }
}

/// Nothing is lost or duplicated: the results of distinct jobs, submitted
/// one by one to a fresh aggregator, are all kept, each once, in submission
/// order.
pub proof fn lemma_collect_keeps_all(s: Seq<ResultView>)
    requires
        distinct_names(s),
    ensures
        collect(s) == s,
    decreases s.len(),
{
    if s.len() > 0 {
        let prev = s.drop_last();
        assert(names(prev) =~= names(s).drop_last());
        assert(names(s).drop_last().no_duplicates()) by {
            assert forall|i: int, j: int|
                0 <= i < names(prev).len() && 0 <= j < names(prev).len() && i != j implies names(
                prev,
            )[i] != names(prev)[j] by {
                assert(names(prev)[i] == names(s)[i]);
                assert(names(prev)[j] == names(s)[j]);
            }
        }
        lemma_collect_keeps_all(prev);
        if names(prev).contains(s.last().image_name) {
            let k = choose|k: int| 0 <= k < names(prev).len() && names(prev)[k] == s.last().image_name;
            assert(names(s)[k] == names(s)[s.len() - 1]);
        }
        assert(prev.push(s.last()) =~= s);
    }
}

/// The report does not depend on the order in which workers finished: two
/// runs that each submit the results of the same distinct jobs, once each,
/// end with the same results, as many in each.
pub proof fn lemma_collect_order_independent(a: Seq<ResultView>, b: Seq<ResultView>)
    requires
        distinct_names(a),
        distinct_names(b),
        a.to_set() == b.to_set(),
    ensures
        collect(a).to_set() == collect(b).to_set(),
        collect(a).len() == collect(b).len(),
        collect(a).len() == a.len(),
{
    lemma_collect_keeps_all(a);
    lemma_collect_keeps_all(b);
    lemma_names_distinct_no_duplicates(a);
    lemma_names_distinct_no_duplicates(b);
    a.unique_seq_to_set();
    b.unique_seq_to_set();
}

/// Results with distinct names are distinct results.
proof fn lemma_names_distinct_no_duplicates(s: Seq<ResultView>)
    requires
        distinct_names(s),
    ensures
        s.no_duplicates(),
{
    assert forall|i: int, j: int| 0 <= i < s.len() && 0 <= j < s.len() && i != j implies s[i]
        != s[j] by {
        assert(names(s)[i] != names(s)[j]);
    }
}

} // verus!
