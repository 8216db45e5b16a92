use vstd::prelude::*;
use std::collections::VecDeque;
use std::time::Duration;

verus! {

/// Number of frame records kept by the tracker that the FPS tracker plugin installs.
pub const FPS_TRACKER_NUM_RECORDS: u8 = 30;

/// What `Duration::from_secs` returns for a number of seconds.
pub uninterp spec fn duration_from_secs(secs: u64) -> Duration;

/// The duration of `secs` seconds (`std::time::Duration::from_secs`).
#[verifier::external_body]
fn duration_from_secs_exec(secs: u64) -> (res: Duration)
    ensures
        res == duration_from_secs(secs),
{
    Duration::from_secs(secs)
}

/// Sum of a sequence of frame deltas.
pub open spec fn seq_sum(s: Seq<u64>) -> nat
    decreases s.len(),
{
    if s.len() == 0 {
        0
    } else {
        s[0] as nat + seq_sum(s.drop_first())
    }
}

proof fn lemma_sum_push(s: Seq<u64>, x: u64)
    ensures
        seq_sum(s.push(x)) == seq_sum(s) + x,
    decreases s.len(),
{
    if s.len() == 0 {
        assert(s.push(x).drop_first() =~= Seq::<u64>::empty());
        assert(seq_sum(Seq::<u64>::empty()) == 0);
        assert(seq_sum(s) == 0);
    } else {
        lemma_sum_push(s.drop_first(), x);
        assert(s.push(x).drop_first() =~= s.drop_first().push(x));
        assert(s.push(x)[0] == s[0]);
    }
}

/// The last `n` elements of `s` (all of `s` when it is shorter).
pub open spec fn keep_last(s: Seq<u64>, n: nat) -> Seq<u64> {
    if s.len() > n {
        s.skip(s.len() - n)
    } else {
        s
    }
}

/// Average delta of the records, in nanoseconds (0 without records).
pub open spec fn spec_average(records: Seq<u64>) -> nat {
    if records.len() == 0 {
        0
    } else {
        seq_sum(records) / records.len()
    }
}

/// The FPS estimate for an average delta: one second over the average, truncated to 16 bits (0 when the
/// average is 0).
pub open spec fn spec_fps(avg: nat) -> u16 {
    if avg == 0 {
        0
    } else {
        (1_000_000_000nat / avg) as u16
    }
}

/// Tracks frames per second from the last frame deltas.
pub struct FpsTracker {
    max_records: u8,
    delta_record_ns: VecDeque<u64>,
    total_delta_ns: u64,
    previous_time: Duration,
    current_time: Duration,
}

impl FpsTracker {
    /// The most records kept.
    pub closed spec fn max_records(&self) -> nat {
        self.max_records as nat
    }

    /// The recorded frame deltas in nanoseconds, oldest first.
    pub closed spec fn records(&self) -> Seq<u64> {
        self.delta_record_ns@
    }

    /// The sum of the recorded deltas.
    pub closed spec fn total(&self) -> nat {
        self.total_delta_ns as nat
    }

    pub closed spec fn previous(&self) -> Duration {
        self.previous_time
    }

    pub closed spec fn current(&self) -> Duration {
        self.current_time
    }

    /// The total is the sum of the records, and there are at most `max_records` of them.
    pub closed spec fn wf(&self) -> bool {
        &&& self.total_delta_ns as nat == seq_sum(self.delta_record_ns@)
        &&& self.delta_record_ns@.len() <= self.max_records as nat
    }

    /// Make a new tracker that keeps the last `max` frame deltas.
    pub fn new(max: u8) -> (res: FpsTracker)
        ensures
            res.wf(),
            res.max_records() == max,
            res.records() == Seq::<u64>::empty(),
            res.total() == 0,
            res.previous() == duration_from_secs(0),
            res.current() == duration_from_secs(0),
    {
        let mut new_tracker = FpsTracker {
            max_records: max,
            delta_record_ns: VecDeque::new(),
            total_delta_ns: 0u64,
            previous_time: duration_from_secs_exec(0),
            current_time: duration_from_secs_exec(0),
        };
        new_tracker.delta_record_ns.reserve((max as usize) + 1);
        new_tracker
    }

    /// Average delta recorded, in nanoseconds (0 without records).
    pub fn average_delta_nanoseconds(&self) -> (res: u64)
        requires
            self.wf(),
        ensures
            res == spec_average(self.records()),
    {
        let n = self.delta_record_ns.len();
        if n == 0 {
            0u64
        } else {
            self.total_delta_ns / (n as u64)
        }
    }

    /// FPS estimate: one second over the average delta, truncated to 16 bits; 0 when the average is 0.
    pub fn fps(&self) -> (res: u16)
        requires
            self.wf(),
        ensures
            res == spec_fps(spec_average(self.records())),
    {
        let avg = self.average_delta_nanoseconds();
        match 1_000_000_000u64.checked_div(avg) {
            Some(rate) => rate as u16,
            None => 0,
        }
    }

    /// The time of the update before the last one.
    pub fn previous_time(&self) -> (res: Duration)
        ensures
            res == self.previous(),
    {
        self.previous_time
    }

    /// The time of the last update.
    pub fn current_time(&self) -> (res: Duration)
        ensures
            res == self.current(),
    {
        self.current_time
    }

    /// The sum of the recorded deltas, in nanoseconds.
    pub fn total_delta_nanoseconds(&self) -> (res: u64)
        ensures
            res == self.total(),
    {
        self.total_delta_ns
    }

    /// Update the tracker with a new frame delta (in nanoseconds) and the current time: the delta is recorded, the
    /// oldest records beyond `max_records` are dropped, and the current time becomes the previous one.
    pub fn update(&mut self, delta_ns: u64, current_time: Duration)
        requires
            old(self).wf(),
            old(self).total() + delta_ns <= u64::MAX,
        ensures
            final(self).wf(),
            final(self).max_records() == old(self).max_records(),
            final(self).records() == keep_last(old(self).records().push(delta_ns), old(self).max_records()),
            final(self).total() == seq_sum(final(self).records()),
            final(self).previous() == old(self).current(),
            final(self).current() == current_time,
    {
        // 1. add new record
        proof {
            lemma_sum_push(self.delta_record_ns@, delta_ns);
        }
        self.delta_record_ns.push_back(delta_ns);
        self.total_delta_ns = self.total_delta_ns + delta_ns;

        // 2. update current time
        self.previous_time = self.current_time;
        self.current_time = current_time;

        // 3. remove excess records
        let ghost full = self.delta_record_ns@;
        while self.delta_record_ns.len() > (self.max_records as usize)
            invariant
                self.total_delta_ns as nat == seq_sum(self.delta_record_ns@),
                self.max_records == old(self).max_records,
                self.previous_time == old(self).current_time,
                self.current_time == current_time,
                full == old(self).delta_record_ns@.push(delta_ns),
                self.delta_record_ns@.len() <= full.len(),
                self.delta_record_ns@ == full.skip(full.len() - self.delta_record_ns@.len()),
                self.delta_record_ns@.len() >= self.max_records as nat || self.delta_record_ns@ == full,
            decreases self.delta_record_ns@.len(),
        {
            let front = self.delta_record_ns[0];
            let ghost s = self.delta_record_ns@;
            self.total_delta_ns = self.total_delta_ns - front;
            self.delta_record_ns.pop_front();
            assert(self.delta_record_ns@ =~= s.drop_first());
            assert(full.skip(full.len() - s.len()).drop_first() =~= full.skip(full.len() - (s.len() - 1)));
        }
        proof {
            if full.len() <= old(self).max_records as nat {
                assert(full.skip(0) =~= full);
            }
        }
    }
}

} // verus!
