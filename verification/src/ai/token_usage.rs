//! Tokens spent per request, and the running totals.

use vstd::prelude::*;

verus! {

/// Tokens one request spent, with the provider and model that served it.
#[derive(Debug, Clone, Default)]
pub struct UsageRecord {
    pub provider_id: String,
    pub model: String,
    pub input_tokens: u64,
    pub output_tokens: u64,
}

/// A usage record as characters and counts.
pub ghost struct UsageView {
    pub provider_id: Seq<char>,
    pub model: Seq<char>,
    pub input_tokens: u64,
    pub output_tokens: u64,
}

impl View for UsageRecord {
    type V = UsageView;

    open spec fn view(&self) -> UsageView {
        UsageView {
            provider_id: self.provider_id@,
            model: self.model@,
            input_tokens: self.input_tokens,
            output_tokens: self.output_tokens,
        }
    }
}

/// The input tokens of all records.
pub open spec fn sum_input(rs: Seq<UsageView>) -> nat
    decreases rs.len(),
{
    if rs.len() == 0 {
        0
    } else {
        sum_input(rs.drop_last()) + rs.last().input_tokens as nat
    }
}

/// The output tokens of all records.
pub open spec fn sum_output(rs: Seq<UsageView>) -> nat
    decreases rs.len(),
{
    if rs.len() == 0 {
        0
    } else {
        sum_output(rs.drop_last()) + rs.last().output_tokens as nat
    }
}

/// A copy of a record.
fn copy_record(r: &UsageRecord) -> (c: UsageRecord)
    ensures
        c@ == r@,
{
    UsageRecord {
        provider_id: r.provider_id.clone(),
        model: r.model.clone(),
        input_tokens: r.input_tokens,
        output_tokens: r.output_tokens,
    }
}

/// Keeps every usage record and the totals over them.
pub struct TokenUsageTracker {
    records: Vec<UsageRecord>,
    total_input: u64,
    total_output: u64,
}

impl TokenUsageTracker {
    /// The totals are the sums over the records.
    #[verifier::type_invariant]
    closed spec fn wf(self) -> bool {
        &&& self.total_input == sum_input(self.history_view())
        &&& self.total_output == sum_output(self.history_view())
    }

    /// The records, oldest first.
    pub closed spec fn history_view(&self) -> Seq<UsageView> {
        self.records@.map_values(|r: UsageRecord| r@)
    }

    /// A tracker with no records.
    pub fn new() -> (r: Self)
        ensures
            r.history_view() == Seq::<UsageView>::empty(),
    {
        let r = TokenUsageTracker { records: Vec::new(), total_input: 0, total_output: 0 };
        assert(r.history_view() =~= Seq::<UsageView>::empty());
        r
    }

    /// Adds a record; the totals must stay within `u64`.
    pub fn record(&mut self, record: UsageRecord)
        requires
            sum_input(old(self).history_view()) + record.input_tokens <= u64::MAX,
            sum_output(old(self).history_view()) + record.output_tokens <= u64::MAX,
        ensures
            final(self).history_view() == old(self).history_view().push(record@),
    {
        proof {
            use_type_invariant(&*self);
        }
        let ghost rv = record@;
        let ghost prev = self.history_view();
        let mut whole = TokenUsageTracker::new();
        std::mem::swap(&mut whole, self);
        let TokenUsageTracker { mut records, total_input, total_output } = whole;
        let input = total_input + record.input_tokens;
        let output = total_output + record.output_tokens;
        records.push(record);
        assert(records@.map_values(|r: UsageRecord| r@) =~= prev.push(rv));
        assert(prev.push(rv).drop_last() =~= prev);
        *self = TokenUsageTracker { records, total_input: input, total_output: output };
    }

    /// The input and output tokens of all records.
    pub fn totals(&self) -> (r: (u64, u64))
        ensures
            r.0 == sum_input(self.history_view()),
            r.1 == sum_output(self.history_view()),
    {
        proof {
            use_type_invariant(self);
        }
        (self.total_input, self.total_output)
    }

    /// A copy of the records, oldest first.
    pub fn history(&self) -> (h: Vec<UsageRecord>)
        ensures
            h@.map_values(|r: UsageRecord| r@) == self.history_view(),
    {
        let mut out: Vec<UsageRecord> = Vec::new();
        let mut i: usize = 0;
        while i < self.records.len()
            invariant
                i <= self.records@.len(),
                out@.map_values(|r: UsageRecord| r@) == self.records@.map_values(
                    |r: UsageRecord| r@,
                ).take(i as int),
            decreases self.records.len() - i,
        {
            let ghost prev = out@;
            let c = copy_record(&self.records[i]);
            let ghost cv = c@;
            out.push(c);
            assert(out@.map_values(|r: UsageRecord| r@) =~= prev.map_values(|r: UsageRecord| r@).push(cv));
            assert(self.records@.map_values(|r: UsageRecord| r@).take(i + 1) =~= self.records@.map_values(
                |r: UsageRecord| r@,
            ).take(i as int).push(cv));
            i = i + 1;
        }
        assert(self.records@.map_values(|r: UsageRecord| r@).take(i as int) =~= self.history_view());
        out
    }

    /// Forgets every record.
    pub fn reset(&mut self)
        ensures
            final(self).history_view() == Seq::<UsageView>::empty(),
    {
        let r = TokenUsageTracker { records: Vec::new(), total_input: 0, total_output: 0 };
        assert(r.history_view() =~= Seq::<UsageView>::empty());
        *self = r;
    }
}

impl Default for TokenUsageTracker {
    fn default() -> (r: Self)
        ensures
            r.history_view() == Seq::<UsageView>::empty(),
    {
        TokenUsageTracker::new()
    }
}

/// Recording a request adds its tokens to the totals.
pub proof fn lemma_record_adds(h: Seq<UsageView>, r: UsageView)
    ensures
        sum_input(h.push(r)) == sum_input(h) + r.input_tokens,
        sum_output(h.push(r)) == sum_output(h) + r.output_tokens,
{
    assert(h.push(r).drop_last() =~= h);
}

} // verus!
