//! The decisions of the liveness prober.
//!
//! A batch of candidate addresses is probed by the caller, all at once and
//! each with the same timeout. The functions here say where a probe goes,
//! which outcome counts as alive, and which addresses a batch returns.

use vstd::prelude::*;

verus! {

/// The path that a probe asks for, below the candidate's base address.
pub const PROBE_PATH: &'static str = "/v1/models";

/// The time that one probe may take, in milliseconds.
pub const PROBE_TIMEOUT_MILLIS: u64 = 2500;

/// How one probe ended.
#[derive(Structural, PartialEq, Eq, Clone, Copy, Debug)]
pub enum ProbeOutcome {
    /// The candidate answered with this status.
    Status(u16),
    /// The candidate did not answer in time.
    TimedOut,
    /// The candidate could not be reached.
    Unreachable,
}

/// A candidate address with the outcome of its probe.
#[derive(PartialEq, Eq, Clone, Debug)]
pub struct ProbeResult {
    pub address: String,
    pub outcome: ProbeOutcome,
}

/// A `ProbeResult` as a mathematical value.
pub ghost struct ProbeResultView {
    pub address: Seq<char>,
    pub outcome: ProbeOutcome,
}

impl View for ProbeResult {
    type V = ProbeResultView;

    open spec fn view(&self) -> ProbeResultView {
        ProbeResultView { address: self.address@, outcome: self.outcome }
    }
}

/// Whether `status` is one of the success statuses, 200 to 299.
pub open spec fn is_success_status(status: u16) -> bool {
    200 <= status < 300
}

/// Decides whether `status` is one of the success statuses.
pub fn status_is_success(status: u16) -> (r: bool)
    ensures
        r == is_success_status(status),
{
    200 <= status && status < 300
}

impl ProbeOutcome {
    /// Whether the outcome shows a live instance: an answer with a success
    /// status, and nothing else.
    pub open spec fn is_live(self) -> bool {
        match self {
            ProbeOutcome::Status(status) => is_success_status(status),
            ProbeOutcome::TimedOut => false,
            ProbeOutcome::Unreachable => false,
        }
    }

    /// Decides whether the outcome shows a live instance.
    pub fn live(self) -> (r: bool)
        ensures
            r == self.is_live(),
    {
        match self {
            ProbeOutcome::Status(status) => status_is_success(status),
            ProbeOutcome::TimedOut => false,
            ProbeOutcome::Unreachable => false,
        }
    }
}

/// The URL that the probe of `address` asks for.
pub open spec fn probe_url_spec(address: Seq<char>) -> Seq<char> {
    address + PROBE_PATH@
}

/// The URL that the probe of `address` asks for.
pub fn probe_url(address: &str) -> (url: String)
    ensures
        url@ == probe_url_spec(address@),
{
    let mut url = String::from_str(address);
    url.append(PROBE_PATH);
    url
}

/// The address of `result` where its probe found a live instance.
pub open spec fn live_address(result: ProbeResultView) -> Option<Seq<char>> {
    if result.outcome.is_live() {
        Some(result.address)
    } else {
        None
    }
}

/// The results of a batch as mathematical values.
pub open spec fn views_of(results: Seq<ProbeResult>) -> Seq<ProbeResultView> {
    results.map_values(|result: ProbeResult| result@)
}

/// The addresses of `results` whose probes found a live instance, in the
/// order of `results`.
pub open spec fn live_addresses_spec(results: Seq<ProbeResultView>) -> Seq<Seq<char>> {
    results.filter_map(|result: ProbeResultView| live_address(result))
}

/// The addresses of `results` whose probes found a live instance.
pub fn live_addresses(results: &Vec<ProbeResult>) -> (live: Vec<String>)
    ensures
        live.deep_view() == live_addresses_spec(views_of(results@)),
{
    let ghost all = views_of(results@);
    let ghost pick = |result: ProbeResultView| live_address(result);
    let mut live: Vec<String> = Vec::new();
    let mut i: usize = 0;
    while i < results.len()
        invariant
            i <= results.len(),
            all == views_of(results@),
            pick == |result: ProbeResultView| live_address(result),
            live.deep_view() == all.take(i as int).filter_map(pick),
        decreases results.len() - i,
    {
        proof {
            all.lemma_filter_map_take_succ(pick, i as int);
        }
        if results[i].outcome.live() {
            live.push(results[i].address.clone());
        }
        i += 1;
    }
    assert(all.take(results.len() as int) == all);
    live
}

/// A batch returns no address but those of its live results.
pub proof fn lemma_live_addresses_sound(results: Seq<ProbeResultView>, address: Seq<char>)
    requires
        live_addresses_spec(results).contains(address),
    ensures
        exists|i: int|
            0 <= i < results.len() && (#[trigger] results[i]).address == address
                && results[i].outcome.is_live(),
{
    let pick = |result: ProbeResultView| live_address(result);
    results.lemma_filter_map_contains(pick, address);
    let found = choose|result: ProbeResultView| #[trigger]
        results.contains(result) && pick(result) == Some(address);
    let i = choose|i: int| 0 <= i < results.len() && results[i] == found;
    assert(results[i].address == address && results[i].outcome.is_live());
}

/// A batch returns the address of each of its live results.
pub proof fn lemma_live_addresses_complete(results: Seq<ProbeResultView>, i: int)
    requires
        0 <= i < results.len(),
        results[i].outcome.is_live(),
    ensures
        live_addresses_spec(results).contains(results[i].address),
    decreases results.len(),
{
    let pick = |result: ProbeResultView| live_address(result);
    let rest = results.drop_last();
    let kept = rest.filter_map(pick);
    if i == results.len() - 1 {
        let all = kept + seq![results[i].address];
        assert(all[kept.len() as int] == results[i].address);
    } else {
        lemma_live_addresses_complete(rest, i);
        let k = choose|k: int| 0 <= k < kept.len() && kept[k] == rest[i].address;
        assert(live_addresses_spec(results)[k] == results[i].address);
    }
}

} // verus!
