//! Enumeration of the BM1366 chips on the hashboard chain.
//!
//! After the discovery command goes out, the chips answer one by one with
//! their chip-id register. The answers are taken in order until the chain
//! has answered with as many BM1366 chips as expected, the response stream
//! ends, or the deadline passes; answers of other chip types, other
//! responses and undecodable frames are passed over. No BM1366 answer at all
//! is an error.
use vstd::prelude::*;

verus! {

/// A chip found on the chain.
#[derive(Debug, Clone, Copy)]
pub struct ChipInfo {
    pub chip_id: [u8; 2],
    pub core_count: u32,
    pub address: u8,
    pub supports_version_rolling: bool,
}

/// What arrived while waiting for the chips to answer.
#[derive(Debug, Clone, Copy)]
pub enum DiscoveryEvent {
    /// A chip answered with its chip-id register; `bm1366` tells whether
    /// it is a BM1366.
    ChipId { bm1366: bool, chip_id: [u8; 2], core_count: u32, address: u8 },
    /// Some other response.
    OtherResponse,
    /// A frame that could not be decoded.
    DecodeError,
    /// The response stream ended.
    StreamEnded,
    /// The discovery deadline passed.
    DeadlinePassed,
}

/// Why discovery failed.
#[derive(Debug, Clone, Copy, PartialEq, Eq, Structural)]
pub enum DiscoveryError {
    /// Not one BM1366 chip answered.
    NoChipsDiscovered,
}

/// The chip that an answering BM1366 is recorded as.
pub open spec fn chip_of(ev: DiscoveryEvent) -> ChipInfo {
    match ev {
        DiscoveryEvent::ChipId { chip_id, core_count, address, .. } => ChipInfo {
            chip_id,
            core_count,
            address,
            supports_version_rolling: true,
        },
        _ => ChipInfo {
            chip_id: [0u8, 0u8],
            core_count: 0,
            address: 0,
            supports_version_rolling: true,
        },
    }
}

/// Whether `ev` is a BM1366 answering.
pub open spec fn is_bm1366_answer(ev: DiscoveryEvent) -> bool {
    ev matches DiscoveryEvent::ChipId { bm1366: true, .. }
}

/// Whether `ev` ends the waiting.
pub open spec fn is_end(ev: DiscoveryEvent) -> bool {
    ev is StreamEnded || ev is DeadlinePassed
}

/// The state of a discovery: how many chips are expected, those found so
/// far, and whether the waiting has ended.
pub struct DiscoveryModel {
    pub expected: nat,
    pub chips: Seq<ChipInfo>,
    pub ended: bool,
}

/// A discovery that has not seen anything yet.
pub open spec fn initial(expected: nat) -> DiscoveryModel {
    DiscoveryModel { expected, chips: Seq::empty(), ended: false }
}

/// Whether a discovery in state `m` waits for more answers.
pub open spec fn waiting(m: DiscoveryModel) -> bool {
    !m.ended && m.chips.len() < m.expected
}

/// The state after `ev` arrives in state `m`.
pub open spec fn step(m: DiscoveryModel, ev: DiscoveryEvent) -> DiscoveryModel {
    if !waiting(m) {
        m
    } else if is_bm1366_answer(ev) {
        DiscoveryModel { chips: m.chips.push(chip_of(ev)), ..m }
    } else if is_end(ev) {
        DiscoveryModel { ended: true, ..m }
    } else {
        m
    }
}

/// The state after `events` arrive, in order, at a fresh discovery.
pub open spec fn run(expected: nat, events: Seq<DiscoveryEvent>) -> DiscoveryModel
    decreases events.len(),
{
    if events.len() == 0 {
        initial(expected)
    } else {
        step(run(expected, events.drop_last()), events.last())
    }
}

/// Whether the waiting ends somewhere in `events`.
pub open spec fn ends_in(events: Seq<DiscoveryEvent>) -> bool {
    exists|i: int| 0 <= i < events.len() && is_end(#[trigger] events[i])
}

/// The chips of the BM1366 answers in `events` before the first end.
pub open spec fn answers_before_end(events: Seq<DiscoveryEvent>) -> Seq<ChipInfo>
    decreases events.len(),
{
    if events.len() == 0 {
        Seq::empty()
    } else {
        let prev = answers_before_end(events.drop_last());
        if !ends_in(events.drop_last()) && is_bm1366_answer(events.last()) {
            prev.push(chip_of(events.last()))
        } else {
            prev
        }
    }
}

/// Waits for the chips on a chain to answer.
pub struct ChipDiscovery {
    expected: usize,
    chips: Vec<ChipInfo>,
    ended: bool,
}

impl View for ChipDiscovery {
    type V = DiscoveryModel;

    closed spec fn view(&self) -> DiscoveryModel {
        DiscoveryModel { expected: self.expected as nat, chips: self.chips@, ended: self.ended }
    }
}

impl ChipDiscovery {
    /// A discovery that expects `expected` chips.
    pub fn new(expected: usize) -> (res: Self)
        ensures
            res@ == initial(expected as nat),
    {
        ChipDiscovery { expected, chips: Vec::new(), ended: false }
    }

    /// Whether to wait for more answers: the waiting has not ended and fewer
    /// chips than expected have answered.
    pub fn wants_more(&self) -> (res: bool)
        ensures
            res == waiting(self@),
    {
        !self.ended && self.chips.len() < self.expected
    }

    /// The number of chips found so far.
    pub fn found(&self) -> (res: usize)
        ensures
            res == self@.chips.len(),
    {
        self.chips.len()
    }

    /// Takes in what arrived: a BM1366 answer is recorded, the end of the
    /// stream or the deadline ends the waiting, anything else is passed
    /// over; once the waiting is over nothing changes.
    pub fn observe(&mut self, ev: DiscoveryEvent)
        ensures
            final(self)@ == step(old(self)@, ev),
    {
        if !self.wants_more() {
            return;
        }
        match ev {
            DiscoveryEvent::ChipId { bm1366, chip_id, core_count, address } => {
                if bm1366 {
                    self.chips.push(
                        ChipInfo { chip_id, core_count, address, supports_version_rolling: true },
                    );
                }
            },
            DiscoveryEvent::StreamEnded | DiscoveryEvent::DeadlinePassed => {
                self.ended = true;
            },
            DiscoveryEvent::OtherResponse | DiscoveryEvent::DecodeError => {},
        }
    }

    /// The chips found, in the order they answered; an error if none did.
    pub fn finish(self) -> (res: Result<Vec<ChipInfo>, DiscoveryError>)
        ensures
            self@.chips.len() == 0 ==> res == Err::<Vec<ChipInfo>, DiscoveryError>(
                DiscoveryError::NoChipsDiscovered,
            ),
            self@.chips.len() > 0 ==> (res matches Ok(v) && v@ == self@.chips),
    {
        if self.chips.len() == 0 {
            Err(DiscoveryError::NoChipsDiscovered)
        } else {
            Ok(self.chips)
        }
    }
}

proof fn lemma_ends_in_push(events: Seq<DiscoveryEvent>, ev: DiscoveryEvent)
    ensures
        ends_in(events.push(ev)) == (ends_in(events) || is_end(ev)),
{
    if ends_in(events) {
        let i = choose|i: int| 0 <= i < events.len() && is_end(#[trigger] events[i]);
        assert(events.push(ev)[i] == events[i]);
    }
    if is_end(ev) {
        assert(events.push(ev)[events.len() as int] == ev);
    }
    if ends_in(events.push(ev)) && !is_end(ev) {
        let i = choose|i: int| 0 <= i < events.push(ev).len() && is_end(#[trigger] events.push(ev)[i]);
        assert(events.push(ev)[i] == events[i]);
    }
}

/// Whatever arrives, a discovery records exactly the first `expected`
/// BM1366 answers that came before the stream ended or the deadline passed,
/// in the order they came: never more chips than expected, never a chip of
/// another type, and the waiting ends as soon as the chain is complete.
pub proof fn lemma_run_records_first_answers(expected: nat, events: Seq<DiscoveryEvent>)
    ensures
        run(expected, events).expected == expected,
        run(expected, events).chips.len() <= expected,
        run(expected, events).chips.len() <= answers_before_end(events).len(),
        ends_in(events) ==> run(expected, events).ended || run(expected, events).chips.len()
            == expected,
        run(expected, events).chips == answers_before_end(events).take(
            run(expected, events).chips.len() as int,
        ),
        run(expected, events).chips.len() == expected || run(expected, events).chips
            == answers_before_end(events),
        run(expected, events).ended ==> ends_in(events),
        !ends_in(events) ==> !run(expected, events).ended,
    decreases events.len(),
{
    if events.len() > 0 {
        let prev_events = events.drop_last();
        let ev = events.last();
        lemma_run_records_first_answers(expected, prev_events);
        lemma_ends_in_push(prev_events, ev);
        assert(prev_events.push(ev) =~= events);
        let m = run(expected, prev_events);
        let a = answers_before_end(prev_events);
        let b = answers_before_end(events);
        assert(events.drop_last() == prev_events);
        assert(b == a || b == a.push(chip_of(ev)));
        if waiting(m) && is_bm1366_answer(ev) {
            assert(!ends_in(prev_events));
            assert(m.chips == a);
            assert(run(expected, events).chips =~= a.push(chip_of(ev)).take(
                (a.len() + 1) as int,
            ));
        } else if !waiting(m) {
            if m.chips.len() == expected {
                assert(b.take(m.chips.len() as int) =~= a.take(m.chips.len() as int));
            }
        }
    } else {
        assert(answers_before_end(events).take(0) =~= Seq::<ChipInfo>::empty());
    }
}

} // verus!
