//! The clipboard watcher's decisions.
//!
//! The watcher polls the clipboard at a fixed interval. Reading the clipboard,
//! sleeping and the thread belong to the caller; what to do with each reading
//! is decided here: a reading is reported when it is not empty and differs
//! from the last one reported.

use vstd::prelude::*;

verus! {

/// The time between two readings of the clipboard, in milliseconds.
pub const POLL_INTERVAL_MS: u64 = 500;

/// Whether a reading is reported, given the last content reported. A failed
/// reading is `None`.
pub open spec fn reports(last: Seq<char>, reading: Option<Seq<char>>) -> bool {
    reading matches Some(text) && text.len() > 0 && text != last
}

/// The last content reported after a reading.
pub open spec fn last_after(last: Seq<char>, reading: Option<Seq<char>>) -> Seq<char> {
    if reports(last, reading) {
        reading->Some_0
    } else {
        last
    }
}

/// The contents reported for a series of readings, in order.
pub open spec fn reported(last: Seq<char>, readings: Seq<Option<Seq<char>>>) -> Seq<Seq<char>>
    decreases readings.len(),
{
    if readings.len() == 0 {
        Seq::empty()
    } else {
        let rest = reported(last_after(last, readings[0]), readings.drop_first());
        if reports(last, readings[0]) {
            seq![readings[0]->Some_0] + rest
        } else {
            rest
        }
    }
}

/// The view of an optional reading.
pub open spec fn reading_view(reading: Option<String>) -> Option<Seq<char>> {
    match reading {
        Some(text) => Some(text@),
        None => None,
    }
}

/// What the polling loop does next.
#[derive(Debug)]
pub enum WatcherAction {
    /// Leave the loop.
    Stop,
    /// Report the content as new, then wait for the next tick.
    Report(String),
    /// Wait for the next tick.
    Wait,
}

/// The watcher between two ticks: the last content it reported, empty at the
/// start.
#[derive(Debug)]
pub struct Watcher {
    pub last_clip: String,
}

impl Watcher {
    /// A watcher that has reported nothing yet.
    pub fn new() -> (watcher: Watcher)
        ensures
            watcher.last_clip@ == Seq::<char>::empty(),
    {
        Watcher { last_clip: String::new() }
    }

    /// Takes one reading of the clipboard. Returns the content to report if
    /// it is not empty and differs from the last one reported, and remembers
    /// it; otherwise returns `None` and remembers what it did before.
    pub fn observe(&mut self, reading: Option<String>) -> (change: Option<String>)
        ensures
            change is Some <==> reports(old(self).last_clip@, reading_view(reading)),
            change matches Some(text) ==> text@ == reading->Some_0@,
            final(self).last_clip@ == last_after(old(self).last_clip@, reading_view(reading)),
    {
        match reading {
            Some(current) => {
                if !current.as_str().is_empty() && current != self.last_clip {
                    let change = current.clone();
                    self.last_clip = current;
                    Some(change)
                } else {
                    None
                }
            },
            None => None,
        }
    }

    /// One tick of the polling loop: stop if asked to, and else report the
    /// reading or wait, as [`Watcher::observe`] decides.
    pub fn tick(&mut self, stop_requested: bool, reading: Option<String>) -> (action:
        WatcherAction)
        ensures
            stop_requested ==> action is Stop && final(self).last_clip@ == old(self).last_clip@,
            !stop_requested ==> {
                &&& final(self).last_clip@ == last_after(
                    old(self).last_clip@,
                    reading_view(reading),
                )
                &&& action is Report <==> reports(old(self).last_clip@, reading_view(reading))
                &&& action is Wait <==> !reports(old(self).last_clip@, reading_view(reading))
                &&& action matches WatcherAction::Report(text) ==> text@ == reading->Some_0@
            },
    {
        if stop_requested {
            WatcherAction::Stop
        } else {
            match self.observe(reading) {
                Some(text) => WatcherAction::Report(text),
                None => WatcherAction::Wait,
            }
        }
    }
}

/// Whatever was reported before, two readings of the same content in a row
/// are reported at most once, and exactly once where the content is not empty
/// and was not the last one reported.
pub proof fn lemma_repeated_reading_at_most_once(last: Seq<char>, text: Seq<char>)
    ensures
        reported(last, seq![Some(text), Some(text)]).len() <= 1,
        text.len() > 0 && text != last ==> reported(last, seq![Some(text), Some(text)])
            == seq![text],
{
    let readings = seq![Some(text), Some(text)];
    let after = last_after(last, Some(text));
    assert(readings.drop_first() =~= seq![Some(text)]);
    assert(seq![Some(text)].drop_first() =~= Seq::<Option<Seq<char>>>::empty());
    assert(reported(last_after(after, Some(text)), Seq::<Option<Seq<char>>>::empty())
        =~= Seq::<Seq<char>>::empty());
    assert(!reports(after, Some(text)));
    assert(reported(after, seq![Some(text)]) =~= Seq::<Seq<char>>::empty());
    if reports(last, Some(text)) {
        assert(reported(last, readings) =~= seq![text]);
    } else {
        assert(reported(last, readings) =~= Seq::<Seq<char>>::empty());
    }
}

/// A watcher that has reported nothing yet and reads the same content twice
/// in a row reports it exactly once, provided that it is not empty.
pub proof fn lemma_repeated_reading_reported_once(text: Seq<char>)
    requires
        text.len() > 0,
    ensures
        reported(Seq::<char>::empty(), seq![Some(text), Some(text)]) == seq![text],
{
    lemma_first_reading(text);
    lemma_repeated_reading_at_most_once(Seq::<char>::empty(), text);
}

/// Whatever was reported before, two readings of different contents, neither
/// empty and the first not the last one reported, are both reported, in
/// order.
pub proof fn lemma_distinct_readings_after(last: Seq<char>, first: Seq<char>, second: Seq<char>)
    requires
        first.len() > 0,
        second.len() > 0,
        first != second,
        first != last,
    ensures
        reported(last, seq![Some(first), Some(second)]) == seq![first, second],
{
    let readings = seq![Some(first), Some(second)];
    assert(readings.drop_first() =~= seq![Some(second)]);
    assert(seq![Some(second)].drop_first() =~= Seq::<Option<Seq<char>>>::empty());
    assert(reported(second, Seq::<Option<Seq<char>>>::empty()) =~= Seq::<Seq<char>>::empty());
    assert(reports(last, Some(first)));
    assert(reports(first, Some(second)));
    assert(reported(first, seq![Some(second)]) =~= seq![second]);
    assert(reported(last, readings) =~= seq![first, second]);
}

/// A watcher that has reported nothing yet and reads two different contents,
/// neither of them empty, reports both, in order.
pub proof fn lemma_distinct_readings_reported_twice(first: Seq<char>, second: Seq<char>)
    requires
        first.len() > 0,
        second.len() > 0,
        first != second,
    ensures
        reported(Seq::<char>::empty(), seq![Some(first), Some(second)]) == seq![first, second],
{
    lemma_first_reading(first);
    lemma_distinct_readings_after(Seq::<char>::empty(), first, second);
}

/// A watcher that has reported nothing yet reports its first reading exactly
/// if that is not empty.
pub proof fn lemma_first_reading(text: Seq<char>)
    ensures
        reports(Seq::<char>::empty(), Some(text)) <==> text.len() > 0,
{
}

} // verus!
