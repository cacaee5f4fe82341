use vstd::prelude::*;

verus! {

/// A line of the widget's log.
#[derive(Clone, Copy, Debug, PartialEq, Eq, Structural)]
pub enum LogEntry {
    IntervalStarted,
    Canceled,
    Done,
}

impl LogEntry {
    /// The text shown for this entry.
    pub open spec fn text_spec(self) -> Seq<char> {
        match self {
            LogEntry::IntervalStarted => "Interval started"@,
            LogEntry::Canceled => "canceled"@,
            LogEntry::Done => "Done"@,
        }
    }

    pub fn text(&self) -> (r: &'static str)
        ensures
            r@ == self.text_spec(),
    {
        match self {
            LogEntry::IntervalStarted => "Interval started",
            LogEntry::Canceled => "canceled",
            LogEntry::Done => "Done",
        }
    }
}

} // verus!
