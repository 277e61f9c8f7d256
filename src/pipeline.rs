//! The coordinator's bookkeeping. The coordinator polls two channels: one
//! from the parser (claims, parse errors, end of input) and one from the
//! workers (per-claim results). Each message is handed to this state
//! machine, which says what to do next and keeps the line accounting.

use vstd::prelude::*;

verus! {

/// What the parser sends for each admitted line, and once at the end.
#[derive(Debug, Clone, Copy, PartialEq, Eq, Structural)]
pub enum Admission {
    Claim,
    ParseError,
    EndOfFile,
}

/// What a worker reports for a claim.
#[derive(Debug, Clone, Copy, PartialEq, Eq, Structural)]
pub enum Outcome {
    /// The claim was priced and its AR record appended to the store.
    Completed,
    /// Validation or the payer failed; nothing was appended.
    Failed,
}

/// What the coordinator does after an admission message.
#[derive(Debug, Clone, Copy, PartialEq, Eq, Structural)]
pub enum Action {
    /// Hand the claim to the worker pool.
    Dispatch,
    /// Nothing to hand on.
    Nothing,
}

/// A message that the protocol does not allow; the coordinator stops with
/// an error.
#[derive(Debug, Clone, Copy, PartialEq, Eq, Structural)]
pub enum ProtocolError {
    /// The parser sent something after its end of input.
    AfterEndOfFile,
    /// A worker reported a result while no claim was in flight.
    UnexpectedResult,
    /// A counter would pass its largest value.
    CounterOverflow,
}

/// The coordinator's counters. `admitted` counts the lines the parser has
/// reported (claims and parse errors); `completed` counts the results that
/// appended an AR record.
pub struct Coordinator {
    pub admitted: u64,
    pub active: u64,
    pub processed: u64,
    pub parse_errors: u64,
    pub completed: u64,
    pub parsing_complete: bool,
}

impl Coordinator {
    /// Every admitted line is either in flight, processed, or counted as a
    /// parse error, and only processed claims appended records.
    pub open spec fn wf(&self) -> bool {
        &&& self.processed + self.active + self.parse_errors == self.admitted
        &&& self.completed <= self.processed
    }

    /// Parsing is over and no claim is in flight.
    pub open spec fn finished(&self) -> bool {
        self.parsing_complete && self.active == 0
    }

    /// The counters as a tuple: admitted, active, processed, parse errors,
    /// completed, parsing complete.
    pub open spec fn counts(&self) -> (u64, u64, u64, u64, u64, bool) {
        (
            self.admitted,
            self.active,
            self.processed,
            self.parse_errors,
            self.completed,
            self.parsing_complete,
        )
    }

    pub open spec fn counts_after_claim(&self) -> (u64, u64, u64, u64, u64, bool) {
        (
            (self.admitted + 1) as u64,
            (self.active + 1) as u64,
            self.processed,
            self.parse_errors,
            self.completed,
            false,
        )
    }

    pub open spec fn counts_after_parse_error(&self) -> (u64, u64, u64, u64, u64, bool) {
        (
            (self.admitted + 1) as u64,
            self.active,
            self.processed,
            (self.parse_errors + 1) as u64,
            self.completed,
            false,
        )
    }

    pub open spec fn counts_after_end_of_file(&self) -> (u64, u64, u64, u64, u64, bool) {
        (self.admitted, self.active, self.processed, self.parse_errors, self.completed, true)
    }

    pub open spec fn counts_after_result(&self, outcome: Outcome) -> (u64, u64, u64, u64, u64, bool) {
        (
            self.admitted,
            (self.active - 1) as u64,
            (self.processed + 1) as u64,
            self.parse_errors,
            (self.completed + if outcome == Outcome::Completed { 1int } else { 0 }) as u64,
            self.parsing_complete,
        )
    }

    pub fn new() -> (r: Coordinator)
        ensures
            r.wf(),
            r.admitted == 0 && r.active == 0 && r.processed == 0 && r.parse_errors == 0
                && r.completed == 0 && !r.parsing_complete,
    {
        Coordinator {
            admitted: 0,
            active: 0,
            processed: 0,
            parse_errors: 0,
            completed: 0,
            parsing_complete: false,
        }
    }

    /// Take one message from the parser. A claim is dispatched and counted
    /// in flight; a parse error is counted; the end of input closes parsing.
    /// Nothing may follow the end of input.
    pub fn on_admission(&mut self, msg: Admission) -> (r: Result<Action, ProtocolError>)
        requires
            old(self).wf(),
        ensures
            final(self).wf(),
            old(self).parsing_complete ==> r == Err::<Action, ProtocolError>(
                ProtocolError::AfterEndOfFile,
            ) && *final(self) == *old(self),
            !old(self).parsing_complete && old(self).admitted == u64::MAX && msg != Admission::EndOfFile
                ==> r == Err::<Action, ProtocolError>(ProtocolError::CounterOverflow) && *final(self)
                == *old(self),
            r is Ok ==> match msg {
                Admission::Claim => r == Ok::<Action, ProtocolError>(Action::Dispatch)
                    && final(self).counts() == old(self).counts_after_claim(),
                Admission::ParseError => r == Ok::<Action, ProtocolError>(Action::Nothing)
                    && final(self).counts() == old(self).counts_after_parse_error(),
                Admission::EndOfFile => r == Ok::<Action, ProtocolError>(Action::Nothing)
                    && final(self).counts() == old(self).counts_after_end_of_file(),
            },
            !old(self).parsing_complete && (old(self).admitted < u64::MAX || msg
                == Admission::EndOfFile) ==> r is Ok,
    {
        if self.parsing_complete {
            return Err(ProtocolError::AfterEndOfFile);
        }
        match msg {
            Admission::Claim => {
                if self.admitted == u64::MAX {
                    return Err(ProtocolError::CounterOverflow);
                }
                self.admitted = self.admitted + 1;
                self.active = self.active + 1;
                Ok(Action::Dispatch)
            },
            Admission::ParseError => {
                if self.admitted == u64::MAX {
                    return Err(ProtocolError::CounterOverflow);
                }
                self.admitted = self.admitted + 1;
                self.parse_errors = self.parse_errors + 1;
                Ok(Action::Nothing)
            },
            Admission::EndOfFile => {
                self.parsing_complete = true;
                Ok(Action::Nothing)
            },
        }
    }

    /// Take one result from a worker: the claim leaves flight and counts as
    /// processed, and as completed when it appended a record. A result with
    /// no claim in flight is refused.
    pub fn on_result(&mut self, outcome: Outcome) -> (r: Result<(), ProtocolError>)
        requires
            old(self).wf(),
        ensures
            final(self).wf(),
            r is Ok <==> old(self).active > 0,
            r is Err ==> *final(self) == *old(self),
            r is Ok ==> final(self).counts() == old(self).counts_after_result(outcome),
    {
        if self.active == 0 {
            return Err(ProtocolError::UnexpectedResult);
        }
        self.active = self.active - 1;
        self.processed = self.processed + 1;
        if outcome == Outcome::Completed {
            self.completed = self.completed + 1;
        }
        Ok(())
    }

    /// Whether the main loop may stop. When it may, every admitted line has
    /// been accounted for exactly once.
    pub fn is_finished(&self) -> (r: bool)
        requires
            self.wf(),
        ensures
            r == self.finished(),
            r ==> self.processed + self.parse_errors == self.admitted,
    {
        self.parsing_complete && self.active == 0
    }
}

/// Line accounting: once parsing is over and nothing is in flight, the
/// processed claims and the parse errors together number the admitted
/// lines, and the records appended to the store number at most the
/// processed claims.
pub proof fn lemma_line_accounting(c: Coordinator)
    requires
        c.wf(),
        c.finished(),
    ensures
        c.processed + c.parse_errors == c.admitted,
        c.completed <= c.processed,
{
}

} // verus!
