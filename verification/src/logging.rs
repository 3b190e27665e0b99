//! The logging pipeline: producers turn `(level, message)` calls into
//! pre-formatted lines and enqueue them on a bounded channel; a single
//! consumer drains the channel and hands each line, in arrival order, to
//! the durable sink.
use vstd::prelude::*;
use vstd::string::StringExecFns;
use crate::channel::Channel;
use crate::channel::ReceiveOutcome;
use crate::channel::SendOutcome;
use crate::channel::spec_send_all;
use crate::channel::spec_send_outcome;
use crate::channel::spec_send_queue;
use crate::channel::lemma_send_all_in_order;
use crate::level::LogLevel;
use crate::level::spec_level_token;

verus! {

/// Capacity of the logging channel.
pub const LOG_CHANNEL_CAPACITY: usize = 1000;

/// The wire format of a log line: `[timestamp] [LEVEL] message`.
pub open spec fn spec_log_line(timestamp: Seq<char>, level: LogLevel, message: Seq<char>) -> Seq<char> {
    "["@ + timestamp + "] ["@ + spec_level_token(level) + "] "@ + message
}

/// Renders one record into its single immutable line of text.
pub fn format_line(timestamp: &str, level: LogLevel, message: &str) -> (r: String)
    ensures
        r@ == spec_log_line(timestamp@, level, message@),
{
    let mut line = String::new();
    line.append("[");
    line.append(timestamp);
    line.append("] [");
    line.append(level.token());
    line.append("] ");
    line.append(message);
    proof {
        assert(line@ =~= spec_log_line(timestamp@, level, message@));
    }
    line
}

/// Relies on `chrono::Local::now` and `chrono::DateTime::format`: the
/// current local time rendered as `YYYY-MM-DD HH:MM:SS.mmm`. Every field
/// is zero-padded to a fixed width and the year to at least four digits,
/// so the rendering is never shorter than 23 characters; its exact value
/// depends on the clock and is left unspecified.
#[verifier::external_body]
fn current_timestamp() -> (r: String)
    ensures
        r@.len() >= 23,
{
    chrono::Local::now().format("%Y-%m-%d %H:%M:%S%.3f").to_string()
}

/// Renders a record against the current clock: the line is the wire
/// format around some timestamp at least 23 characters long.
pub fn make_log_line(level: LogLevel, message: &str) -> (r: String)
    ensures
        exists|ts: Seq<char>| ts.len() >= 23 && r@ == spec_log_line(ts, level, message@),
{
    let ts = current_timestamp();
    let line = format_line(ts.as_str(), level, message);
    proof {
        assert(ts@.len() >= 23 && line@ == spec_log_line(ts@, level, message@));
    }
    line
}

/// The producer-facing logging pipeline, modelled as the bounded queue
/// of formatted lines sent and not yet drained by the consumer.
pub struct Logger {
    channel: Channel<String>,
}

impl Logger {
    /// The formatted lines queued between the producers and the consumer,
    /// oldest first.
    pub closed spec fn lines(&self) -> Seq<Seq<char>> {
        Seq::new(self.channel@.len(), |i: int| self.channel@[i]@)
    }

    /// The capacity of the underlying channel.
    pub closed spec fn spec_cap(&self) -> nat {
        self.channel.spec_cap()
    }

    /// Whether the producer side has been closed.
    pub closed spec fn spec_closed(&self) -> bool {
        self.channel.spec_closed()
    }

    /// The queue never exceeds the fixed capacity.
    pub closed spec fn inv(&self) -> bool {
        self.channel.inv()
    }

    /// Creates an open pipeline over a fresh channel of the fixed
    /// logging capacity.
    pub fn new() -> (r: Logger)
        ensures
            r.inv(),
            r.lines() == Seq::<Seq<char>>::empty(),
            r.spec_cap() == LOG_CHANNEL_CAPACITY,
            !r.spec_closed(),
    {
        let r = Logger { channel: Channel::new(LOG_CHANNEL_CAPACITY) };
        proof {
            assert(r.lines() =~= Seq::<Seq<char>>::empty());
        }
        r
    }

    /// Formats a record around the given timestamp and enqueues the
    /// resulting line.
    pub fn log_at(&mut self, timestamp: &str, level: LogLevel, message: &str) -> (r: SendOutcome)
        requires
            old(self).inv(),
        ensures
            final(self).inv(),
            final(self).spec_cap() == old(self).spec_cap(),
            final(self).spec_closed() == old(self).spec_closed(),
            r == spec_send_outcome::<Seq<char>>(
                old(self).lines(),
                old(self).spec_cap(),
                old(self).spec_closed(),
            ),
            final(self).lines() == spec_send_queue(
                old(self).lines(),
                old(self).spec_cap(),
                old(self).spec_closed(),
                spec_log_line(timestamp@, level, message@),
            ),
    {
        let line = format_line(timestamp, level, message);
        let ghost l = line@;
        let r = self.channel.send(line);
        proof {
            if !old(self).spec_closed() && old(self).lines().len() < old(self).spec_cap() {
                assert(self.lines() =~= old(self).lines().push(l));
            } else {
                assert(self.lines() =~= old(self).lines());
            }
        }
        r
    }

    /// Formats a record against the current clock and enqueues the
    /// resulting line. Whether the enqueue succeeds depends only on the
    /// state of the queue, never on the clock.
    pub fn log(&mut self, level: LogLevel, message: &str) -> (r: SendOutcome)
        requires
            old(self).inv(),
        ensures
            final(self).inv(),
            final(self).spec_cap() == old(self).spec_cap(),
            final(self).spec_closed() == old(self).spec_closed(),
            r == spec_send_outcome::<Seq<char>>(
                old(self).lines(),
                old(self).spec_cap(),
                old(self).spec_closed(),
            ),
            exists|ts: Seq<char>|
                ts.len() >= 23 && final(self).lines() == spec_send_queue(
                    old(self).lines(),
                    old(self).spec_cap(),
                    old(self).spec_closed(),
                    spec_log_line(ts, level, message@),
                ),
    {
        let ts = current_timestamp();
        let r = self.log_at(ts.as_str(), level, message);
        proof {
            assert(ts@.len() >= 23 && self.lines() == spec_send_queue(
                old(self).lines(),
                old(self).spec_cap(),
                old(self).spec_closed(),
                spec_log_line(ts@, level, message@),
            ));
        }
        r
    }

    /// Closes the producer side; lines already queued stay receivable.
    pub fn close(&mut self)
        requires
            old(self).inv(),
        ensures
            final(self).inv(),
            final(self).spec_cap() == old(self).spec_cap(),
            final(self).spec_closed(),
            final(self).lines() == old(self).lines(),
    {
        self.channel.close();
        proof {
            assert(self.lines() =~= old(self).lines());
        }
    }

    /// The consumer step: takes the oldest queued line, to be appended
    /// to the sink; reports end-of-stream once the pipeline is closed
    /// and drained.
    pub fn receive_line(&mut self) -> (r: ReceiveOutcome<String>)
        requires
            old(self).inv(),
        ensures
            final(self).inv(),
            final(self).spec_cap() == old(self).spec_cap(),
            final(self).spec_closed() == old(self).spec_closed(),
            old(self).lines().len() > 0 ==> (r matches ReceiveOutcome::Item(s)
                && s@ == old(self).lines()[0]) && final(self).lines() == old(self).lines().drop_first(),
            old(self).lines().len() == 0 && !old(self).spec_closed() ==> r
                == ReceiveOutcome::<String>::MustWait && final(self).lines() == old(self).lines(),
            old(self).lines().len() == 0 && old(self).spec_closed() ==> r
                == ReceiveOutcome::<String>::EndOfStream && final(self).lines() == old(self).lines(),
    {
        let r = self.channel.receive();
        proof {
            if old(self).lines().len() > 0 {
                assert(self.lines() =~= old(self).lines().drop_first());
            } else {
                assert(self.lines() =~= old(self).lines());
            }
        }
        r
    }

    /// Drains a closed pipeline: yields every queued line, oldest first,
    /// exactly as the single background consumer hands them to the sink.
    pub fn drain(&mut self) -> (r: Vec<String>)
        requires
            old(self).inv(),
            old(self).spec_closed(),
        ensures
            final(self).inv(),
            final(self).spec_closed(),
            final(self).lines().len() == 0,
            r@.len() == old(self).lines().len(),
            forall|i: int| 0 <= i < r@.len() ==> r@[i]@ == old(self).lines()[i],
    {
        let mut out: Vec<String> = Vec::new();
        loop
            invariant
                self.inv(),
                self.spec_closed(),
                self.spec_cap() == old(self).spec_cap(),
                out@.len() + self.lines().len() == old(self).lines().len(),
                forall|i: int| 0 <= i < out@.len() ==> out@[i]@ == old(self).lines()[i],
                forall|i: int|
                    0 <= i < self.lines().len() ==> self.lines()[i] == old(self).lines()[out@.len()
                        + i],
            ensures
                self.inv(),
                self.spec_closed(),
                self.spec_cap() == old(self).spec_cap(),
                self.lines().len() == 0,
                out@.len() == old(self).lines().len(),
                forall|i: int| 0 <= i < out@.len() ==> out@[i]@ == old(self).lines()[i],
            decreases self.lines().len() + 1,
        {
            match self.receive_line() {
                ReceiveOutcome::Item(s) => {
                    out.push(s);
                }
                ReceiveOutcome::MustWait => {
                    proof {
                        assert(false);
                    }
                }
                ReceiveOutcome::EndOfStream => {
                    break;
                }
            }
        }
        out
    }
}

/// The lines that a sequence of `(timestamp, level, message)` calls
/// renders, one per call, in call order.
pub open spec fn spec_lines_of(calls: Seq<(Seq<char>, LogLevel, Seq<char>)>) -> Seq<Seq<char>> {
    Seq::new(calls.len(), |i: int| spec_log_line(calls[i].0, calls[i].1, calls[i].2))
}

/// Sequential logging law: when records are logged one after another
/// into a pipeline with room for all of them, starting from an empty
/// queue, the queue handed to the sink holds exactly one line per call,
/// in call order, and each line is the wire format `[timestamp] [LEVEL]
/// message` of its own call.
pub proof fn lemma_sequential_logging(calls: Seq<(Seq<char>, LogLevel, Seq<char>)>, capacity: nat)
    requires
        calls.len() <= capacity,
    ensures
        spec_send_all(Seq::<Seq<char>>::empty(), capacity, spec_lines_of(calls)).len()
            == calls.len(),
        forall|i: int|
            0 <= i < calls.len() ==> spec_send_all(
                Seq::<Seq<char>>::empty(),
                capacity,
                spec_lines_of(calls),
            )[i] == spec_log_line(calls[i].0, calls[i].1, calls[i].2),
{
    lemma_send_all_in_order(Seq::<Seq<char>>::empty(), capacity, spec_lines_of(calls));
    assert(Seq::<Seq<char>>::empty() + spec_lines_of(calls) =~= spec_lines_of(calls));
}

} // verus!
