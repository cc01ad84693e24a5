//! The relay between a client and its upstream once the handshake is done.
//!
//! Bytes are copied both ways at once. Each direction runs until its source
//! ends or an operation fails, and then closes the write side of its
//! destination, so that the peer sees the end of the stream. The relay is over
//! when both directions are.

use vstd::prelude::*;
use crate::error::IoFailure;

verus! {

/// One of the two ways in which bytes flow.
#[derive(Clone, Copy, Debug, PartialEq, Eq)]
pub enum Direction {
    /// From the client to the upstream.
    Upload,
    /// From the upstream to the client.
    Download,
}

/// One of the two sockets of a relay.
#[derive(Clone, Copy, Debug, PartialEq, Eq)]
pub enum Side {
    Client,
    Upstream,
}

impl Direction {
    /// The socket that the direction writes to.
    pub open spec fn spec_destination(self) -> Side {
        match self {
            Direction::Upload => Side::Upstream,
            Direction::Download => Side::Client,
        }
    }

    /// The socket that the direction writes to.
    pub fn destination(self) -> (side: Side)
        ensures
            side == self.spec_destination(),
    {
        match self {
            Direction::Upload => Side::Upstream,
            Direction::Download => Side::Client,
        }
    }
}

/// How far one direction has come.
#[derive(Clone, Copy, Debug, PartialEq, Eq)]
pub enum Flow {
    /// Still copying.
    Copying,
    /// Stopped: at the end of its source after so many bytes, or on a failure.
    Ended(Result<u64, IoFailure>),
}

/// How a relay ends: the bytes uploaded and downloaded, or the failure of a
/// direction.
pub type Outcome = Result<(u64, u64), IoFailure>;

/// The outcome of a relay whose two directions ended as given: the two counts
/// if both reached the end of their source, else the failure, that of the
/// upload where both failed.
pub open spec fn spec_join(upload: Result<u64, IoFailure>, download: Result<u64, IoFailure>)
    -> Outcome {
    match (upload, download) {
        (Ok(uploaded), Ok(downloaded)) => Ok((uploaded, downloaded)),
        (Err(failure), _) => Err(failure),
        (_, Err(failure)) => Err(failure),
    }
}

/// Joins the ends of the two directions into the outcome of the relay.
pub fn join(upload: Result<u64, IoFailure>, download: Result<u64, IoFailure>) -> (outcome: Outcome)
    ensures
        outcome == spec_join(upload, download),
{
    match (upload, download) {
        (Ok(uploaded), Ok(downloaded)) => Ok((uploaded, downloaded)),
        (Err(failure), _) => Err(failure),
        (_, Err(failure)) => Err(failure),
    }
}

/// What to do when a direction has stopped.
#[derive(Clone, Copy, Debug, PartialEq, Eq)]
pub struct Closing {
    /// The socket whose write side is to be closed now.
    pub close: Side,
    /// The outcome of the relay, if this was the second direction to stop.
    /// While it is `None` the other direction goes on.
    pub outcome: Option<Outcome>,
}

/// The two directions of a relay.
#[derive(Clone, Copy, Debug, PartialEq, Eq)]
pub struct Relay {
    pub upload: Flow,
    pub download: Flow,
}

impl Relay {
    /// How far the given direction has come.
    pub open spec fn spec_flow(self, direction: Direction) -> Flow {
        match direction {
            Direction::Upload => self.upload,
            Direction::Download => self.download,
        }
    }

    /// The outcome of the relay, once both directions have stopped.
    pub open spec fn spec_outcome(self) -> Option<Outcome> {
        match (self.upload, self.download) {
            (Flow::Ended(upload), Flow::Ended(download)) => Some(spec_join(upload, download)),
            _ => None,
        }
    }

    /// The relay after a direction has stopped, and what to do then; `None`
    /// where that direction had stopped before. The other direction is left
    /// as it is.
    pub open spec fn spec_stop(self, direction: Direction, end: Result<u64, IoFailure>) -> Option<
        (Relay, Closing),
    > {
        if self.spec_flow(direction) is Copying {
            let next = match direction {
                Direction::Upload => Relay { upload: Flow::Ended(end), ..self },
                Direction::Download => Relay { download: Flow::Ended(end), ..self },
            };
            Some((next, Closing { close: direction.spec_destination(), outcome: next.spec_outcome() }))
        } else {
            None
        }
    }

    /// A relay at its start: both directions are copying.
    pub fn new() -> (relay: Relay)
        ensures
            relay == (Relay { upload: Flow::Copying, download: Flow::Copying }),
    {
        Relay { upload: Flow::Copying, download: Flow::Copying }
    }

    /// How far the given direction has come.
    pub fn flow(&self, direction: Direction) -> (flow: Flow)
        ensures
            flow == self.spec_flow(direction),
    {
        match direction {
            Direction::Upload => self.upload,
            Direction::Download => self.download,
        }
    }

    /// The outcome of the relay, once both directions have stopped.
    pub fn outcome(&self) -> (outcome: Option<Outcome>)
        ensures
            outcome == self.spec_outcome(),
    {
        match (self.upload, self.download) {
            (Flow::Ended(upload), Flow::Ended(download)) => Some(join(upload, download)),
            _ => None,
        }
    }

    /// Records that a direction has stopped, with the number of bytes that it
    /// copied up to the end of its source or with the failure that stopped it.
    /// Tells which write side to close, and the outcome if the relay is over.
    /// `None` means that the direction had stopped before.
    pub fn stop(self, direction: Direction, end: Result<u64, IoFailure>) -> (next: Option<
        (Relay, Closing),
    >)
        ensures
            next == self.spec_stop(direction, end),
    {
        match self.flow(direction) {
            Flow::Copying => {
                let next = match direction {
                    Direction::Upload => Relay { upload: Flow::Ended(end), download: self.download },
                    Direction::Download => Relay { upload: self.upload, download: Flow::Ended(end) },
                };
                Some((next, Closing { close: direction.destination(), outcome: next.outcome() }))
            },
            Flow::Ended(_) => None,
        }
    }
}

/// Half-close: when one direction stops, for whatever reason, the write side of
/// its destination is closed and nothing else happens. The other direction
/// keeps copying, the relay has no outcome yet, and what the other direction
/// still copies counts in full when it stops in turn.
pub proof fn law_one_direction_ending_leaves_the_other(
    relay: Relay,
    direction: Direction,
    other: Direction,
    end: Result<u64, IoFailure>,
    later: Result<u64, IoFailure>,
)
    requires
        direction != other,
        relay.spec_flow(direction) is Copying,
        relay.spec_flow(other) is Copying,
    ensures
        ({
            &&& relay.spec_stop(direction, end) matches Some((next, closing))
            &&& closing.close == direction.spec_destination()
            &&& closing.outcome is None
            &&& next.spec_flow(other) is Copying
            &&& next.spec_flow(direction) == Flow::Ended(end)
            &&& next.spec_stop(other, later) matches Some((last, report))
            &&& report.close == other.spec_destination()
            &&& report.outcome == Some(
                match direction {
                    Direction::Upload => spec_join(end, later),
                    Direction::Download => spec_join(later, end),
                },
            )
        }),
{
}

/// The relay has an outcome exactly when both directions have stopped. It is
/// the pair of their byte counts if both reached the end of their source, and
/// a failure if either failed.
pub proof fn law_outcome_waits_for_both(relay: Relay)
    ensures
        relay.spec_outcome() is Some <==> relay.upload is Ended && relay.download is Ended,
        relay.spec_outcome() matches Some(Ok(counts)) ==> relay.upload == Flow::Ended(
            Ok(counts.0),
        ) && relay.download == Flow::Ended(Ok(counts.1)),
        relay.spec_outcome() matches Some(Err(failure)) ==> relay.upload == Flow::Ended(
            Err(failure),
        ) || relay.download == Flow::Ended(Err(failure)),
{
}

} // verus!
