//! The instrumentation service: opening a watch stream. It reserves a slot
//! on the aggregator's command inbox, hands over a fresh bounded outbound
//! queue as a subscription command, and couples failure to the health
//! reporter: a closed inbox means the aggregation task is gone, so the
//! service flips itself to `NotServing` and fails with an internal error.

use vstd::prelude::*;
use crate::{DEFAULT_CLIENT_BUFFER_CAPACITY, ErrorKind};
use crate::aggregator::{Command, InboxMessage};
use crate::health::{HealthReporter, ServingStatus, instrument_service_name, spec_instrument_name};
use crate::queue::{BoundedQueue, SendOutcome};
use crate::registry::Watcher;

verus! {

/// A request to open a watch stream. The filter languages are owned by the
/// aggregator; this layer carries them through unparsed.
pub struct InstrumentRequest {
    pub log_filter: Option<String>,
    pub span_filter: Option<String>,
}

/// The send end of the aggregator's command inbox.
pub struct InstrumentService {
    pub tx: BoundedQueue<InboxMessage>,
}

/// A subscription command carrying a brand-new outbound queue of the
/// default client capacity.
pub open spec fn is_fresh_subscription(m: InboxMessage) -> bool {
    match m {
        InboxMessage::Control(Command::Instrument(w)) => w.queue.is_fresh(
            DEFAULT_CLIENT_BUFFER_CAPACITY as int,
        ),
        _ => false,
    }
}

impl InstrumentService {
    /// Reports this service's serving state.
    pub fn set_status(&self, health: &mut HealthReporter, status: ServingStatus)
        ensures
            final(health).status_of(spec_instrument_name()) == Some(status),
            forall|other: Seq<char>|
                other != spec_instrument_name() ==> final(health).status_of(other) == old(
                    health,
                ).status_of(other),
    {
        health.set_service_status(instrument_service_name(), status);
    }

    /// Opens a watch. The caller has already waited for inbox room (the
    /// reservation suspension), so the inbox is either closed or has a free
    /// slot. On a closed inbox — the aggregation task is not running — the
    /// service health becomes `NotServing` and the call fails with an
    /// internal error before returning. Otherwise exactly one subscription
    /// command, carrying a fresh outbound queue of the default capacity,
    /// is placed in the inbox, and the call succeeds.
    pub fn watch_updates(&mut self, health: &mut HealthReporter, _req: InstrumentRequest) -> (r:
        Result<(), ErrorKind>)
        requires
            old(self).tx.wf(),
            old(self).tx.closed || old(self).tx.items@.len() < old(self).tx.capacity,
        ensures
            final(self).tx.wf(),
            final(self).tx.capacity == old(self).tx.capacity,
            final(self).tx.closed == old(self).tx.closed,
            final(self).tx.taken@ == old(self).tx.taken@,
            old(self).tx.closed ==> (r == Err::<(), ErrorKind>(ErrorKind::Internal)
                && final(self).tx.items@ == old(self).tx.items@
                && final(self).tx.hist@ == old(self).tx.hist@
                && final(health).status_of(spec_instrument_name())
                    == Some(ServingStatus::NotServing)
                && forall|other: Seq<char>|
                    other != spec_instrument_name() ==> final(health).status_of(other)
                        == old(health).status_of(other)),
            !old(self).tx.closed ==> (r == Ok::<(), ErrorKind>(()) && *final(health) == *old(health)
                && final(self).tx.hist@.len() == old(self).tx.hist@.len() + 1
                && final(self).tx.hist@.subrange(0, old(self).tx.hist@.len() as int)
                    == old(self).tx.hist@
                && is_fresh_subscription(final(self).tx.hist@.last())
                && final(self).tx.items@ == old(self).tx.items@.push(
                final(self).tx.hist@.last())),
    {
        if self.tx.is_closed() {
            self.set_status(health, ServingStatus::NotServing);
            return Err(ErrorKind::Internal);
        }
        let queue: BoundedQueue<crate::events::Update> = BoundedQueue::new(
            DEFAULT_CLIENT_BUFFER_CAPACITY,
        );
        let outcome = self.tx.try_send(
            InboxMessage::Control(Command::Instrument(Watcher { queue })),
        );
        proof {
            assert(outcome == SendOutcome::Sent);
            assert(self.tx.hist@.subrange(0, old(self).tx.hist@.len() as int) =~= old(
                self,
            ).tx.hist@);
        }
        Ok(())
    }
}

} // verus!
