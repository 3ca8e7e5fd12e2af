//! The reply to one scrape of the metrics endpoint.

use crate::worker::measurement_channel::WorkerGone;
use crate::worker::{Error, Outcome};
use vstd::prelude::*;

verus! {

/// The name of the one gauge that the endpoint exposes.
pub const METRIC_NAME: &'static str = "co2_ppm";

/// The help text of the gauge.
pub const METRIC_HELP: &'static str = "CO2 concentration [ppm]";

/// The HTTP status of a scrape that is answered with the gauge.
pub const STATUS_OK: u16 = 200;

/// The HTTP status of a scrape that has no reading to show.
pub const STATUS_SERVER_ERROR: u16 = 500;

/// What a scrape is answered with.
pub enum ScrapeReply<C> {
    /// The gauge, with the concentration in ppm.
    Gauge(u16),
    /// The cycle that the scrape triggered produced no reading.
    Failed(Error<C>),
    /// The worker is gone.
    WorkerGone,
}

/// The reply that an observation stands for: a reading is shown as the
/// gauge, everything else is reported and never rendered.
pub open spec fn reply_of<C>(seen: Result<Outcome<C>, WorkerGone>) -> ScrapeReply<C> {
    match seen {
        Ok(Ok(ppm)) => ScrapeReply::Gauge(ppm),
        Ok(Err(error)) => ScrapeReply::Failed(error),
        Err(_) => ScrapeReply::WorkerGone,
    }
}

/// Decides the reply to a scrape from what the handler observed after its
/// trigger.
pub fn scrape_reply<C>(seen: Result<Outcome<C>, WorkerGone>) -> (reply: ScrapeReply<C>)
    ensures
        reply == reply_of(seen),
{
    match seen {
        Ok(Ok(ppm)) => ScrapeReply::Gauge(ppm),
        Ok(Err(error)) => ScrapeReply::Failed(error),
        Err(_) => ScrapeReply::WorkerGone,
    }
}

impl<C> ScrapeReply<C> {
    /// The status of the reply.
    pub open spec fn status_spec(self) -> u16 {
        if self is Gauge {
            STATUS_OK
        } else {
            STATUS_SERVER_ERROR
        }
    }

    /// The HTTP status to answer with: 200 with the gauge, 500 otherwise.
    pub fn status(&self) -> (code: u16)
        ensures
            code == self.status_spec(),
    {
        match self {
            ScrapeReply::Gauge(_) => STATUS_OK,
            _ => STATUS_SERVER_ERROR,
        }
    }
}

impl<C: core::fmt::Display> ScrapeReply<C> {
    /// True where `text` is what a reply without a gauge tells the client:
    /// the error's own message, or that the channel is closed. A reply with
    /// the gauge has no such text.
    pub open spec fn has_failure_message(self, text: Option<String>) -> bool {
        match self {
            ScrapeReply::Gauge(_) => text is None,
            ScrapeReply::Failed(error) => text matches Some(message) && error.has_message(
                message,
            ),
            ScrapeReply::WorkerGone => text matches Some(message) && message@
                == "channel closed"@,
        }
    }

    /// The text that goes with a server error, `None` for the gauge.
    pub fn failure_message(&self) -> (text: Option<String>)
        ensures
            self.has_failure_message(text),
    {
        broadcast use vstd::string::to_string_from_display_ensures_for_str;

        match self {
            ScrapeReply::Gauge(_) => None,
            ScrapeReply::Failed(error) => Some(error.message()),
            ScrapeReply::WorkerGone => Some("channel closed".to_string()),
        }
    }
}

/// A scrape is answered with status 200 exactly where it observed a reading;
/// a timeout, a sensor fault and a worker that is gone all give status 500.
pub proof fn lemma_only_readings_are_served<C>(seen: Result<Outcome<C>, WorkerGone>)
    ensures
        reply_of(seen).status_spec() == STATUS_OK <==> seen is Ok && seen->Ok_0 is Ok,
        reply_of(seen).status_spec() == STATUS_SERVER_ERROR <==> !(seen is Ok && seen->Ok_0 is Ok),
        seen matches Ok(Ok(ppm)) ==> reply_of(seen) == ScrapeReply::<C>::Gauge(ppm),
{
}

} // verus!
