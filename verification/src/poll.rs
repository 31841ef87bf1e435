//! One cycle of the poll loop: from what the device gave to what is
//! published, or to the message that says why nothing is.

use vstd::prelude::*;

use crate::meter::{parse_data, reading_of};
use crate::protocol::{Request, RequestView};
use crate::publisher::{state_message, MeterPublisher};
use crate::text::join2;

verus! {

/// Seconds between two cycles of the poll loop.
pub const POLL_INTERVAL_SECS: u64 = 10;

/// The message for a device that could not be read.
pub open spec fn device_failure_message(cause: Seq<char>) -> Seq<char> {
    "Cannot open device for reading: "@ + cause
}

/// The message for a text from the device that is no reading.
pub open spec fn data_failure_message(cause: Seq<char>) -> Seq<char> {
    "Cannot parse data: "@ + cause
}

/// The message for a reading that could not be published.
pub open spec fn publish_failure_message(cause: Seq<char>) -> Seq<char> {
    "Cannot publish data: "@ + cause
}

/// One cycle of the poll loop, from what reading the device gave: the text
/// is turned into a reading, and the publication of the reading begins. A
/// device that could not be read, or a text that is no reading, ends the
/// cycle with a message, and nothing is published.
pub fn read_loop(data: Result<String, String>, publisher: &MeterPublisher) -> (result: Result<
    Request,
    String,
>)
    ensures
        match data {
            Err(cause) => result matches Err(message) && message@ == device_failure_message(
                cause@,
            ),
            Ok(text) => match reading_of(text@) {
                Err(cause) => result matches Err(message) && message@ == data_failure_message(
                    cause,
                ),
                Ok(values) => result matches Ok(request) && request@ == RequestView::CheckLink(
                    seq![state_message(publisher.id(), values)],
                ),
            },
        },
{
    let text = match data {
        Ok(text) => text,
        Err(cause) => {
            return Err(join2("Cannot open device for reading: ", cause.as_str()));
        },
    };
    match parse_data(text.as_str()) {
        Ok(values) => Ok(publisher.publish(&values)),
        Err(cause) => Err(join2("Cannot parse data: ", cause.as_str())),
    }
}

/// What is left of a cycle once the publication ended: nothing if it went
/// well, else the message to log. The reading is dropped either way.
pub fn publish_report(outcome: Result<(), String>) -> (report: Option<String>)
    ensures
        match outcome {
            Ok(_) => report is None,
            Err(cause) => report matches Some(message) && message@ == publish_failure_message(
                cause@,
            ),
        },
{
    match outcome {
        Ok(_) => None,
        Err(cause) => Some(join2("Cannot publish data: ", cause.as_str())),
    }
}

} // verus!
