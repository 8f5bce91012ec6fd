//! The deterministic core of a small message-routing simulation: a fixed
//! pool of workers, a dispatcher that replays timed routing records against
//! it, and the text in which each processed message is shown.
//!
//! Reading the message store, waiting out the delays and moving states
//! through channels is left to the caller. The caller hands in rows and
//! records as plain values and gets states and text back.

use vstd::prelude::*;
use vstd::string::StringExecFns;

pub mod models;

pub use models::Data;
pub use models::DataView;
pub use models::Error;
pub use models::ErrorView;
pub use models::Manager;
pub use models::MessageDisplay;
pub use models::MessageInfo;
pub use models::MessageState;
pub use models::MessageStateView;
pub use models::RoutingInfo;
pub use models::TimingInfo;
pub use models::Worker;
pub use models::WorkerView;

use models::decimal::decimal;
use models::decimal::push_decimal;
use models::message::transcript;
use models::routing::delays_fit;
use models::routing::emitted_stream;
use models::routing::first_failure;
use models::routing::initial_pool;
use models::routing::leading_records;
use models::routing::rows_view;

verus! {

/// Runs the rows through a new dispatcher. The result is the text of every
/// state that the records emit, in the order of the records, counting the
/// delays from zero; or, if a row failed, the error of the first such row
/// and no text at all.
pub fn start(rows: Vec<Result<Data, Error>>, verbose: bool) -> (result: Result<String, Error>)
    requires
        delays_fit(0, leading_records(rows_view(rows@))),
    ensures
        match result {
            Ok(text) => {
                &&& first_failure(rows_view(rows@)) is None
                &&& text@ == transcript(
                    emitted_stream(initial_pool(), 0, leading_records(rows_view(rows@))),
                    verbose,
                )
            },
            Err(error) => first_failure(rows_view(rows@)) == Some(error@),
        },
{
    let mut manager = Manager::new();
    manager.setup(rows, verbose)
}

/// The report on the schema of the message table.
pub open spec fn schema_text(schema: Seq<char>) -> Seq<char> {
    "Table schema:\n"@ + schema + "\n\n"@
}

/// The report on one row of the message table.
pub open spec fn sample_row_text(id: int, data: Seq<char>) -> Seq<char> {
    "Sample row:\nID: "@ + decimal(id) + "\nData: "@ + data + "\n\n"@
}

/// Formats the report on the schema of the message table.
pub fn schema_report(schema: &str) -> (text: String)
    ensures
        text@ == schema_text(schema@),
{
    let mut text = String::new();
    text.append("Table schema:\n");
    text.append(schema);
    text.append("\n\n");
    assert(text@ =~= schema_text(schema@));
    text
}

/// Formats the report on one row of the message table.
pub fn sample_row_report(id: i32, data: &str) -> (text: String)
    ensures
        text@ == sample_row_text(id as int, data@),
{
    let mut text = String::new();
    text.append("Sample row:\nID: ");
    push_decimal(&mut text, id as i64);
    text.append("\nData: ");
    text.append(data);
    text.append("\n\n");
    assert(text@ =~= sample_row_text(id as int, data@));
    text
}

} // verus!
