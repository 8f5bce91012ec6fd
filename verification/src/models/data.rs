use vstd::prelude::*;

verus! {

/// A routing record as mathematical values.
pub struct DataView {
    pub worker: int,
    pub message: Seq<char>,
    pub interval: int,
    pub destination_worker: int,
}

/// One routing record: `worker` sends `message` to `destination_worker`
/// after a delay of `interval` milliseconds.
#[derive(Debug)]
pub struct Data {
    pub worker: i32,
    pub message: String,
    pub interval: i64,
    pub destination_worker: i32,
}

impl View for Data {
    type V = DataView;

    open spec fn view(&self) -> DataView {
        DataView {
            worker: self.worker as int,
            message: self.message@,
            interval: self.interval as int,
            destination_worker: self.destination_worker as int,
        }
    }
}

impl Clone for Data {
    /// A record with the same fields.
    fn clone(&self) -> (copy: Data)
        ensures
            copy@ == self@,
    {
        Data {
            worker: self.worker,
            message: self.message.clone(),
            interval: self.interval,
            destination_worker: self.destination_worker,
        }
    }
}

} // verus!
