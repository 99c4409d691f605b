//! The scheduled-job resource: a schedule, an image and a capacity.
use vstd::prelude::*;

verus! {

/// What a scheduled job asks for.
#[derive(Debug, Clone, PartialEq, Eq)]
pub struct CronTabSpec {
    pub cron_spec: String,
    pub image: String,
    pub capacity: i32,
}

/// The mathematical content of a [`CronTabSpec`].
pub ghost struct CronTabSpecView {
    pub cron_spec: Seq<char>,
    pub image: Seq<char>,
    pub capacity: int,
}

impl View for CronTabSpec {
    type V = CronTabSpecView;

    open spec fn view(&self) -> CronTabSpecView {
        CronTabSpecView {
            cron_spec: self.cron_spec@,
            image: self.image@,
            capacity: self.capacity as int,
        }
    }
}

impl CronTabSpecView {
    /// Whether the job's capacity can grow by one unit.
    pub open spec fn has_room(self) -> bool {
        self.capacity < i32::MAX
    }

    /// The same job with one more unit of capacity.
    pub open spec fn grown(self) -> CronTabSpecView {
        CronTabSpecView { capacity: self.capacity + 1, ..self }
    }
}

} // verus!
