use vstd::prelude::*;

verus! {

/// What a check-in needs to know of a device already on record.
#[derive(Clone, Copy, Debug, PartialEq, Eq, Structural)]
pub struct RecordedDevice {
    pub id: i32,
    pub num_checkins: i32,
}

/// How a check-in is written: a device seen before is updated in place and
/// counts one more check-in; a new device is added with its first check-in.
#[derive(Clone, Copy, Debug, PartialEq, Eq, Structural)]
pub enum CheckinPlan {
    Update { id: i32, num_checkins: i32 },
    Insert { num_checkins: i32 },
}

/// The write that a check-in makes, given the record found under the device's key, if any.
pub fn plan_checkin(existing: Option<RecordedDevice>) -> (r: CheckinPlan)
    requires
        existing is Some ==> existing->Some_0.num_checkins < i32::MAX,
    ensures
        existing is None ==> r == (CheckinPlan::Insert { num_checkins: 1 }),
        existing is Some ==> r == (CheckinPlan::Update {
            id: existing->Some_0.id,
            num_checkins: (existing->Some_0.num_checkins + 1) as i32,
        }),
{
    match existing {
        None => CheckinPlan::Insert { num_checkins: 1 },
        Some(d) => CheckinPlan::Update { id: d.id, num_checkins: d.num_checkins + 1 },
    }
}

impl CheckinPlan {
    /// The response status: 201 for a new device, 202 for an update.
    pub fn status_code(&self) -> (r: u16)
        ensures
            self is Insert ==> r == 201,
            self is Update ==> r == 202,
    {
        match self {
            CheckinPlan::Insert { .. } => 201,
            CheckinPlan::Update { .. } => 202,
        }
    }

    /// The response text.
    pub fn message(&self) -> (r: &'static str)
        ensures
            self is Insert ==> r@ == "Added device"@,
            self is Update ==> r@ == "Updated"@,
    {
        match self {
            CheckinPlan::Insert { .. } => "Added device",
            CheckinPlan::Update { .. } => "Updated",
        }
    }
}

} // verus!
