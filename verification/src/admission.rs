//! The admission permit: one for the whole process. This module states
//! what the permit gives to the batteries that pass through it, over a model
//! of all batteries that are under way and the one that holds the permit.
use vstd::prelude::*;
use crate::battery::{BatteryEvent, BatteryView, Phase};

verus! {

/// All batteries under way, and which of them holds the permit.
pub struct Hall {
    pub batteries: Seq<BatteryView>,
    pub holder: Option<int>,
}

impl Hall {
    /// Every battery is well formed, and one that holds the permit is the
    /// holder on record.
    pub open spec fn wf(self) -> bool {
        &&& forall|i: int| 0 <= i < self.batteries.len() ==> (#[trigger] self.batteries[i]).wf()
        &&& forall|i: int|
            0 <= i < self.batteries.len() && (#[trigger] self.batteries[i]).holds_permit()
                ==> self.holder == Some(i)
    }

    /// Whether `event` can be reported to battery `i`. The one demand is
    /// the permit's: a waiting battery is admitted only while nobody holds
    /// the permit.
    pub open spec fn permits(self, i: int, event: BatteryEvent) -> bool {
        &&& 0 <= i < self.batteries.len()
        &&& event is Admitted && self.batteries[i].phase == Phase::Waiting ==> self.holder is None
    }

    /// The hall after `event` was reported to battery `i`.
    pub open spec fn deliver(self, i: int, event: BatteryEvent) -> Hall {
        let later = self.batteries[i].after(event);
        Hall {
            batteries: self.batteries.update(i, later),
            holder: if later.holds_permit() {
                Some(i)
            } else if self.batteries[i].holds_permit() {
                None
            } else {
                self.holder
            },
        }
    }
}

/// Whatever is reported to whichever battery, as long as a battery is admitted
/// only while the permit is free, the hall stays well formed.
pub proof fn lemma_hall_stays_wf(hall: Hall, i: int, event: BatteryEvent)
    requires
        hall.wf(),
        hall.permits(i, event),
    ensures
        hall.deliver(i, event).wf(),
{
    let later = hall.deliver(i, event);
    let before = hall.batteries[i];
    assert(before.wf());
    assert(before.after(event).wf());
    assert forall|k: int| 0 <= k < later.batteries.len() implies (#[trigger] later.batteries[k]).wf()
        && (later.batteries[k].holds_permit() ==> later.holder == Some(k)) by {
        if k != i {
            assert(later.batteries[k] == hall.batteries[k]);
            assert(hall.batteries[k].wf());
            if hall.batteries[k].holds_permit() {
                assert(hall.holder == Some(k));
                assert(!before.holds_permit());
            }
        }
    }
}

/// Batteries never interleave: at any moment at most one battery holds the
/// permit, so at most one is asked to run a test case. Another battery's first
/// run starts only after it was admitted, which the permit allows only once
/// the holder has released, after its last test case.
pub proof fn lemma_one_battery_at_a_time(hall: Hall, i: int, j: int)
    requires
        hall.wf(),
        0 <= i < hall.batteries.len(),
        0 <= j < hall.batteries.len(),
        hall.batteries[i].holds_permit() || hall.batteries[i].awaited() is Run,
        hall.batteries[j].holds_permit() || hall.batteries[j].awaited() is Run,
    ensures
        i == j,
{
    assert(hall.batteries[i].holds_permit());
    assert(hall.batteries[j].holds_permit());
}

} // verus!
