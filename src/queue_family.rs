use vstd::prelude::*;

use crate::error::Error;
use crate::selection::DeviceConfig;

verus! {

/// The fixed-point unit of queue priorities: `PRIORITY_ONE` stands for a priority of 1.0.
pub const PRIORITY_ONE: u32 = 1000;

/// One entry of a queue-family plan: a family, and the priority of each queue requested from
/// it, in units of `1 / PRIORITY_ONE`.
///
/// Whether `index` names a family of the device, and whether the family has that many queues,
/// depends on the device and is the caller's obligation.
#[derive(Clone, Debug)]
pub struct QueueFamilyInfo {
    pub index: u32,
    pub priorities: Vec<u32>,
}

/// A plan entry as plain values: family index and priorities.
pub open spec fn info_view(i: QueueFamilyInfo) -> (u32, Seq<u32>) {
    (i.index, i.priorities@)
}

pub open spec fn plan_view(plan: Seq<QueueFamilyInfo>) -> Seq<(u32, Seq<u32>)> {
    plan.map_values(|i: QueueFamilyInfo| info_view(i))
}

/// Whether no family index occurs twice in a plan.
pub open spec fn indices_unique(plan: Seq<(u32, Seq<u32>)>) -> bool {
    forall|i: int, j: int| 0 <= i < j < plan.len() ==> plan[i].0 != plan[j].0
}

/// Whether a plan can be handed to device creation: at least one entry, no family twice.
pub open spec fn plan_is_valid(plan: Seq<(u32, Seq<u32>)>) -> bool {
    plan.len() > 0 && indices_unique(plan)
}

/// The plan for a selected device: the graphics family, then the present family when it is
/// another one, each with a single queue of priority 1.0.
pub open spec fn queue_plan_of(c: DeviceConfig) -> Seq<(u32, Seq<u32>)> {
    if c.graphics_queue_id == c.present_queue_id {
        seq![(c.graphics_queue_id, seq![PRIORITY_ONE])]
    } else {
        seq![(c.graphics_queue_id, seq![PRIORITY_ONE]), (c.present_queue_id, seq![PRIORITY_ONE])]
    }
}

fn single_queue(index: u32) -> (r: QueueFamilyInfo)
    ensures
        info_view(r) == (index, seq![PRIORITY_ONE]),
{
    let mut priorities: Vec<u32> = Vec::new();
    priorities.push(PRIORITY_ONE);
    proof {
        assert(priorities@ =~= seq![PRIORITY_ONE]);
    }
    QueueFamilyInfo { index, priorities }
}

/// Builds the queue-family plan of a selected device, without repeating a family.
pub fn queue_family_creation_infos(c: &DeviceConfig) -> (r: Vec<QueueFamilyInfo>)
    ensures
        plan_view(r@) == queue_plan_of(*c),
{
    let mut r: Vec<QueueFamilyInfo> = Vec::new();
    r.push(single_queue(c.graphics_queue_id));
    if c.present_queue_id != c.graphics_queue_id {
        r.push(single_queue(c.present_queue_id));
    }
    proof {
        assert(plan_view(r@) =~= queue_plan_of(*c));
    }
    r
}

/// Checks a plan before device creation: `EmptyQueuePlan` when it has no entry,
/// `DuplicateQueueFamily` when a family occurs twice.
pub fn validate_queue_plan(plan: &Vec<QueueFamilyInfo>) -> (r: Result<(), Error>)
    ensures
        r == (if plan@.len() == 0 {
            Err(Error::EmptyQueuePlan)
        } else if !indices_unique(plan_view(plan@)) {
            Err(Error::DuplicateQueueFamily)
        } else {
            Ok(())
        }),
{
    if plan.len() == 0 {
        return Err(Error::EmptyQueuePlan);
    }
    let ghost v = plan_view(plan@);
    let mut j: usize = 1;
    while j < plan.len()
        invariant
            1 <= j <= plan@.len(),
            v == plan_view(plan@),
            forall|a: int, b: int| 0 <= a < b < j ==> v[a].0 != v[b].0,
        decreases plan@.len() - j,
    {
        let mut i: usize = 0;
        while i < j
            invariant
                1 <= j < plan@.len(),
                0 <= i <= j,
                v == plan_view(plan@),
                forall|a: int, b: int| 0 <= a < b < j ==> v[a].0 != v[b].0,
                forall|a: int| 0 <= a < i ==> v[a].0 != v[j as int].0,
            decreases j - i,
        {
            if plan[i].index == plan[j].index {
                proof {
                    assert(v[i as int].0 == v[j as int].0);
                }
                return Err(Error::DuplicateQueueFamily);
            }
            i = i + 1;
        }
        j = j + 1;
    }
    Ok(())
}

/// The plan built for any selected device can be handed to device creation: it has an
/// entry, and no family occurs twice in it.
pub proof fn lemma_creation_plan_is_valid(c: DeviceConfig)
    ensures
        plan_is_valid(queue_plan_of(c)),
        queue_plan_of(c).len() == (if c.graphics_queue_id == c.present_queue_id {
            1int
        } else {
            2int
        }),
{
}

/// The queues a plan requests, as (family index, index within the family) pairs: entry by
/// entry, one pair per priority.
pub open spec fn slots_of(plan: Seq<(u32, Seq<u32>)>) -> Seq<(u32, u32)>
    decreases plan.len(),
{
    if plan.len() == 0 {
        seq![]
    } else {
        slots_of(plan.drop_last()) + Seq::new(
            plan.last().1.len(),
            |k: int| (plan.last().0, k as u32),
        )
    }
}

/// Whether every queue index within a family fits a `u32`.
pub open spec fn queue_indices_fit(plan: Seq<QueueFamilyInfo>) -> bool {
    forall|i: int| 0 <= i < plan.len() ==> (#[trigger] plan[i]).priorities@.len() <= u32::MAX + 1
}

/// Lists the queues a plan requests, which a created device hands out.
pub fn queue_slots(plan: &Vec<QueueFamilyInfo>) -> (r: Vec<(u32, u32)>)
    requires
        queue_indices_fit(plan@),
    ensures
        r@ == slots_of(plan_view(plan@)),
{
    let ghost v = plan_view(plan@);
    let mut r: Vec<(u32, u32)> = Vec::new();
    let mut i: usize = 0;
    while i < plan.len()
        invariant
            i <= plan@.len(),
            v == plan_view(plan@),
            queue_indices_fit(plan@),
            r@ == slots_of(v.take(i as int)),
        decreases plan@.len() - i,
    {
        let info = &plan[i];
        let n = info.priorities.len();
        proof {
            assert(plan@[i as int].priorities@.len() <= u32::MAX + 1);
        }
        let ghost before = r@;
        let mut k: usize = 0;
        while k < n
            invariant
                i < plan@.len(),
                n == v[i as int].1.len(),
                n <= u32::MAX + 1,
                k <= n,
                info.index == v[i as int].0,
                r@ == before + Seq::new(k as nat, |q: int| (v[i as int].0, q as u32)),
            decreases n - k,
        {
            r.push((info.index, k as u32));
            proof {
                assert(r@ =~= before + Seq::new((k + 1) as nat, |q: int| (v[i as int].0, q as u32)));
            }
            k = k + 1;
        }
        proof {
            assert(v.take(i as int + 1).drop_last() =~= v.take(i as int));
            assert(v.take(i as int + 1).last() == v[i as int]);
        }
        i = i + 1;
    }
    proof {
        assert(v.take(plan@.len() as int) =~= v);
    }
    r
}

} // verus!
