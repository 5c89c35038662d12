//! What the vehicle's collaborators are asked, and what is made of their
//! answers.

use vstd::prelude::*;
use crate::geometry::{fix_hole, is_fixed_hole};
use crate::msgs::DetectedObject;
use crate::task_manager::TaskType;

verus! {

/// The services that a mission calls.
#[derive(Clone, Copy, Debug, PartialEq, Eq, Structural)]
pub enum Service {
    FastPlanner,
    UseFuel,
    GetNearestHole,
    ResetFuel,
    Spin,
    StopSpin,
    Takeoff,
    AddVirtualWall,
    SetAreWallsEnabled,
    CountCubes,
    GetAllCubes,
    TransformPoint,
    TransformPose,
    CountHoles,
    GetAllHoles,
}

impl Service {
    /// The name under which the service is offered.
    pub fn name(&self) -> (name: &'static str)
        ensures
            name@ == match self {
                Service::FastPlanner => "fast_planner_server"@,
                Service::UseFuel => "fuel/use_fuel"@,
                Service::GetNearestHole => "vision/holes/pos_collector/get_nearest"@,
                Service::ResetFuel => "fuel/reset"@,
                Service::Spin => "motion_controller/spin"@,
                Service::StopSpin => "motion_controller/stop"@,
                Service::Takeoff => "takeoff_landing"@,
                Service::AddVirtualWall => "sdf_map/add_wall"@,
                Service::SetAreWallsEnabled => "sdf_map/set_are_walls_enabled"@,
                Service::CountCubes => "vision/cubes/pos_collector/count"@,
                Service::GetAllCubes => "vision/cubes/pos_collector/get_all"@,
                Service::TransformPoint => "transform/point"@,
                Service::TransformPose => "transform/pose"@,
                Service::CountHoles => "vision/holes/pos_collector/count"@,
                Service::GetAllHoles => "vision/holes/pos_collector/get_all"@,
            },
    {
        match self {
            Service::FastPlanner => "fast_planner_server",
            Service::UseFuel => "fuel/use_fuel",
            Service::GetNearestHole => "vision/holes/pos_collector/get_nearest",
            Service::ResetFuel => "fuel/reset",
            Service::Spin => "motion_controller/spin",
            Service::StopSpin => "motion_controller/stop",
            Service::Takeoff => "takeoff_landing",
            Service::AddVirtualWall => "sdf_map/add_wall",
            Service::SetAreWallsEnabled => "sdf_map/set_are_walls_enabled",
            Service::CountCubes => "vision/cubes/pos_collector/count",
            Service::GetAllCubes => "vision/cubes/pos_collector/get_all",
            Service::TransformPoint => "transform/point",
            Service::TransformPose => "transform/pose",
            Service::CountHoles => "vision/holes/pos_collector/count",
            Service::GetAllHoles => "vision/holes/pos_collector/get_all",
        }
    }
}

/// The services that the first two missions share, in the order in which
/// they are waited for.
pub open spec fn shared_services() -> Seq<Service> {
    seq![
        Service::FastPlanner,
        Service::UseFuel,
        Service::GetNearestHole,
        Service::ResetFuel,
        Service::Spin,
        Service::StopSpin,
        Service::Takeoff,
        Service::AddVirtualWall,
        Service::SetAreWallsEnabled,
    ]
}

/// The services that a mission needs, in the order in which they are waited
/// for.
pub open spec fn required_services(task_type: TaskType) -> Seq<Service> {
    match task_type {
        TaskType::One => shared_services() + seq![Service::CountCubes, Service::GetAllCubes],
        TaskType::Two => shared_services() + seq![Service::CountHoles, Service::GetAllHoles],
        TaskType::Three => seq![Service::Takeoff],
    }
}

/// The services to wait for before the mission `task_type` starts.
pub fn init(task_type: TaskType) -> (services: Vec<Service>)
    ensures
        services@ == required_services(task_type),
{
    let mut services: Vec<Service> = Vec::new();
    match task_type {
        TaskType::Three => {
            services.push(Service::Takeoff);
        },
        _ => {
            services.push(Service::FastPlanner);
            services.push(Service::UseFuel);
            services.push(Service::GetNearestHole);
            services.push(Service::ResetFuel);
            services.push(Service::Spin);
            services.push(Service::StopSpin);
            services.push(Service::Takeoff);
            services.push(Service::AddVirtualWall);
            services.push(Service::SetAreWallsEnabled);
            match task_type {
                TaskType::One => {
                    services.push(Service::CountCubes);
                    services.push(Service::GetAllCubes);
                },
                _ => {
                    services.push(Service::CountHoles);
                    services.push(Service::GetAllHoles);
                },
            }
        },
    }
    services
}

/// A request whose answer says no more than that it was carried out.
#[derive(Clone, Copy, Debug, PartialEq, Eq, Structural)]
pub enum ServiceRequest {
    /// Climb to `height` millimetres, or land where `land` is set.
    Takeoff { height: u32, land: bool },
    /// Forget the map and the routes of the explorer.
    ResetFuel,
    /// Drop every goal of the planner.
    CancelAllGoals,
    /// Turn `laps_count` times about the vertical axis at `altitude`
    /// millimetres with `angular_velocity` milliradians per second. With
    /// `wait`, the answer comes when the turning has ended.
    Spin { laps_count: i32, altitude: u32, angular_velocity: u32, wait: bool },
    /// Stop turning.
    StopSpin,
    /// Hand the planning to the explorer, or take it back.
    UseFuel { data: bool },
    /// Keep the planner out of the aperture `wall`, given in the map frame.
    AddWalls { wall: DetectedObject },
    /// Heed the walls added so far, or ignore them.
    SetAreWallsEnabled { data: bool },
}

impl ServiceRequest {
    /// The service that the request goes to.
    pub fn service(&self) -> (service: Service)
        ensures
            service == match self {
                ServiceRequest::Takeoff { .. } => Service::Takeoff,
                ServiceRequest::ResetFuel => Service::ResetFuel,
                ServiceRequest::CancelAllGoals => Service::FastPlanner,
                ServiceRequest::Spin { .. } => Service::Spin,
                ServiceRequest::StopSpin => Service::StopSpin,
                ServiceRequest::UseFuel { .. } => Service::UseFuel,
                ServiceRequest::AddWalls { .. } => Service::AddVirtualWall,
                ServiceRequest::SetAreWallsEnabled { .. } => Service::SetAreWallsEnabled,
            },
    {
        match self {
            ServiceRequest::Takeoff { .. } => Service::Takeoff,
            ServiceRequest::ResetFuel => Service::ResetFuel,
            ServiceRequest::CancelAllGoals => Service::FastPlanner,
            ServiceRequest::Spin { .. } => Service::Spin,
            ServiceRequest::StopSpin => Service::StopSpin,
            ServiceRequest::UseFuel { .. } => Service::UseFuel,
            ServiceRequest::AddWalls { .. } => Service::AddVirtualWall,
            ServiceRequest::SetAreWallsEnabled { .. } => Service::SetAreWallsEnabled,
        }
    }
}

/// The request to take off and climb to `height` millimetres.
pub fn takeoff(height: u32) -> (request: ServiceRequest)
    ensures
        request == (ServiceRequest::Takeoff { height, land: false }),
{
    ServiceRequest::Takeoff { height, land: false }
}

/// The request to land on the spot.
pub fn land() -> (request: ServiceRequest)
    ensures
        request == (ServiceRequest::Takeoff { height: 0, land: true }),
{
    ServiceRequest::Takeoff { height: 0, land: true }
}

/// The request that the explorer forget its map and its routes.
pub fn reset_fuel() -> (request: ServiceRequest)
    ensures
        request == ServiceRequest::ResetFuel,
{
    ServiceRequest::ResetFuel
}

/// The request to drop every goal of the planner.
pub fn cancel_all_goals() -> (request: ServiceRequest)
    ensures
        request == ServiceRequest::CancelAllGoals,
{
    ServiceRequest::CancelAllGoals
}

/// The request to turn about the vertical axis, answered at once.
pub fn spin(laps_count: i32, altitude: u32, angular_velocity: u32) -> (request: ServiceRequest)
    ensures
        request == (ServiceRequest::Spin { laps_count, altitude, angular_velocity, wait: false }),
{
    ServiceRequest::Spin { laps_count, altitude, angular_velocity, wait: false }
}

/// The request to turn about the vertical axis, answered when the turning
/// has ended.
pub fn spin_and_wait(
    laps_count: i32,
    altitude: u32,
    angular_velocity: u32,
) -> (request: ServiceRequest)
    ensures
        request == (ServiceRequest::Spin { laps_count, altitude, angular_velocity, wait: true }),
{
    ServiceRequest::Spin { laps_count, altitude, angular_velocity, wait: true }
}

/// The request to stop turning.
pub fn stop_spinning() -> (request: ServiceRequest)
    ensures
        request == ServiceRequest::StopSpin,
{
    ServiceRequest::StopSpin
}

/// The request to explore: the planning goes to the explorer.
pub fn start_exploration() -> (request: ServiceRequest)
    ensures
        request == (ServiceRequest::UseFuel { data: true }),
{
    ServiceRequest::UseFuel { data: true }
}

/// The request to stop exploring: the planning comes back from the explorer.
pub fn pause_exploration() -> (request: ServiceRequest)
    ensures
        request == (ServiceRequest::UseFuel { data: false }),
{
    ServiceRequest::UseFuel { data: false }
}

/// The request to keep the planner out of the aperture `wall`.
pub fn add_virtual_wall(wall: DetectedObject) -> (request: ServiceRequest)
    ensures
        request == (ServiceRequest::AddWalls { wall }),
{
    ServiceRequest::AddWalls { wall }
}

/// The request to heed the walls added so far.
pub fn enable_virtual_walls() -> (request: ServiceRequest)
    ensures
        request == (ServiceRequest::SetAreWallsEnabled { data: true }),
{
    ServiceRequest::SetAreWallsEnabled { data: true }
}

/// The request to ignore the walls added so far.
pub fn disable_virtual_walls() -> (request: ServiceRequest)
    ensures
        request == (ServiceRequest::SetAreWallsEnabled { data: false }),
{
    ServiceRequest::SetAreWallsEnabled { data: false }
}

/// Whether the identifiers of `objects` never fall from one object to the
/// next.
pub open spec fn is_sorted_by_id(objects: Seq<DetectedObject>) -> bool {
    forall|i: int, j: int| 0 <= i < j < objects.len() ==> objects[i].id <= objects[j].id
}

/// The objects `sorted` with `object` among them: behind every object whose
/// identifier is no greater than its own, and before the others.
pub open spec fn inserted_by_id(
    sorted: Seq<DetectedObject>,
    object: DetectedObject,
) -> Seq<DetectedObject>
    decreases sorted.len(),
{
    if sorted.len() > 0 && sorted.last().id > object.id {
        inserted_by_id(sorted.drop_last(), object).push(sorted.last())
    } else {
        sorted.push(object)
    }
}

/// The given objects in the order of their identifiers. Objects with one
/// identifier keep the order in which they are given.
pub open spec fn sorted_by_id(objects: Seq<DetectedObject>) -> Seq<DetectedObject>
    decreases objects.len(),
{
    if objects.len() == 0 {
        objects
    } else {
        inserted_by_id(sorted_by_id(objects.drop_last()), objects.last())
    }
}

/// Whether `place` is where `object` belongs among `sorted`: every object
/// from there on has a greater identifier, and the object before has none.
pub open spec fn is_place_of(
    sorted: Seq<DetectedObject>,
    object: DetectedObject,
    place: int,
) -> bool {
    &&& 0 <= place <= sorted.len()
    &&& forall|i: int| place <= i < sorted.len() ==> (#[trigger] sorted[i]).id > object.id
    &&& place > 0 ==> sorted[place - 1].id <= object.id
}

/// `object` comes to stand where it belongs.
proof fn lemma_inserted_at(sorted: Seq<DetectedObject>, object: DetectedObject, place: int)
    requires
        is_place_of(sorted, object, place),
    ensures
        inserted_by_id(sorted, object) == sorted.insert(place, object),
    decreases sorted.len() - place,
{
    if place < sorted.len() {
        lemma_inserted_at(sorted.drop_last(), object, place);
    }
}

/// There is a place where `object` belongs among `sorted`, at `from` or
/// before, if every object from there on has a greater identifier.
proof fn lemma_place_exists(sorted: Seq<DetectedObject>, object: DetectedObject, from: int)
    requires
        0 <= from <= sorted.len(),
        forall|i: int| from <= i < sorted.len() ==> (#[trigger] sorted[i]).id > object.id,
    ensures
        exists|place: int| is_place_of(sorted, object, place),
    decreases from,
{
    if from > 0 && sorted[from - 1].id > object.id {
        lemma_place_exists(sorted, object, from - 1);
    } else {
        assert(is_place_of(sorted, object, from));
    }
}

/// What is sorted by identifier is in the order of the identifiers and holds
/// the objects given, each as often as given.
pub proof fn lemma_sorted_by_id(objects: Seq<DetectedObject>)
    ensures
        is_sorted_by_id(sorted_by_id(objects)),
        sorted_by_id(objects).to_multiset() == objects.to_multiset(),
        sorted_by_id(objects).len() == objects.len(),
    decreases objects.len(),
{
    if objects.len() > 0 {
        let before = sorted_by_id(objects.drop_last());
        let object = objects.last();
        lemma_sorted_by_id(objects.drop_last());
        lemma_place_exists(before, object, before.len() as int);
        let place = choose|place: int| is_place_of(before, object, place);
        lemma_inserted_at(before, object, place);
        vstd::seq_lib::to_multiset_insert(before, place, object);
        vstd::seq_lib::to_multiset_build(objects.drop_last(), object);
        assert(objects.drop_last().push(object) == objects);
        let after = before.insert(place, object);
        assert forall|i: int, j: int| 0 <= i < j < after.len() implies after[i].id
            <= after[j].id by {
            // Both objects stood in this order before, or one of them is the new one.
        }
    }
}

/// The given objects in the order of their identifiers. Objects with one
/// identifier keep the order in which they are given.
pub fn sort_by_id(objects: &Vec<DetectedObject>) -> (sorted: Vec<DetectedObject>)
    ensures
        sorted@ == sorted_by_id(objects@),
        is_sorted_by_id(sorted@),
        sorted@.to_multiset() == objects@.to_multiset(),
        sorted.len() == objects.len(),
{
    let mut sorted: Vec<DetectedObject> = Vec::new();
    let mut taken: usize = 0;
    while taken < objects.len()
        invariant
            taken <= objects.len(),
            sorted@ == sorted_by_id(objects@.take(taken as int)),
        decreases objects.len() - taken,
    {
        let object = objects[taken];
        let mut place: usize = sorted.len();
        while place > 0 && sorted[place - 1].id > object.id
            invariant
                place <= sorted.len(),
                forall|i: int| place <= i < sorted.len() ==> sorted[i].id > object.id,
            decreases place,
        {
            place -= 1;
        }
        proof {
            lemma_inserted_at(sorted@, object, place as int);
            assert(objects@.take(taken + 1).drop_last() == objects@.take(taken as int));
        }
        sorted.insert(place, object);
        taken += 1;
    }
    proof {
        assert(objects@.take(taken as int) == objects@);
        lemma_sorted_by_id(objects@);
    }
    sorted
}

/// Whether perception has found more objects than the `known` ones: only a
/// count that has grown says so.
pub fn has_new_objects(known: usize, count: usize) -> (grown: bool)
    ensures
        grown == (count > known),
{
    count > known
}

/// The objects of `objects` from the place `from` up to, but not including,
/// the place `to`, places counted from zero; a place behind the last object
/// counts as the end.
pub fn objects_between(
    objects: &Vec<DetectedObject>,
    from: usize,
    to: usize,
) -> (news: Vec<DetectedObject>)
    ensures
        news@ == if from <= to {
            objects@.subrange(
                if from <= objects.len() {
                    from as int
                } else {
                    objects.len() as int
                },
                if to <= objects.len() {
                    to as int
                } else {
                    objects.len() as int
                },
            )
        } else {
            Seq::empty()
        },
{
    let mut news: Vec<DetectedObject> = Vec::new();
    if from > to {
        return news;
    }
    let first = if from <= objects.len() {
        from
    } else {
        objects.len()
    };
    let end = if to <= objects.len() {
        to
    } else {
        objects.len()
    };
    let mut index: usize = first;
    while index < end
        invariant
            first <= index <= end <= objects.len(),
            news@ == objects@.subrange(first as int, index as int),
        decreases end - index,
    {
        news.push(objects[index]);
        index += 1;
    }
    news
}

/// The objects of `objects` that stand behind the first `known` of them.
pub fn objects_after(objects: &Vec<DetectedObject>, known: usize) -> (news: Vec<DetectedObject>)
    ensures
        news@ == if known <= objects.len() {
            objects@.skip(known as int)
        } else {
            Seq::empty()
        },
{
    if known > objects.len() {
        return Vec::new();
    }
    objects_between(objects, known, objects.len())
}

/// The aperture nearest to the vehicle, in the convention of the mission:
/// the first of those that perception names in its answer, and none where
/// it names none.
pub fn get_closest_hole(nearest: &Vec<DetectedObject>) -> (closest: Option<DetectedObject>)
    ensures
        nearest.len() == 0 ==> closest.is_none(),
        nearest.len() > 0 ==> (closest matches Some(hole) && is_fixed_hole(nearest[0], hole)),
{
    if nearest.len() == 0 {
        None
    } else {
        let mut hole = nearest[0];
        fix_hole(&mut hole);
        Some(hole)
    }
}

/// The apertures that perception has found, each in the convention of the
/// mission, in the order of the answer.
pub fn get_holes(reported: &Vec<DetectedObject>) -> (holes: Vec<DetectedObject>)
    ensures
        holes.len() == reported.len(),
        forall|i: int| 0 <= i < reported.len() ==> is_fixed_hole(reported[i], #[trigger] holes[i]),
{
    let mut holes: Vec<DetectedObject> = Vec::new();
    let mut index: usize = 0;
    while index < reported.len()
        invariant
            index <= reported.len(),
            holes.len() == index,
            forall|i: int| 0 <= i < index ==> is_fixed_hole(reported[i], #[trigger] holes[i]),
        decreases reported.len() - index,
    {
        let mut hole = reported[index];
        fix_hole(&mut hole);
        holes.push(hole);
        index += 1;
    }
    holes
}

} // verus!
