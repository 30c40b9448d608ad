//! What the main camera follows.
use crate::keys::{read_keys, KeyFrame};
use bevy::input::keyboard::KeyCode;
use bevy::input::ButtonInput;
use vstd::prelude::*;

verus! {

/// What the main camera follows.
#[derive(Debug, Clone, Copy, PartialEq, Eq, Structural)]
pub enum FollowingType {
    /// Nothing; it is moved by hand.
    Free,
    /// The eyes of the robot.
    Robot,
    /// The robot, from outside.
    ThirdPerson,
}

impl FollowingType {
    /// What comes next when the view is switched.
    pub open spec fn following(self) -> FollowingType {
        match self {
            FollowingType::Free => FollowingType::Robot,
            FollowingType::Robot => FollowingType::ThirdPerson,
            FollowingType::ThirdPerson => FollowingType::Free,
        }
    }
}

/// The view in use.
#[derive(Debug, Clone, Copy, PartialEq, Eq, Structural)]
pub struct CameraMode(pub FollowingType);

impl Default for CameraMode {
    fn default() -> (r: Self)
        ensures
            r.0 is Robot,
    {
        CameraMode(FollowingType::Robot)
    }
}

/// Whether the window has captured the pointer. Only then the mouse aims.
#[derive(Debug, Clone, Copy, PartialEq, Eq, Structural)]
pub struct MouseCapture {
    pub captured: bool,
}

impl Default for MouseCapture {
    fn default() -> (r: Self)
        ensures
            !r.captured,
    {
        MouseCapture { captured: false }
    }
}

/// Switches the view where that is asked.
pub fn following_controls(mode: &mut CameraMode, switch_camera_just_pressed: bool)
    ensures
        final(mode).0 == (if switch_camera_just_pressed {
            old(mode).0.following()
        } else {
            old(mode).0
        }),
{
    if switch_camera_just_pressed {
        mode.0 = match mode.0 {
            FollowingType::Free => FollowingType::Robot,
            FollowingType::Robot => FollowingType::ThirdPerson,
            FollowingType::ThirdPerson => FollowingType::Free,
        };
    }
}

/// A step of the free camera.
#[derive(Debug, Clone, Copy, PartialEq, Eq, Structural)]
pub enum FreecamStep {
    Forward,
    Backward,
    Left,
    Right,
    Up,
    Down,
}

/// The steps of a list that are asked for, in their order.
pub open spec fn steps_asked(steps: Seq<(bool, FreecamStep)>) -> Seq<FreecamStep>
    decreases steps.len(),
{
    if steps.len() == 0 {
        Seq::empty()
    } else if steps.last().0 {
        steps_asked(steps.drop_last()).push(steps.last().1)
    } else {
        steps_asked(steps.drop_last())
    }
}

/// What the keys ask of the free camera, in the order in which the steps are taken.
pub open spec fn freecam_steps(keys: KeyFrame) -> Seq<FreecamStep> {
    steps_asked(
        seq![
            (keys.w, FreecamStep::Forward),
            (keys.s, FreecamStep::Backward),
            (keys.a, FreecamStep::Left),
            (keys.d, FreecamStep::Right),
            (keys.n, FreecamStep::Up),
            (keys.j, FreecamStep::Down),
        ],
    )
}

/// The steps that the keys ask of the free camera; none while the camera follows something.
pub fn apply_freecam_keys(mode: &CameraMode, keys: &KeyFrame) -> (r: Vec<FreecamStep>)
    ensures
        r@ == (if mode.0 is Free {
            freecam_steps(*keys)
        } else {
            Seq::empty()
        }),
{
    let mut r: Vec<FreecamStep> = Vec::new();
    if mode.0 != FollowingType::Free {
        return r;
    }
    let asked: [(bool, FreecamStep); 6] = [
        (keys.w, FreecamStep::Forward),
        (keys.s, FreecamStep::Backward),
        (keys.a, FreecamStep::Left),
        (keys.d, FreecamStep::Right),
        (keys.n, FreecamStep::Up),
        (keys.j, FreecamStep::Down),
    ];
    let mut i: usize = 0;
    assert(asked@.subrange(0, 0) =~= Seq::<(bool, FreecamStep)>::empty());
    while i < 6
        invariant
            i <= 6,
            asked@.len() == 6,
            r@ == steps_asked(asked@.subrange(0, i as int)),
        decreases 6 - i,
    {
        proof {
            assert(asked@.subrange(0, i + 1).drop_last() =~= asked@.subrange(0, i as int));
        }
        if asked[i].0 {
            r.push(asked[i].1);
        }
        i += 1;
    }
    assert(asked@.subrange(0, 6) =~= seq![
        (keys.w, FreecamStep::Forward),
        (keys.s, FreecamStep::Backward),
        (keys.a, FreecamStep::Left),
        (keys.d, FreecamStep::Right),
        (keys.n, FreecamStep::Up),
        (keys.j, FreecamStep::Down),
    ]);
    r
}

/// The steps that the keyboard asks of the free camera in this frame.
pub fn freecam_controls(mode: &CameraMode, keyboard: &ButtonInput<KeyCode>) -> (r: Vec<FreecamStep>)
    ensures
        r@ == (if mode.0 is Free {
            freecam_steps(crate::keys::keys_of(*keyboard))
        } else {
            Seq::empty()
        }),
{
    let keys = read_keys(keyboard);
    apply_freecam_keys(mode, &keys)
}

/// Where the main camera goes in a frame.
#[derive(Debug, Clone, Copy, PartialEq, Eq, Structural)]
pub enum CameraPlacement {
    /// Where the robot's camera is mounted, along the barrel.
    AtTheMount,
    /// Behind the robot, looking at it.
    BehindTheRobot,
    /// Where it is.
    Unchanged,
}

/// Where the main camera goes, and whether to report where it went. `reports` is how many frames
/// are still to be reported, of those seen with the robot's eyes; `asked` is how many were asked
/// for, and counts once.
pub fn update_camera_follow(mode: &CameraMode, reports: &mut Option<i32>, asked: Option<i32>) -> (r: (
    CameraPlacement,
    bool,
))
    ensures
        mode.0 is Robot ==> r.0 is AtTheMount,
        mode.0 is ThirdPerson ==> r.0 is BehindTheRobot,
        mode.0 is Free ==> r.0 is Unchanged,
        !(mode.0 is Robot) ==> !r.1 && *final(reports) == *old(reports),
        mode.0 is Robot ==> {
            let left = match *old(reports) {
                Some(left) => left,
                None => match asked {
                    Some(n) => n,
                    None => 0,
                },
            };
            &&& r.1 == (left > 0)
            &&& *final(reports) == Some(
                if left > 0 {
                    (left - 1) as i32
                } else {
                    left
                },
            )
        },
{
    match mode.0 {
        FollowingType::Robot => {
            let left: i32 = match *reports {
                Some(left) => left,
                None => match asked {
                    Some(n) => n,
                    None => 0,
                },
            };
            if left > 0 {
                *reports = Some(left - 1);
                (CameraPlacement::AtTheMount, true)
            } else {
                *reports = Some(left);
                (CameraPlacement::AtTheMount, false)
            }
        },
        FollowingType::ThirdPerson => (CameraPlacement::BehindTheRobot, false),
        FollowingType::Free => (CameraPlacement::Unchanged, false),
    }
}

/// Switching three times leads through all views and back.
pub proof fn law_views_cycle(view: FollowingType)
    ensures
        view.following().following().following() == view,
        view.following() != view,
        view.following().following() != view,
{
}

/// From the free view the switch leads to the robot's eyes, from there to the view from outside,
/// and from there back to the free view.
pub proof fn law_views_follow_in_their_order(view: FollowingType)
    ensures
        view.following() is Robot <==> view is Free,
        view.following() is ThirdPerson <==> view is Robot,
        view.following() is Free <==> view is ThirdPerson,
{
}

/// Where a step stands in the order in which they are taken.
pub open spec fn turn(step: FreecamStep) -> int {
    match step {
        FreecamStep::Forward => 0,
        FreecamStep::Backward => 1,
        FreecamStep::Left => 2,
        FreecamStep::Right => 3,
        FreecamStep::Up => 4,
        FreecamStep::Down => 5,
    }
}

/// Each key asks for its own step, which is taken exactly where the key is held, whatever else is
/// held; and the steps are taken in a fixed order, each once.
pub proof fn law_each_key_asks_for_its_step(keys: KeyFrame)
    ensures
        ({
            let r = freecam_steps(keys);
            &&& r.contains(FreecamStep::Forward) <==> keys.w
            &&& r.contains(FreecamStep::Backward) <==> keys.s
            &&& r.contains(FreecamStep::Left) <==> keys.a
            &&& r.contains(FreecamStep::Right) <==> keys.d
            &&& r.contains(FreecamStep::Up) <==> keys.n
            &&& r.contains(FreecamStep::Down) <==> keys.j
            &&& forall|i: int, k: int|
                0 <= i < k < r.len() ==> turn(#[trigger] r[i]) < turn(#[trigger] r[k])
        }),
{
    let asked = seq![
        (keys.w, FreecamStep::Forward),
        (keys.s, FreecamStep::Backward),
        (keys.a, FreecamStep::Left),
        (keys.d, FreecamStep::Right),
        (keys.n, FreecamStep::Up),
        (keys.j, FreecamStep::Down),
    ];
    lemma_steps_asked(asked);
    assert forall|s: FreecamStep| #[trigger] freecam_steps(keys).contains(s) <==> exists|i: int|
        0 <= i < 6 && (#[trigger] asked[i]).0 && asked[i].1 == s by {}
    assert(asked[0] == (keys.w, FreecamStep::Forward));
    assert(asked[1] == (keys.s, FreecamStep::Backward));
    assert(asked[2] == (keys.a, FreecamStep::Left));
    assert(asked[3] == (keys.d, FreecamStep::Right));
    assert(asked[4] == (keys.n, FreecamStep::Up));
    assert(asked[5] == (keys.j, FreecamStep::Down));
}

/// What is asked for is in the list, and nothing else; and where the list follows the order, so do
/// the steps.
proof fn lemma_steps_asked(steps: Seq<(bool, FreecamStep)>)
    requires
        forall|i: int, k: int|
            0 <= i < k < steps.len() ==> turn((#[trigger] steps[i]).1) < turn(
                (#[trigger] steps[k]).1,
            ),
    ensures
        forall|s: FreecamStep| #[trigger]
            steps_asked(steps).contains(s) <==> exists|i: int|
                0 <= i < steps.len() && (#[trigger] steps[i]).0 && steps[i].1 == s,
        forall|i: int, k: int|
            0 <= i < k < steps_asked(steps).len() ==> turn(#[trigger] steps_asked(steps)[i])
                < turn(#[trigger] steps_asked(steps)[k]),
    decreases steps.len(),
{
    let r = steps_asked(steps);
    if steps.len() > 0 {
        let shorter = steps.drop_last();
        let rest = steps_asked(shorter);
        lemma_steps_asked(shorter);
        assert forall|i: int| 0 <= i < rest.len() implies turn(#[trigger] rest[i]) < turn(
            steps.last().1,
        ) by {
            assert(rest.contains(rest[i]));
            let k = choose|k: int|
                0 <= k < shorter.len() && (#[trigger] shorter[k]).0 && shorter[k].1 == rest[i];
            assert(steps[k] == shorter[k]);
        }
        assert forall|s: FreecamStep| #[trigger] r.contains(s) <==> exists|i: int|
            0 <= i < steps.len() && (#[trigger] steps[i]).0 && steps[i].1 == s by {
            if r.contains(s) {
                let i = choose|i: int| 0 <= i < r.len() && r[i] == s;
                if i < rest.len() {
                    assert(rest[i] == s);
                    assert(rest.contains(s));
                    let k = choose|k: int|
                        0 <= k < shorter.len() && (#[trigger] shorter[k]).0 && shorter[k].1 == s;
                    assert(steps[k] == shorter[k]);
                } else {
                    assert(steps[steps.len() - 1].1 == s);
                }
            }
            if exists|i: int| 0 <= i < steps.len() && (#[trigger] steps[i]).0 && steps[i].1 == s {
                let i = choose|i: int|
                    0 <= i < steps.len() && (#[trigger] steps[i]).0 && steps[i].1 == s;
                if i < shorter.len() {
                    assert(shorter[i] == steps[i]);
                    assert(rest.contains(s));
                    let k = choose|k: int| 0 <= k < rest.len() && rest[k] == s;
                    assert(r[k] == s);
                } else {
                    assert(r[r.len() - 1] == s);
                }
            }
        }
    }
}

/// Switching the view goes on from the one in use: from the free view to the robot's eyes, to the
/// view from outside, and back. Without the switch it stays.
pub proof fn law_calls_of_following_controls(mode: &mut CameraMode, pressed: bool, r: ())
    requires
        call_ensures(following_controls, (mode, pressed), r),
    ensures
        !pressed ==> final(mode).0 == old(mode).0,
        pressed && old(mode).0 is Free ==> final(mode).0 is Robot,
        pressed && old(mode).0 is Robot ==> final(mode).0 is ThirdPerson,
        pressed && old(mode).0 is ThirdPerson ==> final(mode).0 is Free,
{
}

/// The keys steer the free camera and no other: each asks for its own step.
pub proof fn law_calls_of_apply_freecam_keys(
    mode: CameraMode,
    keys: KeyFrame,
    r: Vec<FreecamStep>,
)
    requires
        call_ensures(apply_freecam_keys, (&mode, &keys), r),
    ensures
        !(mode.0 is Free) ==> r@.len() == 0,
        mode.0 is Free ==> {
            &&& r@.contains(FreecamStep::Forward) <==> keys.w
            &&& r@.contains(FreecamStep::Backward) <==> keys.s
            &&& r@.contains(FreecamStep::Left) <==> keys.a
            &&& r@.contains(FreecamStep::Right) <==> keys.d
            &&& r@.contains(FreecamStep::Up) <==> keys.n
            &&& r@.contains(FreecamStep::Down) <==> keys.j
            &&& forall|i: int, k: int|
                0 <= i < k < r@.len() ==> turn(#[trigger] r@[i]) < turn(#[trigger] r@[k])
        },
{
    law_each_key_asks_for_its_step(keys);
}

/// Read from the keyboard, the keys steer the free camera and no other.
pub proof fn law_calls_of_freecam_controls(
    mode: CameraMode,
    keyboard: ButtonInput<KeyCode>,
    r: Vec<FreecamStep>,
)
    requires
        call_ensures(freecam_controls, (&mode, &keyboard), r),
    ensures
        !(mode.0 is Free) ==> r@.len() == 0,
        mode.0 is Free ==> {
            let held = crate::keys::keys_held(keyboard);
            &&& r@.contains(FreecamStep::Forward) <==> held.contains(
                crate::keys::Held::Letter(crate::keys::Letter::W),
            )
            &&& r@.contains(FreecamStep::Backward) <==> held.contains(
                crate::keys::Held::Letter(crate::keys::Letter::S),
            )
            &&& r@.contains(FreecamStep::Left) <==> held.contains(
                crate::keys::Held::Letter(crate::keys::Letter::A),
            )
            &&& r@.contains(FreecamStep::Right) <==> held.contains(
                crate::keys::Held::Letter(crate::keys::Letter::D),
            )
            &&& r@.contains(FreecamStep::Up) <==> held.contains(
                crate::keys::Held::Letter(crate::keys::Letter::N),
            )
            &&& r@.contains(FreecamStep::Down) <==> held.contains(
                crate::keys::Held::Letter(crate::keys::Letter::J),
            )
        },
{
    law_each_key_asks_for_its_step(crate::keys::keys_of(keyboard));
}

/// The camera goes where the view asks. Seen with the robot's eyes, as many frames are reported as
/// were asked for when the first was seen, and each counts the rest down by one; in other views
/// none is reported and none is counted.
pub proof fn law_calls_of_update_camera_follow(
    mode: CameraMode,
    reports: &mut Option<i32>,
    asked: Option<i32>,
    r: (CameraPlacement, bool),
)
    requires
        call_ensures(update_camera_follow, (&mode, reports, asked), r),
    ensures
        r.0 is AtTheMount <==> mode.0 is Robot,
        r.0 is BehindTheRobot <==> mode.0 is ThirdPerson,
        r.0 is Unchanged <==> mode.0 is Free,
        !(mode.0 is Robot) ==> !r.1 && *final(reports) == *old(reports),
        mode.0 is Robot ==> (*final(reports) matches Some(rest) && {
            &&& *old(reports) matches Some(left) ==> r.1 == (left > 0) && rest == left - (if r.1 {
                1int
            } else {
                0int
            })
            &&& *old(reports) is None ==> (asked matches Some(n) ==> r.1 == (n > 0) && rest == n - (
            if r.1 {
                1int
            } else {
                0int
            }))
            &&& *old(reports) is None && asked is None ==> !r.1 && rest == 0
        }),
{
}

/// At first the robot's eyes are in use, and the pointer is free.
pub proof fn law_first_view(mode: CameraMode, capture: MouseCapture)
    requires
        call_ensures(CameraMode::default, (), mode),
        call_ensures(MouseCapture::default, (), capture),
    ensures
        mode.0 is Robot,
        !capture.captured,
{
}

} // verus!
