//! Chase-camera rig: one-shot target acquisition and the follow rule.
//!
//! The rig lazily binds to the first entity found carrying the controlled
//! marker and never rebinds. Each frame a target is bound, the camera
//! mirrors the target's placement: same translation raised by a fixed eye
//! offset, same rotation. Placements are carried in fixed-point
//! milli-units, so the offset of 0.8 units is exactly 800; the host
//! converts from and to its own vector types.

use vstd::prelude::*;

verus! {

/// The camera's eye height above the target's origin, in milli-units
/// (0.8 units).
pub const CAMERA_EYE_OFFSET_MILLI: i64 = 800;

/// A point in space, in milli-units along each axis.
#[derive(Clone, Copy, PartialEq, Eq, Structural, Debug)]
pub struct Vec3Milli {
    pub x: i64,
    pub y: i64,
    pub z: i64,
}

/// A unit rotation's four components in fixed-point form. The camera only
/// ever copies a rotation verbatim, so the scale is the host's choice.
#[derive(Clone, Copy, PartialEq, Eq, Structural, Debug)]
pub struct RotationFixed {
    pub x: i64,
    pub y: i64,
    pub z: i64,
    pub w: i64,
}

/// An entity's placement: where it stands and how it is turned.
#[derive(Clone, Copy, PartialEq, Eq, Structural, Debug)]
pub struct Placement {
    pub translation: Vec3Milli,
    pub rotation: RotationFixed,
}

/// The chase camera's state: the entity it is locked onto, if any. The
/// reference is weak — an identifier, never ownership.
#[derive(Clone, Copy, Debug)]
pub struct CameraRig {
    pub target: Option<u64>,
}

/// The rig's target after one acquisition frame: an already-bound rig keeps
/// its target whatever was found; an unbound one binds what was found, if
/// anything.
pub open spec fn spec_acquired(target: Option<u64>, found: Option<u64>) -> Option<u64> {
    if target is Some {
        target
    } else {
        found
    }
}

/// The camera's placement after one follow frame: a bound rig whose target
/// could be read mirrors it, translation raised by the eye offset and
/// rotation copied verbatim; otherwise the camera stays untouched.
pub open spec fn spec_followed(rig: CameraRig, target: Option<Placement>, cam: Placement) -> Placement {
    if rig.target is Some && target is Some {
        let t = target->0;
        Placement {
            translation: Vec3Milli {
                x: t.translation.x,
                y: (t.translation.y + CAMERA_EYE_OFFSET_MILLI) as i64,
                z: t.translation.z,
            },
            rotation: t.rotation,
        }
    } else {
        cam
    }
}

impl CameraRig {
    /// A fresh rig with no target; acquisition happens across later frames.
    pub fn unbound() -> (r: CameraRig)
        ensures
            r.target is None,
    {
        CameraRig { target: None }
    }

    /// One acquisition frame: bind the first controlled entity found, if
    /// the rig is still unbound. Binding is permanent — once a target is
    /// held, whatever is found later is ignored.
    pub fn acquire_target(&mut self, found: Option<u64>)
        ensures
            final(self).target == spec_acquired(old(self).target, found),
    {
        if self.target.is_none() {
            if let Some(entity) = found {
                self.target = Some(entity);
            }
        }
    }
}

/// One follow frame. `target` is the bound target's placement as the host
/// could read it this frame, `None` when the rig is unbound or the entity
/// has become invalid — the camera then stays exactly where it was, and
/// nothing panics.
pub fn follow(rig: &CameraRig, target: Option<Placement>, cam: &mut Placement)
    requires
        target matches Some(t) ==> t.translation.y + CAMERA_EYE_OFFSET_MILLI <= i64::MAX,
    ensures
        *final(cam) == spec_followed(*rig, target, *old(cam)),
{
    if rig.target.is_some() {
        if let Some(t) = target {
            cam.translation = Vec3Milli {
                x: t.translation.x,
                y: t.translation.y + CAMERA_EYE_OFFSET_MILLI,
                z: t.translation.z,
            };
            cam.rotation = t.rotation;
        }
    }
}

/// The rig's target after a run of acquisition frames, one per element of
/// `founds`.
pub open spec fn run_acquire(target: Option<u64>, founds: Seq<Option<u64>>) -> Option<u64>
    decreases founds.len(),
{
    if founds.len() == 0 {
        target
    } else {
        run_acquire(spec_acquired(target, founds[0]), founds.subrange(1, founds.len() as int))
    }
}

/// Once bound, the rig never rebinds: any further run of acquisition
/// frames, whatever entities they find, leaves the target unchanged.
pub proof fn lemma_target_permanent(target: Option<u64>, founds: Seq<Option<u64>>)
    requires
        target is Some,
    ensures
        run_acquire(target, founds) == target,
    decreases founds.len(),
{
    if founds.len() > 0 {
        lemma_target_permanent(target, founds.subrange(1, founds.len() as int));
    }
}

/// While no frame finds a controlled entity, the rig stays unbound.
pub proof fn lemma_unbound_without_entities(founds: Seq<Option<u64>>)
    requires
        forall|i: int| 0 <= i < founds.len() ==> founds[i] is None,
    ensures
        run_acquire(None, founds) is None,
    decreases founds.len(),
{
    if founds.len() > 0 {
        lemma_unbound_without_entities(founds.subrange(1, founds.len() as int));
    }
}

/// An unbound rig binds on the first frame that finds a controlled entity,
/// and every later frame — however many further marker entities appear —
/// leaves that binding in place.
pub proof fn lemma_binds_first_found(founds: Seq<Option<u64>>, k: int)
    requires
        0 <= k < founds.len(),
        founds[k] is Some,
        forall|j: int| 0 <= j < k ==> founds[j] is None,
    ensures
        run_acquire(None, founds) == founds[k],
    decreases k,
{
    if k == 0 {
        lemma_target_permanent(founds[0], founds.subrange(1, founds.len() as int));
    } else {
        let rest = founds.subrange(1, founds.len() as int);
        assert(forall|j: int| 0 <= j < k - 1 ==> rest[j] is None);
        lemma_binds_first_found(rest, k - 1);
    }
}

} // verus!
