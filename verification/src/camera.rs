//! The cameras that a probe found, and which of them is the active one.

use vstd::prelude::*;
use vstd::arithmetic::div_mod::{lemma_add_mod_noop, lemma_mod_self_0, lemma_small_mod};

verus! {

/// The highest device index that a probe tries.
pub const MAX_PROBED_ID: i32 = 10;

/// What became of the attempt to open one device.
#[derive(Clone, Copy, Debug, PartialEq, Eq, Structural)]
pub enum ProbeOutcome {
    /// The device could not be opened.
    OpenFailed,
    /// The device was opened, and said whether it is open; `None` where it
    /// could not say.
    Opened(Option<bool>),
}

impl ProbeOutcome {
    /// A device is available if and only if it was opened and reports
    /// itself open.
    pub open spec fn spec_is_available(self) -> bool {
        self == ProbeOutcome::Opened(Some(true))
    }

    /// Tells whether the device is available.
    #[verifier::when_used_as_spec(spec_is_available)]
    pub fn is_available(self) -> (available: bool)
        ensures
            available == self.spec_is_available(),
    {
        match self {
            ProbeOutcome::Opened(Some(reported)) => reported,
            _ => false,
        }
    }
}

/// The indices of the available devices among the first `n` that were
/// probed, in ascending order. Device `i` is the one of outcome `i`.
pub open spec fn available_ids(outcomes: Seq<ProbeOutcome>, n: nat) -> Seq<i32>
    decreases n,
{
    if n == 0 {
        Seq::empty()
    } else {
        let before = available_ids(outcomes, (n - 1) as nat);
        if outcomes[n - 1].is_available() {
            before.push((n - 1) as i32)
        } else {
            before
        }
    }
}

/// The list of available devices holds exactly the indices of the devices
/// that are available, each once and in ascending order.
pub proof fn lemma_available_ids(outcomes: Seq<ProbeOutcome>, n: nat)
    requires
        n <= outcomes.len(),
        n <= i32::MAX,
    ensures
        available_ids(outcomes, n).len() <= n,
        forall|k: int|
            0 <= k < available_ids(outcomes, n).len() ==> 0 <= (#[trigger] available_ids(
                outcomes,
                n,
            )[k]) < n && outcomes[available_ids(outcomes, n)[k] as int].is_available(),
        forall|j: int, k: int|
            0 <= j < k < available_ids(outcomes, n).len() ==> available_ids(outcomes, n)[j]
                < available_ids(outcomes, n)[k],
        forall|id: int|
            0 <= id < n && (#[trigger] outcomes[id]).is_available() ==> available_ids(
                outcomes,
                n,
            ).contains(id as i32),
    decreases n,
{
    if n > 0 {
        let before = available_ids(outcomes, (n - 1) as nat);
        let ids = available_ids(outcomes, n);
        lemma_available_ids(outcomes, (n - 1) as nat);
        assert forall|id: int| 0 <= id < n && (#[trigger] outcomes[id]).is_available() implies ids.contains(
            id as i32,
        ) by {
            if id < n - 1 {
                assert(before.contains(id as i32));
                let k = choose|k: int| 0 <= k < before.len() && before[k] == id as i32;
                assert(ids[k] == id as i32);
            } else {
                assert(ids[ids.len() - 1] == id as i32);
            }
        }
    }
}

/// What a camera set holds, as mathematical values.
pub struct CameraView {
    /// The position of the active device in `ids`, if one is selected.
    pub active_index: Option<int>,
    /// The device indices, in the order of the probe.
    pub ids: Seq<i32>,
}

impl CameraView {
    /// The active index, if present, is a position in the list.
    pub open spec fn well_formed(self) -> bool {
        self.active_index matches Some(i) ==> 0 <= i < self.ids.len()
    }

    /// The set after one switch: the active index moves on by one, modulo
    /// the number of devices. With no active index nothing changes.
    pub open spec fn switched(self) -> CameraView {
        match self.active_index {
            Some(i) => CameraView {
                active_index: Some((i + 1) % (self.ids.len() as int)),
                ids: self.ids,
            },
            None => self,
        }
    }

    /// The set after `n` switches.
    pub open spec fn switched_times(self, n: nat) -> CameraView
        decreases n,
    {
        if n == 0 {
            self
        } else {
            self.switched_times((n - 1) as nat).switched()
        }
    }

    /// The index of the active device, if one is selected.
    pub open spec fn cam_id(self) -> Option<i32> {
        match self.active_index {
            Some(i) => Some(self.ids[i]),
            None => None,
        }
    }
}

/// A switch keeps a camera set well formed.
pub proof fn lemma_switched_well_formed(cameras: CameraView)
    requires
        cameras.well_formed(),
    ensures
        cameras.switched().well_formed(),
        cameras.switched().ids == cameras.ids,
        cameras.active_index is Some <==> cameras.switched().active_index is Some,
{
    if let Some(i) = cameras.active_index {
        let len = cameras.ids.len() as int;
        assert(0 <= (i + 1) % len < len) by (nonlinear_arith)
            requires
                len > 0,
        ;
    }
}

/// After `n` switches the active index has moved on by `n`, modulo the
/// number of devices.
pub proof fn lemma_switched_times(cameras: CameraView, n: nat)
    requires
        cameras.well_formed(),
    ensures
        cameras.switched_times(n).ids == cameras.ids,
        cameras.switched_times(n).well_formed(),
        match cameras.active_index {
            Some(i) => cameras.switched_times(n).active_index == Some(
                (i + n) % (cameras.ids.len() as int),
            ),
            None => cameras.switched_times(n).active_index is None,
        },
    decreases n,
{
    if n == 0 {
        if let Some(i) = cameras.active_index {
            lemma_small_mod(i as nat, cameras.ids.len());
        }
    } else {
        let before = cameras.switched_times((n - 1) as nat);
        lemma_switched_times(cameras, (n - 1) as nat);
        lemma_switched_well_formed(before);
        if let Some(i) = cameras.active_index {
            let len = cameras.ids.len() as int;
            lemma_add_mod_noop(i + n - 1, 1, len);
            if len > 1 {
                lemma_small_mod(1, len as nat);
            }
        }
    }
}

/// Switching wraps: with N devices, N switches lead back to the camera set
/// they started from.
pub proof fn lemma_switch_wraps(cameras: CameraView)
    requires
        cameras.well_formed(),
    ensures
        cameras.switched_times(cameras.ids.len()) == cameras,
{
    let len = cameras.ids.len();
    lemma_switched_times(cameras, len);
    if let Some(i) = cameras.active_index {
        lemma_add_mod_noop(i, len as int, len as int);
        lemma_mod_self_0(len as int);
        lemma_small_mod(i as nat, len);
    }
}

/// The cameras found by a probe, with the cursor on the active one. The
/// active index, if present, is always a position in the list.
pub struct Camera {
    active_index: Option<usize>,
    ids: Vec<i32>,
}

impl View for Camera {
    type V = CameraView;

    closed spec fn view(&self) -> CameraView {
        CameraView {
            active_index: match self.active_index {
                Some(i) => Some(i as int),
                None => None,
            },
            ids: self.ids@,
        }
    }
}

impl Camera {
    #[verifier::type_invariant]
    spec fn inv(self) -> bool {
        self@.well_formed()
    }

    /// Makes the camera set of a probe: `outcomes[i]` says what became of
    /// device `i`. The first available device is the active one; where none
    /// is available, no device is selected.
    pub fn default(outcomes: &Vec<ProbeOutcome>) -> (cameras: Camera)
        requires
            outcomes@.len() <= i32::MAX,
        ensures
            cameras@.ids == available_ids(outcomes@, outcomes@.len()),
            cameras@.active_index == (if cameras@.ids.len() > 0 {
                Some(0int)
            } else {
                None
            }),
            cameras@.well_formed(),
    {
        let mut ids: Vec<i32> = Vec::new();
        let mut id: usize = 0;
        while id < outcomes.len()
            invariant
                id <= outcomes@.len() <= i32::MAX,
                ids@ == available_ids(outcomes@, id as nat),
            decreases outcomes@.len() - id,
        {
            if outcomes[id].is_available() {
                ids.push(id as i32);
            }
            id = id + 1;
        }
        let active_index: Option<usize> = if ids.len() > 0 {
            Some(0)
        } else {
            None
        };
        Camera { active_index, ids }
    }

    /// Makes a camera set from its parts, or `None` where the active index
    /// is no position in `ids`.
    pub fn new(ids: Vec<i32>, active_index: Option<usize>) -> (cameras: Option<Camera>)
        ensures
            cameras is Some <==> (active_index matches Some(i) ==> 0 <= i < ids@.len()),
            cameras matches Some(c) ==> c@.ids == ids@ && c@.well_formed() && match active_index {
                Some(i) => c@.active_index == Some(i as int),
                None => c@.active_index is None,
            },
    {
        match active_index {
            Some(i) => {
                if i >= ids.len() {
                    return None;
                }
            },
            None => {},
        }
        Some(Camera { active_index, ids })
    }

    /// Switches to the next camera, back to the first after the last.
    pub fn switch(&mut self)
        ensures
            final(self)@ == old(self)@.switched(),
            final(self)@.well_formed(),
    {
        proof {
            use_type_invariant(&*self);
            lemma_switched_well_formed(self@);
        }
        match self.active_index {
            Some(active_index) => {
                let len: usize = self.ids.len();
                proof {
                    if active_index + 1 < len {
                        lemma_small_mod((active_index + 1) as nat, len as nat);
                    } else {
                        lemma_mod_self_0(len as int);
                    }
                }
                if len - 1 > active_index {
                    self.active_index = Some(active_index + 1);
                } else {
                    self.active_index = Some(0);
                }
            },
            None => {},
        }
    }

    /// The index of the active device, if one is selected.
    pub fn get_cam_id(&self) -> (id: Option<&i32>)
        ensures
            match id {
                Some(id) => self@.cam_id() == Some(*id),
                None => self@.cam_id() is None,
            },
    {
        proof {
            use_type_invariant(self);
        }
        match self.active_index {
            Some(active_index) => Some(&self.ids[active_index]),
            None => None,
        }
    }

    /// The position of the active device in the list.
    pub fn active_index(&self) -> (active_index: Option<usize>)
        ensures
            match active_index {
                Some(i) => self@.active_index == Some(i as int),
                None => self@.active_index is None,
            },
            self@.well_formed(),
    {
        proof {
            use_type_invariant(self);
        }
        self.active_index
    }

    /// The device indices, in the order of the probe.
    pub fn ids(&self) -> (ids: &Vec<i32>)
        ensures
            ids@ == self@.ids,
    {
        &self.ids
    }
}

} // verus!
