use vstd::prelude::*;

verus! {

/// Whether the capture device is held.
#[derive(PartialEq, Eq, Structural, Clone, Copy, Debug)]
pub enum CameraState {
    Closed,
    Open,
}

/// What the capture loop does after a poll of the demand.
#[derive(PartialEq, Eq, Structural, Clone, Copy, Debug)]
pub enum CameraAction {
    /// No viewer and no device: sleep for one poll interval.
    Wait,
    /// Demand appeared: open the device and start capturing.
    OpenDevice,
    /// Demand persists: grab the next frame.
    Capture,
    /// Demand is gone: stop capturing and release the device.
    CloseDevice,
}

/// One poll: the device follows the demand, opening when demand appears
/// and closing when it is gone.
pub open spec fn poll_step(s: CameraState, demand: bool) -> (CameraState, CameraAction) {
    match s {
        CameraState::Closed => if demand {
            (CameraState::Open, CameraAction::OpenDevice)
        } else {
            (CameraState::Closed, CameraAction::Wait)
        },
        CameraState::Open => if demand {
            (CameraState::Open, CameraAction::Capture)
        } else {
            (CameraState::Closed, CameraAction::CloseDevice)
        },
    }
}

/// The state after polling the demands `ds` in order, starting from `s`.
pub open spec fn run_polls(s: CameraState, ds: Seq<bool>) -> CameraState
    decreases ds.len(),
{
    if ds.len() == 0 {
        s
    } else {
        poll_step(run_polls(s, ds.drop_last()), ds.last()).0
    }
}

/// How often action `a` was taken while polling the demands `ds` from `s`.
pub open spec fn count_actions(s: CameraState, ds: Seq<bool>, a: CameraAction) -> nat
    decreases ds.len(),
{
    if ds.len() == 0 {
        0
    } else {
        count_actions(s, ds.drop_last(), a) + if poll_step(
            run_polls(s, ds.drop_last()),
            ds.last(),
        ).1 == a {
            1nat
        } else {
            0nat
        }
    }
}

/// Whether the demand seen before the poll at `i` was positive; before the
/// first poll there was none.
pub open spec fn demand_before(ds: Seq<bool>, i: int) -> bool {
    i > 0 && ds[i - 1]
}

/// How often the observed demand went from zero to positive.
pub open spec fn rising_edges(ds: Seq<bool>) -> nat
    decreases ds.len(),
{
    if ds.len() == 0 {
        0
    } else {
        rising_edges(ds.drop_last()) + if ds.last() && !demand_before(ds, ds.len() - 1) {
            1nat
        } else {
            0nat
        }
    }
}

/// How often the observed demand went from positive to zero.
pub open spec fn falling_edges(ds: Seq<bool>) -> nat
    decreases ds.len(),
{
    if ds.len() == 0 {
        0
    } else {
        falling_edges(ds.drop_last()) + if !ds.last() && demand_before(ds, ds.len() - 1) {
            1nat
        } else {
            0nat
        }
    }
}

/// Opens and closes the capture device as viewers come and go.
pub struct CameraLifecycle {
    state: CameraState,
}

impl CameraLifecycle {
    pub closed spec fn current(&self) -> CameraState {
        self.state
    }

    /// Starts with the device closed.
    pub fn new() -> (r: CameraLifecycle)
        ensures
            r.current() == CameraState::Closed,
    {
        CameraLifecycle { state: CameraState::Closed }
    }

    pub fn state(&self) -> (r: CameraState)
        ensures
            r == self.current(),
    {
        self.state
    }

    /// Decides, from whether any viewer is registered, what the capture loop
    /// does next.
    pub fn poll(&mut self, demand: bool) -> (r: CameraAction)
        ensures
            (final(self).current(), r) == poll_step(old(self).current(), demand),
    {
        match self.state {
            CameraState::Closed => {
                if demand {
                    self.state = CameraState::Open;
                    CameraAction::OpenDevice
                } else {
                    CameraAction::Wait
                }
            },
            CameraState::Open => {
                if demand {
                    CameraAction::Capture
                } else {
                    self.state = CameraState::Closed;
                    CameraAction::CloseDevice
                }
            },
        }
    }

    /// The device could not be opened or read: it counts as closed, and the
    /// next poll that sees demand opens it again.
    pub fn device_failed(&mut self)
        ensures
            final(self).current() == CameraState::Closed,
    {
        self.state = CameraState::Closed;
    }
}

proof fn lemma_polls_follow_demand(ds: Seq<bool>)
    ensures
        run_polls(CameraState::Closed, ds) == (if ds.len() > 0 && ds.last() {
            CameraState::Open
        } else {
            CameraState::Closed
        }),
        count_actions(CameraState::Closed, ds, CameraAction::OpenDevice) == rising_edges(ds),
        count_actions(CameraState::Closed, ds, CameraAction::CloseDevice) == falling_edges(ds),
        rising_edges(ds) == falling_edges(ds) + if ds.len() > 0 && ds.last() {
            1nat
        } else {
            0nat
        },
    decreases ds.len(),
{
    if ds.len() > 0 {
        let init = ds.drop_last();
        lemma_polls_follow_demand(init);
        assert(demand_before(ds, ds.len() - 1) == (init.len() > 0 && init.last()));
    }
}

/// When every open succeeds, polling any sequence of demands from a closed
/// device opens it once per rise of the demand from zero, closes it once per
/// fall back to zero, and the opens never trail the closes nor lead them by
/// more than one; the device is open exactly when the last demand seen was
/// positive.
pub proof fn lemma_demand_gated_capture(ds: Seq<bool>)
    ensures
        count_actions(CameraState::Closed, ds, CameraAction::OpenDevice) == rising_edges(ds),
        count_actions(CameraState::Closed, ds, CameraAction::CloseDevice) == falling_edges(ds),
        count_actions(CameraState::Closed, ds, CameraAction::CloseDevice) <= count_actions(
            CameraState::Closed,
            ds,
            CameraAction::OpenDevice,
        ) <= count_actions(CameraState::Closed, ds, CameraAction::CloseDevice) + 1,
        (run_polls(CameraState::Closed, ds) == CameraState::Open) == (ds.len() > 0 && ds.last()),
{
    lemma_polls_follow_demand(ds);
}

} // verus!
