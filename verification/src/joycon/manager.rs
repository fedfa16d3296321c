//! The device manager: the registry of engines, one for each connected
//! device, and the discovery cycle that takes new devices in and retires those
//! that are gone.

use vstd::prelude::*;
use crate::joycon::calibration::CalibrationProfile;
use crate::joycon::engine::{Joycon, JoyconView};
use crate::joycon::error::{JoyconError, JoyconResult};
use crate::joycon::input::HandlerStatus;
use crate::joycon::model::{BatteryInfo, DeviceIdentity, DeviceIdentityView, DeviceState};
use crate::joycon::pending::{SlotView, StopReason, SLOT_COUNT};
use crate::joycon::report::InputReport;
use crate::joycon::validator::DeviceCapabilities;

verus! {

/// What a run of engines stands for.
pub open spec fn views<F: Fn(&InputReport) -> HandlerStatus>(engines: Seq<Joycon<F>>) -> Seq<
    JoyconView<F>,
> {
    Seq::new(engines.len(), |i: int| engines[i]@)
}

/// What a run of identities stands for.
pub open spec fn identity_views(ids: Seq<DeviceIdentity>) -> Seq<DeviceIdentityView> {
    Seq::new(ids.len(), |i: int| ids[i]@)
}

/// The identities of a run of engines.
pub open spec fn identities<F>(engines: Seq<JoyconView<F>>) -> Seq<DeviceIdentityView> {
    Seq::new(engines.len(), |i: int| engines[i].identity)
}

/// No identity occurs twice.
pub open spec fn distinct(ids: Seq<DeviceIdentityView>) -> bool {
    forall|i: int, j: int| 0 <= i < j < ids.len() ==> ids[i] != ids[j]
}

/// The engine stays in the registry: it is not on its way out and its
/// device is still visible.
pub open spec fn stays<F>(engine: JoyconView<F>, visible: Seq<DeviceIdentityView>) -> bool {
    engine.state.rank() < DeviceState::Disconnecting.rank() && visible.contains(engine.identity)
}

/// The engines that stay in the registry, in their old order.
pub open spec fn kept<F>(engines: Seq<JoyconView<F>>, visible: Seq<DeviceIdentityView>) -> Seq<
    JoyconView<F>,
>
    decreases engines.len(),
{
    if engines.len() == 0 {
        Seq::empty()
    } else if stays(engines.last(), visible) {
        kept(engines.drop_last(), visible).push(engines.last())
    } else {
        kept(engines.drop_last(), visible)
    }
}

/// The engines that leave the registry, in their old order, as they are
/// after their shutdown.
pub open spec fn retired<F>(engines: Seq<JoyconView<F>>, visible: Seq<DeviceIdentityView>) -> Seq<
    JoyconView<F>,
>
    decreases engines.len(),
{
    if engines.len() == 0 {
        Seq::empty()
    } else if stays(engines.last(), visible) {
        retired(engines.drop_last(), visible)
    } else {
        retired(engines.drop_last(), visible).push(
            engines.last().after_stop(StopReason::Shutdown),
        )
    }
}

/// The devices that get a new engine: the visible Joy-Cons that have no
/// engine yet, each once, in the order in which they were first seen.
pub open spec fn newcomers(visible: Seq<DeviceIdentityView>, known: Seq<DeviceIdentityView>) -> Seq<
    DeviceIdentityView,
>
    decreases visible.len(),
{
    if visible.len() == 0 {
        Seq::empty()
    } else {
        let before = newcomers(visible.drop_last(), known);
        let id = visible.last();
        if id.is_joycon() && !known.contains(id) && !before.contains(id) {
            before.push(id)
        } else {
            before
        }
    }
}

/// The engine that a newcomer gets: discovered, without handlers, with
/// nothing queued and every correlation id free.
pub open spec fn fresh<F>(
    identity: DeviceIdentityView,
    capabilities: DeviceCapabilities,
    calibration: CalibrationProfile,
) -> JoyconView<F> {
    JoyconView {
        identity,
        capabilities,
        calibration,
        state: DeviceState::Discovered,
        battery: BatteryInfo { voltage_mv: 0, charging: false },
        handlers: Seq::empty(),
        waiters: Seq::new(SLOT_COUNT as nat, |c: int| SlotView::Free),
        queue: Seq::empty(),
    }
}

/// The registry that a discovery cycle leaves behind: the engines that
/// stay, then a fresh engine for every newcomer.
pub open spec fn after_discovery<F>(
    engines: Seq<JoyconView<F>>,
    visible: Seq<DeviceIdentityView>,
    capabilities: DeviceCapabilities,
    calibration: CalibrationProfile,
) -> Seq<JoyconView<F>> {
    let staying = kept(engines, visible);
    let new_ids = newcomers(visible, identities(staying));
    staying + Seq::new(new_ids.len(), |i: int| fresh(new_ids[i], capabilities, calibration))
}

/// Every engine that stays was in the registry before, is not on its way
/// out, and belongs to a visible device.
pub proof fn lemma_kept<F>(engines: Seq<JoyconView<F>>, visible: Seq<DeviceIdentityView>)
    ensures
        kept(engines, visible).len() <= engines.len(),
        forall|i: int|
            0 <= i < kept(engines, visible).len() ==> stays(
                #[trigger] kept(engines, visible)[i],
                visible,
            ) && engines.contains(kept(engines, visible)[i]),
        distinct(identities(engines)) ==> distinct(identities(kept(engines, visible))),
    decreases engines.len(),
{
    if engines.len() > 0 {
        let head = engines.drop_last();
        let last = engines.last();
        lemma_kept(head, visible);
        let before = kept(head, visible);
        let now = kept(engines, visible);
        assert forall|i: int| 0 <= i < now.len() implies stays(#[trigger] now[i], visible)
            && engines.contains(now[i]) by {
            if i < before.len() {
                assert(head.contains(before[i]));
                let j = choose|j: int| 0 <= j < head.len() && head[j] == before[i];
                assert(engines[j] == before[i]);
            } else {
                assert(engines[engines.len() - 1] == last);
            }
        }
        if distinct(identities(engines)) {
            assert forall|i: int, j: int| 0 <= i < j < head.len() implies identities(head)[i]
                != identities(head)[j] by {
                assert(identities(engines)[i] != identities(engines)[j]);
            }
            assert forall|i: int, j: int| 0 <= i < j < now.len() implies identities(now)[i]
                != identities(now)[j] by {
                if j < before.len() {
                    assert(identities(before)[i] != identities(before)[j]);
                } else {
                    assert(head.contains(before[i]));
                    let k = choose|k: int| 0 <= k < head.len() && head[k] == before[i];
                    assert(identities(engines)[k] != identities(engines)[engines.len() - 1]);
                }
            }
        }
    }
}

/// The newcomers are Joy-Cons that are visible and unknown, none of them
/// twice; and every visible Joy-Con is known or a newcomer.
pub proof fn lemma_newcomers(visible: Seq<DeviceIdentityView>, known: Seq<DeviceIdentityView>)
    ensures
        newcomers(visible, known).len() <= visible.len(),
        distinct(newcomers(visible, known)),
        forall|i: int|
            0 <= i < newcomers(visible, known).len() ==> {
                let id = #[trigger] newcomers(visible, known)[i];
                id.is_joycon() && visible.contains(id) && !known.contains(id)
            },
        forall|i: int|
            0 <= i < visible.len() && (#[trigger] visible[i]).is_joycon() ==> known.contains(
                visible[i],
            ) || newcomers(visible, known).contains(visible[i]),
    decreases visible.len(),
{
    if visible.len() > 0 {
        let head = visible.drop_last();
        let id = visible.last();
        lemma_newcomers(head, known);
        let before = newcomers(head, known);
        let now = newcomers(visible, known);
        assert forall|i: int| 0 <= i < now.len() implies {
            let it = #[trigger] now[i];
            it.is_joycon() && visible.contains(it) && !known.contains(it)
        } by {
            if i < before.len() {
                let j = choose|j: int| 0 <= j < head.len() && head[j] == before[i];
                assert(visible[j] == before[i]);
            } else {
                assert(visible[visible.len() - 1] == id);
            }
        }
        assert forall|i: int| 0 <= i < visible.len() && (#[trigger] visible[i]).is_joycon()
            implies known.contains(visible[i]) || now.contains(visible[i]) by {
            if i < head.len() {
                assert(head[i] == visible[i]);
                if before.contains(head[i]) {
                    let j = choose|j: int| 0 <= j < before.len() && before[j] == head[i];
                    assert(now[j] == head[i]);
                }
            } else if !known.contains(id) {
                if before.contains(id) {
                    let j = choose|j: int| 0 <= j < before.len() && before[j] == id;
                    assert(now[j] == id);
                } else {
                    assert(now[now.len() - 1] == id);
                }
            }
        }
    }
}

/// What a discovery cycle achieves: afterwards no two engines are for the
/// same device, every engine belongs to a visible device and is not on its
/// way out, and every visible Joy-Con has an engine.
pub proof fn lemma_after_discovery<F>(
    engines: Seq<JoyconView<F>>,
    visible: Seq<DeviceIdentityView>,
    capabilities: DeviceCapabilities,
    calibration: CalibrationProfile,
)
    requires
        distinct(identities(engines)),
    ensures
        distinct(identities(after_discovery(engines, visible, capabilities, calibration))),
        forall|i: int|
            0 <= i < after_discovery(engines, visible, capabilities, calibration).len() ==> stays(
                #[trigger] after_discovery(engines, visible, capabilities, calibration)[i],
                visible,
            ),
        forall|i: int|
            0 <= i < visible.len() && (#[trigger] visible[i]).is_joycon() ==> identities(
                after_discovery(engines, visible, capabilities, calibration),
            ).contains(visible[i]),
{
    let staying = kept(engines, visible);
    let known = identities(staying);
    let new_ids = newcomers(visible, known);
    let all = after_discovery(engines, visible, capabilities, calibration);
    let ids = identities(all);
    lemma_kept(engines, visible);
    lemma_newcomers(visible, known);
    assert(ids =~= known + new_ids);
    assert forall|i: int, j: int| 0 <= i < j < ids.len() implies ids[i] != ids[j] by {
        if j < known.len() {
            assert(known[i] != known[j]);
        } else if i < known.len() {
            assert(!known.contains(new_ids[j - known.len()]));
        } else {
            assert(new_ids[i - known.len()] != new_ids[j - known.len()]);
        }
    }
    assert forall|i: int| 0 <= i < all.len() implies stays(#[trigger] all[i], visible) by {
        if i >= staying.len() {
            assert(all[i].identity == new_ids[i - staying.len()]);
        }
    }
    assert forall|i: int| 0 <= i < visible.len() && (#[trigger] visible[i]).is_joycon()
        implies ids.contains(visible[i]) by {
        lemma_contains_add(known, new_ids, visible[i]);
    }
}

/// What one discovery cycle did.
pub struct DiscoveryReport<F> {
    /// Number of engines that were set up, at the end of the registry.
    pub added: usize,
    /// The engines that left the registry, shut down.
    pub retired: Vec<Joycon<F>>,
}

/// The registry of engines.
pub struct JoyconManager<F> {
    /// The engines, oldest first.
    pub connected_joycons: Vec<Joycon<F>>,
    /// The limits that new engines get.
    pub capabilities: DeviceCapabilities,
    /// The calibration profile that new engines get.
    pub calibration: CalibrationProfile,
}

fn is_visible(visible: &Vec<DeviceIdentity>, id: &DeviceIdentity) -> (yes: bool)
    ensures
        yes == identity_views(visible@).contains(id@),
{
    let mut i: usize = 0;
    while i < visible.len()
        invariant
            i <= visible@.len(),
            forall|j: int| 0 <= j < i ==> visible@[j]@ != id@,
        decreases visible@.len() - i,
    {
        if visible[i].same_device(id) {
            assert(identity_views(visible@)[i as int] == id@);
            return true;
        }
        i += 1;
    }
    false
}

fn is_registered<F: Fn(&InputReport) -> HandlerStatus>(
    engines: &Vec<Joycon<F>>,
    id: &DeviceIdentity,
) -> (yes: bool)
    ensures
        yes == identities(views(engines@)).contains(id@),
{
    let mut i: usize = 0;
    while i < engines.len()
        invariant
            i <= engines@.len(),
            forall|j: int| 0 <= j < i ==> engines@[j]@.identity != id@,
        decreases engines@.len() - i,
    {
        if engines[i].identity().same_device(id) {
            assert(identities(views(engines@))[i as int] == id@);
            return true;
        }
        i += 1;
    }
    false
}

impl<F: Fn(&InputReport) -> HandlerStatus> JoyconManager<F> {
    /// The engines of the registry.
    pub open spec fn engines(&self) -> Seq<JoyconView<F>> {
        views(self.connected_joycons@)
    }

    /// The registry is consistent: every engine is, no two engines are for
    /// the same device, and the limits for new engines are well formed.
    pub open spec fn wf(&self) -> bool {
        &&& self.capabilities.wf()
        &&& forall|i: int|
            0 <= i < self.connected_joycons@.len() ==> (#[trigger] self.connected_joycons@[i]).wf()
        &&& distinct(identities(self.engines()))
    }

    /// Sets up a manager with an empty registry.
    ///
    /// Fails exactly when the limits for new engines are not well formed.
    pub fn new(capabilities: DeviceCapabilities, calibration: CalibrationProfile) -> (res:
        JoyconResult<JoyconManager<F>>)
        ensures
            res.is_ok() == capabilities.wf(),
            match res {
                Ok(manager) => {
                    &&& manager.wf()
                    &&& manager.connected_joycons@.len() == 0
                    &&& manager.capabilities == capabilities
                    &&& manager.calibration == calibration
                },
                Err(e) => e is InitializationError,
            },
    {
        if !capabilities.is_well_formed() {
            return Err(
                JoyconError::InitializationError("Could not initialize JoyconManager.".to_owned()),
            );
        }
        Ok(JoyconManager { connected_joycons: Vec::new(), capabilities, calibration })
    }

    /// The place of a device's engine in the registry, if it has one.
    pub fn find(&self, id: &DeviceIdentity) -> (place: Option<usize>)
        ensures
            match place {
                Some(i) => i < self.connected_joycons@.len() && self.engines()[i as int].identity
                    == id@,
                None => !identities(self.engines()).contains(id@),
            },
    {
        let mut i: usize = 0;
        while i < self.connected_joycons.len()
            invariant
                i <= self.connected_joycons@.len(),
                forall|j: int| 0 <= j < i ==> self.connected_joycons@[j]@.identity != id@,
            decreases self.connected_joycons@.len() - i,
        {
            if self.connected_joycons[i].identity().same_device(id) {
                return Some(i);
            }
            i += 1;
        }
        None
    }

    /// Takes note of the attempt to open the transport of a device.
    ///
    /// After a successful open the engine of the device is started. After a
    /// failed one the device is skipped: its engine leaves the registry and
    /// the caller is told `Open`. A device without an engine gives
    /// `NotConnected`.
    pub fn on_open(&mut self, id: &DeviceIdentity, opened: bool) -> (res: JoyconResult<()>)
        requires
            old(self).wf(),
        ensures
            final(self).wf(),
            final(self).capabilities == old(self).capabilities,
            final(self).calibration == old(self).calibration,
            !identities(old(self).engines()).contains(id@) ==> {
                &&& res == Err::<(), JoyconError>(JoyconError::NotConnected)
                &&& final(self).engines() == old(self).engines()
            },
            forall|i: int|
                0 <= i < old(self).engines().len() && (#[trigger] old(self).engines()[i]).identity
                    == id@ ==> if opened {
                    &&& res == Ok::<(), JoyconError>(())
                    &&& final(self).engines() == old(self).engines().update(
                        i,
                        old(self).engines()[i].after_start(),
                    )
                } else {
                    &&& res == Err::<(), JoyconError>(JoyconError::Open)
                    &&& final(self).engines() == old(self).engines().remove(i)
                },
    {
        let ghost before = self.connected_joycons@;
        match self.find(id) {
            None => {
                proof {
                    assert forall|i: int|
                        0 <= i < before.len() implies (#[trigger] views(before)[i]).identity
                        != id@ by {
                        assert(identities(views(before))[i] == views(before)[i].identity);
                    }
                }
                Err(JoyconError::NotConnected)
            },
            Some(place) => {
                proof {
                    assert(identities(views(before))[place as int] == id@);
                    assert forall|i: int|
                        0 <= i < before.len() && (#[trigger] views(before)[i]).identity
                            == id@ implies i == place by {
                        if i != place {
                            assert(identities(views(before))[i] != identities(views(before))[
                                place as int
                            ]);
                        }
                    }
                }
                if opened {
                    self.connected_joycons[place].start();
                    proof {
                        assert(self.engines() =~= views(before).update(
                            place as int,
                            before[place as int]@.after_start(),
                        ));
                        assert(identities(self.engines()) =~= identities(views(before)));
                    }
                    Ok(())
                } else {
                    let skipped = self.connected_joycons.remove(place);
                    proof {
                        assert(self.engines() =~= views(before).remove(place as int));
                        assert forall|i: int, j: int|
                            0 <= i < j < self.engines().len() implies identities(self.engines())[i]
                            != identities(self.engines())[j] by {
                            let a = if i < place { i } else { i + 1 };
                            let b = if j < place { j } else { j + 1 };
                            assert(identities(views(before))[a] != identities(views(before))[b]);
                        }
                    }
                    Err(JoyconError::Open)
                }
            },
        }
    }

    /// Runs one discovery cycle on the outcome of an enumeration.
    ///
    /// A failed enumeration leaves the registry as it is and gives
    /// `Discovery`; the next cycle tries again. A successful one is dealt
    /// with as [`Self::search_for_joycons`] says.
    pub fn discovery_cycle(&mut self, enumerated: Option<&Vec<DeviceIdentity>>) -> (res:
        JoyconResult<DiscoveryReport<F>>)
        requires
            old(self).wf(),
        ensures
            final(self).wf(),
            final(self).capabilities == old(self).capabilities,
            final(self).calibration == old(self).calibration,
            match enumerated {
                None => {
                    &&& res matches Err(JoyconError::Discovery)
                    &&& final(self).connected_joycons@ == old(self).connected_joycons@
                },
                Some(visible) => {
                    &&& res matches Ok(report)
                    &&& final(self).engines() == after_discovery(
                        old(self).engines(),
                        identity_views(visible@),
                        old(self).capabilities,
                        old(self).calibration,
                    )
                    &&& views(res.unwrap().retired@) == retired(
                        old(self).engines(),
                        identity_views(visible@),
                    )
                    &&& res.unwrap().added == newcomers(
                        identity_views(visible@),
                        identities(kept(old(self).engines(), identity_views(visible@))),
                    ).len()
                },
            },
    {
        match enumerated {
            None => Err(JoyconError::Discovery),
            Some(visible) => Ok(self.search_for_joycons(visible)),
        }
    }

    /// Runs one discovery cycle over the devices that are visible now.
    ///
    /// Every engine that is on its way out, or whose device is no longer
    /// visible, is shut down and leaves the registry. Every visible Joy-Con
    /// that then has no engine gets a fresh one, in state `Discovered`, at the
    /// end of the registry; it becomes connected once its transport is open
    /// (see [`Self::on_open`]). The engines that stay keep their place and
    /// are not touched.
    pub fn search_for_joycons(&mut self, visible: &Vec<DeviceIdentity>) -> (report:
        DiscoveryReport<F>)
        requires
            old(self).wf(),
        ensures
            final(self).wf(),
            final(self).capabilities == old(self).capabilities,
            final(self).calibration == old(self).calibration,
            final(self).engines() == after_discovery(
                old(self).engines(),
                identity_views(visible@),
                old(self).capabilities,
                old(self).calibration,
            ),
            views(report.retired@) == retired(old(self).engines(), identity_views(visible@)),
            forall|i: int| 0 <= i < report.retired@.len() ==> (#[trigger] report.retired@[i]).wf(),
            report.added == newcomers(
                identity_views(visible@),
                identities(kept(old(self).engines(), identity_views(visible@))),
            ).len(),
    {
        let mut all: Vec<Joycon<F>> = Vec::new();
        core::mem::swap(&mut all, &mut self.connected_joycons);
        let (mut staying, leaving) = sort_out(all, visible);
        let added = take_in(&mut staying, visible, self.capabilities, self.calibration);
        self.connected_joycons = staying;
        DiscoveryReport { added, retired: leaving }
    }
}

/// Sets up the engine of a newcomer.
fn set_up<F: Fn(&InputReport) -> HandlerStatus>(
    id: &DeviceIdentity,
    capabilities: DeviceCapabilities,
    calibration: CalibrationProfile,
) -> (engine: Joycon<F>)
    requires
        capabilities.wf(),
    ensures
        engine.wf(),
        engine@ == fresh::<F>(id@, capabilities, calibration),
{
    let engine = Joycon::build(id.duplicate(), capabilities, calibration);
    assert(engine@.waiters =~= Seq::new(SLOT_COUNT as nat, |c: int| SlotView::Free));
    engine
}

/// Parts the engines that stay from those that leave, and shuts the latter
/// down.
fn sort_out<F: Fn(&InputReport) -> HandlerStatus>(
    engines: Vec<Joycon<F>>,
    visible: &Vec<DeviceIdentity>,
) -> (res: (Vec<Joycon<F>>, Vec<Joycon<F>>))
    requires
        forall|i: int| 0 <= i < engines@.len() ==> (#[trigger] engines@[i]).wf(),
        distinct(identities(views(engines@))),
    ensures
        views(res.0@) == kept(views(engines@), identity_views(visible@)),
        views(res.1@) == retired(views(engines@), identity_views(visible@)),
        forall|i: int| 0 <= i < res.0@.len() ==> (#[trigger] res.0@[i]).wf(),
        forall|i: int| 0 <= i < res.1@.len() ==> (#[trigger] res.1@[i]).wf(),
        distinct(identities(views(res.0@))),
{
    let ghost all = views(engines@);
    let ghost seen = identity_views(visible@);
    let ghost total = engines@.len() as int;
    let ghost mut k: int = 0;
    let mut rest = engines;
    let mut staying: Vec<Joycon<F>> = Vec::new();
    let mut leaving: Vec<Joycon<F>> = Vec::new();
    assert(views(staying@) =~= kept(all.subrange(0, 0), seen));
    assert(views(leaving@) =~= retired(all.subrange(0, 0), seen));
    while rest.len() > 0
        invariant
            0 <= k <= total,
            total == engines@.len(),
            all == views(engines@),
            seen == identity_views(visible@),
            rest@ == engines@.subrange(k, total),
            views(staying@) == kept(all.subrange(0, k), seen),
            views(leaving@) == retired(all.subrange(0, k), seen),
            forall|i: int| 0 <= i < engines@.len() ==> (#[trigger] engines@[i]).wf(),
            forall|i: int| 0 <= i < staying@.len() ==> (#[trigger] staying@[i]).wf(),
            forall|i: int| 0 <= i < leaving@.len() ==> (#[trigger] leaving@[i]).wf(),
            distinct(identities(all)),
            distinct(identities(views(staying@))),
            forall|i: int, j: int|
                0 <= i < staying@.len() && k <= j < total ==> (#[trigger] staying@[i])@.identity
                    != (#[trigger] all[j]).identity,
        decreases rest@.len(),
    {
        let mut engine = rest.remove(0);
        assert(engine == engines@[k]);
        assert(rest@ =~= engines@.subrange(k + 1, total));
        let alive = match engine.state() {
            DeviceState::Discovered => true,
            DeviceState::Connected => true,
            _ => false,
        };
        let stay = alive && is_visible(visible, engine.identity());
        proof {
            assert(all.subrange(0, k + 1).drop_last() =~= all.subrange(0, k));
            assert(all.subrange(0, k + 1).last() == all[k]);
            assert(all[k] == engine@);
            assert(stay == stays(all[k], seen));
        }
        if stay {
            let ghost before = staying@;
            staying.push(engine);
            proof {
                assert(views(staying@) =~= views(before).push(all[k]));
                assert forall|i: int, j: int| 0 <= i < j < staying@.len() implies identities(
                    views(staying@),
                )[i] != identities(views(staying@))[j] by {
                    if j == before.len() {
                        assert(before[i]@.identity != all[k].identity);
                    } else {
                        assert(identities(views(before))[i] != identities(views(before))[j]);
                    }
                }
                assert forall|i: int, j: int|
                    0 <= i < staying@.len() && k + 1 <= j < total implies (
                    #[trigger] staying@[i])@.identity != (#[trigger] all[j]).identity by {
                    if i == before.len() {
                        assert(identities(all)[k] != identities(all)[j]);
                    } else {
                        assert(before[i]@.identity != all[j].identity);
                    }
                }
            }
        } else {
            let ghost before = leaving@;
            engine.shutdown();
            leaving.push(engine);
            proof {
                assert(views(leaving@) =~= views(before).push(
                    all[k].after_stop(StopReason::Shutdown),
                ));
            }
        }
        proof {
            k = k + 1;
        }
    }
    proof {
        assert(all.subrange(0, total) =~= all);
    }
    (staying, leaving)
}

/// An identity occurs in two runs put together exactly when it occurs in
/// one of them.
proof fn lemma_contains_add(
    a: Seq<DeviceIdentityView>,
    b: Seq<DeviceIdentityView>,
    id: DeviceIdentityView,
)
    ensures
        (a + b).contains(id) <==> a.contains(id) || b.contains(id),
{
    if a.contains(id) {
        let i = choose|i: int| 0 <= i < a.len() && a[i] == id;
        assert((a + b)[i] == id);
    }
    if b.contains(id) {
        let i = choose|i: int| 0 <= i < b.len() && b[i] == id;
        assert((a + b)[a.len() + i] == id);
    }
    if (a + b).contains(id) {
        let i = choose|i: int| 0 <= i < (a + b).len() && (a + b)[i] == id;
        if i < a.len() {
            assert(a[i] == id);
        } else {
            assert(b[i - a.len()] == id);
        }
    }
}

/// Gives every visible Joy-Con that has no engine in the registry a fresh
/// one, at the end of the registry.
fn take_in<F: Fn(&InputReport) -> HandlerStatus>(
    registry: &mut Vec<Joycon<F>>,
    visible: &Vec<DeviceIdentity>,
    capabilities: DeviceCapabilities,
    calibration: CalibrationProfile,
) -> (added: usize)
    requires
        capabilities.wf(),
        forall|i: int| 0 <= i < old(registry)@.len() ==> (#[trigger] old(registry)@[i]).wf(),
        distinct(identities(views(old(registry)@))),
    ensures
        forall|i: int| 0 <= i < final(registry)@.len() ==> (#[trigger] final(registry)@[i]).wf(),
        distinct(identities(views(final(registry)@))),
        added == newcomers(identity_views(visible@), identities(views(old(registry)@))).len(),
        views(final(registry)@) == views(old(registry)@) + Seq::new(
            added as nat,
            |i: int|
                fresh(
                    newcomers(identity_views(visible@), identities(views(old(registry)@)))[i],
                    capabilities,
                    calibration,
                ),
        ),
{
    let ghost base = views(registry@);
    let ghost known = identities(base);
    let ghost seen = identity_views(visible@);
    let mut added: usize = 0;
    let mut i: usize = 0;
    assert(views(registry@) =~= base + Seq::new(
        0,
        |t: int| fresh(newcomers(seen.subrange(0, 0), known)[t], capabilities, calibration),
    ));
    while i < visible.len()
        invariant
            i <= visible@.len(),
            capabilities.wf(),
            seen == identity_views(visible@),
            known == identities(base),
            added <= i,
            added == newcomers(seen.subrange(0, i as int), known).len(),
            views(registry@) == base + Seq::new(
                added as nat,
                |t: int|
                    fresh(
                        newcomers(seen.subrange(0, i as int), known)[t],
                        capabilities,
                        calibration,
                    ),
            ),
            forall|t: int| 0 <= t < registry@.len() ==> (#[trigger] registry@[t]).wf(),
            distinct(identities(views(registry@))),
        decreases visible@.len() - i,
    {
        let ghost so_far = newcomers(seen.subrange(0, i as int), known);
        let ghost before = registry@;
        let id = &visible[i];
        let known_here = is_registered(registry, id);
        let take = id.is_joycon() && !known_here;
        proof {
            assert(seen.subrange(0, i + 1).drop_last() =~= seen.subrange(0, i as int));
            assert(seen.subrange(0, i + 1).last() == id@);
            assert(identities(views(before)) =~= known + so_far);
            lemma_contains_add(known, so_far, id@);
        }
        if take {
            let engine = set_up(id, capabilities, calibration);
            registry.push(engine);
            added += 1;
            proof {
                let now = newcomers(seen.subrange(0, i + 1), known);
                assert(now == so_far.push(id@));
                assert(views(registry@) =~= views(before).push(
                    fresh(id@, capabilities, calibration),
                ));
                assert forall|t: int| 0 <= t < so_far.len() implies now[t] == so_far[t] by {}
                assert(now[so_far.len() as int] == id@);
                assert(views(registry@) =~= base + Seq::new(
                    added as nat,
                    |t: int| fresh(now[t], capabilities, calibration),
                ));
                assert forall|a: int, b: int| 0 <= a < b < registry@.len() implies identities(
                    views(registry@),
                )[a] != identities(views(registry@))[b] by {
                    if b == before.len() {
                        assert(identities(views(before))[a] != id@);
                    } else {
                        assert(identities(views(before))[a] != identities(views(before))[b]);
                    }
                }
            }
        }
        i += 1;
    }
    proof {
        assert(seen.subrange(0, visible@.len() as int) =~= seen);
    }
    added
}

} // verus!
