//! The service registry: the backends that were registered, the displays they
//! know, and their events.
//!
//! The registry owns its backends, and each backend owns its display.
//! Everybody else names a display by its identifier and reaches it through
//! the registry.

use vstd::prelude::*;
use crate::magicleap::display::MagicLeapVRDisplayView;
use crate::magicleap::service::MagicLeapVRService;
use crate::mock::mock_display_data;
use crate::mock::mock_frame_data;
use crate::mock::MockVRDisplayView;
use crate::mock::MockVRService;
use crate::mock::MockVRStateView;
use crate::model::VRDisplayData;
use crate::model::VREvent;
use crate::model::VRFramebufferAttributes;
use crate::render::ConfigError;

verus! {

/// A backend: one of the variants that implement the service contract.
pub enum Backend {
    /// The service of the native device.
    Native(MagicLeapVRService),
    /// The simulated service.
    Simulated(MockVRService),
}

/// A backend as a value: the display that it knows.
pub enum BackendView {
    Native(MagicLeapVRDisplayView),
    Simulated(MockVRDisplayView),
}

impl BackendView {
    /// The identifier of the backend's display.
    pub open spec fn display_id(self) -> u32 {
        match self {
            BackendView::Native(display) => display.id,
            BackendView::Simulated(display) => display.display_id,
        }
    }

    /// The data of the backend's display.
    pub open spec fn display_data(self) -> VRDisplayData {
        match self {
            BackendView::Native(display) => display.display_data,
            BackendView::Simulated(display) => display.state.display_data,
        }
    }

    /// The events that wait in the backend, oldest first.
    pub open spec fn pending(self) -> Seq<VREvent> {
        match self {
            BackendView::Native(_) => Seq::empty(),
            BackendView::Simulated(display) => display.state.events,
        }
    }

    /// The backend with no event waiting.
    pub open spec fn drained(self) -> BackendView {
        match self {
            BackendView::Native(display) => BackendView::Native(display),
            BackendView::Simulated(display) => BackendView::Simulated(
                MockVRDisplayView { state: MockVRStateView { events: Seq::empty(), ..display.state }, ..display },
            ),
        }
    }
}

impl View for Backend {
    type V = BackendView;

    open spec fn view(&self) -> BackendView {
        match self {
            Backend::Native(service) => BackendView::Native(service@),
            Backend::Simulated(service) => BackendView::Simulated(service@),
        }
    }
}

impl Backend {
    /// Sets the backend up. Both variants have nothing to set up.
    pub fn initialize(&mut self) -> (done: Result<(), String>)
        ensures
            done == Ok::<(), String>(()),
            final(self)@ == old(self)@,
    {
        match self {
            Backend::Native(service) => service.initialize(),
            Backend::Simulated(service) => service.initialize(),
        }
    }

    /// Whether the backend can be used. Every backend that could be created can.
    pub fn is_available(&self) -> (available: bool)
        ensures
            available,
    {
        match self {
            Backend::Native(service) => service.is_available(),
            Backend::Simulated(service) => service.is_available(),
        }
    }

    /// The identifiers of the backend's displays: that of its one display.
    pub fn fetch_displays(&mut self) -> (displays: Result<Vec<u32>, String>)
        ensures
            final(self)@ == old(self)@,
            displays is Ok,
            displays->Ok_0@ == seq![old(self)@.display_id()],
    {
        match self {
            Backend::Native(service) => service.fetch_displays(),
            Backend::Simulated(service) => service.fetch_displays(),
        }
    }

    /// The identifiers of the backend's gamepads: neither variant has any.
    pub fn fetch_gamepads(&mut self) -> (gamepads: Result<Vec<u32>, String>)
        ensures
            final(self)@ == old(self)@,
            gamepads is Ok,
            gamepads->Ok_0@ == Seq::<u32>::empty(),
    {
        match self {
            Backend::Native(service) => service.fetch_gamepads(),
            Backend::Simulated(service) => service.fetch_gamepads(),
        }
    }

    /// Hands out the events that wait in the backend, oldest first, and forgets them.
    pub fn poll_events(&mut self) -> (events: Vec<VREvent>)
        ensures
            events@ == old(self)@.pending(),
            final(self)@ == old(self)@.drained(),
    {
        match self {
            Backend::Native(service) => service.poll_events(),
            Backend::Simulated(service) => service.poll_events(),
        }
    }


    /// The identifier of the backend's display. For a real backend it is
    /// the one that the display's data carry.
    pub fn display_id(&self) -> (id: u32)
        ensures
            id == self@.display_id(),
            self is Native ==> id == self@.display_data().display_id,
    {
        match self {
            Backend::Native(service) => service.display_id(),
            Backend::Simulated(service) => service.display_id(),
        }
    }

    /// A copy of the data of the backend's display. For a real backend they
    /// carry the identifier of the display.
    pub fn display_data(&self) -> (data: VRDisplayData)
        ensures
            data == self@.display_data(),
            self is Native ==> data.display_id == self@.display_id(),
    {
        match self {
            Backend::Native(service) => service.display_data(),
            Backend::Simulated(service) => service.display_data(),
        }
    }

    /// The simulated service, where the backend is one.
    pub fn as_mock(&self) -> (service: Option<&MockVRService>)
        ensures
            self is Simulated ==> service == Some(&self->Simulated_0),
            !(self is Simulated) ==> service is None,
    {
        match self {
            Backend::Native(_) => None,
            Backend::Simulated(service) => Some(service),
        }
    }

    /// The native service, where the backend is one.
    pub fn as_native(&self) -> (service: Option<&MagicLeapVRService>)
        ensures
            self is Native ==> service == Some(&self->Native_0),
            !(self is Native) ==> service is None,
    {
        match self {
            Backend::Native(service) => Some(service),
            Backend::Simulated(_) => None,
        }
    }
}

/// The identifiers with one more, unless it is among them already.
pub open spec fn with_id(ids: Seq<u32>, id: u32) -> Seq<u32> {
    if ids.contains(id) {
        ids
    } else {
        ids.push(id)
    }
}

/// The identifiers of the displays of a row of backends, in the order of the
/// backends, each once: a display under an identifier that an earlier backend
/// has claimed is passed over.
pub open spec fn display_ids(services: Seq<BackendView>) -> Seq<u32>
    decreases services.len(),
{
    if services.len() == 0 {
        Seq::empty()
    } else {
        with_id(display_ids(services.drop_last()), services.last().display_id())
    }
}

/// The events that wait in a row of backends: those of the first backend,
/// oldest first, then those of the second, and so on.
pub open spec fn pending_events(services: Seq<BackendView>) -> Seq<VREvent>
    decreases services.len(),
{
    if services.len() == 0 {
        Seq::empty()
    } else {
        pending_events(services.drop_last()) + services.last().pending()
    }
}

/// Whether a backend is one to prefer: a real one. Every backend that could
/// be created can be used, so nothing more is asked of it.
pub open spec fn preferred(service: BackendView) -> bool {
    service is Native
}

/// Whether a backend is one to fall back on: a simulated one.
pub open spec fn fallback(service: BackendView) -> bool {
    service is Simulated
}

/// Whether the backend at an index is the one to render with: it is the
/// first one to prefer, or, where there is none to prefer, the first one to
/// fall back on. At most one index is.
pub open spec fn selects(services: Seq<BackendView>, index: int) -> bool {
    &&& 0 <= index < services.len()
    &&& if preferred(services[index]) {
        forall|j: int| 0 <= j < index ==> !preferred(#[trigger] services[j])
    } else {
        &&& fallback(services[index])
        &&& forall|j: int| 0 <= j < index ==> !fallback(#[trigger] services[j])
        &&& forall|j: int| 0 <= j < services.len() ==> !preferred(#[trigger] services[j])
    }
}

/// Whether there is no backend to render with: none to prefer and none to fall back on.
pub open spec fn selects_none(services: Seq<BackendView>) -> bool {
    forall|j: int| 0 <= j < services.len() ==> !preferred(#[trigger] services[j]) && !fallback(services[j])
}

/// The registry.
pub struct VRServiceManager {
    initialized: bool,
    services: Vec<Backend>,
}

/// The registry as a value.
pub struct VRServiceManagerView {
    /// Whether the backends were set up.
    pub initialized: bool,
    /// The backends in the order in which they were registered.
    pub services: Seq<BackendView>,
}

impl View for VRServiceManager {
    type V = VRServiceManagerView;

    closed spec fn view(&self) -> VRServiceManagerView {
        VRServiceManagerView {
            initialized: self.initialized,
            services: self.services@.map_values(|service: Backend| service@),
        }
    }
}

impl VRServiceManager {
    /// A registry without backends.
    pub fn new() -> (manager: VRServiceManager)
        ensures
            manager@ == (VRServiceManagerView { initialized: false, services: Seq::empty() }),
    {
        let manager = VRServiceManager { initialized: false, services: Vec::new() };
        assert(manager@.services =~= Seq::empty());
        manager
    }

    /// Registers a backend behind those that are registered.
    pub fn register(&mut self, service: Backend)
        ensures
            final(self)@ == (VRServiceManagerView { services: old(self)@.services.push(service@), ..old(self)@ }),
    {
        self.services.push(service);
        assert(self@.services =~= old(self)@.services.push(service@));
    }

    /// Registers a simulated backend with a display created now, so that
    /// there is a display to render to where no device is.
    pub fn register_mock(&mut self)
        ensures
            final(self)@.initialized == old(self)@.initialized,
            final(self)@.services.len() == old(self)@.services.len() + 1,
            final(self)@.services.drop_last() == old(self)@.services,
            final(self)@.services.last() is Simulated,
            ({
                let display = final(self)@.services.last()->Simulated_0;
                &&& display.attributes == VRFramebufferAttributes::plain()
                &&& !display.presenting
                &&& display.state.display_data@ == mock_display_data(display.display_id)
                &&& display.state.frame_data == mock_frame_data(display.state.frame_data.timestamp)
                &&& display.state.events == Seq::<VREvent>::empty()
            }),
    {
        let service = Backend::Simulated(MockVRService::new());
        self.register(service);
        assert(self@.services.drop_last() =~= old(self)@.services);
    }

    /// Whether the backends were set up.
    pub fn is_initialized(&self) -> (initialized: bool)
        ensures
            initialized == self@.initialized,
    {
        self.initialized
    }

    /// How many backends are registered.
    pub fn service_count(&self) -> (count: usize)
        ensures
            count == self@.services.len(),
    {
        self.services.len()
    }

    /// Sets up every backend, once. A second call changes nothing.
    pub fn initialize_services(&mut self)
        ensures
            final(self)@ == (VRServiceManagerView { initialized: true, ..old(self)@ }),
    {
        if self.initialized {
            return ;
        }
        let mut index: usize = 0;
        while index < self.services.len()
            invariant
                index <= self.services@.len(),
                self@ == old(self)@,
            decreases self.services@.len() - index,
        {
            let ghost before = self@;
            let _ = self.services[index].initialize();
            assert(self@.services =~= before.services);
            index = index + 1;
        }
        self.initialized = true;
    }

    /// The identifiers of the displays of all backends, in the order of the
    /// backends. No identifier comes twice.
    pub fn get_displays(&mut self) -> (displays: Vec<u32>)
        ensures
            final(self)@ == old(self)@,
            displays@ == display_ids(old(self)@.services),
            displays@.no_duplicates(),
    {
        let mut displays: Vec<u32> = Vec::new();
        let mut index: usize = 0;
        while index < self.services.len()
            invariant
                index <= self.services@.len(),
                self@ == old(self)@,
                displays@ == display_ids(old(self)@.services.take(index as int)),
            decreases self.services@.len() - index,
        {
            let ghost before = self@;
            let fetched = self.services[index].fetch_displays();
            assert(self@.services =~= before.services);
            proof {
                let upto = old(self)@.services.take(index + 1);
                assert(upto.drop_last() =~= old(self)@.services.take(index as int));
                assert(upto.last() == old(self)@.services[index as int]);
            }
            match fetched {
                Ok(ids) => {
                    let mut k: usize = 0;
                    while k < ids.len()
                        invariant
                            k <= ids@.len(),
                            ids@ == seq![old(self)@.services[index as int].display_id()],
                            index < old(self)@.services.len(),
                            k == 0 ==> displays@ == display_ids(old(self)@.services.take(index as int)),
                            k == 1 ==> displays@ == display_ids(old(self)@.services.take(index + 1)),
                            display_ids(old(self)@.services.take(index + 1)) == with_id(
                                display_ids(old(self)@.services.take(index as int)),
                                old(self)@.services[index as int].display_id(),
                            ),
                        decreases ids@.len() - k,
                    {
                        push_unique(&mut displays, ids[k]);
                        k = k + 1;
                    }
                },
                Err(_) => {},
            }
            index = index + 1;
        }
        proof {
            assert(old(self)@.services.take(index as int) =~= old(self)@.services);
            law_display_ids_distinct(old(self)@.services);
        }
        displays
    }

    /// The identifiers of the gamepads of all backends: there are none.
    pub fn get_gamepads(&mut self) -> (gamepads: Vec<u32>)
        ensures
            final(self)@ == old(self)@,
            gamepads@ == Seq::<u32>::empty(),
    {
        let mut gamepads: Vec<u32> = Vec::new();
        let mut index: usize = 0;
        while index < self.services.len()
            invariant
                index <= self.services@.len(),
                self@ == old(self)@,
                gamepads@ == Seq::<u32>::empty(),
            decreases self.services@.len() - index,
        {
            let ghost before = self@;
            let fetched = self.services[index].fetch_gamepads();
            assert(self@.services =~= before.services);
            match fetched {
                Ok(mut ids) => {
                    gamepads.append(&mut ids);
                },
                Err(_) => {},
            }
            index = index + 1;
        }
        gamepads
    }

    /// The index of the first backend that knows the display under an
    /// identifier, or `None` where no backend knows it.
    pub fn find_display(&self, display_id: u32) -> (owner: Option<usize>)
        ensures
            match owner {
                Some(index) => {
                    &&& index < self@.services.len()
                    &&& self@.services[index as int].display_id() == display_id
                    &&& forall|j: int| 0 <= j < index ==> (#[trigger] self@.services[j]).display_id() != display_id
                },
                None => forall|j: int|
                    0 <= j < self@.services.len() ==> (#[trigger] self@.services[j]).display_id() != display_id,
            },
    {
        let mut index: usize = 0;
        while index < self.services.len()
            invariant
                index <= self.services@.len(),
                self@.services.len() == self.services@.len(),
                forall|j: int| 0 <= j < index ==> (#[trigger] self@.services[j]).display_id() != display_id,
            decreases self.services@.len() - index,
        {
            if self.services[index].display_id() == display_id {
                return Some(index);
            }
            index = index + 1;
        }
        None
    }

    /// The backend at an index, counted in the order of registration.
    pub fn service(&self, index: usize) -> (service: Option<&Backend>)
        ensures
            index < self@.services.len() ==> service is Some && service->Some_0@ == self@.services[index as int],
            index >= self@.services.len() ==> service is None,
    {
        if index < self.services.len() {
            Some(&self.services[index])
        } else {
            None
        }
    }

    /// The simulated service at an index, to steer its display and to present
    /// on it. `None` where the index names no backend or a backend of
    /// another kind.
    pub fn mock_service_mut(&mut self, index: usize) -> (service: Option<&mut MockVRService>)
        ensures
            index < old(self)@.services.len() && old(self)@.services[index as int] is Simulated ==> {
                &&& service is Some
                &&& service->Some_0@ == old(self)@.services[index as int]->Simulated_0
                &&& final(self)@ == (VRServiceManagerView {
                    services: old(self)@.services.update(
                        index as int,
                        BackendView::Simulated(final(service->Some_0)@),
                    ),
                    ..old(self)@
                })
            },
            !(index < old(self)@.services.len() && old(self)@.services[index as int] is Simulated) ==> {
                &&& service is None
                &&& final(self)@ == old(self)@
            },
    {
        if index >= self.services.len() {
            return None;
        }
        match &mut self.services[index] {
            Backend::Simulated(service) => {
                proof {
                    lemma_views_after_update(old(self).services@, index as int, Backend::Simulated(*final(service)));
                }
                Some(service)
            },
            Backend::Native(native) => {
                proof {
                    lemma_views_after_update(old(self).services@, index as int, Backend::Native(*final(native)));
                }
                None
            },
        }
    }

    /// A copy of the data of the display under an identifier, or `None`
    /// where no backend knows it. The data are those of the first backend
    /// that knows the display; where that is a real backend, they carry the
    /// identifier that was asked for.
    pub fn display_data(&self, display_id: u32) -> (data: Option<VRDisplayData>)
        ensures
            match data {
                Some(data) => exists|index: int|
                    0 <= index < self@.services.len() && (#[trigger] self@.services[index]).display_id()
                        == display_id && data == self@.services[index].display_data() && (self@.services[index] is Native
                        ==> data.display_id == display_id) && forall|j: int|
                        0 <= j < index ==> (#[trigger] self@.services[j]).display_id() != display_id,
                None => forall|j: int|
                    0 <= j < self@.services.len() ==> (#[trigger] self@.services[j]).display_id() != display_id,
            },
    {
        match self.find_display(display_id) {
            Some(index) => {
                assert(self.services@[index as int]@ == self@.services[index as int]);
                Some(self.services[index].display_data())
            },
            None => None,
        }
    }

    /// Hands out the events that wait in the backends and forgets them: the
    /// events of the backend registered first come first, and those of one
    /// backend oldest first. Each event is handed out once.
    pub fn poll_events(&mut self) -> (events: Vec<VREvent>)
        ensures
            events@ == pending_events(old(self)@.services),
            final(self)@ == (VRServiceManagerView {
                services: old(self)@.services.map_values(|service: BackendView| service.drained()),
                ..old(self)@
            }),
    {
        let mut events: Vec<VREvent> = Vec::new();
        let mut index: usize = 0;
        while index < self.services.len()
            invariant
                index <= self.services@.len(),
                self@.initialized == old(self)@.initialized,
                self@.services.len() == old(self)@.services.len(),
                self.services@.len() == old(self)@.services.len(),
                forall|j: int| 0 <= j < index ==> (#[trigger] self@.services[j]) == old(self)@.services[j].drained(),
                forall|j: int|
                    index <= j < self@.services.len() ==> (#[trigger] self@.services[j]) == old(self)@.services[j],
                events@ == pending_events(old(self)@.services.take(index as int)),
            decreases self.services@.len() - index,
        {
            let ghost before = self@;
            let mut polled = self.services[index].poll_events();
            proof {
                assert(self@.services =~= before.services.update(index as int, before.services[index as int].drained()));
                let upto = old(self)@.services.take(index + 1);
                assert(upto.drop_last() =~= old(self)@.services.take(index as int));
                assert(upto.last() == old(self)@.services[index as int]);
            }
            events.append(&mut polled);
            index = index + 1;
        }
        proof {
            assert(old(self)@.services.take(index as int) =~= old(self)@.services);
            assert(self@.services =~= old(self)@.services.map_values(|service: BackendView| service.drained()));
        }
        events
    }

    /// Chooses the backend to render with: the first real backend, in the
    /// order of registration, or, where there is none, the first simulated
    /// one. `None` where neither is registered. Each real backend is asked
    /// whether it can be used, and each answers that it can.
    pub fn select_backend(&self) -> (chosen: Option<usize>)
        ensures
            match chosen {
                Some(index) => selects(self@.services, index as int),
                None => selects_none(self@.services),
            },
    {
        let mut first_fallback: Option<usize> = None;
        let mut index: usize = 0;
        while index < self.services.len()
            invariant
                index <= self.services@.len(),
                self@.services.len() == self.services@.len(),
                forall|j: int| 0 <= j < index ==> !preferred(#[trigger] self@.services[j]),
                match first_fallback {
                    Some(at) => {
                        &&& at < index
                        &&& fallback(self@.services[at as int])
                        &&& forall|j: int| 0 <= j < at ==> !fallback(#[trigger] self@.services[j])
                    },
                    None => forall|j: int| 0 <= j < index ==> !fallback(#[trigger] self@.services[j]),
                },
            decreases self.services@.len() - index,
        {
            let service = &self.services[index];
            assert(service@ == self@.services[index as int]);
            match service {
                Backend::Native(_) => {
                    if service.is_available() {
                        return Some(index);
                    }
                },
                Backend::Simulated(_) => {
                    if first_fallback.is_none() {
                        first_fallback = Some(index);
                    }
                },
            }
            index = index + 1;
        }
        first_fallback
    }

    /// Chooses the display to render to: the display of the backend that
    /// `select_backend` chooses. Where that chooses none there is no
    /// display, which is an error; it happens only where no backend is
    /// registered.
    pub fn select_display(&self) -> (chosen: Result<u32, ConfigError>)
        ensures
            match chosen {
                Ok(display_id) => exists|index: int| #[trigger]
                    selects(self@.services, index) && display_id == self@.services[index].display_id(),
                Err(error) => error == ConfigError::NoDisplay && selects_none(self@.services),
            },
            chosen is Err <==> self@.services.len() == 0,
    {
        match self.select_backend() {
            Some(index) => {
                let id = self.services[index].display_id();
                assert(self.services@[index as int]@ == self@.services[index as int]);
                assert(selects(self@.services, index as int));
                Ok(id)
            },
            None => {
                assert(self@.services.len() > 0 ==> preferred(self@.services[0]) || fallback(self@.services[0]));
                Err(ConfigError::NoDisplay)
            },
        }
    }
}

/// Replacing one backend in a row replaces its view in the row of views.
proof fn lemma_views_after_update(services: Seq<Backend>, index: int, replacement: Backend)
    requires
        0 <= index < services.len(),
    ensures
        services.update(index, replacement).map_values(|service: Backend| service@) == services.map_values(
            |service: Backend| service@,
        ).update(index, replacement@),
        replacement == services[index] ==> services.update(index, replacement) == services,
{
    assert(services.update(index, replacement).map_values(|service: Backend| service@) =~= services.map_values(
        |service: Backend| service@,
    ).update(index, replacement@));
    if replacement == services[index] {
        assert(services.update(index, replacement) =~= services);
    }
}

/// The choice of a backend is unique: two indices that are both chosen are the same.
pub proof fn law_selection_unique(services: Seq<BackendView>, first: int, second: int)
    requires
        selects(services, first),
        selects(services, second),
    ensures
        first == second,
{
    if first < second {
        assert(preferred(services[first]) || fallback(services[first]));
    } else if second < first {
        assert(preferred(services[second]) || fallback(services[second]));
    }
}

/// Appends an identifier unless it is there already.
fn push_unique(ids: &mut Vec<u32>, id: u32)
    ensures
        final(ids)@ == with_id(old(ids)@, id),
{
    let mut k: usize = 0;
    while k < ids.len()
        invariant
            k <= ids@.len(),
            ids@ == old(ids)@,
            forall|j: int| 0 <= j < k ==> ids@[j] != id,
        decreases ids@.len() - k,
    {
        if ids[k] == id {
            return ;
        }
        k = k + 1;
    }
    ids.push(id);
}

/// Among the displays that a registry reports no identifier comes twice,
/// whichever backends are registered and whatever identifiers their displays
/// carry; and it reports the identifier of every display that a backend knows.
pub proof fn law_display_ids_distinct(services: Seq<BackendView>)
    ensures
        display_ids(services).no_duplicates(),
        forall|id: u32|
            display_ids(services).contains(id) <==> exists|i: int|
                0 <= i < services.len() && (#[trigger] services[i]).display_id() == id,
    decreases services.len(),
{
    if services.len() > 0 {
        let before = services.drop_last();
        let id = services.last().display_id();
        law_display_ids_distinct(before);
        let ids = display_ids(before);
        let all = display_ids(services);
        assert forall|other: u32|
            all.contains(other) <==> exists|i: int|
                0 <= i < services.len() && (#[trigger] services[i]).display_id() == other by {
            if all.contains(other) {
                if ids.contains(other) {
                    let i = choose|i: int| 0 <= i < before.len() && (#[trigger] before[i]).display_id() == other;
                    assert(services[i] == before[i]);
                } else {
                    let k = choose|k: int| 0 <= k < all.len() && all[k] == other;
                    if k < ids.len() {
                        assert(ids[k] == other);
                    }
                    assert(services[services.len() - 1].display_id() == other);
                }
            }
            if exists|i: int| 0 <= i < services.len() && (#[trigger] services[i]).display_id() == other {
                let i = choose|i: int| 0 <= i < services.len() && (#[trigger] services[i]).display_id() == other;
                if i < before.len() {
                    assert(before[i] == services[i]);
                    assert(ids.contains(other));
                    let k = choose|k: int| 0 <= k < ids.len() && ids[k] == other;
                    assert(all[k] == other);
                } else {
                    if !ids.contains(id) {
                        assert(all[ids.len() as int] == id);
                    }
                }
            }
        }
    }
}

} // verus!
