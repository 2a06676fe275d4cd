//! Setting up an instance of a compiled test module, step by step.
use crate::linker::{can_link, has_linked, link_all, linker_shadows, stops_at};
use crate::plan::{link_plan, link_views, planned_links, Link, LinkView, ModuleImports};
use crate::slot::ContextSlot;
use crate::start::{instance_functions, start_resolution, StartError, StartResolution};
use crate::text::texts;
use crate::version::{ApiVersion, ApiVersionView};
use crate::watchdog::Span;
use vstd::prelude::*;
use vstd::string::*;

verus! {

/// What an instance is set up with.
pub struct InstanceSettings {
    /// The file with the compiled module.
    pub wasm_path: String,
    /// The text of the deployment hash.
    pub subgraph_id: String,
    /// The number of the deployment.
    pub deployment_id: i32,
    /// The API version of the mapping.
    pub api_version: ApiVersion,
    /// Whether the guest may use IPFS calls whose outcome is not determined.
    pub allow_non_deterministic_ipfs: bool,
    /// How long the guest may run.
    pub timeout: Option<Span>,
}

/// What [`InstanceSettings`] say.
pub struct SettingsView {
    /// The file with the compiled module.
    pub wasm_path: Seq<char>,
    /// The text of the deployment hash.
    pub subgraph_id: Seq<char>,
    /// The number of the deployment.
    pub deployment_id: i32,
    /// The API version of the mapping.
    pub api_version: ApiVersionView,
    /// Whether the guest may use IPFS calls whose outcome is not determined.
    pub allow_non_deterministic_ipfs: bool,
    /// How many nanoseconds the guest may run.
    pub timeout: Option<nat>,
}

impl View for InstanceSettings {
    type V = SettingsView;

    open spec fn view(&self) -> SettingsView {
        SettingsView {
            wasm_path: self.wasm_path@,
            subgraph_id: self.subgraph_id@,
            deployment_id: self.deployment_id,
            api_version: self.api_version@,
            allow_non_deterministic_ipfs: self.allow_non_deterministic_ipfs,
            timeout: match self.timeout {
                Some(span) => Some(span@),
                None => None,
            },
        }
    }
}

impl SettingsView {
    /// The settings with which the module at `path` is tested.
    pub open spec fn of_module(path: Seq<char>) -> SettingsView {
        SettingsView {
            wasm_path: path,
            subgraph_id: "ipfsMap"@,
            deployment_id: 42,
            api_version: ApiVersionView::release(0, 0, 5),
            allow_non_deterministic_ipfs: true,
            timeout: None,
        }
    }
}

impl InstanceSettings {
    /// The settings with which the module at `path_to_wasm` is tested.
    pub fn of_module(path_to_wasm: &str) -> (settings: InstanceSettings)
        ensures
            settings@ == SettingsView::of_module(path_to_wasm@),
            settings@.api_version.well_formed(),
    {
        InstanceSettings {
            wasm_path: path_to_wasm.to_owned(),
            subgraph_id: "ipfsMap".to_owned(),
            deployment_id: 42,
            api_version: ApiVersion::new(0, 0, 5),
            allow_non_deterministic_ipfs: true,
            timeout: None,
        }
    }
}

/// How far the set-up of an instance has come.
#[derive(Clone, Copy, Debug, PartialEq, Eq, Structural)]
pub enum Stage {
    /// The watchdog is to be started.
    ArmingWatchdog,
    /// The host functions are to be linked.
    Linking,
    /// The module is to be instantiated.
    Instantiating,
    /// The context is to be made, for no call of the guest has asked for it.
    MakingContext,
    /// The start function is to be found.
    ResolvingStart,
    /// The start function is to be called.
    CallingStart,
    /// The instance can be used.
    Ready,
    /// The instance cannot be set up.
    Failed,
}

/// Why an instance cannot be set up.
pub enum SetupError {
    /// A host function cannot be linked.
    Link(anyhow::Error),
    /// The module cannot be instantiated.
    Instantiate(anyhow::Error),
    /// The context cannot be made.
    Context(anyhow::Error),
    /// The instance cannot be started.
    Start(StartError),
}

/// The instance of a compiled test module, from its settings to its use.
pub struct MatchstickInstance {
    settings: InstanceSettings,
    plan: Vec<Link>,
    stage: Stage,
    context_ready: bool,
    failure: Option<SetupError>,
}

/// What a [`MatchstickInstance`] says.
pub struct InstanceView {
    /// What it is set up with.
    pub settings: SettingsView,
    /// The definitions that its linker needs.
    pub plan: Seq<LinkView>,
    /// How far it has come.
    pub stage: Stage,
    /// Whether its context is there.
    pub context_ready: bool,
}

/// What can happen to an instance while it is set up.
pub enum SetupEvent {
    /// The watchdog runs.
    WatchdogArmed,
    /// The host functions were linked, or one was refused.
    Linked(bool),
    /// The module was instantiated, with or without a context made on the way; or it was not.
    Instantiated(Option<bool>),
    /// The context was made, or it was not.
    ContextMade(bool),
    /// The start function was searched for.
    StartResolved(StartResolution),
    /// The start function returned.
    Started,
}

impl InstanceView {
    /// An instance before its set-up.
    pub open spec fn initial(settings: SettingsView, plan: Seq<LinkView>) -> InstanceView {
        InstanceView {
            settings,
            plan,
            stage: if settings.timeout is Some {
                Stage::ArmingWatchdog
            } else {
                Stage::Linking
            },
            context_ready: false,
        }
    }

    /// Whether the module is linked and started the legacy way.
    pub open spec fn legacy(self) -> bool {
        self.settings.api_version.legacy()
    }

    /// The instance at another stage.
    pub open spec fn at(self, stage: Stage) -> InstanceView {
        InstanceView { stage, ..self }
    }

    /// The instance with its context: a legacy one can be used, any other is to be started.
    pub open spec fn with_context(self) -> InstanceView {
        InstanceView {
            stage: if self.legacy() {
                Stage::Ready
            } else {
                Stage::ResolvingStart
            },
            context_ready: true,
            ..self
        }
    }

    /// Whether the instance waits for such an event.
    pub open spec fn awaits(self, event: SetupEvent) -> bool {
        match event {
            SetupEvent::WatchdogArmed => self.stage == Stage::ArmingWatchdog,
            SetupEvent::Linked(_) => self.stage == Stage::Linking,
            SetupEvent::Instantiated(_) => self.stage == Stage::Instantiating,
            SetupEvent::ContextMade(_) => self.stage == Stage::MakingContext,
            SetupEvent::StartResolved(_) => self.stage == Stage::ResolvingStart,
            SetupEvent::Started => self.stage == Stage::CallingStart,
        }
    }

    /// The instance after an event that it waited for.
    pub open spec fn after(self, event: SetupEvent) -> InstanceView {
        match event {
            SetupEvent::WatchdogArmed => self.at(Stage::Linking),
            SetupEvent::Linked(true) => self.at(Stage::Instantiating),
            SetupEvent::Instantiated(Some(true)) => self.with_context(),
            SetupEvent::Instantiated(Some(false)) => self.at(Stage::MakingContext),
            SetupEvent::ContextMade(true) => self.with_context(),
            SetupEvent::StartResolved(StartResolution::Call) => self.at(Stage::CallingStart),
            SetupEvent::Started => self.at(Stage::Ready),
            _ => self.at(Stage::Failed),
        }
    }

    /// What holds of an instance at every stage: the context is there when the guest is started
    /// and when it can be used, it is not there before the module is instantiated, a legacy
    /// instance is never started, and only an instance with a timeout has a watchdog.
    pub open spec fn consistent(self) -> bool {
        match self.stage {
            Stage::ArmingWatchdog => self.settings.timeout is Some && !self.context_ready,
            Stage::Linking | Stage::Instantiating | Stage::MakingContext => !self.context_ready,
            Stage::ResolvingStart | Stage::CallingStart => self.context_ready && !self.legacy(),
            Stage::Ready => self.context_ready,
            Stage::Failed => true,
        }
    }

    /// The instance after a series of events.
    pub open spec fn after_all(self, events: Seq<SetupEvent>) -> InstanceView
        decreases events.len(),
    {
        if events.len() == 0 {
            self
        } else {
            self.after(events[0]).after_all(events.skip(1))
        }
    }

    /// Whether the instance waits for each of a series of events when it comes.
    pub open spec fn awaits_all(self, events: Seq<SetupEvent>) -> bool
        decreases events.len(),
    {
        events.len() > 0 ==> self.awaits(events[0]) && self.after(events[0]).awaits_all(
            events.skip(1),
        )
    }
}

impl View for MatchstickInstance {
    type V = InstanceView;

    closed spec fn view(&self) -> InstanceView {
        InstanceView {
            settings: self.settings@,
            plan: link_views(self.plan@),
            stage: self.stage,
            context_ready: self.context_ready,
        }
    }
}

impl MatchstickInstance {
    /// Why the instance cannot be set up, if it cannot.
    pub closed spec fn failure(self) -> Option<SetupError> {
        self.failure
    }

    /// A consistent instance, with a well-formed version, that has a failure exactly if it
    /// failed.
    pub open spec fn well_formed(self) -> bool {
        &&& self@.consistent()
        &&& self@.settings.api_version.well_formed()
        &&& self.failure() is Some <==> self@.stage == Stage::Failed
    }

    /// The instance of the module at `path_to_wasm`, which has these imports, in a chain with
    /// these host functions.
    pub fn new(path_to_wasm: &str, imports: &ModuleImports, host_fns: &Vec<String>) -> (instance:
        MatchstickInstance)
        requires
            imports.well_formed(),
        ensures
            instance.well_formed(),
            instance@ == InstanceView::initial(
                SettingsView::of_module(path_to_wasm@),
                planned_links(imports@, texts(host_fns@), false),
            ),
    {
        let settings = InstanceSettings::of_module(path_to_wasm);
        MatchstickInstance::from_valid_module_with_ctx(settings, imports, host_fns)
    }

    /// An instance with these settings of a module with these imports, in a chain with these
    /// host functions.
    pub fn from_valid_module_with_ctx(
        settings: InstanceSettings,
        imports: &ModuleImports,
        host_fns: &Vec<String>,
    ) -> (instance: MatchstickInstance)
        requires
            imports.well_formed(),
            settings@.api_version.well_formed(),
        ensures
            instance.well_formed(),
            instance@ == InstanceView::initial(
                settings@,
                planned_links(imports@, texts(host_fns@), settings@.api_version.legacy()),
            ),
    {
        let plan: Vec<Link> = link_plan(imports, host_fns, &settings.api_version);
        let stage: Stage = match settings.timeout {
            Some(_) => Stage::ArmingWatchdog,
            None => Stage::Linking,
        };
        MatchstickInstance { settings, plan, stage, context_ready: false, failure: None }
    }

    /// How far the instance has come.
    pub fn stage(&self) -> (stage: Stage)
        ensures
            stage == self@.stage,
    {
        self.stage
    }

    /// What the instance is set up with.
    pub fn settings(&self) -> (settings: &InstanceSettings)
        ensures
            settings@ == self@.settings,
    {
        &self.settings
    }

    /// The definitions that the linker of the instance needs, in order.
    pub fn plan(&self) -> (plan: &Vec<Link>)
        ensures
            link_views(plan@) == self@.plan,
    {
        &self.plan
    }

    /// Takes note that the watchdog runs.
    pub fn watchdog_armed(&mut self)
        requires
            old(self).well_formed(),
            old(self)@.stage == Stage::ArmingWatchdog,
        ensures
            final(self).well_formed(),
            final(self)@ == old(self)@.after(SetupEvent::WatchdogArmed),
    {
        self.stage = Stage::Linking;
    }

    /// Makes the definitions that the instance needs in `linker`, definition `i` answered by
    /// function `i` of `funcs`.
    pub fn link(&mut self, linker: &mut wasmtime::Linker, funcs: Vec<wasmtime::Func>)
        requires
            old(self).well_formed(),
            old(self)@.stage == Stage::Linking,
            funcs@.len() == old(self)@.plan.len(),
        ensures
            final(self).well_formed(),
            final(self)@ == old(self)@.after(
                SetupEvent::Linked(can_link(*old(linker), old(self)@.plan, funcs@)),
            ),
            final(self).failure() matches Some(error) ==> error is Link,
            final(self)@.stage == Stage::Instantiating ==> has_linked(
                *old(linker),
                *final(linker),
                old(self)@.plan,
                funcs@,
            ),
            final(self)@.stage == Stage::Failed ==> exists|k: int| #[trigger]
                stops_at(*old(linker), *final(linker), old(self)@.plan, funcs@, k),
            linker_shadows(*final(linker)) == linker_shadows(*old(linker)),
    {
        match link_all(linker, &self.plan, funcs) {
            Ok(_) => {
                self.stage = Stage::Instantiating;
            },
            Err(error) => {
                self.fail(SetupError::Link(error));
            },
        }
    }

    /// Takes note of whether the module was instantiated, and if so, whether a call of the guest
    /// has had the context made on the way.
    pub fn instantiated(&mut self, outcome: Result<bool, anyhow::Error>)
        requires
            old(self).well_formed(),
            old(self)@.stage == Stage::Instantiating,
        ensures
            final(self).well_formed(),
            match outcome {
                Ok(ready) => final(self)@ == old(self)@.after(
                    SetupEvent::Instantiated(Some(ready)),
                ),
                Err(error) => final(self)@ == old(self)@.after(SetupEvent::Instantiated(None))
                    && final(self).failure() == Some(SetupError::Instantiate(error)),
            },
    {
        match outcome {
            Ok(true) => {
                self.enter_with_context();
            },
            Ok(false) => {
                self.stage = Stage::MakingContext;
            },
            Err(error) => {
                self.fail(SetupError::Instantiate(error));
            },
        }
    }

    /// Takes note of whether the context was made.
    pub fn context_made(&mut self, outcome: Result<(), anyhow::Error>)
        requires
            old(self).well_formed(),
            old(self)@.stage == Stage::MakingContext,
        ensures
            final(self).well_formed(),
            match outcome {
                Ok(_) => final(self)@ == old(self)@.after(SetupEvent::ContextMade(true)),
                Err(error) => final(self)@ == old(self)@.after(SetupEvent::ContextMade(false))
                    && final(self).failure() == Some(SetupError::Context(error)),
            },
    {
        match outcome {
            Ok(_) => {
                self.enter_with_context();
            },
            Err(error) => {
                self.fail(SetupError::Context(error));
            },
        }
    }

    /// Takes note that the module was instantiated. A call of the guest may have had the context
    /// made in `slot` on the way.
    pub fn instance_made<M, X>(&mut self, slot: &ContextSlot<M, X>)
        requires
            old(self).well_formed(),
            old(self)@.stage == Stage::Instantiating,
        ensures
            final(self).well_formed(),
            final(self)@ == old(self)@.after(SetupEvent::Instantiated(Some(*slot is Ready))),
    {
        self.instantiated(Ok(slot.is_ready()));
    }

    /// Makes the context in `slot` with `make`, if it is yet to be made there.
    pub fn make_context<M, X, F: FnOnce(M) -> Result<X, anyhow::Error>>(
        &mut self,
        slot: &mut ContextSlot<M, X>,
        make: F,
    )
        requires
            old(self).well_formed(),
            old(self)@.stage == Stage::MakingContext,
            !(*old(slot) is Spent),
            *old(slot) matches ContextSlot::Pending(mapping) ==> make.requires((mapping,)),
        ensures
            final(self).well_formed(),
            final(self)@ == old(self)@.after(SetupEvent::ContextMade(*final(slot) is Ready)),
            match *old(slot) {
                ContextSlot::Pending(mapping) => match *final(slot) {
                    ContextSlot::Ready(context) => make.ensures((mapping,), Ok(context)),
                    ContextSlot::Spent => final(self).failure() matches Some(
                        SetupError::Context(error),
                    ) && make.ensures((mapping,), Err(error)),
                    ContextSlot::Pending(_) => false,
                },
                _ => *final(slot) == *old(slot),
            },
    {
        let outcome: Result<(), anyhow::Error> = slot.ensure_with(make);
        self.context_made(outcome);
    }

    /// Finds the start function of `instance`, which is then to be called.
    pub fn resolve_start(&mut self, instance: &wasmtime::Instance) -> (start: Option<
        wasmtime::TypedFunc<(), ()>,
    >)
        requires
            old(self).well_formed(),
            old(self)@.stage == Stage::ResolvingStart,
        ensures
            final(self).well_formed(),
            final(self)@ == old(self)@.after(
                SetupEvent::StartResolved(
                    start_resolution(false, instance_functions(*instance)),
                ),
            ),
            start is Some <==> final(self)@.stage == Stage::CallingStart,
            start is Some ==> start == instance_functions(*instance)["_start"@],
            match start_resolution(false, instance_functions(*instance)) {
                StartResolution::NotFound => final(self).failure() == Some(
                    SetupError::Start(StartError::NotFound),
                ),
                StartResolution::Mistyped => final(self).failure() matches Some(
                    SetupError::Start(StartError::Mistyped(_)),
                ),
                _ => true,
            },
    {
        match crate::start::resolve_start(instance, &self.settings.api_version) {
            Ok(start) => {
                self.stage = Stage::CallingStart;
                start
            },
            Err(error) => {
                self.fail(SetupError::Start(error));
                None
            },
        }
    }

    /// Takes note that the start function has returned.
    pub fn started(&mut self)
        requires
            old(self).well_formed(),
            old(self)@.stage == Stage::CallingStart,
        ensures
            final(self).well_formed(),
            final(self)@ == old(self)@.after(SetupEvent::Started),
    {
        self.stage = Stage::Ready;
    }

    /// What came of the set-up, once it has come to its end.
    pub fn finish(self) -> (result: Result<(), SetupError>)
        requires
            self.well_formed(),
            self@.stage == Stage::Ready || self@.stage == Stage::Failed,
        ensures
            match self.failure() {
                Some(error) => result == Err::<(), SetupError>(error),
                None => result is Ok,
            },
            result is Ok <==> self@.stage == Stage::Ready,
    {
        match self.failure {
            Some(error) => Err(error),
            None => Ok(()),
        }
    }

    /// Gives the set-up up.
    fn fail(&mut self, error: SetupError)
        ensures
            final(self)@ == old(self)@.at(Stage::Failed),
            final(self).failure() == Some(error),
    {
        self.stage = Stage::Failed;
        self.failure = Some(error);
    }

    /// Goes on with the context in place.
    fn enter_with_context(&mut self)
        requires
            old(self)@.settings.api_version.well_formed(),
        ensures
            final(self)@ == old(self)@.with_context(),
            final(self).failure() == old(self).failure(),
    {
        self.context_ready = true;
        self.stage = if self.settings.api_version.is_legacy() {
            Stage::Ready
        } else {
            Stage::ResolvingStart
        };
    }
}

/// The events of a start; a legacy instance has none.
pub open spec fn start_events(legacy: bool) -> Seq<SetupEvent> {
    if legacy {
        Seq::empty()
    } else {
        seq![SetupEvent::StartResolved(StartResolution::Call), SetupEvent::Started]
    }
}

/// The events from instantiation on, where the context is there after it (`early`) or has to be
/// made.
pub open spec fn instantiation_events(legacy: bool, early: bool) -> Seq<SetupEvent> {
    seq![SetupEvent::Instantiated(Some(early))] + (if early {
        Seq::empty()
    } else {
        seq![SetupEvent::ContextMade(true)]
    }) + start_events(legacy)
}

/// The events of a set-up that succeeds.
pub open spec fn success_events(settings: SettingsView, early: bool) -> Seq<SetupEvent> {
    (if settings.timeout is Some {
        seq![SetupEvent::WatchdogArmed]
    } else {
        Seq::empty()
    }) + seq![SetupEvent::Linked(true)] + instantiation_events(
        settings.api_version.legacy(),
        early,
    )
}

/// What holds at every stage holds at the first and is kept by every awaited event.
pub proof fn law_set_up_stays_consistent(
    settings: SettingsView,
    plan: Seq<LinkView>,
    instance: InstanceView,
    event: SetupEvent,
)
    requires
        instance.consistent(),
        instance.awaits(event),
    ensures
        InstanceView::initial(settings, plan).consistent(),
        instance.after(event).consistent(),
{
}

/// An instance that can be used, or that has failed, waits for nothing more.
pub proof fn law_set_up_comes_to_an_end(instance: InstanceView, event: SetupEvent)
    requires
        instance.stage == Stage::Ready || instance.stage == Stage::Failed,
    ensures
        !instance.awaits(event),
{
}

/// No event changes the settings or the plan of an instance.
pub proof fn law_settings_and_plan_stay(instance: InstanceView, event: SetupEvent)
    ensures
        instance.after(event).settings == instance.settings,
        instance.after(event).plan == instance.plan,
{
}

proof fn lemma_series_keeps(instance: InstanceView, events: Seq<SetupEvent>)
    requires
        instance.consistent(),
        instance.awaits_all(events),
    ensures
        instance.after_all(events).consistent(),
        instance.after_all(events).settings == instance.settings,
        instance.after_all(events).plan == instance.plan,
    decreases events.len(),
{
    if events.len() > 0 {
        law_set_up_stays_consistent(instance.settings, instance.plan, instance, events[0]);
        law_settings_and_plan_stay(instance, events[0]);
        lemma_series_keeps(instance.after(events[0]), events.skip(1));
    }
}

/// An instance that can be used has its context, and the settings and the plan with which its
/// set-up began.
pub proof fn law_ready_instance_has_its_context(
    settings: SettingsView,
    plan: Seq<LinkView>,
    events: Seq<SetupEvent>,
)
    requires
        InstanceView::initial(settings, plan).awaits_all(events),
        InstanceView::initial(settings, plan).after_all(events).stage == Stage::Ready,
    ensures
        InstanceView::initial(settings, plan).after_all(events).context_ready,
        InstanceView::initial(settings, plan).after_all(events).settings == settings,
        InstanceView::initial(settings, plan).after_all(events).plan == plan,
{
    lemma_series_keeps(InstanceView::initial(settings, plan), events);
}

/// An instance in the course of its set-up, with the slot of its context.
pub struct Course<M, X> {
    /// The instance.
    pub instance: InstanceView,
    /// Where its context is kept.
    pub slot: ContextSlot<M, X>,
}

impl<M, X> Course<M, X> {
    /// Whether an event of the set-up leads from here to `later`: instantiation is followed by
    /// what the slot says then, the context is made in the slot, and no other event touches it.
    pub open spec fn moves_by(self, event: SetupEvent, later: Course<M, X>) -> bool {
        &&& self.instance.awaits(event)
        &&& later.instance == self.instance.after(event)
        &&& match event {
            SetupEvent::Instantiated(Some(ready)) => ready == (self.slot is Ready) && later.slot
                == self.slot,
            SetupEvent::ContextMade(made) => made == (later.slot is Ready),
            _ => later.slot == self.slot,
        }
    }

    /// Whether one step leads from here to `later`: an event of the set-up, or calls of the guest.
    pub open spec fn moves_to(self, later: Course<M, X>) -> bool {
        ||| exists|event: SetupEvent| #[trigger] self.moves_by(event, later)
        ||| later.instance == self.instance && self.slot.leads_to(later.slot)
    }
}

proof fn lemma_slot_follows<M, X>(course: Seq<Course<M, X>>)
    requires
        course.len() > 0,
        course[0].instance.consistent(),
        !course[0].instance.context_ready,
        forall|i: int|
            0 < i < course.len() ==> course[i - 1].moves_to(#[trigger] course[i]),
    ensures
        course.last().instance.consistent(),
        course.last().instance.context_ready ==> course.last().slot is Ready,
    decreases course.len(),
{
    if course.len() > 1 {
        let front = course.drop_last();
        let before = front.last();
        let after = course.last();
        assert forall|i: int| 0 < i < front.len() implies front[i - 1].moves_to(
            #[trigger] front[i],
        ) by {
            assert(course[i - 1].moves_to(course[i]));
        }
        lemma_slot_follows(front);
        assert(before.moves_to(course[course.len() - 1]));
        if exists|event: SetupEvent| #[trigger] before.moves_by(event, after) {
            let event = choose|event: SetupEvent| #[trigger] before.moves_by(event, after);
            law_set_up_stays_consistent(
                before.instance.settings,
                before.instance.plan,
                before.instance,
                event,
            );
        }
    }
}

/// Whatever the calls of the guest do on the way, once an instance can be used its context is
/// there, in its slot.
pub proof fn law_ready_instance_has_a_ready_slot<M, X>(
    settings: SettingsView,
    plan: Seq<LinkView>,
    course: Seq<Course<M, X>>,
)
    requires
        course.len() > 0,
        course[0].instance == InstanceView::initial(settings, plan),
        forall|i: int| 0 < i < course.len() ==> course[i - 1].moves_to(#[trigger] course[i]),
        course.last().instance.stage == Stage::Ready,
    ensures
        course.last().slot is Ready,
{
    lemma_slot_follows(course);
}

/// The instances of any two modules, once they can be used, both have their contexts, for the
/// same deployment and API version and without a timeout: of the settings, only the path differs.
pub proof fn law_path_decides_nothing_else(
    path: Seq<char>,
    plan: Seq<LinkView>,
    events: Seq<SetupEvent>,
    other_path: Seq<char>,
    other_plan: Seq<LinkView>,
    other_events: Seq<SetupEvent>,
)
    requires
        InstanceView::initial(SettingsView::of_module(path), plan).awaits_all(events),
        InstanceView::initial(SettingsView::of_module(path), plan).after_all(events).stage
            == Stage::Ready,
        InstanceView::initial(SettingsView::of_module(other_path), other_plan).awaits_all(
            other_events,
        ),
        InstanceView::initial(SettingsView::of_module(other_path), other_plan).after_all(
            other_events,
        ).stage == Stage::Ready,
    ensures
        ({
            let one = InstanceView::initial(SettingsView::of_module(path), plan).after_all(events);
            let other = InstanceView::initial(
                SettingsView::of_module(other_path),
                other_plan,
            ).after_all(other_events);
            &&& one.context_ready && other.context_ready
            &&& one.settings.subgraph_id == "ipfsMap"@
            &&& one.settings.deployment_id == 42
            &&& one.settings.api_version == ApiVersionView::release(0, 0, 5)
            &&& one.settings.timeout is None
            &&& one.settings.wasm_path == path
            &&& other.settings == (SettingsView { wasm_path: other_path, ..one.settings })
        }),
{
    law_ready_instance_has_its_context(SettingsView::of_module(path), plan, events);
    law_ready_instance_has_its_context(
        SettingsView::of_module(other_path),
        other_plan,
        other_events,
    );
}

proof fn lemma_ends_at(instance: InstanceView, events: Seq<SetupEvent>)
    requires
        instance.stage == Stage::Ready || instance.stage == Stage::Failed,
        instance.awaits_all(events),
    ensures
        events == Seq::<SetupEvent>::empty(),
        instance.after_all(events) == instance,
{
    if events.len() > 0 {
        law_set_up_comes_to_an_end(instance, events[0]);
    }
    assert(events =~= Seq::empty());
}

/// The first event of a series that leads to success: it is awaited, it is no failure, and the
/// rest leads to success too.
proof fn lemma_first_event(instance: InstanceView, events: Seq<SetupEvent>)
    requires
        instance.stage != Stage::Ready,
        instance.awaits_all(events),
        instance.after_all(events).stage == Stage::Ready,
    ensures
        events.len() > 0,
        events == seq![events[0]] + events.skip(1),
        instance.awaits(events[0]),
        instance.after(events[0]).stage != Stage::Failed,
        instance.after(events[0]).awaits_all(events.skip(1)),
        instance.after(events[0]).after_all(events.skip(1)).stage == Stage::Ready,
{
    assert(events =~= seq![events[0]] + events.skip(1));
    let next = instance.after(events[0]);
    if next.stage == Stage::Failed {
        lemma_ends_at(next, events.skip(1));
    }
}

proof fn lemma_from_context(instance: InstanceView, events: Seq<SetupEvent>)
    requires
        instance == instance.with_context(),
        instance.awaits_all(events),
        instance.after_all(events).stage == Stage::Ready,
    ensures
        events == start_events(instance.legacy()),
{
    if instance.legacy() {
        lemma_ends_at(instance, events);
    } else {
        let resolved = instance.after(events[0]);
        let rest = events.skip(1);
        lemma_first_event(instance, events);
        lemma_first_event(resolved, rest);
        lemma_ends_at(resolved.after(rest[0]), rest.skip(1));
        assert(events =~= start_events(false));
    }
}

proof fn lemma_from_linking(instance: InstanceView, events: Seq<SetupEvent>)
    requires
        instance.stage == Stage::Linking,
        instance.awaits_all(events),
        instance.after_all(events).stage == Stage::Ready,
    ensures
        exists|early: bool|
            events == seq![SetupEvent::Linked(true)] + #[trigger] instantiation_events(
                instance.legacy(),
                early,
            ),
{
    let linked = instance.after(events[0]);
    let rest = events.skip(1);
    lemma_first_event(instance, events);
    lemma_first_event(linked, rest);
    let made = linked.after(rest[0]);
    let tail = rest.skip(1);
    let early = rest[0]->Instantiated_0->0;
    if early {
        lemma_from_context(made, tail);
    } else {
        lemma_first_event(made, tail);
        lemma_from_context(made.after(tail[0]), tail.skip(1));
    }
    assert(rest =~= instantiation_events(instance.legacy(), early));
    assert(events =~= seq![SetupEvent::Linked(true)] + instantiation_events(
        instance.legacy(),
        early,
    ));
}

/// A set-up succeeds in one way only: the watchdog runs if there is a timeout, all host functions
/// are linked, the module is instantiated, the context is made unless it is already there, and a
/// module that is not legacy is started.
pub proof fn law_success_has_one_course(
    settings: SettingsView,
    plan: Seq<LinkView>,
    events: Seq<SetupEvent>,
)
    requires
        InstanceView::initial(settings, plan).awaits_all(events),
        InstanceView::initial(settings, plan).after_all(events).stage == Stage::Ready,
    ensures
        exists|early: bool| events == #[trigger] success_events(settings, early),
{
    let first = InstanceView::initial(settings, plan);
    let legacy = settings.api_version.legacy();
    if settings.timeout is Some {
        let armed = first.after(events[0]);
        let rest = events.skip(1);
        lemma_first_event(first, events);
        lemma_from_linking(armed, rest);
        let early = choose|early: bool|
            rest == seq![SetupEvent::Linked(true)] + #[trigger] instantiation_events(legacy, early);
        assert(events =~= success_events(settings, early));
    } else {
        lemma_from_linking(first, events);
        let early = choose|early: bool|
            events == seq![SetupEvent::Linked(true)] + #[trigger] instantiation_events(
                legacy,
                early,
            );
        assert(events =~= success_events(settings, early));
    }
}

/// That course does lead to an instance that can be used, with its context.
pub proof fn law_course_leads_to_success(settings: SettingsView, plan: Seq<LinkView>, early: bool)
    ensures
        InstanceView::initial(settings, plan).awaits_all(success_events(settings, early)),
        ({
            let end = InstanceView::initial(settings, plan).after_all(
                success_events(settings, early),
            );
            end.stage == Stage::Ready && end.context_ready
        }),
{
    reveal_with_fuel(InstanceView::after_all, 8);
    reveal_with_fuel(InstanceView::awaits_all, 8);
}

/// Where the set-up of any instance begins: with the watchdog exactly if there is a timeout, else
/// with linking; without a context, and with the settings and the plan that it is given.
pub proof fn law_set_up_begins(settings: SettingsView, plan: Seq<LinkView>)
    ensures
        InstanceView::initial(settings, plan).settings == settings,
        InstanceView::initial(settings, plan).plan == plan,
        !InstanceView::initial(settings, plan).context_ready,
        settings.timeout is Some ==> InstanceView::initial(settings, plan).stage
            == Stage::ArmingWatchdog,
        settings.timeout is None ==> InstanceView::initial(settings, plan).stage == Stage::Linking,
{
}

/// Whatever the settings and the plan are, each success leads on to the next stage: from the
/// watchdog to linking, to instantiating, to making the context unless it is there, and, once it
/// is there, to the search for the start function, its call, and the end. Where the context is
/// there, a legacy instance is at the end at once.
pub proof fn law_each_success_leads_on(instance: InstanceView)
    ensures
        instance.after(SetupEvent::WatchdogArmed).stage == Stage::Linking,
        instance.after(SetupEvent::Linked(true)).stage == Stage::Instantiating,
        instance.after(SetupEvent::Instantiated(Some(false))).stage == Stage::MakingContext,
        ({
            let next = if instance.settings.api_version.legacy() {
                Stage::Ready
            } else {
                Stage::ResolvingStart
            };
            &&& instance.after(SetupEvent::Instantiated(Some(true))).stage == next
            &&& instance.after(SetupEvent::ContextMade(true)).stage == next
        }),
        instance.after(SetupEvent::StartResolved(StartResolution::Call)).stage
            == Stage::CallingStart,
        instance.after(SetupEvent::Started).stage == Stage::Ready,
{
}

/// Whatever the settings and the plan are, each failure ends the set-up.
pub proof fn law_each_failure_ends_the_set_up(instance: InstanceView)
    ensures
        instance.after(SetupEvent::Linked(false)).stage == Stage::Failed,
        instance.after(SetupEvent::Instantiated(None)).stage == Stage::Failed,
        instance.after(SetupEvent::ContextMade(false)).stage == Stage::Failed,
        instance.after(SetupEvent::StartResolved(StartResolution::NotFound)).stage
            == Stage::Failed,
        instance.after(SetupEvent::StartResolved(StartResolution::Mistyped)).stage
            == Stage::Failed,
{
}

/// The context comes to be there when it is made, or is found there after instantiation, and at
/// no other event; and it does not go away again.
pub proof fn law_context_comes_with_its_events(instance: InstanceView, event: SetupEvent)
    ensures
        instance.after(event).context_ready <==> instance.context_ready || event
            == SetupEvent::Instantiated(Some(true)) || event == SetupEvent::ContextMade(true),
{
}

/// Only the stage, and whether the module is legacy, decide the course: instances that agree in
/// these are at the same stage after the same event, whatever else they differ in.
pub proof fn law_course_goes_by_stage_and_version(
    one: InstanceView,
    other: InstanceView,
    event: SetupEvent,
)
    requires
        one.stage == other.stage,
        one.settings.api_version.legacy() == other.settings.api_version.legacy(),
    ensures
        one.awaits(event) == other.awaits(event),
        one.after(event).stage == other.after(event).stage,
{
}

/// Settings say what they hold.
pub proof fn law_settings_say_what_they_hold(settings: InstanceSettings)
    ensures
        settings@.wasm_path == settings.wasm_path@,
        settings@.subgraph_id == settings.subgraph_id@,
        settings@.deployment_id == settings.deployment_id,
        settings@.api_version == settings.api_version@,
        settings@.allow_non_deterministic_ipfs == settings.allow_non_deterministic_ipfs,
        settings@.timeout is Some <==> settings.timeout is Some,
        settings.timeout matches Some(span) ==> settings@.timeout == Some(span@),
{
}

/// Whatever the path is, a module is tested with the same settings but for the path itself.
pub proof fn law_module_is_tested_with_fixed_settings(path: Seq<char>)
    ensures
        SettingsView::of_module(path).wasm_path == path,
        SettingsView::of_module(path).subgraph_id == "ipfsMap"@,
        SettingsView::of_module(path).deployment_id == 42,
        SettingsView::of_module(path).api_version.release == (0u64, 0u64, 5u64),
        SettingsView::of_module(path).api_version.pre.len() == 0,
        SettingsView::of_module(path).api_version.build.len() == 0,
        SettingsView::of_module(path).allow_non_deterministic_ipfs,
        SettingsView::of_module(path).timeout is None,
{
}

} // verus!
