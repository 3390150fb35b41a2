//! The exchange between the dispatch and the program that embeds it.
//!
//! Every entry point answers with a [`Step`]: changes to make to client
//! windows and the like, in order, and then either the outcome of the event or
//! one question, to the layout tree, the engine or the scripting engine. The
//! embedding program makes the changes, puts the question, and hands the
//! answer to `resume` together with the [`Pending`] value of the step.

use vstd::prelude::*;
use crate::fault::{Fault, Report, Verdict};
use crate::flags::{Edges, Modifiers, StateFlags};
use crate::geometry::{ContainerId, Geometry, OutputId, Point, Size, ViewId};
use crate::keys::KeyPress;

verus! {

/// A level of the layout tree.
#[derive(Clone, Copy, Debug, PartialEq, Eq, Structural, Hash)]
pub enum ContainerKind {
    Output,
    Workspace,
}

/// A message for the scripting engine.
#[derive(Clone, Copy, Debug, PartialEq, Eq, Structural, Hash)]
pub enum ScriptQuery {
    /// A bound key was pressed.
    HandleKey(KeyPress),
    /// The compositor is shutting down.
    Terminate,
}

/// A change that needs no answer.
#[derive(Clone, Copy, Debug, PartialEq, Eq, Structural, Hash)]
pub enum Effect {
    /// Set or clear state flags of a view.
    SetViewState { view: ViewId, flags: StateFlags, on: bool },
    /// Give a view the keyboard focus.
    FocusView(ViewId),
    /// Set the visibility mask of a view.
    SetMask { view: ViewId, mask: u32 },
    /// Raise a view above all others.
    BringToFront(ViewId),
    /// Lower a view below all others.
    SendToBack(ViewId),
    /// Place a view.
    SetGeometry { view: ViewId, edges: Edges, geometry: Geometry },
    /// Set the resolution of an output.
    SetResolution { output: OutputId, size: Size, scale: u32 },
    /// Move the pointer.
    SetPointer(Point),
    /// Run the built-in command with this number.
    RunBuiltin(u32),
    /// Start the scripting engine.
    StartScripting,
    /// Load the key bindings.
    LoadBindings,
    /// Copy the pixels of this region of the screen.
    ScrapePixels(Geometry),
}

/// A question to the layout tree, to the engine, to the configuration or to
/// the scripting engine.
#[derive(Clone, Copy, Debug, PartialEq, Eq, Structural, Hash)]
pub enum Request {
    /// Wait until the tree has been released.
    AwaitTree,
    /// Tree: add an output.
    AddOutput(OutputId),
    /// Tree: switch to the workspace that a new output starts with.
    SwitchToDefaultWorkspace,
    /// Tree: lay out the active container of this kind.
    LayoutActiveOf(ContainerKind),
    /// Tree: add a view.
    AddView(ViewId),
    /// Tree: make a view the active one.
    SetActiveView(ViewId),
    /// Tree: remove a view.
    RemoveView(ViewId),
    /// Tree: the container of a view.
    LookupView(ViewId),
    /// Tree: set or clear the fullscreen state of a container.
    SetFullscreen(ContainerId, bool),
    /// Tree: whether a container is in the active workspace.
    ContainerInActiveWorkspace(ContainerId),
    /// Tree: resize a container by its edges towards a point.
    ResizeContainer(ContainerId, Edges, Point),
    /// Tree: drag the active floating container to a point.
    TryDragActive(Point),
    /// Tree: record the geometry that a floating view asks for.
    UpdateFloatingGeometry(ViewId, Geometry),
    /// Tree: read the title of a view again.
    UpdateTitle(ViewId),
    /// Tree: draw the borders of a view.
    RenderBorders(ViewId),
    /// Tree: tear everything down.
    DestroyTree,
    /// Tree: attach a view as a bar to every output that the engine lists.
    /// Outputs that refuse it are skipped.
    AddBarToOutputs(ViewId),
    /// Tree: attach a view as the background of every output of the tree.
    AddBackground(ViewId),
    /// Engine and configuration: the title and the class of a view, and the
    /// title that the registry client `client` has configured for the status
    /// bar (category `programs`, key `x11_bar`).
    ViewIdentity { view: ViewId, client: u128 },
    /// Engine: the geometry of a view.
    ViewGeometry(ViewId),
    /// Engine: the state flags of a view.
    ViewState(ViewId),
    /// Engine: the resolution of an output.
    OutputResolution(OutputId),
    /// Engine: the resolution of the output that a view is on.
    ViewOutputResolution(ViewId),
    /// Engine: the symbol of a key under the given modifiers.
    KeySymbol { key: u32, modifiers: Modifiers },
    /// Scripting engine: enqueue a message, without waiting for an answer to
    /// it.
    SendToScript(ScriptQuery),
}

impl Request {
    /// The questions that are put to the layout tree.
    pub open spec fn touches_tree(self) -> bool {
        match self {
            Request::AwaitTree => false,
            Request::ViewIdentity { .. } => false,
            Request::ViewGeometry(_) => false,
            Request::ViewState(_) => false,
            Request::OutputResolution(_) => false,
            Request::ViewOutputResolution(_) => false,
            Request::KeySymbol { .. } => false,
            Request::SendToScript(_) => false,
            _ => true,
        }
    }

    /// The questions that leave for the scripting engine.
    pub open spec fn leaves_for_script(self) -> bool {
        self is SendToScript
    }
}

/// What a view is known by.
#[derive(Debug, PartialEq, Eq)]
pub struct Identity {
    /// The title of the view.
    pub title: String,
    /// The class of the view.
    pub class: String,
    /// The title that the configuration gives for the status bar, if it
    /// names one.
    pub bar_title: Option<String>,
}

/// An answer.
#[derive(Debug, PartialEq, Eq)]
pub enum Reply {
    /// The tree has been released.
    TreeReleased,
    /// An operation was carried out, or failed.
    Unit(Result<(), Fault>),
    /// A container, or why there is none.
    Container(Result<ContainerId, Fault>),
    /// Yes or no, or why neither.
    Flag(Result<bool, Fault>),
    /// A geometry, if the engine has one.
    Geometry(Option<Geometry>),
    /// State flags.
    State(StateFlags),
    /// A resolution, if the engine has one.
    Resolution(Option<Size>),
    /// A key symbol.
    Symbol(u32),
    /// What a view is known by.
    Identity(Identity),
}

impl Reply {
    /// Read as the result of an operation. An answer of another kind counts
    /// as a failure of the dispatch itself.
    pub open spec fn spec_unit(self) -> Result<(), Fault> {
        match self {
            Reply::Unit(r) => r,
            _ => Err(Fault::Internal),
        }
    }

    /// Read as a container.
    pub open spec fn spec_container(self) -> Result<ContainerId, Fault> {
        match self {
            Reply::Container(r) => r,
            _ => Err(Fault::Internal),
        }
    }

    /// Read as yes or no.
    pub open spec fn spec_flag(self) -> Result<bool, Fault> {
        match self {
            Reply::Flag(r) => r,
            _ => Err(Fault::Internal),
        }
    }

    /// Read as a geometry.
    pub open spec fn spec_geometry(self) -> Option<Geometry> {
        match self {
            Reply::Geometry(g) => g,
            _ => None,
        }
    }

    /// Read as state flags; an answer of another kind has none set.
    pub open spec fn spec_state(self) -> StateFlags {
        match self {
            Reply::State(s) => s,
            _ => StateFlags { bits: 0 },
        }
    }

    /// Read as a resolution.
    pub open spec fn spec_resolution(self) -> Option<Size> {
        match self {
            Reply::Resolution(r) => r,
            _ => None,
        }
    }

    /// Read as a key symbol.
    pub open spec fn spec_symbol(self) -> Option<u32> {
        match self {
            Reply::Symbol(s) => Some(s),
            _ => None,
        }
    }

    /// Read as what a view is known by.
    pub open spec fn spec_identity(self) -> Option<Identity> {
        match self {
            Reply::Identity(identity) => Some(identity),
            _ => None,
        }
    }

    /// The result of an operation; an answer of another kind counts as a
    /// failure of the dispatch itself.
    #[verifier::when_used_as_spec(spec_unit)]
    pub fn unit(self) -> (r: Result<(), Fault>)
        ensures
            r == self.spec_unit(),
    {
        match self {
            Reply::Unit(r) => r,
            _ => Err(Fault::Internal),
        }
    }

    /// The container in the answer.
    #[verifier::when_used_as_spec(spec_container)]
    pub fn container(self) -> (r: Result<ContainerId, Fault>)
        ensures
            r == self.spec_container(),
    {
        match self {
            Reply::Container(r) => r,
            _ => Err(Fault::Internal),
        }
    }

    /// The yes or no in the answer.
    #[verifier::when_used_as_spec(spec_flag)]
    pub fn flag(self) -> (r: Result<bool, Fault>)
        ensures
            r == self.spec_flag(),
    {
        match self {
            Reply::Flag(r) => r,
            _ => Err(Fault::Internal),
        }
    }

    /// The geometry in the answer.
    #[verifier::when_used_as_spec(spec_geometry)]
    pub fn geometry(self) -> (r: Option<Geometry>)
        ensures
            r == self.spec_geometry(),
    {
        match self {
            Reply::Geometry(g) => g,
            _ => None,
        }
    }

    /// The state flags in the answer.
    #[verifier::when_used_as_spec(spec_state)]
    pub fn state(self) -> (r: StateFlags)
        ensures
            r == self.spec_state(),
    {
        match self {
            Reply::State(s) => s,
            _ => StateFlags { bits: 0 },
        }
    }

    /// The resolution in the answer.
    #[verifier::when_used_as_spec(spec_resolution)]
    pub fn resolution(self) -> (r: Option<Size>)
        ensures
            r == self.spec_resolution(),
    {
        match self {
            Reply::Resolution(r) => r,
            _ => None,
        }
    }

    /// The key symbol in the answer.
    #[verifier::when_used_as_spec(spec_symbol)]
    pub fn symbol(self) -> (r: Option<u32>)
        ensures
            r == self.spec_symbol(),
    {
        match self {
            Reply::Symbol(s) => Some(s),
            _ => None,
        }
    }
}

/// Where an event stands while a question is out. The value goes back to
/// `resume` with the answer.
#[derive(Clone, Copy, Debug, PartialEq, Eq, Structural, Hash)]
pub enum Pending {
    /// A new output waits for the tree.
    OutputWaiting(OutputId),
    /// The output was offered to the tree.
    OutputAdded,
    /// The tree was asked for the first workspace of the output.
    OutputSwitched,
    /// The tree was asked to lay the output out.
    OutputLaidOut,
    /// The tree was asked to lay out after a change of resolution.
    ResolutionLaidOut,
    /// The engine was asked how large the output to copy is.
    ScrapeSized,
    /// The engine and the configuration were asked what a new view is known
    /// by.
    ViewIdentified(ViewId),
    /// A bar waits for the tree.
    BarWaiting(ViewId),
    /// The tree was asked to attach a bar.
    BarAdded,
    /// The engine was asked how large the output of a background is.
    BackgroundSized(ViewId),
    /// A background waits for the tree.
    BackgroundWaiting(ViewId),
    /// The tree was asked to attach a background.
    BackgroundAdded,
    /// A new view waits for the tree.
    RegisterWaiting(ViewId),
    /// The view was offered to the tree.
    ViewAdded(ViewId),
    /// The tree was asked to make the new view the active one.
    ViewActivated,
    /// A view that is gone waits for the tree.
    RemoveWaiting(ViewId),
    /// The tree was asked to remove the view.
    ViewRemoved,
    /// The tree was asked to follow a change of focus.
    FocusApplied,
    /// The tree was asked to read a title again.
    TitleUpdated,
    /// The tree was asked for the container to make fullscreen, or not.
    FullscreenLookup(bool),
    /// The tree was asked to change the fullscreen state of the container.
    FullscreenSet(ContainerId),
    /// The tree was asked whether the container is in the active workspace.
    FullscreenPlaced,
    /// The tree was asked to lay out the active workspace.
    FullscreenLaidOut,
    /// The tree was asked to make the view that wants to move the active one.
    MoveFocused,
    /// The tree was asked for the container that a client wants to resize.
    ResizeLookup(Edges, Point),
    /// The tree was asked to resize that container.
    ResizeApplied,
    /// The tree was asked to record a geometry.
    GeometryUpdated,
    /// The engine was asked for the symbol of a key pressed under these
    /// modifiers.
    KeyLookup(Modifiers),
    /// The key press was sent to the scripting engine.
    KeySent,
    /// After a left click, the tree was asked to make the view the active one.
    /// `start` says whether the click starts a move.
    LeftFocused { view: ViewId, grab: Point, start: bool },
    /// After a right click, the tree was asked to make the view the active
    /// one. `start` says whether the click starts a resize.
    RightFocused { view: ViewId, grab: Point, start: bool },
    /// The engine was asked for the geometry of the view to resize.
    RightGeometry { view: ViewId, grab: Point },
    /// The engine was asked for the state of the view that the pointer let go
    /// of.
    ReleaseState(ViewId),
    /// The tree was asked for the container under the pointer, to resize it.
    MotionLookup(Edges, Point),
    /// The tree was asked to resize the container towards the pointer.
    MotionResized(Point),
    /// The tree was asked to drag the active container to the pointer.
    MotionDragged(Point),
    /// The scripting engine was told of the shutdown.
    TerminateSent,
    /// The shutdown waits for the tree.
    DestroyWaiting,
    /// The tree was asked to tear itself down.
    TreeDestroyed,
    /// The borders of a view wait for the tree.
    BordersWaiting(ViewId),
    /// The tree was asked to draw the borders of a view.
    BordersRendered,
}

impl Pending {
    /// Whether the event holds the tree while it stands here.
    pub open spec fn holds_tree(self) -> bool {
        match self {
            Pending::OutputWaiting(_) => false,
            Pending::ScrapeSized => false,
            Pending::ViewIdentified(_) => false,
            Pending::BarWaiting(_) => false,
            Pending::BackgroundSized(_) => false,
            Pending::BackgroundWaiting(_) => false,
            Pending::RegisterWaiting(_) => false,
            Pending::RemoveWaiting(_) => false,
            Pending::KeyLookup(_) => false,
            Pending::KeySent => false,
            Pending::RightGeometry { .. } => false,
            Pending::ReleaseState(_) => false,
            Pending::TerminateSent => false,
            Pending::DestroyWaiting => false,
            Pending::BordersWaiting(_) => false,
            _ => true,
        }
    }
}

/// How an event ended.
#[derive(Clone, Copy, Debug, PartialEq, Eq, Structural, Hash)]
pub struct Outcome {
    /// Whether the engine should keep the event from the client. For an event
    /// that the engine only announces, `Consumed` says that the lock screen
    /// took it.
    pub verdict: Verdict,
    /// What to log.
    pub report: Report,
}

/// What comes after the changes of a step.
#[derive(Clone, Copy, Debug, PartialEq, Eq, Structural, Hash)]
pub enum Next {
    /// The event is dealt with.
    Done(Outcome),
    /// A question is to be put; its answer goes to `resume` with the pending
    /// value.
    Ask(Request, Pending),
}

/// A step as contracts see it.
pub struct StepView {
    pub effects: Seq<Effect>,
    pub next: Next,
}

/// One step of the handling of an event.
#[derive(Debug, PartialEq, Eq)]
pub struct Step {
    /// Changes to make, in this order, before anything else.
    pub effects: Vec<Effect>,
    /// What follows them.
    pub next: Next,
}

impl View for Step {
    type V = StepView;

    open spec fn view(&self) -> StepView {
        StepView { effects: self.effects@, next: self.next }
    }
}

/// The step that makes `effects` and ends the event.
pub open spec fn done(effects: Seq<Effect>, verdict: Verdict, report: Report) -> StepView {
    StepView { effects, next: Next::Done(Outcome { verdict, report }) }
}

/// The step that makes `effects` and puts a question.
pub open spec fn ask(effects: Seq<Effect>, request: Request, pending: Pending) -> StepView {
    StepView { effects, next: Next::Ask(request, pending) }
}

/// The step that ends the event without a change, lets it through and logs
/// nothing.
pub open spec fn idle() -> StepView {
    done(Seq::empty(), Verdict::PassThrough, Report::Quiet)
}

impl Step {
    /// The step that makes `effects` and ends the event.
    pub fn done(effects: Vec<Effect>, verdict: Verdict, report: Report) -> (s: Step)
        ensures
            s@ == done(effects@, verdict, report),
    {
        Step { effects, next: Next::Done(Outcome { verdict, report }) }
    }

    /// The step that makes `effects` and puts a question.
    pub fn ask(effects: Vec<Effect>, request: Request, pending: Pending) -> (s: Step)
        ensures
            s@ == ask(effects@, request, pending),
    {
        Step { effects, next: Next::Ask(request, pending) }
    }

    /// The step that ends the event without a change.
    pub fn idle() -> (s: Step)
        ensures
            s@ == idle(),
    {
        Step { effects: Vec::new(), next: Next::Done(Outcome { verdict: Verdict::PassThrough, report: Report::Quiet }) }
    }
}

/// No change.
pub fn no_effects() -> (v: Vec<Effect>)
    ensures
        v@ == Seq::<Effect>::empty(),
{
    Vec::new()
}

/// One change.
pub fn one_effect(effect: Effect) -> (v: Vec<Effect>)
    ensures
        v@ == seq![effect],
{
    let mut v: Vec<Effect> = Vec::new();
    v.push(effect);
    assert(v@ =~= seq![effect]);
    v
}

} // verus!
