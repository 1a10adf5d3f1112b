use vstd::prelude::*;
use crate::ui::{ui_state, ui_state_for, InputFocus, UiCommand, UiState};

verus! {

/// Number of point lights the deferred pass evaluates per frame.
pub const MAX_LIGHTS: usize = 32;

/// The lights handed to the deferred pass: always `MAX_LIGHTS` slots, of
/// which the first `light_count` hold lights and the rest the empty light.
#[derive(Clone, Debug)]
pub struct LightList<L> {
    pub lights: Vec<L>,
    pub light_count: u32,
}

/// Fills the deferred pass's light slots from `lights` in order. Lights past
/// the `MAX_LIGHTS`-th are dropped; unused slots hold `empty`.
pub fn encode_lights<L: Copy>(lights: &Vec<L>, empty: L) -> (r: LightList<L>)
    ensures
        r.lights@.len() == MAX_LIGHTS,
        r.light_count == if lights@.len() < MAX_LIGHTS { lights@.len() as int } else { MAX_LIGHTS as int },
        forall|i: int| 0 <= i < r.light_count ==> #[trigger] r.lights@[i] == lights@[i],
        forall|i: int| r.light_count <= i < MAX_LIGHTS ==> #[trigger] r.lights@[i] == empty,
{
    let count: usize = if lights.len() < MAX_LIGHTS { lights.len() } else { MAX_LIGHTS };
    let mut slots: Vec<L> = Vec::new();
    let mut i: usize = 0;
    while i < MAX_LIGHTS
        invariant
            i <= MAX_LIGHTS,
            count <= MAX_LIGHTS,
            count <= lights@.len(),
            slots@.len() == i,
            forall|k: int| 0 <= k < i && k < count ==> #[trigger] slots@[k] == lights@[k],
            forall|k: int| count <= k < i ==> #[trigger] slots@[k] == empty,
        decreases MAX_LIGHTS - i,
    {
        if i < count {
            slots.push(lights[i]);
        } else {
            slots.push(empty);
        }
        i = i + 1;
    }
    LightList { lights: slots, light_count: count as u32 }
}

/// However many lights come in, at most `MAX_LIGHTS` are encoded and the
/// count never exceeds it; with more than that, exactly `MAX_LIGHTS` are.
pub proof fn lemma_light_cap<L>(lights: Seq<L>, r: LightList<L>, empty: L)
    requires
        r.lights@.len() == MAX_LIGHTS,
        r.light_count == if lights.len() < MAX_LIGHTS { lights.len() as int } else { MAX_LIGHTS as int },
    ensures
        r.light_count <= MAX_LIGHTS,
        lights.len() > MAX_LIGHTS ==> r.light_count == MAX_LIGHTS,
        r.lights@.len() == MAX_LIGHTS,
{
}

/// One step of the frame node, in the order it runs.
#[derive(Clone, Copy, Debug, PartialEq, Eq, Structural)]
pub enum FrameStep {
    /// Follow the presentation surface's format.
    SyncFormat,
    /// Reset the frame's scratch space.
    ResetScratch,
    /// Light the G-buffer into the deferred target.
    DeferredPass,
    /// Begin the final pass.
    FinalPass,
    /// Post-process the lit color into the final target.
    PostProcess,
    /// Draw the UI into the final target.
    Ui,
    /// Copy the final color to the presentation surface.
    Blit,
}

/// The steps of a frame: the world is lit and post-processed only when a
/// connection and a world to draw are both present, the UI is drawn when
/// there is a UI state, and the final pass and the blit always run.
pub open spec fn steps_for(has_connection: bool, has_world: bool, draws_ui: bool) -> Seq<FrameStep> {
    let world = has_connection && has_world;
    seq![FrameStep::SyncFormat, FrameStep::ResetScratch]
        + (if world { seq![FrameStep::DeferredPass] } else { Seq::empty() })
        + seq![FrameStep::FinalPass]
        + (if world { seq![FrameStep::PostProcess] } else { Seq::empty() })
        + (if draws_ui { seq![FrameStep::Ui] } else { Seq::empty() })
        + seq![FrameStep::Blit]
}

/// The steps of one frame, in order.
pub fn frame_steps(has_connection: bool, has_world: bool, draws_ui: bool) -> (r: Vec<FrameStep>)
    ensures
        r@ == steps_for(has_connection, has_world, draws_ui),
{
    let world = has_connection && has_world;
    let mut r: Vec<FrameStep> = Vec::new();
    r.push(FrameStep::SyncFormat);
    r.push(FrameStep::ResetScratch);
    if world {
        r.push(FrameStep::DeferredPass);
    }
    r.push(FrameStep::FinalPass);
    if world {
        r.push(FrameStep::PostProcess);
    }
    if draws_ui {
        r.push(FrameStep::Ui);
    }
    r.push(FrameStep::Blit);
    assert(r@ =~= steps_for(has_connection, has_world, draws_ui));
    r
}

/// What one frame does: its steps, and the UI it draws.
pub struct FramePlan<H, M, C> {
    pub steps: Vec<FrameStep>,
    pub ui: Option<UiState<H, M, C>>,
}

/// Decides a frame from what is present: `hud` is the HUD of a connected
/// client (none on the title screen), `has_world` whether a world renderer
/// exists, and the focus, console and menu select the overlay.
pub fn plan_frame<H, M, C>(
    hud: Option<H>,
    has_world: bool,
    focus: InputFocus,
    console: Option<C>,
    menu: Option<M>,
) -> (r: FramePlan<H, M, C>)
    ensures
        r.ui == ui_state_for(hud, focus, console, menu),
        r.steps@ == steps_for(hud is Some, has_world, r.ui is Some),
{
    let connected = hud.is_some();
    let ui = ui_state(hud, focus, console, menu);
    let steps = frame_steps(connected, has_world, ui.is_some());
    FramePlan { steps, ui }
}

/// Passes keep their fixed order in every frame: the deferred pass comes
/// before the final pass, post-processing and UI inside it, and the blit
/// last.
pub proof fn lemma_pass_order(has_connection: bool, has_world: bool, draws_ui: bool)
    ensures
        ({
            let s = steps_for(has_connection, has_world, draws_ui);
            let f = if has_connection && has_world { 3int } else { 2int };
            &&& s.last() == FrameStep::Blit
            &&& s[f] == FrameStep::FinalPass
            &&& has_connection && has_world ==> s[2] == FrameStep::DeferredPass && s[f + 1] == FrameStep::PostProcess
            &&& forall|i: int| 0 <= i < s.len() && s[i] == FrameStep::Ui ==> f < i
        }),
{
    let s = steps_for(has_connection, has_world, draws_ui);
    if has_connection && has_world {
        if draws_ui {
            assert(s =~= seq![FrameStep::SyncFormat, FrameStep::ResetScratch, FrameStep::DeferredPass,
                FrameStep::FinalPass, FrameStep::PostProcess, FrameStep::Ui, FrameStep::Blit]);
        } else {
            assert(s =~= seq![FrameStep::SyncFormat, FrameStep::ResetScratch, FrameStep::DeferredPass,
                FrameStep::FinalPass, FrameStep::PostProcess, FrameStep::Blit]);
        }
    } else {
        if draws_ui {
            assert(s =~= seq![FrameStep::SyncFormat, FrameStep::ResetScratch, FrameStep::FinalPass,
                FrameStep::Ui, FrameStep::Blit]);
        } else {
            assert(s =~= seq![FrameStep::SyncFormat, FrameStep::ResetScratch, FrameStep::FinalPass,
                FrameStep::Blit]);
        }
    }
}

#[verifier::external_type_specification]
#[verifier::external_body]
pub struct ExBump(bumpalo::Bump);

/// Relies on bumpalo's `Bump::new`: an empty arena.
pub assume_specification[ bumpalo::Bump::new ]() -> bumpalo::Bump;

/// Relies on bumpalo's `Bump::reset`: frees what the arena holds for reuse.
pub assume_specification[ bumpalo::Bump::reset ](b: &mut bumpalo::Bump);

/// Scratch space of one frame: an arena for transient allocations and the
/// list the UI surfaces generate their commands into. Nothing in it
/// outlives the frame.
pub struct FrameScratch {
    pub arena: bumpalo::Bump,
    pub commands: Vec<UiCommand>,
}

impl FrameScratch {
    /// Empty scratch space.
    pub fn new() -> (r: FrameScratch)
        ensures
            r.commands@.len() == 0,
    {
        FrameScratch { arena: bumpalo::Bump::new(), commands: Vec::new() }
    }

    /// Starts a frame: everything the previous frame left is dropped.
    pub fn begin_frame(&mut self)
        ensures
            final(self).commands@.len() == 0,
    {
        self.arena.reset();
        self.commands.clear();
    }
}

} // verus!
