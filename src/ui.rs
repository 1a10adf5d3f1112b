use vstd::prelude::*;
use crate::extent::Extent2d;

verus! {

/// Which part of the client receives input.
#[derive(Clone, Copy, Debug, PartialEq, Eq, Structural)]
pub enum InputFocus {
    Game,
    Console,
    Menu,
}

/// A surface drawn over the screen: the menu or the console.
#[derive(Clone, Copy, Debug, PartialEq, Eq)]
pub enum UiOverlay<M, C> {
    Menu(M),
    Console(C),
}

/// What the UI shows this frame: the title screen with an overlay, or the
/// game's HUD with an optional overlay.
#[derive(Clone, Copy, Debug, PartialEq, Eq)]
pub enum UiState<H, M, C> {
    Title { overlay: UiOverlay<M, C> },
    InGame { hud: H, overlay: Option<UiOverlay<M, C>> },
}

/// The overlay that input focus selects: the console only when it has focus
/// and exists, the menu likewise, and none while the game has focus.
pub open spec fn overlay_for<M, C>(focus: InputFocus, console: Option<C>, menu: Option<M>) -> Option<UiOverlay<M, C>> {
    match focus {
        InputFocus::Game => None,
        InputFocus::Console => match console {
            Some(c) => Some(UiOverlay::Console(c)),
            None => None,
        },
        InputFocus::Menu => match menu {
            Some(m) => Some(UiOverlay::Menu(m)),
            None => None,
        },
    }
}

/// The UI state of a frame: in game when there is a HUD to draw, else the
/// title screen, which is drawn only under an overlay.
pub open spec fn ui_state_for<H, M, C>(
    hud: Option<H>,
    focus: InputFocus,
    console: Option<C>,
    menu: Option<M>,
) -> Option<UiState<H, M, C>> {
    match hud {
        Some(h) => Some(UiState::InGame { hud: h, overlay: overlay_for(focus, console, menu) }),
        None => match overlay_for(focus, console, menu) {
            Some(o) => Some(UiState::Title { overlay: o }),
            None => None,
        },
    }
}

/// Selects the overlay for `focus` among the surfaces that exist.
pub fn select_overlay<M, C>(focus: InputFocus, console: Option<C>, menu: Option<M>) -> (r: Option<UiOverlay<M, C>>)
    ensures
        r == overlay_for(focus, console, menu),
{
    match focus {
        InputFocus::Game => None,
        InputFocus::Console => match console {
            Some(c) => Some(UiOverlay::Console(c)),
            None => None,
        },
        InputFocus::Menu => match menu {
            Some(m) => Some(UiOverlay::Menu(m)),
            None => None,
        },
    }
}

/// Derives the frame's UI state, or `None` when there is nothing to draw.
pub fn ui_state<H, M, C>(hud: Option<H>, focus: InputFocus, console: Option<C>, menu: Option<M>) -> (r: Option<UiState<H, M, C>>)
    ensures
        r == ui_state_for(hud, focus, console, menu),
{
    let overlay = select_overlay(focus, console, menu);
    match hud {
        Some(h) => Some(UiState::InGame { hud: h, overlay }),
        None => match overlay {
            Some(o) => Some(UiState::Title { overlay: o }),
            None => None,
        },
    }
}

/// In game with the console focused, the console is shown even when a menu
/// exists; while the game has focus no overlay is shown, whatever exists.
pub proof fn lemma_overlay_precedence<H, M, C>(hud: H, console: C, menu: M, any_console: Option<C>, any_menu: Option<M>)
    ensures
        ui_state_for(Some(hud), InputFocus::Console, Some(console), Some(menu))
            == Some(UiState::<H, M, C>::InGame { hud, overlay: Some(UiOverlay::Console(console)) }),
        ui_state_for(Some(hud), InputFocus::Game, any_console, any_menu)
            == Some(UiState::<H, M, C>::InGame { hud, overlay: None }),
        overlay_for::<M, C>(InputFocus::Game, any_console, any_menu) is None,
{
}

/// A point or size in normalized device coordinates, as exact fractions.
#[derive(Clone, Copy, Debug, PartialEq, Eq, Structural)]
pub struct NdcVector {
    pub x_num: i64,
    pub x_den: u32,
    pub y_num: i64,
    pub y_den: u32,
}

/// Translation and scale that place a unit quad on screen: a vertex `v` of
/// the quad lands at `translate + scale * v`.
#[derive(Clone, Copy, Debug, PartialEq, Eq, Structural)]
pub struct ScreenTransform {
    pub translate: NdcVector,
    pub scale: NdcVector,
}

/// `t` is the translation `((2x - w) / w, (2y - h) / h)` of pixel `(x, y)`.
pub open spec fn is_translation(t: NdcVector, w: u32, h: u32, x: i32, y: i32) -> bool {
    &&& t.x_num == 2 * x - w
    &&& t.x_den == w
    &&& t.y_num == 2 * y - h
    &&& t.y_den == h
}

/// `s` is the scale `(2 qw / w, 2 qh / h)` of a quad of `qw` by `qh` pixels.
pub open spec fn is_scale(s: NdcVector, w: u32, h: u32, qw: u32, qh: u32) -> bool {
    &&& s.x_num == 2 * qw
    &&& s.x_den == w
    &&& s.y_num == 2 * qh
    &&& s.y_den == h
}

/// Rescales pixel `(pos_x, pos_y)` of a `display_w` by `display_h` display
/// to normalized device coordinates.
pub fn screen_space_vertex_translate(display_w: u32, display_h: u32, pos_x: i32, pos_y: i32) -> (r: NdcVector)
    ensures
        is_translation(r, display_w, display_h, pos_x, pos_y),
{
    NdcVector {
        x_num: 2 * (pos_x as i64) - display_w as i64,
        x_den: display_w,
        y_num: 2 * (pos_y as i64) - display_h as i64,
        y_den: display_h,
    }
}

/// The size of a `quad_w` by `quad_h` quad in normalized device coordinates.
pub fn screen_space_vertex_scale(display_w: u32, display_h: u32, quad_w: u32, quad_h: u32) -> (r: NdcVector)
    ensures
        is_scale(r, display_w, display_h, quad_w, quad_h),
{
    NdcVector {
        x_num: 2 * (quad_w as i64),
        x_den: display_w,
        y_num: 2 * (quad_h as i64),
        y_den: display_h,
    }
}

/// Places a `quad_w` by `quad_h` quad at pixel `(pos_x, pos_y)`: the
/// translation, then the scale, applied to a unit quad.
pub fn screen_space_vertex_transform(
    display_w: u32,
    display_h: u32,
    quad_w: u32,
    quad_h: u32,
    pos_x: i32,
    pos_y: i32,
) -> (r: ScreenTransform)
    ensures
        is_translation(r.translate, display_w, display_h, pos_x, pos_y),
        is_scale(r.scale, display_w, display_h, quad_w, quad_h),
{
    ScreenTransform {
        translate: screen_space_vertex_translate(display_w, display_h, pos_x, pos_y),
        scale: screen_space_vertex_scale(display_w, display_h, quad_w, quad_h),
    }
}


/// A textured quad at pixel `(pos_x, pos_y)`, `width` by `height` pixels.
#[derive(Clone, Copy, Debug, PartialEq, Eq, Structural)]
pub struct QuadCommand {
    pub texture: u32,
    pub pos_x: i32,
    pub pos_y: i32,
    pub width: u32,
    pub height: u32,
}

/// One character of text at pixel `(pos_x, pos_y)`, drawn `size` pixels high.
#[derive(Clone, Copy, Debug, PartialEq, Eq, Structural)]
pub struct GlyphCommand {
    pub glyph: u8,
    pub pos_x: i32,
    pub pos_y: i32,
    pub size: u32,
}

/// A draw command of the UI, in the order the surfaces generate them.
#[derive(Clone, Copy, Debug, PartialEq, Eq, Structural)]
pub enum UiCommand {
    Quad(QuadCommand),
    Glyph(GlyphCommand),
}

/// The quads among `s`, in order.
pub open spec fn quads_of(s: Seq<UiCommand>) -> Seq<QuadCommand>
    decreases s.len(),
{
    if s.len() == 0 {
        Seq::empty()
    } else {
        match s.last() {
            UiCommand::Quad(q) => quads_of(s.drop_last()).push(q),
            UiCommand::Glyph(_) => quads_of(s.drop_last()),
        }
    }
}

/// The glyphs among `s`, in order.
pub open spec fn glyphs_of(s: Seq<UiCommand>) -> Seq<GlyphCommand>
    decreases s.len(),
{
    if s.len() == 0 {
        Seq::empty()
    } else {
        match s.last() {
            UiCommand::Glyph(g) => glyphs_of(s.drop_last()).push(g),
            UiCommand::Quad(_) => glyphs_of(s.drop_last()),
        }
    }
}

/// The order in which the commands of `s` reach the screen: all quads in one
/// draw, then all glyphs in another, each in generation order.
pub open spec fn draw_order(s: Seq<UiCommand>) -> Seq<UiCommand> {
    quads_of(s).map_values(|q: QuadCommand| UiCommand::Quad(q)) + glyphs_of(s).map_values(
        |g: GlyphCommand| UiCommand::Glyph(g),
    )
}

/// A UI surface to generate commands from, in the order they are generated.
#[derive(Clone, Copy, Debug, PartialEq, Eq, Structural)]
pub enum UiSurface {
    Hud,
    Menu,
    /// The console, covering `proportion_percent` of the screen's height.
    Console { proportion_percent: u32 },
}

/// The two batched draws of one UI pass: the quads with their transforms,
/// then the glyphs.
#[derive(Clone, Debug, PartialEq, Eq)]
pub struct UiDraws {
    pub quads: Vec<QuadCommand>,
    pub quad_transforms: Vec<ScreenTransform>,
    pub glyphs: Vec<GlyphCommand>,
}

/// One submitted UI pass: the surfaces drawn, in order, and the two batches.
#[derive(Clone, Debug, PartialEq, Eq)]
pub struct UiPass {
    pub surfaces: Vec<UiSurface>,
    pub draws: UiDraws,
}

/// The commands of a UI pass in generation order: the HUD's in game, then
/// the overlay's when there is one.
pub open spec fn generated_for<H, M, C>(
    ui_state: UiState<H, M, C>,
    hud: Seq<UiCommand>,
    overlay: Seq<UiCommand>,
) -> Seq<UiCommand> {
    match ui_state {
        UiState::Title { .. } => overlay,
        UiState::InGame { overlay: None, .. } => hud,
        UiState::InGame { overlay: Some(_), .. } => hud + overlay,
    }
}

fn append_commands(out: &mut Vec<UiCommand>, more: &Vec<UiCommand>)
    ensures
        final(out)@ == old(out)@ + more@,
{
    let mut i: usize = 0;
    while i < more.len()
        invariant
            i <= more@.len(),
            out@ == old(out)@ + more@.subrange(0, i as int),
        decreases more@.len() - i,
    {
        out.push(more[i]);
        i = i + 1;
    }
    assert(more@.subrange(0, more@.len() as int) == more@);
}

/// Turns the frame's UI state into draw commands and submits them.
#[derive(Clone, Copy, Debug, PartialEq, Eq, Structural)]
pub struct UiRenderer {
    in_game_console_percent: u32,
}

/// Share of the screen's height that the console covers over a running game.
pub const IN_GAME_CONSOLE_PERCENT: u32 = 33;

/// The console covers the whole title screen.
pub const TITLE_CONSOLE_PERCENT: u32 = 100;

impl UiRenderer {
    pub closed spec fn console_percent(&self) -> u32 {
        self.in_game_console_percent
    }

    /// The surfaces that `ui_state` draws, in order: the HUD in game, then
    /// the overlay; the console drops down over the game and fills the title
    /// screen.
    pub open spec fn surfaces_for<H, M, C>(&self, ui_state: UiState<H, M, C>) -> Seq<UiSurface> {
        let overlay = |o: UiOverlay<M, C>, in_game: bool| match o {
            UiOverlay::Menu(_) => UiSurface::Menu,
            UiOverlay::Console(_) => UiSurface::Console {
                proportion_percent: if in_game { self.console_percent() } else { TITLE_CONSOLE_PERCENT },
            },
        };
        match ui_state {
            UiState::Title { overlay: o } => seq![overlay(o, false)],
            UiState::InGame { overlay: None, .. } => seq![UiSurface::Hud],
            UiState::InGame { overlay: Some(o), .. } => seq![UiSurface::Hud, overlay(o, true)],
        }
    }

    /// A renderer with the console covering a third of the screen in game.
    pub fn new() -> (r: UiRenderer)
        ensures
            r.console_percent() == IN_GAME_CONSOLE_PERCENT,
    {
        UiRenderer { in_game_console_percent: IN_GAME_CONSOLE_PERCENT }
    }

    /// The surfaces to generate commands from for `ui_state`, in order.
    pub fn surfaces<H, M, C>(&self, ui_state: &UiState<H, M, C>) -> (r: Vec<UiSurface>)
        ensures
            r@ == self.surfaces_for(*ui_state),
    {
        let mut r: Vec<UiSurface> = Vec::new();
        let (in_game, overlay) = match ui_state {
            UiState::Title { overlay } => (false, Some(overlay)),
            UiState::InGame { overlay, .. } => (true, overlay.as_ref()),
        };
        if in_game {
            r.push(UiSurface::Hud);
        }
        match overlay {
            Some(UiOverlay::Menu(_)) => r.push(UiSurface::Menu),
            Some(UiOverlay::Console(_)) => {
                let proportion_percent = if in_game { self.in_game_console_percent } else { TITLE_CONSOLE_PERCENT };
                r.push(UiSurface::Console { proportion_percent });
            },
            None => {},
        }
        r
    }

    /// Submits one UI pass for `ui_state` on a target of `target_size`. The
    /// HUD's commands `hud_commands` are drawn only in game, the overlay's
    /// `overlay_commands` only when there is an overlay; the pass reports the
    /// surfaces it drew, each console with its share of the screen, and the
    /// batches of the commands they generated.
    pub fn render_pass<H, M, C>(
        &self,
        target_size: Extent2d,
        ui_state: &UiState<H, M, C>,
        hud_commands: &Vec<UiCommand>,
        overlay_commands: &Vec<UiCommand>,
    ) -> (r: UiPass)
        ensures
            r.surfaces@ == self.surfaces_for(*ui_state),
            r.draws.quads@ == quads_of(generated_for(*ui_state, hud_commands@, overlay_commands@)),
            r.draws.glyphs@ == glyphs_of(generated_for(*ui_state, hud_commands@, overlay_commands@)),
            r.draws.quad_transforms@.len() == r.draws.quads@.len(),
            forall|i: int|
                0 <= i < r.draws.quads@.len() ==> {
                    let q = #[trigger] r.draws.quads@[i];
                    let t = r.draws.quad_transforms@[i];
                    is_translation(t.translate, target_size.width, target_size.height, q.pos_x, q.pos_y)
                        && is_scale(t.scale, target_size.width, target_size.height, q.width, q.height)
                },
    {
        let surfaces = self.surfaces(ui_state);
        let (in_game, has_overlay) = match ui_state {
            UiState::Title { .. } => (false, true),
            UiState::InGame { overlay, .. } => (true, overlay.is_some()),
        };
        let mut commands: Vec<UiCommand> = Vec::new();
        if in_game {
            append_commands(&mut commands, hud_commands);
        }
        if has_overlay {
            append_commands(&mut commands, overlay_commands);
        }
        assert(commands@ =~= generated_for(*ui_state, hud_commands@, overlay_commands@));
        let draws = self.batch_commands(target_size, &commands);
        UiPass { surfaces, draws }
    }

    /// Batches the generated `commands` for a target of `target_size`: the
    /// quads, each with its screen-space transform, are drawn first and the
    /// glyphs after them, so text always lies above quads.
    pub fn batch_commands(&self, target_size: Extent2d, commands: &Vec<UiCommand>) -> (r: UiDraws)
        ensures
            r.quads@ == quads_of(commands@),
            r.glyphs@ == glyphs_of(commands@),
            r.quad_transforms@.len() == r.quads@.len(),
            forall|i: int|
                0 <= i < r.quads@.len() ==> {
                    let q = #[trigger] r.quads@[i];
                    let t = r.quad_transforms@[i];
                    is_translation(t.translate, target_size.width, target_size.height, q.pos_x, q.pos_y)
                        && is_scale(t.scale, target_size.width, target_size.height, q.width, q.height)
                },
    {
        let mut quads: Vec<QuadCommand> = Vec::new();
        let mut quad_transforms: Vec<ScreenTransform> = Vec::new();
        let mut glyphs: Vec<GlyphCommand> = Vec::new();
        let mut i: usize = 0;
        while i < commands.len()
            invariant
                i <= commands@.len(),
                quads@ == quads_of(commands@.subrange(0, i as int)),
                glyphs@ == glyphs_of(commands@.subrange(0, i as int)),
                quad_transforms@.len() == quads@.len(),
                forall|k: int|
                    0 <= k < quads@.len() ==> {
                        let q = #[trigger] quads@[k];
                        let t = quad_transforms@[k];
                        is_translation(t.translate, target_size.width, target_size.height, q.pos_x, q.pos_y)
                            && is_scale(t.scale, target_size.width, target_size.height, q.width, q.height)
                    },
            decreases commands@.len() - i,
        {
            proof {
                assert(commands@.subrange(0, i + 1).drop_last() == commands@.subrange(0, i as int));
            }
            match commands[i] {
                UiCommand::Quad(q) => {
                    quads.push(q);
                    quad_transforms.push(
                        screen_space_vertex_transform(
                            target_size.width,
                            target_size.height,
                            q.width,
                            q.height,
                            q.pos_x,
                            q.pos_y,
                        ),
                    );
                },
                UiCommand::Glyph(g) => {
                    glyphs.push(g);
                },
            }
            i = i + 1;
        }
        proof {
            assert(commands@.subrange(0, commands@.len() as int) == commands@);
        }
        UiDraws { quads, quad_transforms, glyphs }
    }
}

/// Every glyph reaches the screen after every quad, whatever order the
/// commands were generated in.
pub proof fn lemma_glyphs_above_quads(s: Seq<UiCommand>)
    ensures
        forall|i: int, j: int|
            0 <= i < draw_order(s).len() && 0 <= j < draw_order(s).len()
                && draw_order(s)[i] is Glyph && draw_order(s)[j] is Quad ==> j < i,
{
    let qs = quads_of(s).map_values(|q: QuadCommand| UiCommand::Quad(q));
    let gs = glyphs_of(s).map_values(|g: GlyphCommand| UiCommand::Glyph(g));
    assert forall|i: int, j: int|
        0 <= i < draw_order(s).len() && 0 <= j < draw_order(s).len()
            && draw_order(s)[i] is Glyph && draw_order(s)[j] is Quad implies j < i by {
        if i < qs.len() {
            assert(draw_order(s)[i] == qs[i]);
        }
        if j >= qs.len() {
            assert(draw_order(s)[j] == gs[j - qs.len()]);
        }
    }
}

/// A quad and a glyph generated in either order are drawn quad first.
pub proof fn lemma_quad_glyph_pair(q: QuadCommand, g: GlyphCommand)
    ensures
        draw_order(seq![UiCommand::Quad(q), UiCommand::Glyph(g)]) == seq![UiCommand::Quad(q), UiCommand::Glyph(g)],
        draw_order(seq![UiCommand::Glyph(g), UiCommand::Quad(q)]) == seq![UiCommand::Quad(q), UiCommand::Glyph(g)],
{
    let a = seq![UiCommand::Quad(q), UiCommand::Glyph(g)];
    let b = seq![UiCommand::Glyph(g), UiCommand::Quad(q)];
    assert(a.drop_last() == seq![UiCommand::Quad(q)]);
    assert(a.drop_last().drop_last() == Seq::<UiCommand>::empty());
    assert(b.drop_last() == seq![UiCommand::Glyph(g)]);
    assert(b.drop_last().drop_last() == Seq::<UiCommand>::empty());
    let one = seq![UiCommand::Quad(q)];
    assert(one.drop_last() == Seq::<UiCommand>::empty());
    assert(one.last() == UiCommand::Quad(q));
    assert(quads_of(Seq::<UiCommand>::empty()) == Seq::<QuadCommand>::empty());
    assert(glyphs_of(Seq::<UiCommand>::empty()) == Seq::<GlyphCommand>::empty());
    assert(quads_of(one) =~= seq![q]);
    assert(glyphs_of(one) =~= Seq::<GlyphCommand>::empty());
    assert(quads_of(a) =~= seq![q]);
    assert(glyphs_of(a) =~= seq![g]);
    let other = seq![UiCommand::Glyph(g)];
    assert(other.last() == UiCommand::Glyph(g));
    assert(quads_of(other) =~= Seq::<QuadCommand>::empty());
    assert(glyphs_of(other) =~= seq![g]);
    assert(b.last() == UiCommand::Quad(q));
    assert(quads_of(b) =~= seq![q]);
    assert(glyphs_of(b) =~= seq![g]);
    assert(draw_order(a) =~= a);
    assert(draw_order(b) =~= a);
}

} // verus!
