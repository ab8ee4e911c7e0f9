use crate::event::{Cursor, CursorGrab, DeviceEvent, Effect, ElementState, Key, WindowEvent};
use crate::render::atlas::AtlasImage;
use crate::render::renderer::{Draw, RenderPass, Renderer, Size, SurfaceError};
use crate::render::DeviceLimits;
use crate::scene::camera::{Camera, consumes};
use crate::render::mesh::{cube_indices, cube_vertices};
use crate::scene::terrain::{Terrain, terrain_outcome, world_block};
use crate::scene::Scene;
use vstd::prelude::*;

pub mod event;
pub mod render;
pub mod scene;

verus! {

/// Whether the player is steering the camera or the world is held still.
#[allow(non_camel_case_types)]
#[derive(Clone, Copy, Debug, PartialEq, Eq, Structural)]
pub enum State {
    PLAYING,
    PAUSED,
}

impl State {
    /// The other mode: what a fresh press of Escape switches to.
    pub open spec fn toggled(self) -> State {
        match self {
            State::PLAYING => State::PAUSED,
            State::PAUSED => State::PLAYING,
        }
    }

    /// The cursor that goes with a mode: hidden and locked while playing, shown
    /// and free while paused.
    pub open spec fn cursor(self) -> Cursor {
        match self {
            State::PLAYING => Cursor { visible: false, grab: CursorGrab::Locked },
            State::PAUSED => Cursor { visible: true, grab: CursorGrab::Free },
        }
    }
}

/// All of the game that events can change.
pub struct GameView {
    pub renderer: Renderer,
    pub camera: Camera,
    pub state: State,
    pub cursor: Cursor,
    /// Whether Escape is down: a press that finds it down is a repeat, not an edge.
    pub escape_held: bool,
}

impl GameView {
    /// The middle of the drawing area.
    pub open spec fn center(self) -> Effect {
        Effect::SetCursorPosition {
            x: (self.renderer.size.width / 2) as u32,
            y: (self.renderer.size.height / 2) as u32,
        }
    }

    /// The game as it starts: playing, with the cursor as the window system made
    /// it, and no key held.
    pub open spec fn initial(size: Size, limits: DeviceLimits, now: u64) -> GameView {
        GameView {
            renderer: Renderer { size, last_render_time: now, limits },
            camera: Camera::new(),
            state: State::PLAYING,
            cursor: Cursor { visible: true, grab: CursorGrab::Free },
            escape_held: false,
        }
    }

    /// The game after the cursor was set up for play.
    pub open spec fn initialized(self) -> GameView {
        GameView { cursor: State::PLAYING.cursor(), ..self }
    }

    pub open spec fn initialize_effects(self) -> Seq<Effect> {
        seq![
            Effect::SetCursorVisible(false),
            Effect::SetCursorGrab(CursorGrab::Locked),
            self.center(),
        ]
    }

    /// The game after a fresh press of Escape: in the other mode, with that
    /// mode's cursor.
    pub open spec fn toggled(self) -> GameView {
        GameView {
            state: self.state.toggled(),
            cursor: self.state.toggled().cursor(),
            escape_held: true,
            ..self
        }
    }

    /// What a fresh press of Escape asks of the window. Pausing puts the cursor
    /// in the middle, frees it and shows it; resuming locks it and hides it.
    pub open spec fn toggle_effects(self) -> Seq<Effect> {
        match self.state {
            State::PLAYING => seq![
                self.center(),
                Effect::SetCursorGrab(CursorGrab::Free),
                Effect::SetCursorVisible(true),
            ],
            State::PAUSED => seq![
                Effect::SetCursorGrab(CursorGrab::Locked),
                Effect::SetCursorVisible(false),
            ],
        }
    }

    /// The game after the window was resized.
    pub open spec fn resized(self, new_size: Size) -> GameView {
        GameView { renderer: self.renderer.resized(new_size), ..self }
    }

    /// What a new size asks for: the surface is configured unless the size is
    /// empty, and the camera is told in any case.
    pub open spec fn resize_effects(new_size: Size) -> Seq<Effect> {
        match Renderer::reconfigured(new_size) {
            Some(size) => seq![Effect::ConfigureSurface(size), Effect::ResizeCamera(new_size)],
            None => seq![Effect::ResizeCamera(new_size)],
        }
    }

    /// The game after a window event that arrived at the time `now`.
    pub open spec fn after_window_event(self, event: WindowEvent, now: u64) -> GameView {
        if consumes(event) {
            GameView { camera: self.camera.after_event(event), ..self }
        } else {
            match event {
                WindowEvent::Resized(new_size) => self.resized(new_size),
                WindowEvent::RedrawRequested => GameView {
                    renderer: Renderer { last_render_time: now, ..self.renderer },
                    ..self
                },
                WindowEvent::KeyboardInput { key: Key::Escape, state: ElementState::Pressed } => {
                    if self.escape_held {
                        self
                    } else {
                        self.toggled()
                    }
                },
                WindowEvent::KeyboardInput { key: Key::Escape, state: ElementState::Released } => {
                    GameView { escape_held: false, ..self }
                },
                _ => self,
            }
        }
    }

    /// What a window event that arrived at the time `now` asks the caller to do.
    pub open spec fn window_effects(self, event: WindowEvent, now: u64) -> Seq<Effect> {
        if consumes(event) {
            Seq::empty()
        } else {
            match event {
                WindowEvent::CloseRequested => seq![Effect::Exit],
                WindowEvent::Resized(new_size) => Self::resize_effects(new_size),
                WindowEvent::RedrawRequested => seq![
                    Effect::Update { dt: self.renderer.elapsed(now) },
                    Effect::Render,
                ],
                WindowEvent::MouseWheel => seq![Effect::Scroll],
                WindowEvent::KeyboardInput { key: Key::Escape, state: ElementState::Pressed } => {
                    if self.escape_held {
                        Seq::empty()
                    } else {
                        self.toggle_effects()
                    }
                },
                _ => Seq::empty(),
            }
        }
    }

    /// What the attempt to acquire a frame asks the caller to do besides
    /// submitting the pass. A lost surface is configured again for the size it
    /// had; without memory the loop ends; any other error is logged and the
    /// next frame is tried as usual.
    pub open spec fn redraw_effects(self, acquired: Result<(), SurfaceError>) -> Seq<Effect> {
        match acquired {
            Ok(_) => Seq::empty(),
            Err(SurfaceError::Lost) => match Renderer::reconfigured(self.renderer.size) {
                Some(size) => seq![Effect::ConfigureSurface(size)],
                None => Seq::empty(),
            },
            Err(SurfaceError::OutOfMemory) => seq![Effect::Exit],
            Err(error) => seq![Effect::Log(error)],
        }
    }
}

/// The event of Escape going down or coming up.
pub open spec fn escape(state: ElementState) -> WindowEvent {
    WindowEvent::KeyboardInput { key: Key::Escape, state }
}

/// A press of Escape that finds the key up switches the mode. From playing it
/// leads to paused with the cursor shown and free, from paused to playing with
/// the cursor hidden and locked.
pub proof fn lemma_escape_edge_toggles(view: GameView, now: u64)
    requires
        !view.escape_held,
    ensures
        ({
            let next = view.after_window_event(escape(ElementState::Pressed), now);
            &&& next.escape_held
            &&& next.state == view.state.toggled()
            &&& view.state == State::PLAYING ==> next.state == State::PAUSED && next.cursor == (Cursor {
                visible: true,
                grab: CursorGrab::Free,
            })
            &&& view.state == State::PAUSED ==> next.state == State::PLAYING && next.cursor == (Cursor {
                visible: false,
                grab: CursorGrab::Locked,
            })
        }),
{
}

/// While Escape stays down, its presses are repeats: they change nothing and
/// ask for nothing, so holding the key does not switch the mode again.
pub proof fn lemma_held_escape_is_ignored(view: GameView, now: u64)
    requires
        view.escape_held,
    ensures
        view.after_window_event(escape(ElementState::Pressed), now) == view,
        view.window_effects(escape(ElementState::Pressed), now) == Seq::<Effect>::empty(),
{
}

/// Press, release, press: the second edge undoes the first. Starting from
/// playing, the game is paused in between and plays again at the end, cursor
/// hidden and locked.
pub proof fn lemma_second_edge_returns(view: GameView, first: u64, between: u64, second: u64)
    requires
        !view.escape_held,
    ensures
        ({
            let paused = view.after_window_event(escape(ElementState::Pressed), first);
            let released = paused.after_window_event(escape(ElementState::Released), between);
            let resumed = released.after_window_event(escape(ElementState::Pressed), second);
            &&& paused.state == view.state.toggled()
            &&& released.state == paused.state
            &&& released.cursor == paused.cursor
            &&& resumed.state == view.state
            &&& resumed.cursor == view.state.cursor()
        }),
{
}

/// An event that the scene consumes goes no further: it asks for nothing, and
/// nothing but the camera changes.
pub proof fn lemma_consumed_event_stops_at_scene(view: GameView, event: WindowEvent, now: u64)
    requires
        consumes(event),
    ensures
        view.window_effects(event, now) == Seq::<Effect>::empty(),
        view.after_window_event(event, now) == (GameView {
            camera: view.camera.after_event(event),
            ..view
        }),
{
}

/// A new size without pixels leaves the renderer as it was, and the surface is
/// not configured.
pub proof fn lemma_empty_size_is_ignored(view: GameView, new_size: Size, now: u64)
    requires
        new_size.is_empty(),
    ensures
        view.after_window_event(WindowEvent::Resized(new_size), now) == view,
        view.window_effects(WindowEvent::Resized(new_size), now) == seq![
            Effect::ResizeCamera(new_size),
        ],
{
}

/// When the surface is lost it is configured again, once, for the size it had.
/// Without memory for a frame the caller is asked to leave the loop, once, and
/// for nothing else.
pub proof fn lemma_render_errors_are_handled(view: GameView)
    ensures
        !view.renderer.size.is_empty() ==> view.redraw_effects(Err(SurfaceError::Lost)) == seq![
            Effect::ConfigureSurface(view.renderer.size),
        ],
        view.renderer.resized(view.renderer.size) == view.renderer,
        view.redraw_effects(Err(SurfaceError::OutOfMemory)) == seq![Effect::Exit],
        view.redraw_effects(Ok(())) == Seq::<Effect>::empty(),
{
}

/// What became of a request to redraw.
#[derive(Debug)]
pub struct Redraw {
    /// The pass to submit and present, if a frame was acquired.
    pub pass: Option<RenderPass>,
    /// What else is to be done.
    pub effects: Vec<Effect>,
}

/// The game: the renderer's and the scene's state, the mode, and what was last
/// asked of the cursor.
#[derive(Debug)]
pub struct GameState {
    renderer: Renderer,
    scene: Scene,
    state: State,
    cursor: Cursor,
    escape_held: bool,
}

impl View for GameState {
    type V = GameView;

    closed spec fn view(&self) -> GameView {
        GameView {
            renderer: self.renderer,
            camera: self.scene.camera,
            state: self.state,
            cursor: self.cursor,
            escape_held: self.escape_held,
        }
    }
}

impl GameState {
    /// The terrain of the scene. No event changes it.
    pub closed spec fn spec_terrain(&self) -> &Terrain {
        &self.scene.terrain
    }

    /// Builds the renderer's state for a window of the given size and the scene
    /// for the given atlas image. There is no game without its scene: whether
    /// the scene can be built is what `Terrain::check` tells.
    pub fn new(size: Size, limits: DeviceLimits, image: &AtlasImage, now: u64) -> (game: GameState)
        requires
            terrain_outcome(limits, *image) is Ok,
        ensures
            game@ == GameView::initial(size, limits, now),
            game.terrain().atlas().columns() == image.columns,
            game.terrain().atlas().rows() == image.rows,
            game.terrain().atlas().tile_size() == image.tile_size,
            game.terrain().model().vertices() == cube_vertices(world_block()),
            game.terrain().model().indices() == cube_indices(0),
    {
        let renderer = Renderer::new(size, limits, now);
        let scene = Scene::new(&renderer, image);
        GameState {
            renderer,
            scene,
            state: State::PLAYING,
            cursor: Cursor { visible: true, grab: CursorGrab::Free },
            escape_held: false,
        }
    }

    fn center(&self) -> (effect: Effect)
        ensures
            effect == self@.center(),
    {
        Effect::SetCursorPosition {
            x: self.renderer.size.width / 2,
            y: self.renderer.size.height / 2,
        }
    }

    /// Sets the cursor up for play: hidden, locked, and in the middle of the window.
    pub fn initialize(&mut self) -> (effects: Vec<Effect>)
        ensures
            final(self)@ == old(self)@.initialized(),
            final(self).terrain() == old(self).terrain(),
            effects@ == old(self)@.initialize_effects(),
    {
        let mut effects: Vec<Effect> = Vec::new();
        effects.push(Effect::SetCursorVisible(false));
        effects.push(Effect::SetCursorGrab(CursorGrab::Locked));
        effects.push(self.center());
        self.cursor = Cursor { visible: false, grab: CursorGrab::Locked };
        proof {
            assert(effects@ =~= old(self)@.initialize_effects());
        }
        effects
    }

    fn toggle(&mut self) -> (effects: Vec<Effect>)
        ensures
            final(self)@ == old(self)@.toggled(),
            final(self).terrain() == old(self).terrain(),
            effects@ == old(self)@.toggle_effects(),
    {
        let mut effects: Vec<Effect> = Vec::new();
        self.escape_held = true;
        match self.state {
            State::PAUSED => {
                effects.push(Effect::SetCursorGrab(CursorGrab::Locked));
                effects.push(Effect::SetCursorVisible(false));
                self.cursor = Cursor { visible: false, grab: CursorGrab::Locked };
                self.state = State::PLAYING;
            },
            State::PLAYING => {
                effects.push(self.center());
                effects.push(Effect::SetCursorGrab(CursorGrab::Free));
                effects.push(Effect::SetCursorVisible(true));
                self.cursor = Cursor { visible: true, grab: CursorGrab::Free };
                self.state = State::PAUSED;
            },
        }
        proof {
            assert(effects@ =~= old(self)@.toggle_effects());
        }
        effects
    }

    /// Takes one event of the window. The scene sees it first; what the scene
    /// consumes goes no further.
    pub fn handle_window_event(&mut self, event: WindowEvent, now: u64) -> (effects: Vec<Effect>)
        ensures
            final(self)@ == old(self)@.after_window_event(event, now),
            final(self).terrain() == old(self).terrain(),
            effects@ == old(self)@.window_effects(event, now),
    {
        if self.scene.handle_input_event(&event) {
            return Vec::new();
        }
        match event {
            WindowEvent::CloseRequested => {
                let mut effects: Vec<Effect> = Vec::new();
                effects.push(Effect::Exit);
                proof {
                    assert(effects@ =~= seq![Effect::Exit]);
                }
                effects
            },
            WindowEvent::Resized(new_size) => self.resize(new_size),
            WindowEvent::RedrawRequested => {
                let dt: u64 = self.renderer.tick(now);
                let mut effects: Vec<Effect> = Vec::new();
                effects.push(Effect::Update { dt });
                effects.push(Effect::Render);
                proof {
                    assert(effects@ =~= seq![Effect::Update { dt }, Effect::Render]);
                }
                effects
            },
            WindowEvent::MouseWheel => {
                let mut effects: Vec<Effect> = Vec::new();
                effects.push(Effect::Scroll);
                proof {
                    assert(effects@ =~= seq![Effect::Scroll]);
                }
                effects
            },
            WindowEvent::KeyboardInput { key: Key::Escape, state: ElementState::Pressed } => {
                if self.escape_held {
                    Vec::new()
                } else {
                    self.toggle()
                }
            },
            WindowEvent::KeyboardInput { key: Key::Escape, state: ElementState::Released } => {
                self.escape_held = false;
                Vec::new()
            },
            _ => Vec::new(),
        }
    }

    /// Takes the outcome of acquiring a frame from the surface. With a frame, the
    /// terrain is recorded into one pass, which the caller submits and presents.
    /// Without one, the effects say how to go on.
    pub fn redraw(&mut self, acquired: Result<(), SurfaceError>) -> (redraw: Redraw)
        ensures
            final(self)@ == old(self)@,
            final(self).terrain() == old(self).terrain(),
            redraw.effects@ == old(self)@.redraw_effects(acquired),
            match acquired {
                Ok(_) => redraw.pass matches Some(pass) && pass.commands() == old(
                    self,
                ).terrain().commands(),
                Err(_) => redraw.pass is None,
            },
    {
        let mut effects: Vec<Effect> = Vec::new();
        match self.renderer.render(acquired, &self.scene.terrain) {
            Ok(frame) => Redraw { pass: Some(frame.pass), effects },
            Err(SurfaceError::Lost) => {
                match self.renderer.resize(self.renderer.size) {
                    Some(size) => {
                        effects.push(Effect::ConfigureSurface(size));
                    },
                    None => {},
                }
                proof {
                    assert(effects@ =~= old(self)@.redraw_effects(acquired));
                }
                Redraw { pass: None, effects }
            },
            Err(SurfaceError::OutOfMemory) => {
                effects.push(Effect::Exit);
                proof {
                    assert(effects@ =~= seq![Effect::Exit]);
                }
                Redraw { pass: None, effects }
            },
            Err(error) => {
                effects.push(Effect::Log(error));
                proof {
                    assert(effects@ =~= seq![Effect::Log(error)]);
                }
                Redraw { pass: None, effects }
            },
        }
    }

    /// Takes a new size of the window to the renderer and to the camera.
    pub fn resize(&mut self, new_size: Size) -> (effects: Vec<Effect>)
        ensures
            final(self)@ == old(self)@.resized(new_size),
            final(self).terrain() == old(self).terrain(),
            effects@ == GameView::resize_effects(new_size),
    {
        let mut effects: Vec<Effect> = Vec::new();
        match self.renderer.resize(new_size) {
            Some(size) => {
                effects.push(Effect::ConfigureSurface(size));
            },
            None => {},
        }
        effects.push(Effect::ResizeCamera(new_size));
        proof {
            assert(effects@ =~= GameView::resize_effects(new_size));
        }
        effects
    }

    /// Whether a device event is to go to the camera: every one while the game
    /// is playing, none while it is paused. What the camera makes of an event is
    /// the camera's affair.
    pub fn input(&self, event: &DeviceEvent) -> (forward: bool)
        ensures
            forward == (self@.state == State::PLAYING),
    {
        match self.state {
            State::PLAYING => true,
            State::PAUSED => false,
        }
    }

    /// Offers a window event to the camera and says whether the camera consumed it.
    pub fn input_keyboard(&mut self, event: &WindowEvent) -> (consumed: bool)
        ensures
            consumed == consumes(*event),
            final(self)@ == (GameView { camera: old(self)@.camera.after_event(*event), ..old(self)@ }),
            final(self).terrain() == old(self).terrain(),
    {
        self.scene.camera.input_keyboard(event)
    }

    #[verifier::when_used_as_spec(spec_terrain)]
    pub fn terrain(&self) -> (terrain: &Terrain)
        ensures
            terrain == self.spec_terrain(),
    {
        &self.scene.terrain
    }

    pub fn state(&self) -> (state: State)
        ensures
            state == self@.state,
    {
        self.state
    }

    pub fn cursor(&self) -> (cursor: Cursor)
        ensures
            cursor == self@.cursor,
    {
        self.cursor
    }

    pub fn renderer(&self) -> (renderer: Renderer)
        ensures
            renderer == self@.renderer,
    {
        self.renderer
    }

    pub fn camera(&self) -> (camera: Camera)
        ensures
            camera == self@.camera,
    {
        self.scene.camera
    }
}

} // verus!
