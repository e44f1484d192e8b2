//! The renderer's state: the surface configuration, the clear colour, the
//! pointer flag and the active pipeline, and how window events change them.
//!
//! `State` owns all of it. Window events go through `State::input`, size
//! changes through `State::resize`, and `State::render` says what a frame
//! draws. None of them touches the graphics device: each says what is to be
//! done there, and the caller does it.

use vstd::prelude::*;
use vstd::string::StringExecFns;

use crate::color::{sampled_at, solid_black, solid_blue, solid_green, Color};
use crate::event::{ElementState, InputEvent, Key, MouseButton};
use crate::frame::{triangle_pass, RenderPass, RenderPassView};
use crate::pipeline::{pipeline_for, render_pipe, PipelineDescriptor, PipelineView};
use crate::surface::{
    configure, configured, InitError, Size, SurfaceCapabilities, SurfaceConfig, SurfaceError,
};

verus! {

/// The name of the shader variant that a renderer starts with, and that is
/// active while the space bar is held down.
pub open spec fn primary_variant() -> Seq<char> {
    "main"@
}

/// The name of the shader variant that is active once the space bar has
/// been let go.
pub open spec fn alternate_variant() -> Seq<char> {
    "rainbow"@
}

/// The variant that a change of the space bar selects.
pub open spec fn selected_variant(state: ElementState) -> Seq<char> {
    match state {
        ElementState::Pressed => primary_variant(),
        ElementState::Released => alternate_variant(),
    }
}

/// The two variants have different names.
pub proof fn lemma_variants_differ()
    ensures
        primary_variant() != alternate_variant(),
{
    reveal_strlit("main");
    reveal_strlit("rainbow");
    assert(primary_variant().len() == 4);
    assert(alternate_variant().len() == 7);
}

/// The state of a renderer as a mathematical value.
pub struct StateView {
    /// The configuration that the surface has.
    pub config: SurfaceConfig,
    /// The colour that a frame is cleared with.
    pub clear_color: Color,
    /// Whether the primary pointer button went down and no colour has been
    /// sampled since.
    pub pointer_down: bool,
    /// The name of the active shader variant.
    pub active_variant: Seq<char>,
    /// The pipeline that frames are drawn with.
    pub active_pipeline: PipelineView,
}

impl StateView {
    /// What holds of every state of a renderer: the surface has a positive
    /// width and height, the active variant is one of the two, and the
    /// active pipeline is the one for the active variant and the surface's
    /// format.
    pub open spec fn wf(self) -> bool {
        &&& self.config.width > 0
        &&& self.config.height > 0
        &&& (self.active_variant == primary_variant() || self.active_variant
            == alternate_variant())
        &&& self.active_pipeline == pipeline_for(self.config.format, self.active_variant)
    }

    /// The state of a renderer that has just been made for a surface
    /// configured by `config`: it clears to blue, the pointer flag is clear,
    /// and the primary variant is active.
    pub open spec fn initial(config: SurfaceConfig) -> StateView {
        StateView {
            config,
            clear_color: solid_blue(),
            pointer_down: false,
            active_variant: primary_variant(),
            active_pipeline: pipeline_for(config.format, primary_variant()),
        }
    }

    /// The state with shader variant `variant` active.
    pub open spec fn with_variant(self, variant: Seq<char>) -> StateView {
        StateView {
            active_variant: variant,
            active_pipeline: pipeline_for(self.config.format, variant),
            ..self
        }
    }

    /// The state after `event`.
    ///
    /// - The pointer comes onto the surface: the clear colour is green.
    /// - The pointer leaves it: the clear colour is black, the pointer flag
    ///   is cleared.
    /// - A pointer button goes down: the pointer flag says whether it is
    ///   the primary one. A button that comes up changes nothing.
    /// - The pointer moves while the flag is set: the clear colour is
    ///   sampled at the position, and the flag is cleared, so one colour is
    ///   sampled for each press. While the flag is clear, a move changes
    ///   nothing.
    /// - The space bar goes down: the primary variant is active. It comes
    ///   up: the alternate variant is active. Either way the pipeline is
    ///   made anew.
    /// - Anything else changes nothing.
    pub open spec fn after(self, event: InputEvent) -> StateView {
        match event {
            InputEvent::CursorEntered => StateView { clear_color: solid_green(), ..self },
            InputEvent::CursorLeft => StateView {
                clear_color: solid_black(),
                pointer_down: false,
                ..self
            },
            InputEvent::MouseInput { state: ElementState::Pressed, button } => StateView {
                pointer_down: button is Left,
                ..self
            },
            InputEvent::CursorMoved { x, y } => if self.pointer_down {
                StateView {
                    clear_color: sampled_at(x, y, self.config.width, self.config.height),
                    pointer_down: false,
                    ..self
                }
            } else {
                self
            },
            InputEvent::KeyboardInput { state, key: Key::Space } => self.with_variant(
                selected_variant(state),
            ),
            _ => self,
        }
    }

    /// Whether a new frame is due after `event` has come in this state.
    pub open spec fn repaints(self, event: InputEvent) -> bool {
        match event {
            InputEvent::CursorEntered => true,
            InputEvent::CursorLeft => true,
            InputEvent::CursorMoved { .. } => self.pointer_down,
            InputEvent::KeyboardInput { key: Key::Space, .. } => true,
            _ => false,
        }
    }

    /// The state after the window has taken the size `size`. A size with a
    /// zero in it is passed over: a minimized window keeps its
    /// configuration.
    pub open spec fn resized(self, size: Size) -> StateView {
        if size.width > 0 && size.height > 0 {
            StateView {
                config: SurfaceConfig { width: size.width, height: size.height, ..self.config },
                ..self
            }
        } else {
            self
        }
    }

    /// The render pass of a frame drawn in this state.
    pub open spec fn pass(self) -> RenderPassView {
        triangle_pass(self.clear_color, self.active_pipeline)
    }
}

/// The state of a renderer.
pub struct State {
    config: SurfaceConfig,
    clear_color: Color,
    pointer_down: bool,
    active_variant: String,
    active_pipeline: PipelineDescriptor,
}

impl View for State {
    type V = StateView;

    closed spec fn view(&self) -> StateView {
        StateView {
            config: self.config,
            clear_color: self.clear_color,
            pointer_down: self.pointer_down,
            active_variant: self.active_variant@,
            active_pipeline: self.active_pipeline@,
        }
    }
}

impl State {
    #[verifier::type_invariant]
    spec fn inv(self) -> bool {
        self@.wf()
    }

    /// Makes the state of a renderer for a window of size `size`, whose
    /// surface has the given capabilities. The surface is to be configured
    /// by `config()` before the first frame.
    ///
    /// Fails where `surface::configure` fails.
    pub fn new(size: Size, capabilities: &SurfaceCapabilities) -> (made: Result<State, InitError>)
        ensures
            match configured(size, *capabilities) {
                Ok(config) => made is Ok && made->Ok_0@ == StateView::initial(config),
                Err(error) => made is Err && made->Err_0 == error,
            },
            made matches Ok(state) ==> state@.wf(),
    {
        match configure(size, capabilities) {
            Ok(config) => {
                let active_variant = String::from_str("main");
                let active_pipeline = render_pipe(&config, active_variant.clone());
                Ok(
                    State {
                        config,
                        clear_color: Color::blue(),
                        pointer_down: false,
                        active_variant,
                        active_pipeline,
                    },
                )
            },
            Err(error) => Err(error),
        }
    }

    /// The configuration that the surface has, or is to be given.
    pub fn config(&self) -> (config: SurfaceConfig)
        ensures
            config == self@.config,
    {
        self.config
    }

    /// The size of the surface.
    pub fn size(&self) -> (size: Size)
        ensures
            size.width == self@.config.width,
            size.height == self@.config.height,
            size.width > 0,
            size.height > 0,
    {
        proof {
            use_type_invariant(self);
        }
        Size { width: self.config.width, height: self.config.height }
    }

    /// The colour that a frame is cleared with.
    pub fn clear_color(&self) -> (color: Color)
        ensures
            color == self@.clear_color,
    {
        self.clear_color
    }

    /// Whether the primary pointer button went down and no colour has been
    /// sampled since.
    pub fn pointer_down(&self) -> (down: bool)
        ensures
            down == self@.pointer_down,
    {
        self.pointer_down
    }

    /// The name of the active shader variant.
    pub fn active_variant(&self) -> (variant: &str)
        ensures
            variant@ == self@.active_variant,
    {
        self.active_variant.as_str()
    }

    /// The pipeline that frames are drawn with.
    pub fn active_pipeline(&self) -> (pipeline: &PipelineDescriptor)
        ensures
            pipeline@ == self@.active_pipeline,
    {
        &self.active_pipeline
    }

    /// Takes in the new size of the window. Returns whether the surface is
    /// to be configured again, by `config()`, before the next frame.
    pub fn resize(&mut self, new_size: Size) -> (reconfigure: bool)
        ensures
            final(self)@ == old(self)@.resized(new_size),
            reconfigure == (new_size.width > 0 && new_size.height > 0),
            new_size.width == 0 || new_size.height == 0 ==> final(self)@ == old(self)@,
            new_size.width > 0 && new_size.height > 0 ==> final(self)@.config.width
                == new_size.width && final(self)@.config.height == new_size.height,
            final(self)@.wf(),
    {
        proof {
            use_type_invariant(&*self);
        }
        if new_size.width > 0 && new_size.height > 0 {
            self.config.width = new_size.width;
            self.config.height = new_size.height;
            true
        } else {
            false
        }
    }

    /// Makes shader variant `variant` the active one, with a new pipeline.
    fn select(&mut self, variant: &str)
        requires
            variant@ == primary_variant() || variant@ == alternate_variant(),
        ensures
            final(self)@ == old(self)@.with_variant(variant@),
    {
        proof {
            use_type_invariant(&*self);
        }
        let active_pipeline = render_pipe(&self.config, String::from_str(variant));
        *self = State {
            config: self.config,
            clear_color: self.clear_color,
            pointer_down: self.pointer_down,
            active_variant: String::from_str(variant),
            active_pipeline,
        };
    }

    /// Takes in an event of the window. Returns whether a new frame is due.
    pub fn input(&mut self, event: &InputEvent) -> (repaint: bool)
        ensures
            final(self)@ == old(self)@.after(*event),
            repaint == old(self)@.repaints(*event),
            *event is CursorEntered ==> final(self)@.clear_color == solid_green(),
            *event is CursorLeft ==> final(self)@.clear_color == solid_black()
                && !final(self)@.pointer_down,
            final(self)@.wf(),
    {
        proof {
            use_type_invariant(&*self);
        }
        match *event {
            InputEvent::CursorEntered => {
                self.clear_color = Color::green();
                true
            },
            InputEvent::CursorLeft => {
                self.pointer_down = false;
                self.clear_color = Color::black();
                true
            },
            InputEvent::MouseInput { state, button } => {
                match state {
                    ElementState::Pressed => {
                        self.pointer_down = match button {
                            MouseButton::Left => true,
                            _ => false,
                        };
                    },
                    ElementState::Released => {},
                }
                false
            },
            InputEvent::CursorMoved { x, y } => {
                if self.pointer_down {
                    self.clear_color = Color::sampled(x, y, self.config.width, self.config.height);
                    self.pointer_down = false;
                    true
                } else {
                    false
                }
            },
            InputEvent::KeyboardInput { state, key } => {
                match key {
                    Key::Space => {
                        match state {
                            ElementState::Pressed => self.select("main"),
                            ElementState::Released => self.select("rainbow"),
                        }
                        true
                    },
                    Key::Other => false,
                }
            },
            InputEvent::Other => false,
        }
    }

    /// Advances the state between two frames. Nothing moves by itself in
    /// this renderer, so the state stays as it is.
    pub fn update(&mut self)
        ensures
            final(self)@ == old(self)@,
    {
    }

    /// Says what the next frame draws, given how the attempt to acquire it
    /// from the surface ended. Where the frame could not be had, nothing is
    /// drawn and the failure is handed back as it came. Otherwise the
    /// returned pass is to be recorded on the frame, submitted, and the
    /// frame presented. The state stays as it is.
    pub fn render(&mut self, acquired: Result<(), SurfaceError>) -> (drawn: Result<
        RenderPass,
        SurfaceError,
    >)
        ensures
            final(self)@ == old(self)@,
            match acquired {
                Ok(_) => drawn is Ok && drawn->Ok_0@ == old(self)@.pass(),
                Err(error) => drawn is Err && drawn->Err_0 == error,
            },
    {
        match acquired {
            Ok(_) => Ok(RenderPass::triangle(self.clear_color, self.active_pipeline.clone())),
            Err(error) => Err(error),
        }
    }
}

} // verus!
