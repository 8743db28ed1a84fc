//! OpenGL work for the video surface, planned as lists of commands over a
//! model of the GL state that the player touches.
//!
//! The planning functions never talk to GL: they return the commands that
//! the caller runs in order on the thread that holds the context. The model
//! (`GlState`, `step`, `run`) says what each command does, so that the plans
//! can be stated exactly: which bindings are restored, which texture storage
//! and framebuffer attachments exist afterwards.

use vstd::prelude::*;

verus! {

/// A piece of binding state that a scoped binding saves and restores.
#[derive(Debug, Clone, Copy, PartialEq, Eq, Structural)]
pub enum BindingTarget {
    /// `TEXTURE_BINDING_2D`, bound with `bind_texture(TEXTURE_2D, ..)`.
    Texture2d,
    /// `DRAW_FRAMEBUFFER_BINDING`, bound with
    /// `bind_framebuffer(DRAW_FRAMEBUFFER, ..)`.
    DrawFramebuffer,
}

/// The pixel-unpack parameters that a texture upload depends on.
#[derive(Debug, Clone, Copy, PartialEq, Eq, Structural)]
pub enum UnpackParameter {
    Alignment,
    RowLength,
    SkipPixels,
    SkipRows,
}

/// The sampling settings of the video texture.
#[derive(Debug, Clone, Copy, PartialEq, Eq, Structural)]
pub enum Sampling {
    /// `TEXTURE_MIN_FILTER` set to `LINEAR`.
    MinFilterLinear,
    /// `TEXTURE_MAG_FILTER` set to `LINEAR`.
    MagFilterLinear,
    /// `TEXTURE_WRAP_S` set to `CLAMP_TO_EDGE`.
    WrapSClampToEdge,
    /// `TEXTURE_WRAP_T` set to `CLAMP_TO_EDGE`.
    WrapTClampToEdge,
}

/// One GL call. Object names are the non-zero ids that GL hands out.
#[derive(Debug, Clone, Copy, PartialEq, Eq, Structural)]
pub enum GlCommand {
    /// Binds an object (or nothing) to a binding point.
    Bind(BindingTarget, Option<u32>),
    /// `pixel_store_i32` on an unpack parameter.
    PixelStore(UnpackParameter, i32),
    /// A `tex_parameter_i32` on the bound 2D texture.
    SetSampling(Sampling),
    /// `tex_image_2d` on the bound 2D texture: RGBA8 storage of this size,
    /// level 0, with no initial pixels.
    AllocateRgba8 { width: u32, height: u32 },
    /// Attaches a 2D texture as colour attachment 0 of the bound draw
    /// framebuffer.
    AttachColor(u32),
    /// Asks mpv's renderer to draw the current video frame into a
    /// framebuffer of the given size. The model records the frame and takes
    /// the renderer to leave the viewport at the frame's size; plans that
    /// render bind the framebuffer and viewport of the caller back after it.
    RenderVideo { fbo: u32, width: u32, height: u32 },
    /// `viewport`.
    SetViewport { x: i32, y: i32, width: i32, height: i32 },
    /// `delete_framebuffer`.
    DeleteFramebuffer(u32),
    /// `delete_texture`.
    DeleteTexture(u32),
}

/// The part of the GL state that the player's commands read or change.
pub struct GlState {
    pub texture_2d: Option<u32>,
    pub draw_framebuffer: Option<u32>,
    pub unpack_alignment: i32,
    pub unpack_row_length: i32,
    pub unpack_skip_pixels: i32,
    pub unpack_skip_rows: i32,
    /// Viewport origin and size.
    pub viewport: (i32, i32, i32, i32),
    /// The size of the storage allocated for each texture.
    pub storage: Map<u32, (u32, u32)>,
    /// The sampling settings applied to each texture.
    pub sampling: Set<(u32, Sampling)>,
    /// The texture attached as colour attachment 0 of each framebuffer.
    pub attachment: Map<u32, u32>,
    /// Every video frame rendered so far: framebuffer, width, height.
    pub frames: Seq<(u32, u32, u32)>,
}

/// The object bound to `target` in `s`.
pub open spec fn binding(s: GlState, target: BindingTarget) -> Option<u32> {
    match target {
        BindingTarget::Texture2d => s.texture_2d,
        BindingTarget::DrawFramebuffer => s.draw_framebuffer,
    }
}

/// What one command does to the state.
pub open spec fn step(s: GlState, c: GlCommand) -> GlState {
    match c {
        GlCommand::Bind(BindingTarget::Texture2d, b) => GlState { texture_2d: b, ..s },
        GlCommand::Bind(BindingTarget::DrawFramebuffer, b) => GlState { draw_framebuffer: b, ..s },
        GlCommand::PixelStore(p, v) => match p {
            UnpackParameter::Alignment => GlState { unpack_alignment: v, ..s },
            UnpackParameter::RowLength => GlState { unpack_row_length: v, ..s },
            UnpackParameter::SkipPixels => GlState { unpack_skip_pixels: v, ..s },
            UnpackParameter::SkipRows => GlState { unpack_skip_rows: v, ..s },
        },
        GlCommand::SetSampling(p) => match s.texture_2d {
            Some(t) => GlState { sampling: s.sampling.insert((t, p)), ..s },
            None => s,
        },
        GlCommand::AllocateRgba8 { width, height } => match s.texture_2d {
            Some(t) => GlState { storage: s.storage.insert(t, (width, height)), ..s },
            None => s,
        },
        GlCommand::AttachColor(t) => match s.draw_framebuffer {
            Some(f) => GlState { attachment: s.attachment.insert(f, t), ..s },
            None => s,
        },
        GlCommand::RenderVideo { fbo, width, height } => GlState {
            viewport: (0, 0, width as i32, height as i32),
            frames: s.frames.push((fbo, width, height)),
            ..s
        },
        GlCommand::SetViewport { x, y, width, height } => GlState {
            viewport: (x, y, width, height),
            ..s
        },
        GlCommand::DeleteFramebuffer(f) => GlState {
            draw_framebuffer: if s.draw_framebuffer == Some(f) {
                None
            } else {
                s.draw_framebuffer
            },
            attachment: s.attachment.remove(f),
            ..s
        },
        GlCommand::DeleteTexture(t) => GlState {
            texture_2d: if s.texture_2d == Some(t) {
                None
            } else {
                s.texture_2d
            },
            storage: s.storage.remove(t),
            sampling: s.sampling.filter(|e: (u32, Sampling)| e.0 != t),
            ..s
        },
    }
}

/// What a list of commands does when run in order.
pub open spec fn run(s: GlState, cmds: Seq<GlCommand>) -> GlState
    decreases cmds.len(),
{
    if cmds.len() == 0 {
        s
    } else {
        step(run(s, cmds.drop_last()), cmds.last())
    }
}

/// Running one more command is one more step.
pub proof fn lemma_run_push(s: GlState, cmds: Seq<GlCommand>, c: GlCommand)
    ensures
        run(s, cmds.push(c)) == step(run(s, cmds), c),
{
    assert(cmds.push(c).drop_last() =~= cmds);
}

/// Appends one command to a plan.
fn emit(cmds: &mut Vec<GlCommand>, c: GlCommand)
    ensures
        final(cmds)@ == old(cmds)@.push(c),
        forall|s: GlState| #[trigger] run(s, final(cmds)@) == step(run(s, old(cmds)@), c),
{
    let ghost before = cmds@;
    cmds.push(c);
    proof {
        assert forall|s: GlState| #[trigger] run(s, cmds@) == step(run(s, before), c) by {
            lemma_run_push(s, before, c);
        }
    }
}

/// Binds an object for the span of a plan and puts the previous binding
/// back at its end.
pub struct ScopedBinding {
    target: BindingTarget,
    saved: Option<u32>,
}

impl ScopedBinding {
    pub closed spec fn spec_target(self) -> BindingTarget {
        self.target
    }

    pub closed spec fn spec_saved(self) -> Option<u32> {
        self.saved
    }

    /// Appends the binding of `new_binding` to `target`, remembering
    /// `saved`, the binding that was current before the plan.
    pub fn new(
        cmds: &mut Vec<GlCommand>,
        target: BindingTarget,
        saved: Option<u32>,
        new_binding: Option<u32>,
    ) -> (r: Self)
        ensures
            r.spec_target() == target,
            r.spec_saved() == saved,
            final(cmds)@ == old(cmds)@.push(GlCommand::Bind(target, new_binding)),
            forall|s: GlState| #[trigger]
                run(s, final(cmds)@) == step(run(s, old(cmds)@), GlCommand::Bind(target, new_binding)),
    {
        emit(cmds, GlCommand::Bind(target, new_binding));
        ScopedBinding { target, saved }
    }

    /// Appends the binding that restores the saved object.
    pub fn restore(self, cmds: &mut Vec<GlCommand>)
        ensures
            final(cmds)@ == old(cmds)@.push(GlCommand::Bind(self.spec_target(), self.spec_saved())),
            forall|s: GlState| #[trigger]
                run(s, final(cmds)@) == step(
                    run(s, old(cmds)@),
                    GlCommand::Bind(self.spec_target(), self.spec_saved()),
                ),
    {
        emit(cmds, GlCommand::Bind(self.target, self.saved));
    }
}

/// The shape of a scoped binding: bind, run the body, bind the saved object.
pub open spec fn scoped(
    target: BindingTarget,
    saved: Option<u32>,
    new_binding: Option<u32>,
    body: Seq<GlCommand>,
) -> Seq<GlCommand> {
    seq![GlCommand::Bind(target, new_binding)] + body + seq![GlCommand::Bind(target, saved)]
}

/// Whatever the body of a scoped binding does, including binding other
/// objects to the same target, the binding after the scope equals the one
/// observed before it.
pub proof fn lemma_scoped_binding_restores(
    s: GlState,
    target: BindingTarget,
    new_binding: Option<u32>,
    body: Seq<GlCommand>,
)
    ensures
        binding(run(s, scoped(target, binding(s, target), new_binding, body)), target) == binding(
            s,
            target,
        ),
{
    let saved = binding(s, target);
    let inner = seq![GlCommand::Bind(target, new_binding)] + body;
    assert(scoped(target, saved, new_binding, body) =~= inner.push(GlCommand::Bind(target, saved)));
    lemma_run_push(s, inner, GlCommand::Bind(target, saved));
}

/// The object that a binding query reports: GL answers 0 for "nothing
/// bound" and the object's name otherwise.
pub fn binding_from_parameter(v: i32) -> (r: Option<u32>)
    ensures
        r == (if v == 0 {
            None::<u32>
        } else {
            Some(v as u32)
        }),
{
    if v == 0 {
        None
    } else {
        Some(v as u32)
    }
}

/// The GL state that a plan saves before it runs and restores at its end.
#[derive(Debug, Clone, Copy, PartialEq, Eq, Structural)]
pub struct GlSnapshot {
    pub texture_2d: Option<u32>,
    pub draw_framebuffer: Option<u32>,
    pub unpack_alignment: i32,
    pub unpack_row_length: i32,
    pub unpack_skip_pixels: i32,
    pub unpack_skip_rows: i32,
    pub viewport_x: i32,
    pub viewport_y: i32,
    pub viewport_width: i32,
    pub viewport_height: i32,
}

impl GlSnapshot {
    /// Builds a snapshot from the values of `get_parameter_i32` for
    /// `TEXTURE_BINDING_2D`, `DRAW_FRAMEBUFFER_BINDING`, `UNPACK_ALIGNMENT`,
    /// `UNPACK_ROW_LENGTH`, `UNPACK_SKIP_PIXELS`, `UNPACK_SKIP_ROWS`, and the
    /// four values of `VIEWPORT`.
    pub fn from_parameters(
        texture_binding: i32,
        framebuffer_binding: i32,
        unpack_alignment: i32,
        unpack_row_length: i32,
        unpack_skip_pixels: i32,
        unpack_skip_rows: i32,
        viewport: [i32; 4],
    ) -> (r: Self)
        ensures
            r.texture_2d == (if texture_binding == 0 {
                None::<u32>
            } else {
                Some(texture_binding as u32)
            }),
            r.draw_framebuffer == (if framebuffer_binding == 0 {
                None::<u32>
            } else {
                Some(framebuffer_binding as u32)
            }),
            r.unpack_alignment == unpack_alignment,
            r.unpack_row_length == unpack_row_length,
            r.unpack_skip_pixels == unpack_skip_pixels,
            r.unpack_skip_rows == unpack_skip_rows,
            r.spec_viewport() == (viewport[0], viewport[1], viewport[2], viewport[3]),
    {
        GlSnapshot {
            texture_2d: binding_from_parameter(texture_binding),
            draw_framebuffer: binding_from_parameter(framebuffer_binding),
            unpack_alignment,
            unpack_row_length,
            unpack_skip_pixels,
            unpack_skip_rows,
            viewport_x: viewport[0],
            viewport_y: viewport[1],
            viewport_width: viewport[2],
            viewport_height: viewport[3],
        }
    }

    pub open spec fn spec_viewport(self) -> (i32, i32, i32, i32) {
        (self.viewport_x, self.viewport_y, self.viewport_width, self.viewport_height)
    }

    /// The snapshot describes `s`.
    pub open spec fn observed_in(self, s: GlState) -> bool {
        &&& s.texture_2d == self.texture_2d
        &&& s.draw_framebuffer == self.draw_framebuffer
        &&& s.unpack_alignment == self.unpack_alignment
        &&& s.unpack_row_length == self.unpack_row_length
        &&& s.unpack_skip_pixels == self.unpack_skip_pixels
        &&& s.unpack_skip_rows == self.unpack_skip_rows
        &&& s.viewport == self.spec_viewport()
    }
}

/// A render target: one RGBA8 texture and one framebuffer with the texture
/// as its colour attachment, both of the same size. They are made and
/// deleted together.
#[derive(Debug, Clone, Copy, PartialEq, Eq, Structural)]
pub struct Texture {
    pub texture: u32,
    pub width: u32,
    pub height: u32,
    pub fbo: u32,
}

/// `i32::MAX`: GL sizes are signed.
pub const MAX_GL_SIZE: u32 = 0x7fff_ffff;

/// The state after a target's setup plan, from state `s`: the texture has
/// storage of the target's size and linear, edge-clamped sampling, the
/// framebuffer has it as colour attachment, and bindings and unpack
/// parameters are those of the snapshot.
pub open spec fn after_setup(s: GlState, t: Texture, saved: GlSnapshot) -> GlState {
    GlState {
        texture_2d: saved.texture_2d,
        draw_framebuffer: saved.draw_framebuffer,
        unpack_alignment: saved.unpack_alignment,
        unpack_row_length: saved.unpack_row_length,
        unpack_skip_pixels: saved.unpack_skip_pixels,
        unpack_skip_rows: saved.unpack_skip_rows,
        viewport: s.viewport,
        storage: s.storage.insert(t.texture, (t.width, t.height)),
        sampling: s.sampling.insert((t.texture, Sampling::MinFilterLinear)).insert(
            (t.texture, Sampling::MagFilterLinear),
        ).insert((t.texture, Sampling::WrapSClampToEdge)).insert(
            (t.texture, Sampling::WrapTClampToEdge),
        ),
        attachment: s.attachment.insert(t.fbo, t.texture),
        frames: s.frames,
    }
}

/// The state after a target's delete plan.
pub open spec fn after_delete(s: GlState, t: Texture) -> GlState {
    step(step(s, GlCommand::DeleteFramebuffer(t.fbo)), GlCommand::DeleteTexture(t.texture))
}

/// `t`'s texture and framebuffer are both live and linked in `s`.
pub open spec fn holds_target(s: GlState, t: Texture) -> bool {
    &&& s.storage.contains_key(t.texture)
    &&& s.storage[t.texture] == (t.width, t.height)
    &&& s.attachment.contains_key(t.fbo)
    &&& s.attachment[t.fbo] == t.texture
    &&& s.sampling.contains((t.texture, Sampling::MinFilterLinear))
    &&& s.sampling.contains((t.texture, Sampling::MagFilterLinear))
    &&& s.sampling.contains((t.texture, Sampling::WrapSClampToEdge))
    &&& s.sampling.contains((t.texture, Sampling::WrapTClampToEdge))
}

impl Texture {
    /// Names are non-zero and the size fits GL's signed sizes.
    pub open spec fn wf(self) -> bool {
        &&& self.texture != 0
        &&& self.fbo != 0
        &&& self.width <= MAX_GL_SIZE
        &&& self.height <= MAX_GL_SIZE
    }

    /// A target over a freshly created texture and framebuffer.
    pub fn new(texture: u32, fbo: u32, width: u32, height: u32) -> (r: Self)
        requires
            texture != 0,
            fbo != 0,
            width <= MAX_GL_SIZE,
            height <= MAX_GL_SIZE,
        ensures
            r == (Texture { texture, width, height, fbo }),
            r.wf(),
    {
        Texture { texture, width, height, fbo }
    }

    /// Appends the plan that sets the target up: with the texture bound,
    /// unpack alignment 1, linear filtering, edge clamping and RGBA8 storage
    /// of the target's size; with the framebuffer bound, the texture as its
    /// colour attachment; then the unpack parameters and both bindings of
    /// `saved` are put back.
    pub fn push_setup_commands(&self, cmds: &mut Vec<GlCommand>, saved: &GlSnapshot)
        requires
            self.wf(),
        ensures
            forall|s: GlState| #[trigger]
                run(s, final(cmds)@) == after_setup(run(s, old(cmds)@), *self, *saved),
    {
        let ghost start = cmds@;
        let texture_binding = ScopedBinding::new(
            cmds,
            BindingTarget::Texture2d,
            saved.texture_2d,
            Some(self.texture),
        );
        emit(cmds, GlCommand::PixelStore(UnpackParameter::Alignment, 1));
        emit(cmds, GlCommand::SetSampling(Sampling::MinFilterLinear));
        emit(cmds, GlCommand::SetSampling(Sampling::MagFilterLinear));
        emit(cmds, GlCommand::SetSampling(Sampling::WrapSClampToEdge));
        emit(cmds, GlCommand::SetSampling(Sampling::WrapTClampToEdge));
        emit(cmds, GlCommand::PixelStore(UnpackParameter::RowLength, self.width as i32));
        emit(cmds, GlCommand::PixelStore(UnpackParameter::SkipPixels, 0));
        emit(cmds, GlCommand::PixelStore(UnpackParameter::SkipRows, 0));
        emit(cmds, GlCommand::AllocateRgba8 { width: self.width, height: self.height });
        let fbo_binding = ScopedBinding::new(
            cmds,
            BindingTarget::DrawFramebuffer,
            saved.draw_framebuffer,
            Some(self.fbo),
        );
        emit(cmds, GlCommand::AttachColor(self.texture));
        emit(cmds, GlCommand::PixelStore(UnpackParameter::Alignment, saved.unpack_alignment));
        emit(cmds, GlCommand::PixelStore(UnpackParameter::RowLength, saved.unpack_row_length));
        emit(cmds, GlCommand::PixelStore(UnpackParameter::SkipPixels, saved.unpack_skip_pixels));
        emit(cmds, GlCommand::PixelStore(UnpackParameter::SkipRows, saved.unpack_skip_rows));
        fbo_binding.restore(cmds);
        texture_binding.restore(cmds);
        proof {
            assert forall|s: GlState| #[trigger]
                run(s, cmds@) == after_setup(run(s, start), *self, *saved) by {
                let r = run(s, cmds@);
                let e = after_setup(run(s, start), *self, *saved);
                assert(r.storage == e.storage);
                assert(r.sampling == e.sampling);
                assert(r.attachment == e.attachment);
            }
        }
    }

    /// Appends the plan that deletes the framebuffer, then the texture.
    pub fn push_delete_commands(&self, cmds: &mut Vec<GlCommand>)
        ensures
            forall|s: GlState| #[trigger]
                run(s, final(cmds)@) == after_delete(run(s, old(cmds)@), *self),
    {
        emit(cmds, GlCommand::DeleteFramebuffer(self.fbo));
        emit(cmds, GlCommand::DeleteTexture(self.texture));
    }

    /// The plan that runs `body` with this target's framebuffer bound as the
    /// draw framebuffer, then binds `saved`, the framebuffer that was bound
    /// before.
    pub fn with_texture_as_active_fbo(&self, saved: Option<u32>, body: &Vec<GlCommand>) -> (r: Vec<
        GlCommand,
    >)
        ensures
            r@ == scoped(BindingTarget::DrawFramebuffer, saved, Some(self.fbo), body@),
    {
        let mut cmds: Vec<GlCommand> = Vec::new();
        let fbo_binding = ScopedBinding::new(
            &mut cmds,
            BindingTarget::DrawFramebuffer,
            saved,
            Some(self.fbo),
        );
        let ghost head = cmds@;
        let mut i: usize = 0;
        while i < body.len()
            invariant
                i <= body.len(),
                head == seq![GlCommand::Bind(BindingTarget::DrawFramebuffer, Some(self.fbo))],
                cmds@ == head + body@.subrange(0, i as int),
            decreases body.len() - i,
        {
            cmds.push(body[i]);
            i = i + 1;
            proof {
                assert(body@.subrange(0, i as int) =~= body@.subrange(0, i - 1 as int).push(
                    body@[i - 1],
                ));
            }
        }
        proof {
            assert(body@.subrange(0, body@.len() as int) =~= body@);
        }
        fbo_binding.restore(&mut cmds);
        proof {
            assert(cmds@ =~= scoped(BindingTarget::DrawFramebuffer, saved, Some(self.fbo), body@));
        }
        cmds
    }
}

/// Setting a target up from any state leaves its texture and framebuffer
/// live and linked at the target's size, and leaves the bindings and unpack
/// parameters as they were when the snapshot describes the starting state.
pub proof fn lemma_setup_creates_target(s: GlState, t: Texture, saved: GlSnapshot)
    requires
        t.wf(),
    ensures
        holds_target(after_setup(s, t, saved), t),
        after_setup(s, t, saved).storage[t.texture] == (t.width, t.height),
        saved.observed_in(s) ==> saved.observed_in(after_setup(s, t, saved)),
{
}

} // verus!
