//! Per-frame coordination of the render target and mpv's renderer.
//!
//! Each repaint is one tick: the target is rebuilt when the requested size
//! differs from its own, the video frame is always rendered into it, and a
//! new image handle is produced only when the texture itself was replaced.

use vstd::prelude::*;

use crate::gl::{
    after_delete, after_setup, holds_target, lemma_run_push, run, BindingTarget, GlCommand,
    GlSnapshot, GlState, Sampling, Texture, MAX_GL_SIZE,
};

verus! {

/// Width of the target made before the first frame; the first tick sets the
/// real size.
pub const INITIAL_WIDTH: u32 = 320;

/// Height of the target made before the first frame.
pub const INITIAL_HEIGHT: u32 = 200;

/// A texture and a framebuffer that GL has just created.
#[derive(Debug, Clone, Copy, PartialEq, Eq, Structural)]
pub struct GlObjects {
    pub texture: u32,
    pub fbo: u32,
}

/// A texture that the GUI can show: its name and size.
#[derive(Debug, Clone, Copy, PartialEq, Eq, Structural)]
pub struct ImageHandle {
    pub texture: u32,
    pub width: u32,
    pub height: u32,
}

/// The work of one tick: the GL commands to run, in order, and the new
/// image to show, present only when the texture was replaced.
#[derive(Debug, Clone)]
pub struct Frame {
    pub commands: Vec<GlCommand>,
    pub image: Option<ImageHandle>,
}

/// Owns the render target that mpv draws into.
#[derive(Debug, Clone, Copy, PartialEq, Eq, Structural)]
pub struct DemoRenderer {
    pub texture: Texture,
}

/// The state after the render step of a tick: one more frame drawn into
/// `t`'s framebuffer at its size, and the viewport and draw framebuffer of
/// `saved` put back.
pub open spec fn after_render(s: GlState, t: Texture, saved: GlSnapshot) -> GlState {
    GlState {
        draw_framebuffer: saved.draw_framebuffer,
        viewport: saved.spec_viewport(),
        frames: s.frames.push((t.fbo, t.width, t.height)),
        ..s
    }
}

/// The state after a tick's plan: when the size changed, the new target set
/// up and the old one deleted; then the frame rendered into the target in use.
pub open spec fn after_tick(
    s: GlState,
    r: DemoRenderer,
    width: u32,
    height: u32,
    fresh: Option<GlObjects>,
    saved: GlSnapshot,
) -> GlState {
    let next = r.spec_next(width, height, fresh).texture;
    after_render(
        if r.spec_changes(width, height) {
            after_delete(after_setup(s, next, saved), r.texture)
        } else {
            s
        },
        next,
        saved,
    )
}

impl DemoRenderer {
    pub open spec fn wf(self) -> bool {
        self.texture.wf()
    }

    /// A tick at this size replaces the target.
    pub open spec fn spec_changes(self, width: u32, height: u32) -> bool {
        self.texture.width != width || self.texture.height != height
    }

    /// The objects handed to a tick are usable for it: present exactly when
    /// the target is replaced, named, and not the names of the target in
    /// use.
    pub open spec fn fresh_ok(self, width: u32, height: u32, fresh: Option<GlObjects>) -> bool {
        &&& fresh.is_some() == self.spec_changes(width, height)
        &&& fresh matches Some(o) ==> {
            &&& o.texture != 0
            &&& o.fbo != 0
            &&& o.texture != self.texture.texture
            &&& o.fbo != self.texture.fbo
        }
    }

    /// The renderer after a tick.
    pub open spec fn spec_next(self, width: u32, height: u32, fresh: Option<GlObjects>) -> Self {
        match fresh {
            Some(o) => if self.spec_changes(width, height) {
                DemoRenderer { texture: Texture { texture: o.texture, width, height, fbo: o.fbo } }
            } else {
                self
            },
            None => self,
        }
    }

    /// A renderer over a target of the initial size, made from freshly
    /// created objects. Its setup plan is `texture.push_setup_commands`.
    pub fn new(objects: GlObjects) -> (r: Self)
        requires
            objects.texture != 0,
            objects.fbo != 0,
        ensures
            r.wf(),
            r.texture == (Texture {
                texture: objects.texture,
                width: INITIAL_WIDTH,
                height: INITIAL_HEIGHT,
                fbo: objects.fbo,
            }),
    {
        DemoRenderer {
            texture: Texture::new(objects.texture, objects.fbo, INITIAL_WIDTH, INITIAL_HEIGHT),
        }
    }

    /// Whether a tick at this size needs a new texture and framebuffer.
    pub fn needs_new_texture(&self, width: u32, height: u32) -> (r: bool)
        ensures
            r == self.spec_changes(width, height),
    {
        self.texture.width != width || self.texture.height != height
    }

    /// One tick at the requested size. When the size changed, `fresh` holds
    /// the objects for the new target: the plan sets it up, then deletes the
    /// old one. The plan then renders the video frame into the target with
    /// its framebuffer bound, and puts back the viewport, which mpv's renderer
    /// changes, and the framebuffer binding of `saved`.
    pub fn render(
        &mut self,
        width: u32,
        height: u32,
        fresh: Option<GlObjects>,
        saved: &GlSnapshot,
    ) -> (r: Frame)
        requires
            old(self).wf(),
            width <= MAX_GL_SIZE,
            height <= MAX_GL_SIZE,
            old(self).fresh_ok(width, height, fresh),
        ensures
            final(self).wf(),
            *final(self) == old(self).spec_next(width, height, fresh),
            final(self).texture.width == width,
            final(self).texture.height == height,
            r.image == (if old(self).spec_changes(width, height) {
                Some(
                    ImageHandle {
                        texture: final(self).texture.texture,
                        width,
                        height,
                    },
                )
            } else {
                None::<ImageHandle>
            }),
            forall|s: GlState| #[trigger]
                run(s, r.commands@) == after_tick(s, *old(self), width, height, fresh, *saved),
    {
        let mut cmds: Vec<GlCommand> = Vec::new();
        let ghost empty = cmds@;
        let recreated = match fresh {
            Some(o) => {
                let next = Texture::new(o.texture, o.fbo, width, height);
                next.push_setup_commands(&mut cmds, saved);
                self.texture.push_delete_commands(&mut cmds);
                self.texture = next;
                true
            },
            None => false,
        };
        let ghost prepared = cmds@;
        let body = vec![
            GlCommand::RenderVideo {
                fbo: self.texture.fbo,
                width: self.texture.width,
                height: self.texture.height,
            },
            GlCommand::SetViewport {
                x: saved.viewport_x,
                y: saved.viewport_y,
                width: saved.viewport_width,
                height: saved.viewport_height,
            },
        ];
        let framed = self.texture.with_texture_as_active_fbo(saved.draw_framebuffer, &body);
        let mut i: usize = 0;
        while i < framed.len()
            invariant
                i <= framed.len(),
                cmds@ == prepared + framed@.subrange(0, i as int),
            decreases framed.len() - i,
        {
            cmds.push(framed[i]);
            i = i + 1;
            proof {
                assert(framed@.subrange(0, i as int) =~= framed@.subrange(0, i - 1 as int).push(
                    framed@[i - 1],
                ));
            }
        }
        proof {
            let t = self.texture;
            let c0 = GlCommand::Bind(BindingTarget::DrawFramebuffer, Some(t.fbo));
            let c1 = GlCommand::RenderVideo { fbo: t.fbo, width: t.width, height: t.height };
            let c2 = GlCommand::SetViewport {
                x: saved.viewport_x,
                y: saved.viewport_y,
                width: saved.viewport_width,
                height: saved.viewport_height,
            };
            let c3 = GlCommand::Bind(BindingTarget::DrawFramebuffer, saved.draw_framebuffer);
            assert(framed@ =~= seq![c0, c1, c2, c3]);
            assert(cmds@ =~= prepared.push(c0).push(c1).push(c2).push(c3));
            assert forall|s: GlState| #[trigger]
                run(s, cmds@) == after_render(run(s, prepared), t, *saved) by {
                lemma_run_push(s, prepared, c0);
                lemma_run_push(s, prepared.push(c0), c1);
                lemma_run_push(s, prepared.push(c0).push(c1), c2);
                lemma_run_push(s, prepared.push(c0).push(c1).push(c2), c3);
                assert(run(s, cmds@) =~= after_render(run(s, prepared), t, *saved));
            }
            assert(empty.len() == 0);
            assert forall|s: GlState| #[trigger] run(s, empty) == s by {}
        }
        let image = if recreated {
            Some(
                ImageHandle {
                    texture: self.texture.texture,
                    width: self.texture.width,
                    height: self.texture.height,
                },
            )
        } else {
            None
        };
        Frame { commands: cmds, image }
    }
}

/// A second tick at the size of the tick before it never reports a change.
pub proof fn lemma_repeated_size_unchanged(
    r: DemoRenderer,
    width: u32,
    height: u32,
    fresh: Option<GlObjects>,
)
    requires
        r.fresh_ok(width, height, fresh),
    ensures
        !r.spec_next(width, height, fresh).spec_changes(width, height),
{
}

/// A tick at a size other than the target's reports a change, and the tick
/// after it at the same size does not: the change is reported once.
pub proof fn lemma_resize_reported_once(
    r: DemoRenderer,
    width: u32,
    height: u32,
    fresh: Option<GlObjects>,
)
    requires
        r.texture.width != width || r.texture.height != height,
        r.fresh_ok(width, height, fresh),
    ensures
        r.spec_changes(width, height),
        !r.spec_next(width, height, fresh).spec_changes(width, height),
{
}

/// After any tick the target in use is live and linked at its size: a new
/// one because the tick set it up before deleting the old one, a kept one
/// because it already was.
pub proof fn lemma_tick_keeps_target(
    r: DemoRenderer,
    width: u32,
    height: u32,
    fresh: Option<GlObjects>,
    s: GlState,
    saved: GlSnapshot,
)
    requires
        r.wf(),
        r.fresh_ok(width, height, fresh),
        holds_target(s, r.texture),
    ensures
        holds_target(
            after_tick(s, r, width, height, fresh, saved),
            r.spec_next(width, height, fresh).texture,
        ),
        after_tick(s, r, width, height, fresh, saved).frames == s.frames.push(
            (
                r.spec_next(width, height, fresh).texture.fbo,
                width,
                height,
            ),
        ),
{
    let next = r.spec_next(width, height, fresh).texture;
    if r.spec_changes(width, height) {
        let a = after_setup(s, next, saved);
        let d = after_delete(a, r.texture);
        assert(d.sampling.contains((next.texture, Sampling::MinFilterLinear)));
        assert(d.sampling.contains((next.texture, Sampling::MagFilterLinear)));
        assert(d.sampling.contains((next.texture, Sampling::WrapSClampToEdge)));
        assert(d.sampling.contains((next.texture, Sampling::WrapTClampToEdge)));
    }
}

} // verus!
