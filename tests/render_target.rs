use std::collections::{HashMap, HashSet};

use slint_mpv::gl::{
    binding_from_parameter, BindingTarget, GlCommand, GlSnapshot, Sampling, Texture,
    UnpackParameter,
};
use slint_mpv::renderer::{DemoRenderer, GlObjects, ImageHandle, INITIAL_HEIGHT, INITIAL_WIDTH};

/// A small stand-in for a GL context that runs command plans.
#[derive(Default)]
struct FakeGl {
    texture_2d: Option<u32>,
    draw_framebuffer: Option<u32>,
    unpack: HashMap<&'static str, i32>,
    storage: HashMap<u32, (u32, u32)>,
    sampling: HashSet<(u32, &'static str)>,
    attachment: HashMap<u32, u32>,
    viewport: [i32; 4],
    frames: Vec<(Option<u32>, u32, u32, u32)>,
}

fn unpack_name(p: UnpackParameter) -> &'static str {
    match p {
        UnpackParameter::Alignment => "alignment",
        UnpackParameter::RowLength => "row_length",
        UnpackParameter::SkipPixels => "skip_pixels",
        UnpackParameter::SkipRows => "skip_rows",
    }
}

impl FakeGl {
    fn with_state(texture: Option<u32>, fbo: Option<u32>) -> Self {
        let mut gl = FakeGl { texture_2d: texture, draw_framebuffer: fbo, ..Default::default() };
        gl.unpack.insert("alignment", 4);
        gl.unpack.insert("row_length", 17);
        gl.unpack.insert("skip_pixels", 2);
        gl.unpack.insert("skip_rows", 3);
        gl.viewport = [5, 6, 700, 500];
        gl
    }

    fn snapshot(&self) -> GlSnapshot {
        GlSnapshot::from_parameters(
            self.texture_2d.unwrap_or(0) as i32,
            self.draw_framebuffer.unwrap_or(0) as i32,
            self.unpack["alignment"],
            self.unpack["row_length"],
            self.unpack["skip_pixels"],
            self.unpack["skip_rows"],
            self.viewport,
        )
    }

    fn run(&mut self, cmds: &[GlCommand]) {
        for c in cmds {
            match *c {
                GlCommand::Bind(BindingTarget::Texture2d, b) => self.texture_2d = b,
                GlCommand::Bind(BindingTarget::DrawFramebuffer, b) => self.draw_framebuffer = b,
                GlCommand::PixelStore(p, v) => {
                    self.unpack.insert(unpack_name(p), v);
                }
                GlCommand::SetSampling(s) => {
                    let name = match s {
                        Sampling::MinFilterLinear => "min",
                        Sampling::MagFilterLinear => "mag",
                        Sampling::WrapSClampToEdge => "wrap_s",
                        Sampling::WrapTClampToEdge => "wrap_t",
                    };
                    self.sampling.insert((self.texture_2d.unwrap(), name));
                }
                GlCommand::AllocateRgba8 { width, height } => {
                    self.storage.insert(self.texture_2d.unwrap(), (width, height));
                }
                GlCommand::AttachColor(t) => {
                    self.attachment.insert(self.draw_framebuffer.unwrap(), t);
                }
                GlCommand::RenderVideo { fbo, width, height } => {
                    self.frames.push((self.draw_framebuffer, fbo, width, height));
                    self.viewport = [0, 0, width as i32, height as i32];
                }
                GlCommand::SetViewport { x, y, width, height } => {
                    self.viewport = [x, y, width, height];
                }
                GlCommand::DeleteFramebuffer(f) => {
                    self.attachment.remove(&f);
                    if self.draw_framebuffer == Some(f) {
                        self.draw_framebuffer = None;
                    }
                }
                GlCommand::DeleteTexture(t) => {
                    self.storage.remove(&t);
                    self.sampling.retain(|e| e.0 != t);
                    if self.texture_2d == Some(t) {
                        self.texture_2d = None;
                    }
                }
            }
        }
    }
}

#[test]
fn binding_parameter_zero_is_nothing() {
    assert_eq!(binding_from_parameter(0), None);
    assert_eq!(binding_from_parameter(5), Some(5));
    assert_eq!(binding_from_parameter(-1), Some(u32::MAX));
}

#[test]
fn texture_reports_requested_size() {
    for (w, h) in [(1u32, 1u32), (320, 200), (1920, 1080), (4096, 17)] {
        let t = Texture::new(3, 4, w, h);
        assert_eq!((t.width, t.height), (w, h));
        assert_eq!((t.texture, t.fbo), (3, 4));
    }
}

#[test]
fn setup_allocates_and_attaches_at_requested_size() {
    let mut gl = FakeGl::with_state(Some(9), Some(8));
    let saved = gl.snapshot();
    let t = Texture::new(3, 4, 640, 360);
    let mut cmds = Vec::new();
    t.push_setup_commands(&mut cmds, &saved);
    gl.run(&cmds);
    assert_eq!(gl.storage.get(&3), Some(&(640, 360)));
    assert_eq!(gl.attachment.get(&4), Some(&3));
    for s in ["min", "mag", "wrap_s", "wrap_t"] {
        assert!(gl.sampling.contains(&(3, s)));
    }
}

#[test]
fn setup_restores_bindings_and_unpack_state() {
    let mut gl = FakeGl::with_state(Some(9), Some(8));
    let saved = gl.snapshot();
    let t = Texture::new(3, 4, 640, 360);
    let mut cmds = Vec::new();
    t.push_setup_commands(&mut cmds, &saved);
    gl.run(&cmds);
    assert_eq!(gl.texture_2d, Some(9));
    assert_eq!(gl.draw_framebuffer, Some(8));
    assert_eq!(gl.unpack["alignment"], 4);
    assert_eq!(gl.unpack["row_length"], 17);
    assert_eq!(gl.unpack["skip_pixels"], 2);
    assert_eq!(gl.unpack["skip_rows"], 3);
}

#[test]
fn setup_uploads_with_alignment_one_and_row_length_width() {
    let saved = FakeGl::with_state(None, None).snapshot();
    let t = Texture::new(3, 4, 640, 360);
    let mut cmds = Vec::new();
    t.push_setup_commands(&mut cmds, &saved);
    assert_eq!(cmds[0], GlCommand::Bind(BindingTarget::Texture2d, Some(3)));
    let upload = cmds
        .iter()
        .position(|c| *c == GlCommand::AllocateRgba8 { width: 640, height: 360 })
        .unwrap();
    let before = &cmds[..upload];
    assert!(before.contains(&GlCommand::PixelStore(UnpackParameter::Alignment, 1)));
    assert!(before.contains(&GlCommand::PixelStore(UnpackParameter::RowLength, 640)));
    assert!(before.contains(&GlCommand::PixelStore(UnpackParameter::SkipPixels, 0)));
    assert!(before.contains(&GlCommand::PixelStore(UnpackParameter::SkipRows, 0)));
    let n = cmds.len();
    assert_eq!(cmds[n - 2], GlCommand::Bind(BindingTarget::DrawFramebuffer, None));
    assert_eq!(cmds[n - 1], GlCommand::Bind(BindingTarget::Texture2d, None));
}

#[test]
fn delete_removes_both_objects() {
    let mut gl = FakeGl::with_state(None, None);
    let t = Texture::new(3, 4, 10, 10);
    let mut cmds = Vec::new();
    t.push_setup_commands(&mut cmds, &gl.snapshot());
    t.push_delete_commands(&mut cmds);
    gl.run(&cmds);
    assert!(gl.storage.is_empty());
    assert!(gl.attachment.is_empty());
    assert!(gl.sampling.is_empty());
    let n = cmds.len();
    assert_eq!(cmds[n - 2], GlCommand::DeleteFramebuffer(4));
    assert_eq!(cmds[n - 1], GlCommand::DeleteTexture(3));
}

#[test]
fn scoped_framebuffer_is_restored_whatever_the_body_binds() {
    let t = Texture::new(3, 4, 10, 10);
    let body = vec![
        GlCommand::Bind(BindingTarget::DrawFramebuffer, Some(77)),
        GlCommand::RenderVideo { fbo: 4, width: 10, height: 10 },
        GlCommand::Bind(BindingTarget::DrawFramebuffer, None),
    ];
    let cmds = t.with_texture_as_active_fbo(Some(8), &body);
    assert_eq!(cmds.len(), body.len() + 2);
    assert_eq!(cmds[0], GlCommand::Bind(BindingTarget::DrawFramebuffer, Some(4)));
    assert_eq!(&cmds[1..4], &body[..]);
    let mut gl = FakeGl::with_state(None, Some(8));
    gl.run(&cmds);
    assert_eq!(gl.draw_framebuffer, Some(8));
    assert_eq!(gl.frames, vec![(Some(77), 4, 10, 10)]);
}

#[test]
fn scoped_framebuffer_with_empty_body() {
    let t = Texture::new(3, 4, 10, 10);
    let cmds = t.with_texture_as_active_fbo(None, &Vec::new());
    assert_eq!(
        cmds,
        vec![
            GlCommand::Bind(BindingTarget::DrawFramebuffer, Some(4)),
            GlCommand::Bind(BindingTarget::DrawFramebuffer, None),
        ]
    );
}

fn start() -> (FakeGl, DemoRenderer) {
    let mut gl = FakeGl::with_state(None, Some(1));
    let r = DemoRenderer::new(GlObjects { texture: 10, fbo: 11 });
    let mut cmds = Vec::new();
    r.texture.push_setup_commands(&mut cmds, &gl.snapshot());
    gl.run(&cmds);
    (gl, r)
}

#[test]
fn renderer_starts_at_initial_size() {
    let (gl, r) = start();
    assert_eq!((INITIAL_WIDTH, INITIAL_HEIGHT), (320, 200));
    assert_eq!((r.texture.width, r.texture.height), (320, 200));
    assert_eq!(gl.storage.get(&10), Some(&(320, 200)));
}

#[test]
fn tick_at_same_size_reports_no_change() {
    let (mut gl, mut r) = start();
    assert!(!r.needs_new_texture(320, 200));
    let frame = r.render(320, 200, None, &gl.snapshot());
    assert_eq!(frame.image, None);
    gl.run(&frame.commands);
    assert_eq!(gl.frames, vec![(Some(11), 11, 320, 200)]);
    assert_eq!(gl.draw_framebuffer, Some(1));
    assert_eq!(gl.viewport, [5, 6, 700, 500]);
    let frame = r.render(320, 200, None, &gl.snapshot());
    assert_eq!(frame.image, None);
}

#[test]
fn tick_at_new_size_reports_change_once() {
    let (mut gl, mut r) = start();
    assert!(r.needs_new_texture(800, 600));
    let frame = r.render(800, 600, Some(GlObjects { texture: 20, fbo: 21 }), &gl.snapshot());
    assert_eq!(frame.image, Some(ImageHandle { texture: 20, width: 800, height: 600 }));
    gl.run(&frame.commands);
    assert_eq!(gl.storage.get(&20), Some(&(800, 600)));
    assert_eq!(gl.attachment.get(&21), Some(&20));
    assert_eq!(gl.storage.get(&10), None);
    assert_eq!(gl.attachment.get(&11), None);
    assert_eq!(gl.frames, vec![(Some(21), 21, 800, 600)]);
    assert_eq!(gl.draw_framebuffer, Some(1));
    assert_eq!(gl.viewport, [5, 6, 700, 500]);

    assert!(!r.needs_new_texture(800, 600));
    let again = r.render(800, 600, None, &gl.snapshot());
    assert_eq!(again.image, None);
    gl.run(&again.commands);
    assert_eq!(gl.frames.len(), 2);
}

#[test]
fn tick_changing_one_dimension_rebuilds() {
    let (gl, mut r) = start();
    assert!(r.needs_new_texture(320, 201));
    assert!(r.needs_new_texture(321, 200));
    let frame = r.render(320, 201, Some(GlObjects { texture: 30, fbo: 31 }), &gl.snapshot());
    assert_eq!(frame.image, Some(ImageHandle { texture: 30, width: 320, height: 201 }));
    assert_eq!(r.texture, Texture::new(30, 31, 320, 201));
}

#[test]
fn snapshot_reads_parameters() {
    let snap = GlSnapshot::from_parameters(0, 12, 4, 0, 1, 2, [0, 0, 640, 480]);
    assert_eq!(snap.texture_2d, None);
    assert_eq!(snap.draw_framebuffer, Some(12));
    assert_eq!(
        (snap.unpack_alignment, snap.unpack_row_length, snap.unpack_skip_pixels, snap.unpack_skip_rows),
        (4, 0, 1, 2)
    );
    assert_eq!(
        (snap.viewport_x, snap.viewport_y, snap.viewport_width, snap.viewport_height),
        (0, 0, 640, 480)
    );
}

#[test]
fn render_plan_is_bind_render_restore() {
    let (gl, mut r) = start();
    let saved = gl.snapshot();
    let frame = r.render(320, 200, None, &saved);
    assert_eq!(
        frame.commands,
        vec![
            GlCommand::Bind(BindingTarget::DrawFramebuffer, Some(11)),
            GlCommand::RenderVideo { fbo: 11, width: 320, height: 200 },
            GlCommand::SetViewport { x: 5, y: 6, width: 700, height: 500 },
            GlCommand::Bind(BindingTarget::DrawFramebuffer, Some(1)),
        ]
    );
}
