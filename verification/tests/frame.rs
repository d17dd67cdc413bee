use marshmallow_fm::camera::{Camera, Projection, Vec3, FIXED_ONE};
use marshmallow_fm::events::GridSize;
use marshmallow_fm::frame::{Frame, FrameError, FramePhase};
use marshmallow_fm::glyph::{GlyphCell, Rgb};
use marshmallow_fm::pixels::Rgba;
use marshmallow_fm::renderer::Renderer;
use marshmallow_fm::surface::SurfaceError;
use marshmallow_fm::terminal::TerminalCommand;

fn renderer(columns: u16, rows: u16) -> Renderer {
    Renderer::new("marshmallow_fm", (1280, 720), GridSize { columns, rows }).unwrap()
}

fn blank() -> TerminalCommand {
    TerminalCommand::Print(GlyphCell { character: ' ', color: Rgb { r: 0, g: 0, b: 0 } })
}

#[test]
fn new_renderer_is_idle_and_sized_to_the_grid() {
    let r = renderer(80, 24);
    assert_eq!(r.size(), (80, 24));
    assert_eq!(r.phase(), FramePhase::Idle);
    assert_eq!(r.poll_timeout_nanos(), 16_666_666);
    let (pixels, size) = r.read_pixels();
    assert_eq!(size, (80, 24));
    assert!(pixels.bytes().iter().all(|b| *b == 0));
}

#[test]
fn only_one_frame_is_open_at_a_time() {
    let mut r = renderer(4, 4);
    let frame: Option<Frame<u32, u32>> = r.begin_frame();
    assert!(frame.is_some());
    assert_eq!(r.phase(), FramePhase::Open);
    let second: Option<Frame<u32, u32>> = r.begin_frame();
    assert!(second.is_none());
    assert_eq!(r.phase(), FramePhase::Open);

    let pass = frame.unwrap().finish(&mut r);
    assert!(pass.groups.is_empty());
    assert_eq!(r.phase(), FramePhase::Finishing);
    let third: Option<Frame<u32, u32>> = r.begin_frame();
    assert!(third.is_none());

    assert!(r.present(vec![0; 64]).is_ok());
    assert_eq!(r.phase(), FramePhase::Idle);
    let fourth: Option<Frame<u32, u32>> = r.begin_frame();
    assert!(fourth.is_some());
}

#[test]
fn draw_groups_keep_their_order() {
    let mut r = renderer(2, 3);
    let mut frame: Frame<&str, u8> = r.begin_frame().unwrap();
    assert_eq!(frame.aspect(), (2, 3));
    assert_eq!(frame.group_count(), 0);
    frame.draw_with_shader(7, vec!["a", "b"]);
    frame.draw_with_shader(3, Vec::new());
    frame.draw_with_shader(7, vec!["c"]);
    assert_eq!(frame.group_count(), 3);
    let pass = frame.finish(&mut r);
    assert_eq!(pass.clear, Rgba { r: 0, g: 0, b: 0, a: 0 });
    assert_eq!(pass.aspect, (2, 3));
    let seen: Vec<(u8, Vec<&str>)> =
        pass.groups.into_iter().map(|g| (g.shader, g.meshes)).collect();
    assert_eq!(seen, vec![(7, vec!["a", "b"]), (3, vec![]), (7, vec!["c"])]);
}

#[test]
fn empty_frame_still_clears_and_paints_blank() {
    let mut r = renderer(3, 2);
    // Leave something in the back buffer first.
    assert!(r.present(vec![255; 24]).is_ok());
    let frame: Frame<u8, u8> = r.begin_frame().unwrap();
    let pass = frame.finish(&mut r);
    assert!(pass.groups.is_empty());
    assert_eq!(pass.clear, Rgba { r: 0, g: 0, b: 0, a: 0 });
    // The pass has cleared the surface; nothing was drawn into it.
    let (pixels, size) = r.read_pixels();
    assert_eq!(size, (3, 2));
    assert_eq!(pixels.bytes(), &vec![0u8; 24]);
    let commands = r.present(pixels.bytes().clone()).unwrap();
    assert_eq!(commands.len(), 8);
    assert_eq!(commands[0], TerminalCommand::MoveTo { column: 0, row: 0 });
    for command in &commands[1..7] {
        assert_eq!(*command, blank());
    }
    assert_eq!(commands[7], TerminalCommand::Flush);
    assert_eq!(r.phase(), FramePhase::Idle);
}

#[test]
fn presented_pixels_are_painted_cell_by_cell() {
    let mut r = renderer(2, 1);
    let frame: Frame<u8, u8> = r.begin_frame().unwrap();
    let _ = frame.finish(&mut r);
    let commands = r.present(vec![0, 0, 0, 0, 10, 20, 30, 255]).unwrap();
    assert_eq!(
        commands,
        vec![
            TerminalCommand::MoveTo { column: 0, row: 0 },
            blank(),
            TerminalCommand::Print(GlyphCell {
                character: 'X',
                color: Rgb { r: 10, g: 20, b: 30 }
            }),
            TerminalCommand::Flush,
        ]
    );
    assert_eq!(r.read_pixels().0.bytes(), &vec![0, 0, 0, 0, 10, 20, 30, 255]);
}

#[test]
fn refused_pixels_do_not_end_the_pass() {
    let mut r = renderer(2, 2);
    let frame: Frame<u8, u8> = r.begin_frame().unwrap();
    let _ = frame.finish(&mut r);
    assert_eq!(r.present(vec![1; 15]), Err(SurfaceError::PixelCountMismatch));
    assert_eq!(r.phase(), FramePhase::Finishing);
    assert_eq!(r.read_pixels().0.bytes(), &vec![0u8; 16]);
    assert!(r.present(vec![1; 16]).is_ok());
    assert_eq!(r.phase(), FramePhase::Idle);
}

#[test]
fn presenting_while_a_frame_is_open_keeps_it_open() {
    let mut r = renderer(1, 1);
    let frame: Frame<u8, u8> = r.begin_frame().unwrap();
    assert!(r.present(vec![0; 4]).is_ok());
    assert_eq!(r.phase(), FramePhase::Open);
    let _ = frame.finish(&mut r);
    assert_eq!(r.phase(), FramePhase::Finishing);
}

#[test]
fn discarded_frame_reports_the_misuse_and_frees_the_renderer() {
    let mut r = renderer(2, 2);
    let mut frame: Frame<u8, u8> = r.begin_frame().unwrap();
    frame.draw_with_shader(1, vec![2]);
    assert_eq!(frame.discard(&mut r), FrameError::Unfinished);
    assert_eq!(r.phase(), FramePhase::Idle);
    let next: Option<Frame<u8, u8>> = r.begin_frame();
    assert!(next.is_some());
}

#[test]
fn frame_takes_the_grid_at_its_beginning() {
    let mut r = renderer(8, 4);
    let frame: Frame<u8, u8> = r.begin_frame().unwrap();
    let events = r.get_events(&vec![marshmallow_fm::events::InputEvent::Resize(6, 3)]).unwrap();
    assert_eq!(events, vec![marshmallow_fm::events::WindowEvent::RequestRedraw]);
    assert_eq!(r.size(), (6, 3));
    assert_eq!(r.phase(), FramePhase::Open);
    assert_eq!(frame.aspect(), (8, 4));
}

#[test]
fn renderer_that_does_not_fit_is_refused() {
    // 65535 x 65535 cells of four bytes need more than 32 bits of address.
    let grid = GridSize { columns: u16::MAX, rows: u16::MAX };
    let fits = (u16::MAX as u128) * (u16::MAX as u128) * 4 <= usize::MAX as u128;
    if !fits {
        assert_eq!(Renderer::new("t", (0, 0), grid).err(), Some(SurfaceError::TooLarge));
    }
}

#[test]
fn renderer_hands_out_builders() {
    let mut r = renderer(1, 1);
    let camera = r.create_camera().build();
    assert_eq!(camera, Camera::new());
    assert_eq!(camera.eye, Vec3 { x: 0, y: 0, z: -FIXED_ONE });
    assert_eq!(camera.projection, Projection::Orthographic(FIXED_ONE));
    let mesh = r.create_mesh().triangle();
    assert_eq!(mesh.indices(), &vec![2, 1, 0]);
}
