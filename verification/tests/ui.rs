use smol_engine::ui::{scissor, ClipRect, Scissor, UiCommand, UiDraw, UiError, UiPass, UiTextureRef, FONT_TEXTURE_ID};

fn elements(clip_rect: ClipRect, texture_id: usize) -> UiCommand {
    UiCommand::Elements { count: 30, clip_rect, texture_id, vtx_offset: 8, idx_offset: 90 }
}

fn full() -> ClipRect {
    ClipRect { x0: 0, y0: 0, x1: 800, y1: 600 }
}

#[test]
fn a_visible_command_becomes_one_indexed_draw() {
    let pass = UiPass::new();
    let clip = ClipRect { x0: 16, y0: 32, x1: 216, y1: 132 };
    let draws = pass.render(800, 600, &vec![elements(clip, FONT_TEXTURE_ID)]).unwrap();
    assert_eq!(
        draws,
        vec![UiDraw::Elements {
            first_index: 90,
            end_index: 120,
            base_vertex: 8,
            scissor: Scissor { x: 16, y: 32, width: 200, height: 100 },
            texture: UiTextureRef::Font,
        }]
    );
}

#[test]
fn commands_outside_the_framebuffer_draw_nothing() {
    let pass = UiPass::new();
    let right = ClipRect { x0: 800, y0: 0, x1: 900, y1: 10 };
    let below = ClipRect { x0: 0, y0: 600, x1: 10, y1: 700 };
    let left = ClipRect { x0: -50, y0: 0, x1: -1, y1: 10 };
    let above = ClipRect { x0: 0, y0: -50, x1: 10, y1: -1 };
    let commands: Vec<UiCommand> =
        [right, below, left, above].iter().map(|c| elements(*c, FONT_TEXTURE_ID)).collect();
    assert_eq!(pass.render(800, 600, &commands).unwrap(), Vec::new());
    let edge = ClipRect { x0: 799, y0: 599, x1: 0, y1: 0 };
    assert_eq!(pass.render(800, 600, &vec![elements(edge, FONT_TEXTURE_ID)]).unwrap().len(), 1);
}

#[test]
fn the_scissor_is_the_clip_rectangle_cut_to_the_framebuffer() {
    assert_eq!(
        scissor(ClipRect { x0: -10, y0: 0, x1: 100, y1: 50 }, 800, 600),
        Scissor { x: 0, y: 0, width: 100, height: 50 }
    );
    assert_eq!(
        scissor(ClipRect { x0: 16, y0: 32, x1: 216, y1: 132 }, 800, 600),
        Scissor { x: 16, y: 32, width: 200, height: 100 }
    );
    assert_eq!(
        scissor(ClipRect { x0: 700, y0: 550, x1: 900, y1: 650 }, 800, 600),
        Scissor { x: 700, y: 550, width: 100, height: 50 }
    );
    assert_eq!(
        scissor(ClipRect { x0: i32::MIN, y0: i32::MIN, x1: i32::MAX, y1: i32::MAX }, 800, 600),
        Scissor { x: 0, y: 0, width: 800, height: 600 }
    );
    assert_eq!(
        scissor(ClipRect { x0: -30, y0: -20, x1: 0, y1: 5 }, 800, 600),
        Scissor { x: 0, y: 0, width: 0, height: 5 }
    );
    assert_eq!(
        scissor(ClipRect { x0: 30, y0: 5, x1: 10, y1: 1 }, 800, 600),
        Scissor { x: 30, y: 5, width: 0, height: 0 }
    );
}

#[test]
fn a_draw_is_scissored_to_the_part_of_its_clip_rectangle_on_screen() {
    let pass = UiPass::new();
    let clip = ClipRect { x0: -10, y0: 590, x1: 100, y1: 700 };
    match pass.render(800, 600, &vec![elements(clip, FONT_TEXTURE_ID)]).unwrap()[0] {
        UiDraw::Elements { scissor, .. } => assert_eq!(scissor, Scissor { x: 0, y: 590, width: 100, height: 10 }),
        _ => panic!("not an indexed draw"),
    }
}

#[test]
fn textures_are_found_by_their_id() {
    let mut pass = UiPass::new();
    pass.textures.push(7);
    pass.textures.push(2);
    assert_eq!(pass.lookup_texture(FONT_TEXTURE_ID), Some(UiTextureRef::Font));
    assert_eq!(pass.lookup_texture(2), Some(UiTextureRef::Registered(2)));
    assert_eq!(pass.lookup_texture(7), Some(UiTextureRef::Registered(7)));
    assert_eq!(pass.lookup_texture(3), None);
}

#[test]
fn an_unknown_texture_ends_the_pass() {
    let pass = UiPass::new();
    let commands = vec![elements(full(), FONT_TEXTURE_ID), elements(full(), 5), elements(full(), 6)];
    assert_eq!(
        pass.render(800, 600, &commands),
        Err(UiError::UnknownTexture { command: 1, texture_id: 5 })
    );
    let hidden = ClipRect { x0: 900, y0: 0, x1: 950, y1: 10 };
    assert_eq!(pass.render(800, 600, &vec![elements(hidden, 5)]).unwrap(), Vec::new());
}

#[test]
fn an_index_range_past_32_bits_ends_the_pass() {
    let pass = UiPass::new();
    let huge = UiCommand::Elements {
        count: 2,
        clip_rect: full(),
        texture_id: FONT_TEXTURE_ID,
        vtx_offset: 0,
        idx_offset: u32::MAX as usize - 1,
    };
    assert_eq!(pass.render(800, 600, &vec![huge]), Err(UiError::OutOfRange { command: 0 }));
    let fits = UiCommand::Elements {
        count: 1,
        clip_rect: full(),
        texture_id: FONT_TEXTURE_ID,
        vtx_offset: u32::MAX as usize,
        idx_offset: u32::MAX as usize - 1,
    };
    match pass.render(800, 600, &vec![fits]).unwrap()[0] {
        UiDraw::Elements { first_index, end_index, base_vertex, .. } => {
            assert_eq!((first_index, end_index, base_vertex), (u32::MAX - 1, u32::MAX, u32::MAX))
        }
        _ => panic!("not an indexed draw"),
    }
}

#[test]
fn an_empty_framebuffer_cannot_be_drawn_into() {
    let pass = UiPass::new();
    assert_eq!(pass.render(0, 600, &Vec::new()), Err(UiError::EmptyFrame));
    assert_eq!(pass.render(800, 0, &vec![elements(full(), FONT_TEXTURE_ID)]), Err(UiError::EmptyFrame));
}

#[test]
fn callbacks_keep_their_place_and_resets_draw_nothing() {
    let pass = UiPass::new();
    let commands = vec![
        UiCommand::RawCallback,
        UiCommand::ResetRenderState,
        elements(full(), FONT_TEXTURE_ID),
        UiCommand::RawCallback,
    ];
    let draws = pass.render(800, 600, &commands).unwrap();
    assert_eq!(draws.len(), 3);
    assert_eq!(draws[0], UiDraw::Callback { command: 0 });
    assert_eq!(draws[2], UiDraw::Callback { command: 3 });
}
