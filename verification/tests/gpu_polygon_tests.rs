use r_ps1::gpu::{GPU, Gp0Op, Gp0State, SemiTransparency, TextureDepth};

fn start_polygon(g: &mut GPU, words: &[u32]) -> Option<r_ps1::gpu::draw_polygon::PolygonDraw> {
    g.gp0state = Gp0State::WaitingCommandParameters(Gp0Op::PolygonRendering, None);
    assert!(g.operation_polygon_rendering(words[0]).is_none());
    assert_eq!(g.gp0state, Gp0State::WaitingCommandParameters(Gp0Op::PolygonRendering, Some(words.len() - 1)));
    for w in words {
        g.cmd_fifo.push(*w);
    }
    g.operation_polygon_rendering(0)
}

#[test]
fn flat_triangle_words() {
    let mut g = GPU::new();
    g.gp0_set_drawing_offset(1 | (2 << 11));
    let d = start_polygon(&mut g, &[0x2000_00FF, 0x0000_0000, 0x0000_0010, 0x0010_0000]).unwrap();
    assert_eq!(g.gp0state, Gp0State::WaitingCommand);
    assert_eq!(g.cmd_fifo.len(), 0);
    assert_eq!(d.polygon.vertex.len(), 3);
    assert_eq!((d.polygon.vertex[1].0.x, d.polygon.vertex[1].0.y), (17, 2));
    assert_eq!(d.polygon.vertex[2].1.r, 0xFF);
    assert!(!d.is_gouraud && !d.is_textured && d.polygon.texture.is_none());
}

#[test]
fn gouraud_quad_words() {
    let mut g = GPU::new();
    let d = start_polygon(&mut g, &[
        0x3800_0010, 0x0000_0000,
        0x0000_0020, 0x0000_0001,
        0x0000_0030, 0x0001_0000,
        0x0000_0040, 0x0001_0001,
    ]).unwrap();
    assert_eq!(d.polygon.vertex.len(), 4);
    let reds: Vec<u8> = d.polygon.vertex.iter().map(|v| v.1.r).collect();
    assert_eq!(reds, vec![0x10, 0x20, 0x30, 0x40]);
    assert!(d.is_gouraud);
}

#[test]
fn textured_triangle_sets_texture_page() {
    let mut g = GPU::new();
    let d = start_polygon(&mut g, &[
        0x2700_0000,
        0x0000_0000, 0x0041_0201,
        0x0000_0010, 0x00A2_0403,
        0x0010_0000, 0x0000_0605,
    ]).unwrap();
    let t = d.polygon.texture.unwrap();
    assert_eq!((t.clut_x, t.clut_y), (1, 1));
    assert_eq!((t.page_base_x, t.page_base_y), (2, 0));
    assert_eq!(t.texture_depth, TextureDepth::T8Bit);
    assert_eq!(t.semi_transparency, SemiTransparency::Additive);
    assert_eq!((d.polygon.vertex[0].2.u, d.polygon.vertex[0].2.v), (1, 2));
    assert_eq!((d.polygon.vertex[2].2.u, d.polygon.vertex[2].2.v), (5, 6));
    assert_eq!(g.texture.page_base_x, 2);
    assert_eq!(g.texture.depth, TextureDepth::T8Bit);
    assert_eq!(g.semi_transparency, SemiTransparency::Additive);
    assert!(d.is_textured && d.semi_transparent && d.raw_texture);
}
