use dxlib::dx::{DX_SHADERTYPE_GEOMETRY, DX_SHADERTYPE_PIXEL, DX_SHADERTYPE_VERTEX, FALSE};
use dxlib::ext::font::Font;
use dxlib::ext::graph::{rect_corner, Graph, Screen};
use dxlib::ext::light::Light;
use dxlib::ext::music::Music;
use dxlib::ext::shader::{
    ConstantBuffer, GeometryShader, PixelShader, SlotBinding, Ts, VertexShader,
};
use dxlib::ext::sound::Sound;
use dxlib::ext::tdx::{Kind, KindError, Release, Resource, Tdx, TdxError, Tr};

fn one_of_each(h: i32, d: bool) -> Vec<Resource> {
    vec![
        Resource::Music(Music { d, h }),
        Resource::Sound(Sound { d, h }),
        Resource::Screen(Screen { d, h }),
        Resource::Graph(Graph { d, h }),
        Resource::VertexShader(VertexShader { d, h }),
        Resource::PixelShader(PixelShader { d, h }),
        Resource::GeometryShader(GeometryShader { d, h }),
        Resource::ConstantBuffer(ConstantBuffer { d, h, n: 4, s: 2 }),
        Resource::Light(Light { d, h }),
        Resource::Font(Font { d, h }),
    ]
}

fn kinds() -> Vec<Kind> {
    vec![
        Kind::Music,
        Kind::Sound,
        Kind::Screen,
        Kind::Graph,
        Kind::VertexShader,
        Kind::PixelShader,
        Kind::GeometryShader,
        Kind::ConstantBuffer,
        Kind::Light,
        Kind::Font,
    ]
}

fn releases(h: i32) -> Vec<Release> {
    vec![
        Release::Music(h),
        Release::Sound(h, FALSE),
        Release::Graph(h, FALSE),
        Release::Graph(h, FALSE),
        Release::Shader(h),
        Release::Shader(h),
        Release::Shader(h),
        Release::ConstantBuffer(h),
        Release::Light(h),
        Release::Font(h),
    ]
}

fn narrow(r: &Resource, wanted: Kind) -> Result<i32, KindError> {
    match wanted {
        Kind::Music => r.as_music().map(|v| v.handle()),
        Kind::Sound => r.as_sound().map(|v| v.handle()),
        Kind::Screen => r.as_screen().map(|v| v.handle()),
        Kind::Graph => r.as_graph().map(|v| v.handle()),
        Kind::VertexShader => r.as_vertex_shader().map(|v| v.handle()),
        Kind::PixelShader => r.as_pixel_shader().map(|v| v.handle()),
        Kind::GeometryShader => r.as_geometry_shader().map(|v| v.handle()),
        Kind::ConstantBuffer => r.as_constant_buffer().map(|v| v.handle()),
        Kind::Light => r.as_light().map(|v| v.handle()),
        Kind::Font => r.as_font().map(|v| v.handle()),
    }
}

#[test]
fn new_refuses_a_backend_that_did_not_start() {
    assert_eq!(Tdx::new(-1).err(), Some(TdxError::Init));
}

#[test]
fn new_is_empty() {
    let dx = Tdx::new(0).unwrap();
    assert_eq!(dx.len(), 0);
    assert_eq!(dx.handles(), Vec::<i32>::new());
    assert_eq!(dx.get(0), None);
    assert!(Tdx::new(1).is_ok());
    assert!(Tdx::new(-2).is_ok());
}

#[test]
fn kinds_and_handles_of_wrappers() {
    for (r, k) in one_of_each(17, true).iter().zip(kinds()) {
        assert_eq!(r.kind(), k);
        assert_eq!(r.handle(), 17);
    }
    assert_eq!(Sound { d: true, h: 3 }.kind(), Kind::Sound);
    assert_eq!(Sound { d: true, h: 3 }.handle(), 3);
    assert_eq!(Screen { d: false, h: -1 }.kind(), Kind::Screen);
    assert_eq!(Screen { d: false, h: -1 }.handle(), -1);
}

#[test]
fn release_of_each_kind() {
    for (k, rel) in kinds().into_iter().zip(releases(9)) {
        assert_eq!(k.release(9), rel);
        assert_eq!(rel.handle(), 9);
    }
}

#[test]
fn owner_is_disposed_once() {
    for (mut r, rel) in one_of_each(21, true).into_iter().zip(releases(21)) {
        let k = r.kind();
        assert_eq!(r.dispose(), Some(rel));
        assert_eq!(r.handle(), 0);
        assert_eq!(r.kind(), k);
        assert_eq!(r.dispose(), None);
        assert_eq!(r.dispose(), None);
        assert_eq!(r.handle(), 0);
    }
}

#[test]
fn view_is_never_disposed() {
    for mut r in one_of_each(21, false) {
        assert_eq!(r.dispose(), None);
        assert_eq!(r.handle(), 21);
    }
}

#[test]
fn handle_zero_is_never_released() {
    for mut r in one_of_each(0, true) {
        assert_eq!(r.dispose(), None);
        assert_eq!(r.handle(), 0);
    }
}

#[test]
fn failed_handle_is_released_like_any_other() {
    let mut s = Sound { d: true, h: -1 };
    assert_eq!(s.dispose(), Some(Release::Sound(-1, FALSE)));
    assert_eq!(s, Sound { d: true, h: 0 });
}

#[test]
fn dispose_of_each_wrapper() {
    let mut m = Music { d: true, h: 1 };
    assert_eq!(m.dispose(), Some(Release::Music(1)));
    assert_eq!(m, Music { d: true, h: 0 });
    let mut sc = Screen { d: true, h: 2 };
    assert_eq!(sc.dispose(), Some(Release::Graph(2, FALSE)));
    let mut g = Graph { d: true, h: 3 };
    assert_eq!(g.dispose(), Some(Release::Graph(3, FALSE)));
    let mut vs = VertexShader { d: true, h: 4 };
    assert_eq!(vs.dispose(), Some(Release::Shader(4)));
    let mut ps = PixelShader { d: true, h: 5 };
    assert_eq!(ps.dispose(), Some(Release::Shader(5)));
    let mut gs = GeometryShader { d: true, h: 6 };
    assert_eq!(gs.dispose(), Some(Release::Shader(6)));
    let mut cb = ConstantBuffer { d: true, h: 7, n: 3, s: 1 };
    assert_eq!(cb.dispose(), Some(Release::ConstantBuffer(7)));
    assert_eq!(cb, ConstantBuffer { d: true, h: 0, n: 3, s: 1 });
    let mut l = Light { d: true, h: 8 };
    assert_eq!(l.dispose(), Some(Release::Light(8)));
    let mut f = Font { d: true, h: 9 };
    assert_eq!(f.dispose(), Some(Release::Font(9)));
    assert_eq!(f, Font { d: true, h: 0 });
}

#[test]
fn views_of_wrappers_do_not_own() {
    assert_eq!(Music { d: true, h: 1 }.as_music(), Music { d: false, h: 1 });
    assert_eq!(Sound { d: true, h: 2 }.as_sound(), Sound { d: false, h: 2 });
    assert_eq!(Screen { d: true, h: 3 }.as_screen(), Screen { d: false, h: 3 });
    assert_eq!(Graph { d: true, h: 4 }.as_graph(), Graph { d: false, h: 4 });
    assert_eq!(
        VertexShader { d: true, h: 5 }.as_vertex_shader(),
        VertexShader { d: false, h: 5 }
    );
    assert_eq!(PixelShader { d: true, h: 6 }.as_pixel_shader(), PixelShader { d: false, h: 6 });
    assert_eq!(
        GeometryShader { d: true, h: 7 }.as_geometry_shader(),
        GeometryShader { d: false, h: 7 }
    );
    assert_eq!(
        ConstantBuffer { d: true, h: 8, n: 5, s: 6 }.as_constant_buffer(),
        ConstantBuffer { d: false, h: 8, n: 5, s: 6 }
    );
    assert_eq!(Light { d: true, h: 9 }.as_light(), Light { d: false, h: 9 });
    assert_eq!(Font { d: true, h: 10 }.as_font(), Font { d: false, h: 10 });
}

#[test]
fn narrowing_to_the_own_kind_gives_the_handle() {
    for (r, k) in one_of_each(33, true).iter().zip(kinds()) {
        assert_eq!(narrow(r, k), Ok(33));
    }
}

#[test]
fn narrowing_to_another_kind_fails() {
    for (r, found) in one_of_each(33, true).iter().zip(kinds()) {
        for wanted in kinds() {
            if wanted != found {
                assert_eq!(narrow(r, wanted), Err(KindError { wanted, found }));
            }
        }
    }
}

#[test]
fn narrowing_gives_a_view() {
    let r = Resource::ConstantBuffer(ConstantBuffer { d: true, h: 4, n: 8, s: 3 });
    assert_eq!(r.as_constant_buffer(), Ok(ConstantBuffer { d: false, h: 4, n: 8, s: 3 }));
    assert_eq!(
        r.as_light(),
        Err(KindError { wanted: Kind::Light, found: Kind::ConstantBuffer })
    );
    let s = Resource::Screen(Screen { d: true, h: 5 });
    assert_eq!(s.as_screen(), Ok(Screen { d: false, h: 5 }));
    assert_eq!(s.as_graph(), Err(KindError { wanted: Kind::Graph, found: Kind::Screen }));
}

#[test]
fn registered_wrapper_narrows_to_its_kind_only() {
    let mut dx = Tdx::new(0).unwrap();
    let (snd, rel) = dx.load_sound_mem(41);
    assert_eq!(rel, None);
    assert_eq!(snd, Sound { d: false, h: 41 });
    let e = dx.get(41).unwrap();
    assert_eq!(*e, Resource::Sound(Sound { d: true, h: 41 }));
    assert_eq!(e.as_sound().map(|v| v.handle()), Ok(41));
    assert_eq!(e.as_music(), Err(KindError { wanted: Kind::Music, found: Kind::Sound }));
    assert_eq!(e.as_font(), Err(KindError { wanted: Kind::Font, found: Kind::Sound }));
}

#[test]
fn reg_answers_the_handle() {
    let mut dx = Tdx::new(0).unwrap();
    assert_eq!(dx.reg(Resource::Light(Light { d: true, h: 12 })), (12, None));
    assert_eq!(dx.len(), 1);
    assert_eq!(dx.get(12), Some(&Resource::Light(Light { d: true, h: 12 })));
    assert_eq!(dx.get(13), None);
}

#[test]
fn reg_disposes_what_it_replaces() {
    let mut dx = Tdx::new(0).unwrap();
    assert_eq!(dx.reg(Resource::Light(Light { d: true, h: 12 })), (12, None));
    assert_eq!(
        dx.reg(Resource::Font(Font { d: true, h: 12 })),
        (12, Some(Release::Light(12)))
    );
    assert_eq!(dx.len(), 1);
    assert_eq!(dx.get(12), Some(&Resource::Font(Font { d: true, h: 12 })));
    assert_eq!(dx.reg(Resource::Font(Font { d: false, h: 12 })), (12, Some(Release::Font(12))));
    assert_eq!(dx.reg(Resource::Font(Font { d: true, h: 12 })), (12, None));
}

#[test]
fn unreg_twice_releases_once() {
    let mut dx = Tdx::new(0).unwrap();
    let (g, _) = dx.make_graph(480);
    assert_eq!(dx.unreg(g.handle()), Some(Release::Graph(480, FALSE)));
    assert_eq!(dx.len(), 0);
    assert_eq!(dx.unreg(g.handle()), None);
    assert_eq!(dx.unreg(g.handle()), None);
    assert_eq!(dx.len(), 0);
    assert_eq!(dx.dispose_all(), vec![]);
}

#[test]
fn unreg_of_an_unknown_handle_does_nothing() {
    let mut dx = Tdx::new(0).unwrap();
    dx.load_music_mem(1);
    assert_eq!(dx.unreg(2), None);
    assert_eq!(dx.len(), 1);
    assert_eq!(dx.get(1), Some(&Resource::Music(Music { d: true, h: 1 })));
}

#[test]
fn unreg_leaves_the_others() {
    let mut dx = Tdx::new(0).unwrap();
    dx.load_music_mem(1);
    dx.load_sound_mem(2);
    dx.load_graph(3);
    assert_eq!(dx.unreg(2), Some(Release::Sound(2, FALSE)));
    let mut hs = dx.handles();
    hs.sort();
    assert_eq!(hs, vec![1, 3]);
}

#[test]
fn unreg_of_a_registered_view_releases_nothing() {
    let mut dx = Tdx::new(0).unwrap();
    dx.reg(Resource::Graph(Graph { d: false, h: 5 }));
    assert_eq!(dx.unreg(5), None);
    assert_eq!(dx.len(), 0);
}

#[test]
fn create_and_narrow_of_each_kind() {
    let mut dx = Tdx::new(0).unwrap();
    assert_eq!(dx.load_music_mem(1), (Music { d: false, h: 1 }, None));
    assert_eq!(dx.load_sound_mem(2), (Sound { d: false, h: 2 }, None));
    assert_eq!(dx.make_screen(3), (Screen { d: false, h: 3 }, None));
    assert_eq!(dx.make_graph(4), (Graph { d: false, h: 4 }, None));
    assert_eq!(dx.load_graph(5), (Graph { d: false, h: 5 }, None));
    assert_eq!(dx.get_graph(6), (Graph { d: false, h: 6 }, None));
    assert_eq!(dx.load_vertex_shader(7), (VertexShader { d: false, h: 7 }, None));
    assert_eq!(dx.load_pixel_shader(8), (PixelShader { d: false, h: 8 }, None));
    assert_eq!(dx.load_geometry_shader(9), (GeometryShader { d: false, h: 9 }, None));
    assert_eq!(
        dx.create_constant_buffer(4, 2, 10),
        (ConstantBuffer { d: false, h: 10, n: 4, s: 2 }, None)
    );
    assert_eq!(dx.create_dir_light(11), (Light { d: false, h: 11 }, None));
    assert_eq!(dx.create_spot_light(12), (Light { d: false, h: 12 }, None));
    assert_eq!(dx.create_point_light(13), (Light { d: false, h: 13 }, None));
    assert_eq!(dx.create_font(14), (Font { d: false, h: 14 }, None));
    assert_eq!(dx.load_font(15), (Font { d: false, h: 15 }, None));
    assert_eq!(dx.len(), 15);
    assert_eq!(dx.get(1), Some(&Resource::Music(Music { d: true, h: 1 })));
    assert_eq!(dx.get(2), Some(&Resource::Sound(Sound { d: true, h: 2 })));
    assert_eq!(dx.get(3), Some(&Resource::Screen(Screen { d: true, h: 3 })));
    assert_eq!(dx.get(4), Some(&Resource::Graph(Graph { d: true, h: 4 })));
    assert_eq!(dx.get(5), Some(&Resource::Graph(Graph { d: true, h: 5 })));
    assert_eq!(dx.get(6), Some(&Resource::Graph(Graph { d: true, h: 6 })));
    assert_eq!(dx.get(7), Some(&Resource::VertexShader(VertexShader { d: true, h: 7 })));
    assert_eq!(dx.get(8), Some(&Resource::PixelShader(PixelShader { d: true, h: 8 })));
    assert_eq!(dx.get(9), Some(&Resource::GeometryShader(GeometryShader { d: true, h: 9 })));
    assert_eq!(
        dx.get(10),
        Some(&Resource::ConstantBuffer(ConstantBuffer { d: true, h: 10, n: 4, s: 2 }))
    );
    assert_eq!(dx.get(11), Some(&Resource::Light(Light { d: true, h: 11 })));
    assert_eq!(dx.get(12), Some(&Resource::Light(Light { d: true, h: 12 })));
    assert_eq!(dx.get(13), Some(&Resource::Light(Light { d: true, h: 13 })));
    assert_eq!(dx.get(14), Some(&Resource::Font(Font { d: true, h: 14 })));
    assert_eq!(dx.get(15), Some(&Resource::Font(Font { d: true, h: 15 })));
}

#[test]
fn failed_loads_share_one_entry() {
    let mut dx = Tdx::new(0).unwrap();
    assert_eq!(dx.load_sound_mem(-1), (Sound { d: false, h: -1 }, None));
    assert_eq!(dx.load_graph(-1), (Graph { d: false, h: -1 }, Some(Release::Sound(-1, FALSE))));
    assert_eq!(dx.len(), 1);
    assert_eq!(dx.dispose_all(), vec![Release::Graph(-1, FALSE)]);
}

#[test]
fn make_graph_color_keeps_the_image_and_drops_the_screen() {
    let mut dx = Tdx::new(0).unwrap();
    let (g, rels) = dx.make_graph_color(30, 31);
    assert_eq!(g, Graph { d: false, h: 31 });
    assert_eq!(rels, vec![Release::Graph(30, FALSE)]);
    assert_eq!(dx.handles(), vec![31]);
    assert_eq!(dx.get(31), Some(&Resource::Graph(Graph { d: true, h: 31 })));
}

#[test]
fn make_graph_color_says_what_it_replaced() {
    let mut dx = Tdx::new(0).unwrap();
    dx.load_music_mem(30);
    dx.load_font(31);
    let (_, rels) = dx.make_graph_color(30, 31);
    assert_eq!(rels, vec![Release::Music(30), Release::Font(31), Release::Graph(30, FALSE)]);
    assert_eq!(dx.handles(), vec![31]);
}

#[test]
fn make_graph_color_with_two_failed_handles() {
    let mut dx = Tdx::new(0).unwrap();
    let (g, rels) = dx.make_graph_color(-1, -1);
    assert_eq!(g, Graph { d: false, h: -1 });
    assert_eq!(rels, vec![Release::Graph(-1, FALSE), Release::Graph(-1, FALSE)]);
    assert_eq!(dx.len(), 0);
}

#[test]
fn load_div_graph_registers_in_order() {
    let mut dx = Tdx::new(0).unwrap();
    let (views, rels) = dx.load_div_graph(&vec![5, 6, 7]);
    assert_eq!(
        views,
        vec![Graph { d: false, h: 5 }, Graph { d: false, h: 6 }, Graph { d: false, h: 7 }]
    );
    assert_eq!(rels, vec![]);
    let mut hs = dx.handles();
    hs.sort();
    assert_eq!(hs, vec![5, 6, 7]);
    assert_eq!(dx.get(6), Some(&Resource::Graph(Graph { d: true, h: 6 })));
}

#[test]
fn load_div_graph_of_nothing() {
    let mut dx = Tdx::new(0).unwrap();
    dx.load_music_mem(1);
    let (views, rels) = dx.load_div_graph(&vec![]);
    assert_eq!(views, vec![]);
    assert_eq!(rels, vec![]);
    assert_eq!(dx.handles(), vec![1]);
}

#[test]
fn load_div_graph_with_repeated_handles() {
    let mut dx = Tdx::new(0).unwrap();
    dx.load_sound_mem(6);
    let (views, rels) = dx.load_div_graph(&vec![5, 6, 5, 0, 0]);
    assert_eq!(views.len(), 5);
    assert_eq!(views[2], Graph { d: false, h: 5 });
    assert_eq!(rels, vec![Release::Sound(6, FALSE), Release::Graph(5, FALSE)]);
    let mut hs = dx.handles();
    hs.sort();
    assert_eq!(hs, vec![0, 5, 6]);
}

#[test]
fn make_graphs_from_div_graph_of_nothing_does_nothing() {
    let mut dx = Tdx::new(0).unwrap();
    dx.load_music_mem(1);
    let (views, rels) = dx.make_graphs_from_div_graph(9, &vec![]);
    assert_eq!(views, vec![]);
    assert_eq!(rels, vec![]);
    assert_eq!(dx.handles(), vec![1]);
    assert_eq!(dx.get(9), None);
}

#[test]
fn make_graphs_from_div_graph_drops_the_screen() {
    let mut dx = Tdx::new(0).unwrap();
    let (views, rels) = dx.make_graphs_from_div_graph(9, &vec![5, 6]);
    assert_eq!(views, vec![Graph { d: false, h: 5 }, Graph { d: false, h: 6 }]);
    assert_eq!(rels, vec![Release::Graph(9, FALSE)]);
    let mut hs = dx.handles();
    hs.sort();
    assert_eq!(hs, vec![5, 6]);
}

#[test]
fn make_graphs_from_div_graph_says_what_it_replaced() {
    let mut dx = Tdx::new(0).unwrap();
    dx.load_font(9);
    dx.load_music_mem(6);
    let (_, rels) = dx.make_graphs_from_div_graph(9, &vec![5, 6, 9]);
    assert_eq!(
        rels,
        vec![
            Release::Font(9),
            Release::Music(6),
            Release::Graph(9, FALSE),
            Release::Graph(9, FALSE),
        ]
    );
    let mut hs = dx.handles();
    hs.sort();
    assert_eq!(hs, vec![5, 6]);
}

#[test]
fn dispose_all_releases_each_owner_once() {
    let mut dx = Tdx::new(0).unwrap();
    dx.load_music_mem(1);
    dx.load_sound_mem(2);
    dx.make_screen(3);
    dx.load_graph(4);
    dx.load_vertex_shader(5);
    dx.load_pixel_shader(6);
    dx.load_geometry_shader(7);
    dx.create_constant_buffer(4, 0, 8);
    dx.create_dir_light(9);
    dx.load_font(10);
    dx.reg(Resource::Graph(Graph { d: false, h: 11 }));
    dx.load_graph(0);
    assert_eq!(dx.len(), 12);
    let mut rels = dx.dispose_all();
    rels.sort_by_key(|r| r.handle());
    assert_eq!(
        rels,
        vec![
            Release::Music(1),
            Release::Sound(2, FALSE),
            Release::Graph(3, FALSE),
            Release::Graph(4, FALSE),
            Release::Shader(5),
            Release::Shader(6),
            Release::Shader(7),
            Release::ConstantBuffer(8),
            Release::Light(9),
            Release::Font(10),
        ]
    );
    assert_eq!(dx.len(), 0);
    assert_eq!(dx.dispose_all(), vec![]);
}

#[test]
fn dispose_all_skips_what_was_unregistered() {
    let mut dx = Tdx::new(0).unwrap();
    dx.load_music_mem(1);
    dx.load_sound_mem(2);
    assert_eq!(dx.unreg(1), Some(Release::Music(1)));
    assert_eq!(dx.dispose_all(), vec![Release::Sound(2, FALSE)]);
}

#[test]
fn handles_lists_each_once() {
    let mut dx = Tdx::new(0).unwrap();
    for h in [7, 3, 7, 9, 3, -1] {
        dx.load_graph(h);
    }
    let mut hs = dx.handles();
    hs.sort();
    assert_eq!(hs, vec![-1, 3, 7, 9]);
    assert_eq!(dx.len(), 4);
}

#[test]
fn shader_stages() {
    assert_eq!(VertexShader { d: true, h: 1 }.shader_type(), DX_SHADERTYPE_VERTEX);
    assert_eq!(PixelShader { d: true, h: 1 }.shader_type(), DX_SHADERTYPE_PIXEL);
    assert_eq!(GeometryShader { d: true, h: 1 }.shader_type(), DX_SHADERTYPE_GEOMETRY);
    assert_eq!((DX_SHADERTYPE_VERTEX, DX_SHADERTYPE_PIXEL, DX_SHADERTYPE_GEOMETRY), (0, 1, 2));
}

#[test]
fn no_release_is_logged() {
    assert_eq!(FALSE, 0);
    assert_eq!(Kind::Sound.release(5), Release::Sound(5, 0));
    assert_eq!(Kind::Screen.release(6), Release::Graph(6, 0));
    assert_eq!(Kind::Graph.release(7), Release::Graph(7, 0));
}

#[test]
fn set_const_binds_the_buffer_to_its_own_slot() {
    let cb = ConstantBuffer { d: false, h: 70, n: 4, s: 3 };
    assert_eq!(
        VertexShader { d: false, h: 1 }.set_const(&cb),
        SlotBinding { cb: 70, shader_type: 0, slot: 3 }
    );
    assert_eq!(
        PixelShader { d: false, h: 2 }.set_const(&cb),
        SlotBinding { cb: 70, shader_type: 1, slot: 3 }
    );
    assert_eq!(
        GeometryShader { d: false, h: 3 }.set_const(&cb),
        SlotBinding { cb: 70, shader_type: 2, slot: 3 }
    );
    assert_eq!(cb.set_to_slot(1, 5), SlotBinding { cb: 70, shader_type: 1, slot: 5 });
}

#[test]
fn byte_size_of_a_constant_buffer() {
    assert_eq!(ConstantBuffer::byte_size(0), Some(0));
    assert_eq!(ConstantBuffer::byte_size(4), Some(64));
    assert_eq!(ConstantBuffer::byte_size(-1), Some(-16));
    assert_eq!(ConstantBuffer::byte_size(134_217_727), Some(2_147_483_632));
    assert_eq!(ConstantBuffer::byte_size(134_217_728), None);
    assert_eq!(ConstantBuffer::byte_size(-134_217_728), Some(i32::MIN));
    assert_eq!(ConstantBuffer::byte_size(-134_217_729), None);
}

#[test]
fn rect_corner_adds_the_size() {
    assert_eq!(rect_corner(80, 60, 480, 360), Some((560, 420)));
    assert_eq!(rect_corner(0, 0, 64, 64), Some((64, 64)));
    assert_eq!(rect_corner(-5, -6, 2, 3), Some((-3, -3)));
    assert_eq!(rect_corner(i32::MAX, 0, 1, 0), None);
    assert_eq!(rect_corner(0, i32::MAX, 0, 1), None);
    assert_eq!(rect_corner(i32::MIN, 0, -1, 0), None);
    assert_eq!(rect_corner(i32::MAX, i32::MIN, 0, 0), Some((i32::MAX, i32::MIN)));
}

fn owner(kind: u32, h: i32) -> (Resource, Release) {
    match kind % 7 {
        0 => (Resource::Music(Music { d: true, h }), Release::Music(h)),
        1 => (Resource::Sound(Sound { d: true, h }), Release::Sound(h, FALSE)),
        2 => (Resource::Screen(Screen { d: true, h }), Release::Graph(h, FALSE)),
        3 => (Resource::Graph(Graph { d: true, h }), Release::Graph(h, FALSE)),
        4 => (Resource::PixelShader(PixelShader { d: true, h }), Release::Shader(h)),
        5 => (Resource::Light(Light { d: true, h }), Release::Light(h)),
        _ => (Resource::Font(Font { d: true, h }), Release::Font(h)),
    }
}

#[test]
fn every_owner_is_released_exactly_once() {
    // what is registered now, with the release that each entry owes
    let mut live: std::collections::HashMap<i32, Release> = std::collections::HashMap::new();
    let mut expected: Vec<Release> = vec![];
    let mut got: Vec<Release> = vec![];
    let mut dx = Tdx::new(0).unwrap();
    let mut seed: u32 = 12345;
    for _ in 0..2000 {
        seed = seed.wrapping_mul(1_664_525).wrapping_add(1_013_904_223);
        let h = ((seed >> 8) % 24) as i32 + 1;
        let kind = seed >> 20;
        if (seed >> 4) % 3 == 0 {
            if let Some(rel) = live.remove(&h) {
                expected.push(rel);
            }
            got.extend(dx.unreg(h));
        } else {
            let (o, rel) = owner(kind, h);
            if let Some(old) = live.insert(h, rel) {
                expected.push(old);
            }
            let (k, displaced) = dx.reg(o);
            assert_eq!(k, h);
            got.extend(displaced);
        }
        assert_eq!(got, expected);
        assert_eq!(dx.len(), live.len());
    }
    let mut rest = dx.dispose_all();
    let mut owed: Vec<Release> = live.values().copied().collect();
    rest.sort_by_key(|r| r.handle());
    owed.sort_by_key(|r| r.handle());
    assert_eq!(rest, owed);
    assert_eq!(dx.len(), 0);
}
