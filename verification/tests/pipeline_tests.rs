use mather_engine::fixed::FX_ONE;
use mather_engine::input::{InputController, InputEvent, KeyCode, MouseButton, WindowEvent};
use mather_engine::light::{SunController, SunLight, UniformWord};
use mather_engine::loader::{load_obj, AssetError, MaterialDesc, SubMesh};
use mather_engine::loader::find_pbr_texture;
use mather_engine::math::Vec3;
use mather_engine::mesh::{
    f_neg, index_buffer_bytes, vertex_bytes, vertex_buffer_bytes, Mesh, F_ONE,
};
use mather_engine::mesh::{Bits2, Bits3, Vertex, F_ZERO};
use mather_engine::model::{LightBinding, Model, TextureSource};
use mather_engine::renderer::{grid_mesh_data, Renderer, SurfaceError, GRID_SIZE};
use mather_engine::window::WindowConfig;

#[test]
fn input_controller_tracks_states_and_frame_deltas() {
    let mut input = InputController::new();
    let consumed = input.process_event(&WindowEvent::Keyboard { key: KeyCode::W, pressed: true });
    assert!(consumed);
    assert!(input.is_key_pressed(KeyCode::W));
    input.process_event(&WindowEvent::MouseInput { button: MouseButton::Right, pressed: true });
    assert!(input.is_mouse_button_pressed(MouseButton::Right));
    input.process_event(&WindowEvent::CursorMoved { x: 10_000_000, y: 4_000_000 });
    assert_eq!(input.mouse_delta(), (10_000_000, 4_000_000));
    input.process_event(&WindowEvent::CursorMoved { x: 12_000_000, y: 1_000_000 });
    assert_eq!(input.mouse_delta(), (2_000_000, -3_000_000));
    assert_eq!(input.mouse_position(), (12_000_000, 1_000_000));
    input.process_event(&WindowEvent::MouseWheel { dx: 0, dy: -1_000_000 });
    assert_eq!(input.scroll_delta(), (0, -1_000_000));
    assert_eq!(input.events().len(), 5);
    assert_eq!(input.events()[0], InputEvent::KeyPressed(KeyCode::W));
    // Unconsumed events change nothing.
    let resized = input.process_event(&WindowEvent::Resized { width: 1, height: 1 });
    assert!(!resized);
    // The frame reset clears the log and the deltas; states persist.
    input.update();
    assert_eq!(input.events().len(), 0);
    assert_eq!(input.mouse_delta(), (0, 0));
    assert_eq!(input.scroll_delta(), (0, 0));
    assert!(input.is_key_pressed(KeyCode::W));
    assert!(input.is_mouse_button_pressed(MouseButton::Right));
    // Releasing flips the persistent state.
    input.process_event(&WindowEvent::Keyboard { key: KeyCode::W, pressed: false });
    assert!(!input.is_key_pressed(KeyCode::W));
    assert_eq!(input.events()[0], InputEvent::KeyReleased(KeyCode::W));
}

#[test]
fn sun_controller_steps_and_saturates() {
    let mut sun = SunController::new();
    assert_eq!(sun.elevation, 120_000_000);
    assert_eq!(sun.azimuth, 210_000_000);
    // A release is ignored.
    assert!(!sun.process_keyboard(KeyCode::I, false));
    // Raising the elevation clamps at ninety degrees.
    assert!(sun.process_keyboard(KeyCode::I, true));
    assert_eq!(sun.elevation, 90_000_000);
    // Azimuth steps wrap around a full turn.
    assert!(sun.process_keyboard(KeyCode::J, true));
    assert_eq!(sun.azimuth, 215_000_000);
    assert!(sun.process_keyboard(KeyCode::L, true));
    assert_eq!(sun.azimuth, 210_000_000);
    // Intensity saturates at two.
    for _ in 0..30 {
        assert!(sun.process_keyboard(KeyCode::U, true));
    }
    assert_eq!(sun.sun_light.intensity, 2 * FX_ONE);
    assert!(sun.process_keyboard(KeyCode::O, true));
    assert_eq!(sun.sun_light.intensity, 2 * FX_ONE - 100_000);
    // An unrelated key is not handled.
    assert!(!sun.process_keyboard(KeyCode::W, true));
}

#[test]
fn sun_light_words_follow_the_wire_layout() {
    let light = SunLight::default_light();
    let words = light.to_words();
    assert_eq!(words.len(), 12);
    assert_eq!(words[0], UniformWord::F(0));
    assert_eq!(words[1], UniformWord::F(-FX_ONE));
    assert_eq!(words[3], UniformWord::U(0));
    assert_eq!(words[7], UniformWord::F(FX_ONE));
    assert_eq!(words[8], UniformWord::U(1));
    assert_eq!(words[11], UniformWord::U(0));
}

#[test]
fn vertex_wire_format_is_44_little_endian_bytes() {
    let v = Vertex {
        position: Bits3 { x: 0x3F80_0000, y: 0, z: 0x0102_0304 },
        normal: Bits3 { x: 0, y: 0x3F80_0000, z: 0 },
        tex_coords: Bits2 { u: 0, v: 0x3F00_0000 },
        color: Bits3 { x: 0x3F80_0000, y: 0x3F80_0000, z: 0x3F80_0000 },
    };
    let bytes = vertex_bytes(&v);
    assert_eq!(bytes.len(), 44);
    assert_eq!(&bytes[0..4], &[0x00, 0x00, 0x80, 0x3F]);
    assert_eq!(&bytes[8..12], &[0x04, 0x03, 0x02, 0x01]);
    assert_eq!(&bytes[28..32], &[0x00, 0x00, 0x00, 0x3F]);
    let buffer = vertex_buffer_bytes(&vec![v, v]);
    assert_eq!(buffer.len(), 88);
    assert_eq!(&buffer[44..48], &[0x00, 0x00, 0x80, 0x3F]);
    let indices = index_buffer_bytes(&vec![1u32, 0x0102_0304u32]);
    assert_eq!(indices, vec![1, 0, 0, 0, 0x04, 0x03, 0x02, 0x01]);
}

#[test]
fn cube_and_quad_builders_produce_the_fixed_layout() {
    let half = 0x3F80_0000u32;
    let quad = Mesh::create_quad(half);
    assert_eq!(quad.num_vertices, 4);
    assert_eq!(quad.num_indices, 6);
    assert_eq!(quad.indices, vec![0, 1, 2, 0, 2, 3]);
    assert_eq!(quad.vertices[0].position.x, f_neg(half));
    assert_eq!(quad.vertices[1].position.x, half);
    let cube = Mesh::create_cube(half);
    assert_eq!(cube.num_vertices, 24);
    assert_eq!(cube.num_indices, 36);
    assert_eq!(cube.material_id, 0);
    // The back face is green and faces negative z.
    assert_eq!(cube.vertices[4].color, Bits3 { x: F_ZERO, y: F_ONE, z: F_ZERO });
    assert_eq!(cube.vertices[4].normal.z, f_neg(F_ONE));
}

#[test]
fn quad_asset_loads_into_one_mesh_and_one_flat_material() {
    // A known-good two-triangle quad: four vertices, six indices, one
    // material without a texture.
    let quad = SubMesh {
        positions: vec![0; 12],
        normals: vec![],
        texcoords: vec![],
        indices: vec![0, 1, 2, 0, 2, 3],
        material_id: Some(0),
    };
    let diffuse = Vec3 { x: 800_000, y: 100_000, z: 50_000 };
    let material = MaterialDesc {
        name: "quadmat".to_string(),
        diffuse_texture: None,
        ambient: Vec3 { x: 0, y: 0, z: 0 },
        diffuse,
        specular: Vec3 { x: 0, y: 0, z: 0 },
        shininess: 0,
    };
    let model = load_obj(&vec![quad], vec![material], vec![(None, None, None)], &vec![false], true);
    assert_eq!(model.meshes.len(), 1);
    assert_eq!(model.meshes[0].num_vertices, 4);
    assert_eq!(model.meshes[0].num_indices, 6);
    assert_eq!(model.meshes[0].material_id, 0);
    assert_eq!(model.materials.len(), 1);
    assert_eq!(model.materials[0].material_id, 0);
    match &model.materials[0].texture {
        TextureSource::FlatColor(c) => assert_eq!(*c, diffuse),
        TextureSource::File(_) => panic!("expected a synthesized flat-color texture"),
    }
    assert_eq!(model.materials[0].light, LightBinding::Shared);
    // Missing normals default to world-up; missing texture coordinates to
    // the origin.
    assert_eq!(model.meshes[0].vertices[0].normal, Bits3 { x: F_ZERO, y: F_ONE, z: F_ZERO });
    assert_eq!(model.meshes[0].vertices[0].tex_coords, Bits2 { u: F_ZERO, v: F_ZERO });
}

#[test]
fn loader_synthesizes_a_default_material() {
    let sub = SubMesh {
        positions: vec![0; 9],
        normals: vec![],
        texcoords: vec![],
        indices: vec![0, 1, 2],
        material_id: None,
    };
    let model = load_obj(&vec![sub], vec![], vec![], &vec![false], false);
    assert_eq!(model.materials.len(), 1);
    match &model.materials[0].texture {
        TextureSource::FlatColor(c) => {
            assert_eq!(*c, Vec3 { x: 700_000, y: 700_000, z: 700_000 })
        }
        TextureSource::File(_) => panic!("expected the default grey flat color"),
    }
    assert_eq!(model.materials[0].light, LightBinding::DefaultLight);
    // An out-of-range material index is capped at the last material.
    assert_eq!(model.meshes[0].material_id, 0);
}

#[test]
fn renderer_resize_round_trip_keeps_depth_in_step() {
    let mut renderer = Renderer::new(800, 600);
    assert_eq!((renderer.config_width, renderer.config_height), (800, 600));
    assert_eq!((renderer.depth_width, renderer.depth_height), (800, 600));
    renderer.resize(1, 1);
    assert_eq!((renderer.config_width, renderer.config_height), (1, 1));
    assert_eq!((renderer.depth_width, renderer.depth_height), (1, 1));
    renderer.resize(800, 600);
    assert_eq!((renderer.config_width, renderer.config_height), (800, 600));
    assert_eq!((renderer.depth_width, renderer.depth_height), (800, 600));
    // A zero dimension is a no-op.
    renderer.resize(0, 300);
    assert_eq!((renderer.depth_width, renderer.depth_height), (800, 600));
    // A lost surface reconfigures at the current size and reports onward.
    let reported = renderer.on_acquire_error(SurfaceError::Lost);
    assert_eq!(reported, SurfaceError::Lost);
    assert_eq!((renderer.depth_width, renderer.depth_height), (800, 600));
}

#[test]
fn draw_list_is_walked_in_insertion_order() {
    let mut renderer = Renderer::new(64, 64);
    let mut first = Model::new();
    first.add_material(mather_engine::renderer::debug_material());
    first.add_mesh(Mesh::create_quad(F_ONE));
    let mut second = Model::new();
    second.add_material(mather_engine::renderer::debug_material());
    second.add_mesh(Mesh::create_cube(F_ONE));
    renderer.add_model(first);
    renderer.add_model(second);
    let frame = renderer.render_scene();
    assert_eq!(frame.calls.len(), 2);
    assert_eq!(frame.calls[0].len(), 1);
    assert_eq!(frame.calls[0][0].num_indices, 6);
    assert_eq!(frame.calls[1][0].num_indices, 36);
    assert_eq!(frame.calls[1][0].material, 0);
}

#[test]
fn grid_mesh_pairs_lines_and_colors_the_center() {
    let n = (2 * GRID_SIZE + 1) as usize;
    let coords: Vec<u32> = (0..n as u32).collect();
    let grid = grid_mesh_data(&coords, 0x41A0_0000, 0x4120_0000);
    assert_eq!(grid.vertices.len(), 4 * n + 6);
    assert_eq!(grid.indices.len(), 4 * n + 6);
    assert_eq!(grid.indices[7], 7);
    assert_eq!(grid.material_id, 0);
    // The center x line is white, its neighbors grey.
    let center = GRID_SIZE as usize;
    assert_eq!(grid.vertices[2 * center].color, Bits3 { x: F_ONE, y: F_ONE, z: F_ONE });
    let grey = grid.vertices[2 * (center + 1)].color;
    assert_eq!(grey, Bits3 { x: 0x3F00_0000, y: 0x3F00_0000, z: 0x3F00_0000 });
    // The last six vertices are the axis gizmo.
    let red = grid.vertices[4 * n].color;
    assert_eq!(red, Bits3 { x: F_ONE, y: F_ZERO, z: F_ZERO });
}

#[test]
fn pbr_textures_are_found_by_naming_convention() {
    let existing = vec![
        "assets/stone_normal.png".to_string(),
        "assets/stone_roughness.png".to_string(),
        "assets/brick_normal.png".to_string(),
    ];
    let found = find_pbr_texture("assets/stone.png", "normal", "stone material", &existing);
    assert_eq!(found.as_deref(), Some("assets/stone_normal.png"));
    // For each suffix the material's first word is probed before the
    // file stem.
    let by_material = find_pbr_texture("assets/stone.png", "normal", "brick wall", &existing);
    assert_eq!(by_material.as_deref(), Some("assets/brick_normal.png"));
    let rough = find_pbr_texture("assets/stone.png", "roughness", "stone", &existing);
    assert_eq!(rough.as_deref(), Some("assets/stone_roughness.png"));
    assert!(find_pbr_texture("assets/stone.png", "metallic", "stone", &existing).is_none());
    assert!(find_pbr_texture("assets/stone.png", "height", "stone", &existing).is_none());
}

#[test]
fn asset_errors_describe_themselves() {
    let missing = AssetError::FileNotFound("models/cube.obj".to_string());
    assert_eq!(missing.message(), "asset file not found: models/cube.obj");
    let broken = AssetError::ParseFailed("models/cube.obj".to_string());
    assert_eq!(broken.message(), "asset geometry failed to parse: models/cube.obj");
}

#[test]
fn window_config_defaults_are_sensible() {
    let config = WindowConfig::default();
    assert_eq!(config.title, "Mather Engine");
    assert_eq!((config.width, config.height), (1280, 720));
    assert!(config.resizable);
    assert!(!config.maximized);
    let from_monitor = WindowConfig::from_monitor(Some((3000, 1500)));
    assert_eq!((from_monitor.width, from_monitor.height), (2000, 1000));
}

#[test]
fn sphere_topology_pairs_rings_into_triangles() {
    // Two segments by one ring: two quads of two triangles each, over a
    // ring-major vertex grid with rows of three vertices.
    let indices = mather_engine::mesh::sphere_indices(2, 1);
    assert_eq!(indices, vec![0, 3, 1, 3, 4, 1, 1, 4, 2, 4, 5, 2]);
    // Every index addresses the (rings + 1) * (segments + 1) vertex grid.
    let indices = mather_engine::mesh::sphere_indices(8, 6);
    assert_eq!(indices.len(), 6 * 8 * 6);
    assert!(indices.iter().all(|&i| i < 7 * 9));
}
