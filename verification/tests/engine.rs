//! Exercises the engine library from outside: the tests play the shell's
//! role, doing the floating-point arithmetic that the library delegates
//! and checking the library's decisions against it.

use fuel::AttributePointer;
use fuel::CameraMovement;
use fuel::Control;
use fuel::ControlAction;
use fuel::DocumentSource;
use fuel::FirstPerson;
use fuel::ImportWarning;
use fuel::Importer;
use fuel::InputEvent;
use fuel::Key;
use fuel::Light;
use fuel::Mat4;
use fuel::MeshSource;
use fuel::MinFilter;
use fuel::MoveAxis;
use fuel::ObjectTypes;
use fuel::Polygon;
use fuel::Primitive;
use fuel::PrimitiveSource;
use fuel::RenderCommand;
use fuel::Rotation;
use fuel::Scalar;
use fuel::Scene;
use fuel::SceneObject;
use fuel::Shader;
use fuel::TexCoordSet;
use fuel::Texture;
use fuel::TextureError;
use fuel::Vec2;
use fuel::Vec3;
use fuel::Vec4;
use fuel::Vertex;
use fuel::WrapMode;
use fuel::CompileReport;

fn s(v: f32) -> Scalar {
    Scalar { bits: v.to_bits() }
}

fn f(x: Scalar) -> f32 {
    f32::from_bits(x.bits)
}

fn v3(x: f32, y: f32, z: f32) -> Vec3 {
    Vec3 { x: s(x), y: s(y), z: s(z) }
}

fn v2(x: f32, y: f32) -> Vec2 {
    Vec2 { x: s(x), y: s(y) }
}

/// Column-major 4x4 matrix as floats, for the shell-side arithmetic.
fn mat_to_floats(m: &Mat4) -> [f32; 16] {
    [
        f(m.c0.x), f(m.c0.y), f(m.c0.z), f(m.c0.w),
        f(m.c1.x), f(m.c1.y), f(m.c1.z), f(m.c1.w),
        f(m.c2.x), f(m.c2.y), f(m.c2.z), f(m.c2.w),
        f(m.c3.x), f(m.c3.y), f(m.c3.z), f(m.c3.w),
    ]
}

fn mat_mul(a: &[f32; 16], b: &[f32; 16]) -> [f32; 16] {
    let mut r = [0.0f32; 16];
    for col in 0..4 {
        for row in 0..4 {
            let mut acc = 0.0f32;
            for k in 0..4 {
                acc += a[k * 4 + row] * b[col * 4 + k];
            }
            r[col * 4 + row] = acc;
        }
    }
    r
}

/// The model matrix of a transform: translate, then rotate about x, y, z
/// in turn (angles in degrees), then a trailing uniform scale.
fn model_matrix(position: [f32; 3], rotation: [f32; 3], scale: f32) -> [f32; 16] {
    let (rx, ry, rz) = (
        rotation[0].to_radians(),
        rotation[1].to_radians(),
        rotation[2].to_radians(),
    );
    let rot_x = [
        1.0, 0.0, 0.0, 0.0,
        0.0, rx.cos(), rx.sin(), 0.0,
        0.0, -rx.sin(), rx.cos(), 0.0,
        0.0, 0.0, 0.0, 1.0,
    ];
    let rot_y = [
        ry.cos(), 0.0, -ry.sin(), 0.0,
        0.0, 1.0, 0.0, 0.0,
        ry.sin(), 0.0, ry.cos(), 0.0,
        0.0, 0.0, 0.0, 1.0,
    ];
    let rot_z = [
        rz.cos(), rz.sin(), 0.0, 0.0,
        -rz.sin(), rz.cos(), 0.0, 0.0,
        0.0, 0.0, 1.0, 0.0,
        0.0, 0.0, 0.0, 1.0,
    ];
    let translate = [
        1.0, 0.0, 0.0, 0.0,
        0.0, 1.0, 0.0, 0.0,
        0.0, 0.0, 1.0, 0.0,
        position[0], position[1], position[2], 1.0,
    ];
    let scale_m = [
        scale, 0.0, 0.0, 0.0,
        0.0, scale, 0.0, 0.0,
        0.0, 0.0, scale, 0.0,
        0.0, 0.0, 0.0, 1.0,
    ];
    let rot = mat_mul(&rot_z, &mat_mul(&rot_y, &rot_x));
    mat_mul(&mat_mul(&translate, &rot), &scale_m)
}

fn apply(m: &[f32; 16], v: [f32; 4]) -> [f32; 4] {
    let mut r = [0.0f32; 4];
    for row in 0..4 {
        r[row] = m[row] * v[0] + m[4 + row] * v[1] + m[8 + row] * v[2] + m[12 + row] * v[3];
    }
    r
}

// ---------------------------------------------------------------- camera

#[test]
fn first_spin_only_records_cursor() {
    let mut cam = FirstPerson::new((s(800.0), s(600.0)), s(45.0), s(0.1), s(100.0));
    let yaw = cam.yaw;
    let pitch = cam.pitch;
    let front = cam.front;
    let step = cam.spin_direction(s(123.0), s(456.0));
    assert!(step.is_none());
    assert_eq!(cam.yaw, yaw);
    assert_eq!(cam.pitch, pitch);
    assert_eq!(cam.front, front);
    assert_eq!(cam.last_pos, v2(123.0, 456.0));
    assert!(!cam.first_move);
}

/// Plays the shell's role for one cursor event: evaluates the rotation
/// request with floats, commits it, rebuilds the look direction.
fn shell_spin(cam: &mut FirstPerson, x: f32, y: f32) {
    if let Some(step) = cam.spin_direction(s(x), s(y)) {
        let sens = f(step.sensitivity);
        let dx = (f(step.next.x) - f(step.prev.x)) * sens;
        let dy = (f(step.prev.y) - f(step.next.y)) * sens;
        let angles = cam.commit_orientation(s(f(step.yaw) + dx), s(f(step.pitch) + dy));
        let yaw = f(angles.yaw).to_radians();
        let pitch = f(angles.pitch).to_radians();
        let front = [
            yaw.cos() * pitch.cos(),
            pitch.sin(),
            yaw.sin() * pitch.cos(),
        ];
        let norm = (front[0] * front[0] + front[1] * front[1] + front[2] * front[2]).sqrt();
        cam.set_front(v3(front[0] / norm, front[1] / norm, front[2] / norm));
    }
}

#[test]
fn pitch_stays_clamped_through_any_spin_sequence() {
    let mut cam = FirstPerson::new((s(800.0), s(600.0)), s(45.0), s(0.1), s(100.0));
    let travels = [
        (0.0, 0.0),
        (0.0, -100000.0),
        (50.0, -200000.0),
        (50.0, 400000.0),
        (-30.0, 0.5),
        (9999.0, -9999.0),
        (9999.0, -9000.0),
    ];
    for (x, y) in travels {
        shell_spin(&mut cam, x, y);
        let pitch = f(cam.pitch);
        assert!(pitch >= -89.0 && pitch <= 89.0, "pitch {} out of range", pitch);
    }
}

#[test]
fn pitch_clamps_exactly_to_the_bounds() {
    let mut cam = FirstPerson::new((s(800.0), s(600.0)), s(45.0), s(0.1), s(100.0));
    // Prime the cursor, then travel far enough downward-screen to push the
    // candidate pitch far above 89 degrees.
    assert!(cam.spin_direction(s(0.0), s(0.0)).is_none());
    shell_spin(&mut cam, 0.0, -100000.0);
    assert_eq!(f(cam.pitch), 89.0);
    shell_spin(&mut cam, 0.0, 300000.0);
    assert_eq!(f(cam.pitch), -89.0);
}

#[test]
fn front_is_unit_length_after_spins() {
    let mut cam = FirstPerson::new((s(800.0), s(600.0)), s(45.0), s(0.1), s(100.0));
    shell_spin(&mut cam, 400.0, 300.0);
    for (x, y) in [(410.0, 290.0), (300.0, 500.0), (1000.0, -200.0), (0.0, 0.0)] {
        shell_spin(&mut cam, x, y);
        let n = f(cam.front.x).powi(2) + f(cam.front.y).powi(2) + f(cam.front.z).powi(2);
        assert!((n.sqrt() - 1.0).abs() < 1e-5);
    }
}

#[test]
fn fresh_camera_looks_down_negative_depth() {
    let cam = FirstPerson::new((s(800.0), s(600.0)), s(45.0), s(0.1), s(100.0));
    assert_eq!(cam.front, v3(0.0, 0.0, -1.0));
    assert_eq!(cam.up, v3(0.0, 1.0, 0.0));
    assert_eq!(f(cam.yaw), -90.0);
    assert_eq!(f(cam.pitch), 0.0);
    assert_eq!(cam.position, v3(0.0, 0.0, 0.0));
    assert_eq!(f(cam.speed), 2.5);
    assert!(cam.first_move);
}

/// Plays the shell's role for one movement request.
fn shell_move(cam: &mut FirstPerson, movement: CameraMovement) {
    let step = cam.move_direction(&movement);
    let d = f(step.speed) * f(step.delta_time);
    let dir = match step.axis {
        MoveAxis::Along { front } => [f(front.x), f(front.y), f(front.z)],
        MoveAxis::Strafe { front, up } => {
            let fv = [f(front.x), f(front.y), f(front.z)];
            let uv = [f(up.x), f(up.y), f(up.z)];
            let cross = [
                fv[1] * uv[2] - fv[2] * uv[1],
                fv[2] * uv[0] - fv[0] * uv[2],
                fv[0] * uv[1] - fv[1] * uv[0],
            ];
            let n = (cross[0] * cross[0] + cross[1] * cross[1] + cross[2] * cross[2]).sqrt();
            [cross[0] / n, cross[1] / n, cross[2] / n]
        }
    };
    let sign = if step.backwards { -1.0 } else { 1.0 };
    let new = [
        f(step.base.x) + sign * d * dir[0],
        f(step.base.y) + sign * d * dir[1],
        f(step.base.z) + sign * d * dir[2],
    ];
    cam.set_position(v3(new[0], new[1], new[2]));
}

#[test]
fn forward_move_displaces_along_front() {
    let mut cam = FirstPerson::new((s(800.0), s(600.0)), s(45.0), s(0.1), s(100.0));
    cam.set_dt(s(1.0));
    shell_move(&mut cam, CameraMovement::FORWARD);
    assert_eq!(cam.position, v3(0.0, 0.0, -2.5));
}

#[test]
fn strafe_moves_sideways() {
    let mut cam = FirstPerson::new((s(800.0), s(600.0)), s(45.0), s(0.1), s(100.0));
    cam.set_dt(s(2.0));
    shell_move(&mut cam, CameraMovement::RIGHT);
    // cross((0,0,-1), (0,1,0)) = (1, 0, 0)
    assert_eq!(cam.position, v3(5.0, 0.0, 0.0));
    shell_move(&mut cam, CameraMovement::LEFT);
    assert_eq!(cam.position, v3(0.0, 0.0, 0.0));
    shell_move(&mut cam, CameraMovement::BACKWARD);
    assert_eq!(cam.position, v3(0.0, 0.0, 5.0));
}

#[test]
fn view_and_projection_requests_carry_camera_state() {
    let cam = FirstPerson::new((s(800.0), s(600.0)), s(45.0), s(0.1), s(100.0));
    let view = cam.get_view();
    assert_eq!(view.eye, cam.position);
    assert_eq!(view.front, cam.front);
    assert_eq!(view.up, cam.up);
    let proj = cam.get_projection();
    assert_eq!(f(proj.width), 800.0);
    assert_eq!(f(proj.height), 600.0);
    assert_eq!(f(proj.fovy), 45.0);
    assert_eq!(f(proj.znear), 0.1);
    assert_eq!(f(proj.zfar), 100.0);
}

// ----------------------------------------------------------------- scene

fn test_polygon() -> Polygon {
    let quad: Vec<Scalar> = vec![
        s(0.0), s(0.0), s(0.0), s(0.0), s(0.0),
        s(1.0), s(0.0), s(0.0), s(1.0), s(0.0),
        s(1.0), s(1.0), s(0.0), s(1.0), s(1.0),
    ];
    let (polygon, _upload) = Polygon::new(quad, Shader::new(7), None);
    polygon
}

#[test]
fn scene_ids_are_fresh_and_resolve_to_their_drawable() {
    let mut scene = Scene::new(s(800.0), s(600.0), s(45.0), s(0.1), s(100.0));
    let (light, _) = Light::new(Shader::new(3));
    let a = scene.add(SceneObject::Polygon(test_polygon()));
    let b = scene.add(SceneObject::Light(light));
    let c = scene.add(SceneObject::Polygon(test_polygon()));
    assert_ne!(a, b);
    assert_ne!(a, c);
    assert_ne!(b, c);
    assert_eq!(scene.get_object(a).unwrap().get_type(), ObjectTypes::POLYGON);
    assert_eq!(scene.get_object(b).unwrap().get_type(), ObjectTypes::LIGHT);
    let unknown = a ^ b ^ c ^ 0x5A5A_5A5A;
    if unknown != a && unknown != b && unknown != c {
        assert!(scene.get_object(unknown).is_none());
    }
}

#[test]
fn get_object_mutates_the_stored_drawable() {
    let mut scene = Scene::new(s(800.0), s(600.0), s(45.0), s(0.1), s(100.0));
    let id = scene.add(SceneObject::Polygon(test_polygon()));
    scene.get_object(id).unwrap().set_position(s(1.0), s(2.0), s(3.0));
    match scene.get_object(id).unwrap() {
        SceneObject::Polygon(p) => {
            assert_eq!(p.transform.position.get(), v3(1.0, 2.0, 3.0));
        }
        _ => panic!("wrong drawable"),
    }
}

#[test]
fn polygon_mode_commands() {
    let scene = Scene::new(s(800.0), s(600.0), s(45.0), s(0.1), s(100.0));
    assert_eq!(scene.set_fill_mode(), fuel::PolygonModeKind::Fill);
    assert_eq!(scene.set_line_mode(), fuel::PolygonModeKind::Line);
    assert_eq!(scene.set_point_mode(), fuel::PolygonModeKind::Point);
}

#[test]
fn identity_scene_renders_identity_mvp() {
    let mut scene = Scene::new(s(800.0), s(600.0), s(45.0), s(0.1), s(100.0));
    let mut polygon = test_polygon();
    polygon.transform.rotation = Rotation { x: s(0.0), y: s(0.0), z: s(0.0) };
    scene.add(SceneObject::Polygon(polygon));
    let plan = scene.render(Mat4::identity(), Mat4::identity());
    assert_eq!(plan.clear_color, Vec4 { x: s(0.0), y: s(0.0), z: s(0.0), w: s(0.0) });
    assert!(plan.clear_depth);
    let mvp_parts = plan
        .commands
        .iter()
        .find_map(|c| match c {
            RenderCommand::SetMvp { parts, .. } => Some(parts.clone()),
            _ => None,
        })
        .expect("no mvp command in the plan");
    let (pos, rot, scale) = mvp_parts.model.get();
    let model = model_matrix(
        [f(pos.x), f(pos.y), f(pos.z)],
        [f(rot.x), f(rot.y), f(rot.z)],
        f(scale),
    );
    let mvp = mat_mul(
        &mat_to_floats(&mvp_parts.projection),
        &mat_mul(&mat_to_floats(&mvp_parts.view_matrix), &model),
    );
    let identity = mat_to_floats(&Mat4::identity());
    for i in 0..16 {
        assert!((mvp[i] - identity[i]).abs() < 1e-6, "cell {} is {}", i, mvp[i]);
    }
}

#[test]
fn render_model_applies_translation_and_rotation() {
    // The model matrix that render requests for a transform carries the
    // translation exactly and turns the axes before scaling.
    let mut polygon = test_polygon();
    polygon.set_position(s(1.0), s(2.0), s(3.0));
    polygon.transform.rotation = Rotation { x: s(0.0), y: s(90.0), z: s(0.0) };
    polygon.set_scale(s(2.0));
    let cmds = polygon.render(Mat4::identity(), Mat4::identity());
    let parts = cmds
        .iter()
        .find_map(|c| match c {
            RenderCommand::SetMvp { parts, .. } => Some(parts.clone()),
            _ => None,
        })
        .unwrap();
    let (pos, rot, scale) = parts.model.get();
    let model = model_matrix(
        [f(pos.x), f(pos.y), f(pos.z)],
        [f(rot.x), f(rot.y), f(rot.z)],
        f(scale),
    );
    // The local origin lands on the transform's position.
    let origin = apply(&model, [0.0, 0.0, 0.0, 1.0]);
    assert!((origin[0] - 1.0).abs() < 1e-5);
    assert!((origin[1] - 2.0).abs() < 1e-5);
    assert!((origin[2] - 3.0).abs() < 1e-5);
    // A unit x-axis vector is turned 90 degrees about y (to -z), scaled by
    // 2, before the translation applies.
    let x_axis = apply(&model, [1.0, 0.0, 0.0, 0.0]);
    assert!((x_axis[0] - 0.0).abs() < 1e-5);
    assert!((x_axis[1] - 0.0).abs() < 1e-5);
    assert!((x_axis[2] - -2.0).abs() < 1e-5);
}

#[test]
fn scene_renders_objects_in_insertion_order() {
    let mut scene = Scene::new(s(800.0), s(600.0), s(45.0), s(0.1), s(100.0));
    let (light, _) = Light::new(Shader::new(11));
    scene.add(SceneObject::Polygon(test_polygon()));
    scene.add(SceneObject::Light(light));
    let plan = scene.render(Mat4::identity(), Mat4::identity());
    let programs: Vec<u32> = plan
        .commands
        .iter()
        .filter_map(|c| match c {
            RenderCommand::UseProgram { program } => Some(*program),
            _ => None,
        })
        .collect();
    assert_eq!(programs, vec![7, 11]);
}

// -------------------------------------------------------------- importer

fn doc_one_primitive(
    positions: Vec<Vec3>,
    tex: Vec<TexCoordSet>,
    indices: Option<Vec<u32>>,
) -> DocumentSource {
    DocumentSource {
        meshes: vec![MeshSource {
            primitives: vec![PrimitiveSource { positions, tex_coords: tex, indices }],
        }],
    }
}

#[test]
fn import_builds_one_mesh_per_definition() {
    let mesh = |dx: f32| MeshSource {
        primitives: vec![PrimitiveSource {
            positions: vec![v3(dx, 0.0, 0.0), v3(dx, 1.0, 0.0), v3(dx, 0.0, 1.0)],
            tex_coords: vec![TexCoordSet {
                channel: 0,
                coords: vec![v2(0.0, 0.0), v2(0.5, 0.5), v2(1.0, 1.0)],
            }],
            indices: None,
        }],
    };
    let doc = DocumentSource { meshes: vec![mesh(0.0), mesh(5.0)] };
    let (model, warnings, uploads) = Importer::from_gltf(&doc, Shader::new(2));
    assert!(warnings.is_empty());
    assert_eq!(model.meshes.len(), 2);
    assert_eq!(uploads.len(), 2);
    for m in 0..2 {
        assert_eq!(model.meshes[m].primitives.len(), 1);
        let prim = &model.meshes[m].primitives[0];
        assert_eq!(prim.num_vertices, 3);
        assert_eq!(prim.num_indices, 0);
        assert!(prim.ebo.is_none());
        // Interleaved upload: position then the first coordinate channel.
        let data = &uploads[m][0].vertex_data;
        assert_eq!(data.len(), 15);
        assert_eq!(f(data[3]), 0.0);
        assert_eq!(f(data[4]), 0.0);
        assert_eq!(f(data[8]), 0.5);
        assert_eq!(f(data[9]), 0.5);
        assert_eq!(f(data[13]), 1.0);
        assert_eq!(f(data[14]), 1.0);
    }
    // The model starts at the identity placement.
    assert_eq!(f(model.transform.scale.get()), 1.0);
    assert_eq!(model.transform.position.get(), v3(0.0, 0.0, 0.0));
}

#[test]
fn import_passes_indices_through() {
    let doc = doc_one_primitive(
        vec![v3(0.0, 0.0, 0.0), v3(1.0, 0.0, 0.0), v3(0.0, 1.0, 0.0)],
        vec![],
        Some(vec![0, 1, 2, 2, 1, 0]),
    );
    let (model, warnings, uploads) = Importer::from_gltf(&doc, Shader::new(2));
    assert!(warnings.is_empty());
    let prim = &model.meshes[0].primitives[0];
    assert_eq!(prim.num_indices, 6);
    assert_eq!(uploads[0][0].indices.as_deref(), Some(&[0, 1, 2, 2, 1, 0][..]));
}

#[test]
fn imported_vertices_get_placeholder_normals_and_zero_coords() {
    let vertices = fuel::get_vertex(&vec![v3(1.0, 2.0, 3.0), v3(4.0, 5.0, 6.0)]);
    assert_eq!(vertices.len(), 2);
    for (i, v) in vertices.iter().enumerate() {
        assert_eq!(v.position, [v3(1.0, 2.0, 3.0), v3(4.0, 5.0, 6.0)][i]);
        assert_eq!(v.normal, v3(1.0, 1.0, 1.0));
        assert_eq!(v.tex_coord_0, v2(0.0, 0.0));
        assert_eq!(v.tex_coord_1, v2(0.0, 0.0));
    }
}

#[test]
fn tex_coords_scatter_onto_their_channel() {
    let mut vertices = fuel::get_vertex(&vec![v3(0.0, 0.0, 0.0), v3(1.0, 0.0, 0.0)]);
    let w = fuel::tex_coords_on_vertices(&vec![v2(0.25, 0.75), v2(0.5, 1.0)], 0, &mut vertices);
    assert!(w.is_none());
    assert_eq!(vertices[0].tex_coord_0, v2(0.25, 0.75));
    assert_eq!(vertices[1].tex_coord_0, v2(0.5, 1.0));
    assert_eq!(vertices[0].tex_coord_1, v2(0.0, 0.0));
    assert_eq!(vertices[1].tex_coord_1, v2(0.0, 0.0));
    let w = fuel::tex_coords_on_vertices(&vec![v2(0.1, 0.2), v2(0.3, 0.4)], 1, &mut vertices);
    assert!(w.is_none());
    assert_eq!(vertices[0].tex_coord_1, v2(0.1, 0.2));
    assert_eq!(vertices[1].tex_coord_1, v2(0.3, 0.4));
    // Channel zero kept what it had.
    assert_eq!(vertices[0].tex_coord_0, v2(0.25, 0.75));
}

#[test]
fn tex_coord_channel_two_is_rejected_with_a_warning() {
    let mut vertices = fuel::get_vertex(&vec![v3(0.0, 0.0, 0.0), v3(1.0, 0.0, 0.0)]);
    let before = vertices.clone();
    let w = fuel::tex_coords_on_vertices(&vec![v2(0.9, 0.9), v2(0.8, 0.8)], 2, &mut vertices);
    assert_eq!(w, Some(ImportWarning::TexCoordChannelUnsupported { channel: 2 }));
    assert_eq!(vertices, before);
}

#[test]
fn import_with_channel_two_warns_and_keeps_other_channels() {
    let doc = doc_one_primitive(
        vec![v3(0.0, 0.0, 0.0), v3(1.0, 0.0, 0.0)],
        vec![
            TexCoordSet { channel: 0, coords: vec![v2(0.25, 0.5), v2(0.75, 1.0)] },
            TexCoordSet { channel: 2, coords: vec![v2(0.9, 0.9), v2(0.8, 0.8)] },
        ],
        None,
    );
    let (model, warnings, uploads) = Importer::from_gltf(&doc, Shader::new(2));
    assert_eq!(
        warnings,
        vec![ImportWarning::TexCoordChannelUnsupported { channel: 2 }]
    );
    assert_eq!(model.meshes.len(), 1);
    let data = &uploads[0][0].vertex_data;
    // Channel zero landed in the interleaved buffer untouched by the
    // rejected stream.
    assert_eq!(f(data[3]), 0.25);
    assert_eq!(f(data[4]), 0.5);
    assert_eq!(f(data[8]), 0.75);
    assert_eq!(f(data[9]), 1.0);
}

// --------------------------------------------------------------- texture

#[test]
fn texture_rejects_wrong_pixel_count() {
    let r = Texture::from_pixels(2, 2, vec![0u8; 11]);
    assert_eq!(r.unwrap_err(), TextureError::PixelSizeMismatch);
}

#[test]
fn texture_upload_carries_sampling_parameters() {
    let (texture, upload) = Texture::from_pixels(2, 1, vec![1, 2, 3, 4, 5, 6]).unwrap();
    assert_eq!(texture.width, 2);
    assert_eq!(texture.height, 1);
    assert!(texture.is_texture_activated);
    assert_eq!(upload.pixels, vec![1, 2, 3, 4, 5, 6]);
    assert_eq!(upload.wrap_s, WrapMode::MirroredRepeat);
    assert_eq!(upload.wrap_t, WrapMode::MirroredRepeat);
    assert_eq!(upload.min_filter, MinFilter::LinearMipmapLinear);
    assert!(upload.generate_mipmaps);
}

#[test]
fn texture_binds_itself_only_while_enabled() {
    let (mut texture, _) = Texture::from_pixels(1, 1, vec![0, 0, 0]).unwrap();
    texture.attach(9);
    assert_eq!(texture.render(), RenderCommand::BindTexture { texture: 9 });
    texture.set_texture_off();
    assert_eq!(texture.render(), RenderCommand::BindTexture { texture: 0 });
    texture.set_texture_true();
    assert_eq!(texture.render(), RenderCommand::BindTexture { texture: 9 });
}

// -------------------------------------------------------------- shader

#[test]
fn shader_build_uses_linked_program_when_both_stages_compile() {
    let (shader, diagnostics) = Shader::from_build(
        CompileReport { handle: 1, log: None },
        CompileReport { handle: 2, log: None },
        42,
    );
    assert_eq!(shader.id, 42);
    assert!(diagnostics.is_empty());
}

#[test]
fn shader_build_falls_back_to_null_program_on_failure() {
    let (shader, diagnostics) = Shader::from_build(
        CompileReport { handle: 1, log: Some("bad vertex".to_string()) },
        CompileReport { handle: 2, log: None },
        42,
    );
    assert_eq!(shader.id, 0);
    assert_eq!(diagnostics, vec!["bad vertex".to_string()]);
    let (shader, diagnostics) = Shader::from_build(
        CompileReport { handle: 1, log: Some("bad vertex".to_string()) },
        CompileReport { handle: 2, log: Some("bad fragment".to_string()) },
        42,
    );
    assert_eq!(shader.id, 0);
    assert_eq!(diagnostics, vec!["bad vertex".to_string(), "bad fragment".to_string()]);
}

#[test]
fn uniform_commands_carry_program_name_and_value() {
    let shader = Shader::new(5);
    assert_eq!(shader.use_program(), RenderCommand::UseProgram { program: 5 });
    assert_eq!(
        shader.set_bool("lit", true),
        RenderCommand::SetBool { program: 5, name: "lit".to_string(), value: true }
    );
    assert_eq!(
        shader.set_int("count", -3),
        RenderCommand::SetInt { program: 5, name: "count".to_string(), value: -3 }
    );
    assert_eq!(
        shader.set_float("gain", s(1.5)),
        RenderCommand::SetFloat { program: 5, name: "gain".to_string(), value: s(1.5) }
    );
    assert_eq!(
        shader.set_color("tint", Vec4 { x: s(1.0), y: s(0.5), z: s(0.0), w: s(1.0) }),
        RenderCommand::SetVec4 {
            program: 5,
            name: "tint".to_string(),
            value: Vec4 { x: s(1.0), y: s(0.5), z: s(0.0), w: s(1.0) },
        }
    );
    assert_eq!(
        shader.set_transform(Mat4::identity()),
        RenderCommand::SetMat4 {
            program: 5,
            name: "transform".to_string(),
            matrix: Mat4::identity(),
        }
    );
}

// ------------------------------------------------------------ primitives

fn two_vertices() -> Vec<Vertex> {
    vec![
        Vertex {
            position: v3(1.0, 2.0, 3.0),
            normal: v3(1.0, 1.0, 1.0),
            tex_coord_0: v2(0.25, 0.75),
            tex_coord_1: v2(0.0, 0.0),
        },
        Vertex {
            position: v3(4.0, 5.0, 6.0),
            normal: v3(1.0, 1.0, 1.0),
            tex_coord_0: v2(0.5, 1.0),
            tex_coord_1: v2(0.0, 0.0),
        },
    ]
}

#[test]
fn primitive_interleaves_positions_and_first_channel() {
    let (prim, upload) = Primitive::new(&two_vertices(), None, Shader::new(4));
    assert_eq!(prim.num_vertices, 2);
    assert_eq!(prim.num_indices, 0);
    let floats: Vec<f32> = upload.vertex_data.iter().map(|x| f(*x)).collect();
    assert_eq!(
        floats,
        vec![1.0, 2.0, 3.0, 0.25, 0.75, 4.0, 5.0, 6.0, 0.5, 1.0]
    );
    assert_eq!(
        upload.attributes,
        vec![
            AttributePointer { location: 0, components: 3, offset: 0, stride: 5 },
            AttributePointer { location: 1, components: 2, offset: 3, stride: 5 },
        ]
    );
}

#[test]
fn indexed_primitive_draws_elements() {
    let (mut prim, upload) = Primitive::new(&two_vertices(), Some(vec![0, 1, 0]), Shader::new(4));
    assert_eq!(upload.indices, Some(vec![0, 1, 0]));
    prim.attach(10, 11, Some(12));
    let cmds = prim.shader_config(
        Mat4::identity(),
        Mat4::identity(),
        &fuel::Transform::default(),
    );
    assert_eq!(cmds.len(), 4);
    assert_eq!(cmds[0], RenderCommand::UseProgram { program: 4 });
    assert_eq!(cmds[2], RenderCommand::BindVertexArray { vao: 10 });
    assert_eq!(cmds[3], RenderCommand::DrawElements { count: 3 });
}

#[test]
fn plain_primitive_draws_all_vertices() {
    let (mut prim, _upload) = Primitive::new(&two_vertices(), None, Shader::new(4));
    prim.attach(10, 11, None);
    let cmds = prim.shader_config(
        Mat4::identity(),
        Mat4::identity(),
        &fuel::Transform::default(),
    );
    assert_eq!(cmds[3], RenderCommand::DrawArrays { first: 0, count: 2 });
}

// ---------------------------------------------------------------- light

#[test]
fn light_carries_the_fixed_cube() {
    let (light, upload) = Light::new(Shader::new(6));
    assert_eq!(light.vertices.len(), 180);
    assert_eq!(upload.vertex_data.len(), 180);
    assert!(upload.indices.is_none());
    assert_eq!(light.get_vertices().len(), 180);
    assert_eq!(light.get_type(), ObjectTypes::LIGHT);
    // Default placement: origin, turned minus five degrees, unit scale.
    assert_eq!(light.transform.position.get(), v3(0.0, 0.0, 0.0));
    assert_eq!(light.transform.rotation.get(), v3(0.0, -5.0, 0.0));
    assert_eq!(f(light.transform.scale.get()), 1.0);
}

#[test]
fn light_renders_thirty_six_vertices() {
    let (mut light, _) = Light::new(Shader::new(6));
    light.attach(21, 22);
    let cmds = light.render(Mat4::identity(), Mat4::identity());
    assert_eq!(cmds.len(), 4);
    assert_eq!(cmds[0], RenderCommand::UseProgram { program: 6 });
    assert_eq!(cmds[2], RenderCommand::BindVertexArray { vao: 21 });
    assert_eq!(cmds[3], RenderCommand::DrawArrays { first: 0, count: 36 });
}

#[test]
fn drawable_tint_binds_shader_and_sets_colour() {
    let (light, _) = Light::new(Shader::new(6));
    let cmds = SceneObject::Light(light).set_color("lightColor", v3(1.0, 0.5, 0.25));
    assert_eq!(cmds.len(), 2);
    assert_eq!(cmds[0], RenderCommand::UseProgram { program: 6 });
    assert_eq!(
        cmds[1],
        RenderCommand::SetVec4 {
            program: 6,
            name: "lightColor".to_string(),
            value: Vec4 { x: s(1.0), y: s(0.5), z: s(0.25), w: s(1.0) },
        }
    );
}

#[test]
fn model_ignores_tint_and_scale_by_design() {
    let doc = doc_one_primitive(vec![v3(0.0, 0.0, 0.0)], vec![], None);
    let (model, _, _) = Importer::from_gltf(&doc, Shader::new(2));
    let scale_before = model.transform.scale;
    let mut obj = SceneObject::Model(model);
    assert!(obj.set_color("tint", v3(1.0, 1.0, 1.0)).is_empty());
    obj.set_scale(s(9.0));
    match obj {
        SceneObject::Model(m) => assert_eq!(m.transform.scale, scale_before),
        _ => unreachable!(),
    }
}

#[test]
fn polygon_draws_its_own_vertex_count_with_texture_bound() {
    let quad: Vec<Scalar> = (0..10).map(|i| s(i as f32)).collect();
    let (texture, _) = Texture::from_pixels(1, 1, vec![0, 0, 0]).unwrap();
    let (mut polygon, upload) = Polygon::new(quad.clone(), Shader::new(8), Some(texture));
    assert_eq!(upload.vertex_data, quad);
    assert_eq!(polygon.num_vertices, 2);
    polygon.attach(31, 32);
    let cmds = polygon.render(Mat4::identity(), Mat4::identity());
    assert_eq!(cmds.len(), 5);
    assert_eq!(cmds[0], RenderCommand::UseProgram { program: 8 });
    assert_eq!(cmds[2], RenderCommand::BindTexture { texture: 0 });
    assert_eq!(cmds[3], RenderCommand::BindVertexArray { vao: 31 });
    assert_eq!(cmds[4], RenderCommand::DrawArrays { first: 0, count: 2 });
    // A fresh polygon stands turned five degrees about the vertical axis.
    assert_eq!(polygon.transform.rotation.get(), v3(0.0, 5.0, 0.0));
}

// --------------------------------------------------------------- control

#[test]
fn keys_map_to_their_actions() {
    let mut control = Control::new();
    assert!(control.is_running);
    let cases = [
        (Key::W, ControlAction::Move { movement: CameraMovement::FORWARD }),
        (Key::S, ControlAction::Move { movement: CameraMovement::BACKWARD }),
        (Key::A, ControlAction::Move { movement: CameraMovement::LEFT }),
        (Key::D, ControlAction::Move { movement: CameraMovement::RIGHT }),
        (Key::F, ControlAction::SetFillMode),
        (Key::P, ControlAction::SetLineMode),
        (Key::L, ControlAction::SetPointMode),
    ];
    for (key, action) in cases {
        assert_eq!(control.process_inputs(&InputEvent::KeyPressed { key }), Some(action));
        assert!(control.is_running);
    }
    assert_eq!(control.process_inputs(&InputEvent::KeyPressed { key: Key::Other }), None);
    assert!(control.is_running);
}

#[test]
fn escape_and_close_stop_the_loop() {
    let mut control = Control::new();
    assert_eq!(
        control.process_inputs(&InputEvent::KeyPressed { key: Key::Escape }),
        None
    );
    assert!(!control.is_running);
    let mut control = Control::new();
    assert_eq!(control.process_inputs(&InputEvent::CloseRequested), None);
    assert!(!control.is_running);
}

#[test]
fn cursor_spins_only_while_right_button_is_held() {
    let mut control = Control::new();
    assert_eq!(
        control.process_inputs(&InputEvent::CursorMoved { x: s(5.0), y: s(6.0) }),
        None
    );
    control.process_inputs(&InputEvent::MouseRightButton { pressed: true });
    assert_eq!(
        control.process_inputs(&InputEvent::CursorMoved { x: s(5.0), y: s(6.0) }),
        Some(ControlAction::Spin { x: s(5.0), y: s(6.0) })
    );
    control.process_inputs(&InputEvent::MouseRightButton { pressed: false });
    assert_eq!(
        control.process_inputs(&InputEvent::CursorMoved { x: s(7.0), y: s(8.0) }),
        None
    );
}

#[test]
fn resize_is_passed_through() {
    let mut control = Control::new();
    assert_eq!(
        control.process_inputs(&InputEvent::Resized { width: 640, height: 480 }),
        Some(ControlAction::Resize { width: 640, height: 480 })
    );
}

#[test]
fn stop_clears_the_running_flag() {
    let mut control = Control::new();
    control.stop();
    assert!(!control.is_running);
}

// ---------------------------------------------------------------- values

#[test]
fn transform_defaults_to_identity_placement() {
    let t = fuel::Transform::default();
    let (pos, rot, scale) = t.get();
    assert_eq!(pos, v3(0.0, 0.0, 0.0));
    assert_eq!(rot, v3(0.0, 0.0, 0.0));
    assert_eq!(f(scale), 1.0);
}

#[test]
fn position_and_rotation_setters_replace_components() {
    let mut p = fuel::Position::new();
    p.set(s(1.0), s(-2.0), s(3.5));
    assert_eq!(p.get(), v3(1.0, -2.0, 3.5));
    let mut r = fuel::Rotation::new_with_default(s(10.0), s(20.0), s(30.0));
    assert_eq!(r.get(), v3(10.0, 20.0, 30.0));
    r.set(s(0.0), s(0.0), s(0.0));
    assert_eq!(r.get(), v3(0.0, 0.0, 0.0));
    let mut sc = fuel::Scale::new();
    assert_eq!(f(sc.get()), 1.0);
    sc.set(s(0.5));
    assert_eq!(f(sc.get()), 0.5);
}

#[test]
fn vertex_position_as_array() {
    let vertex = Vertex {
        position: v3(7.0, 8.0, 9.0),
        normal: v3(1.0, 1.0, 1.0),
        tex_coord_0: v2(0.0, 0.0),
        tex_coord_1: v2(0.0, 0.0),
    };
    assert_eq!(vertex.pos_to_array(), [s(7.0), s(8.0), s(9.0)]);
}

#[test]
fn identity_matrix_cells() {
    let identity = mat_to_floats(&Mat4::identity());
    for col in 0..4 {
        for row in 0..4 {
            let expected = if col == row { 1.0 } else { 0.0 };
            assert_eq!(identity[col * 4 + row], expected);
        }
    }
}

#[test]
fn empty_document_imports_to_empty_model() {
    let doc = DocumentSource { meshes: vec![] };
    let (model, warnings, uploads) = Importer::from_gltf(&doc, Shader::new(2));
    assert!(model.meshes.is_empty());
    assert!(warnings.is_empty());
    assert!(uploads.is_empty());
}

#[test]
fn missing_positions_give_the_degenerate_empty_vertex_list() {
    // An absent position stream arrives as an empty list: the primitive is
    // silently degenerate, not an error.
    let doc = doc_one_primitive(vec![], vec![], None);
    let (model, warnings, uploads) = Importer::from_gltf(&doc, Shader::new(2));
    assert!(warnings.is_empty());
    assert_eq!(model.meshes[0].primitives[0].num_vertices, 0);
    assert!(uploads[0][0].vertex_data.is_empty());
}

#[test]
fn zero_scale_is_legal() {
    let mut polygon = test_polygon();
    polygon.set_scale(s(0.0));
    assert_eq!(f(polygon.transform.scale.get()), 0.0);
}

#[test]
fn partial_vertex_data_counts_whole_vertices() {
    // Seven scalars hold one whole five-scalar vertex.
    let data: Vec<Scalar> = (0..7).map(|i| s(i as f32)).collect();
    let (polygon, _) = Polygon::new(data, Shader::new(1), None);
    assert_eq!(polygon.num_vertices, 1);
}

#[test]
fn imported_model_renders_indexed_draws_through_the_scene() {
    let doc = doc_one_primitive(
        vec![v3(0.0, 0.0, 0.0), v3(1.0, 0.0, 0.0), v3(0.0, 1.0, 0.0)],
        vec![],
        Some(vec![0, 1, 2, 2, 1, 0]),
    );
    let (mut model, _, _) = Importer::from_gltf(&doc, Shader::new(13));
    model.meshes[0].primitives[0].attach(41, 42, Some(43));
    let mut scene = Scene::new(s(800.0), s(600.0), s(45.0), s(0.1), s(100.0));
    let id = scene.add(SceneObject::Model(model));
    scene.get_object(id).unwrap().set_position(s(2.0), s(0.0), s(0.0));
    let plan = scene.render(Mat4::identity(), Mat4::identity());
    assert_eq!(plan.commands.len(), 4);
    assert_eq!(plan.commands[0], RenderCommand::UseProgram { program: 13 });
    match &plan.commands[1] {
        RenderCommand::SetMvp { program, parts } => {
            assert_eq!(*program, 13);
            // The model was repositioned through the scene before the frame.
            assert_eq!(parts.model.position.get(), v3(2.0, 0.0, 0.0));
        }
        other => panic!("expected the mvp command, got {:?}", other),
    }
    assert_eq!(plan.commands[2], RenderCommand::BindVertexArray { vao: 41 });
    assert_eq!(plan.commands[3], RenderCommand::DrawElements { count: 6 });
}

#[test]
fn default_vertex_carries_the_placeholder_normal() {
    let vertex = Vertex::default();
    assert_eq!(vertex.position, v3(0.0, 0.0, 0.0));
    assert_eq!(vertex.normal, v3(1.0, 1.0, 1.0));
    assert_eq!(vertex.tex_coord_0, v2(0.0, 0.0));
    assert_eq!(vertex.tex_coord_1, v2(0.0, 0.0));
}
