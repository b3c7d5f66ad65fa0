//! A small real-time rendering engine core: a scene of drawable objects
//! (polygons, lights, imported models), a first-person camera, and a
//! per-frame render pass that turns every drawable into an explicit list of
//! graphics commands.
//!
//! The library is the engine's decision and data layer. Scalar quantities
//! (positions, angles, matrix cells) are carried as the raw bit patterns of
//! IEEE-754 single-precision values and are never computed on here; the
//! arithmetic that produces them (matrix composition, trigonometry) belongs
//! to the unverified shell that executes the command lists against the
//! graphics API.

pub mod camera;
pub mod commands;
pub mod control;
pub mod importer;
pub mod light;
pub mod mesh;
pub mod polygon;
pub mod primitive;
pub mod scalar;
pub mod scene;
pub mod shader;
pub mod texture;
pub mod transform;
pub mod vertex;

pub use camera::CameraMovement;
pub use camera::FirstPerson;
pub use camera::MoveAxis;
pub use camera::MoveStep;
pub use camera::OrientationAngles;
pub use camera::ProjectionRequest;
pub use camera::SpinStep;
pub use camera::ViewRequest;
pub use commands::AttributePointer;
pub use commands::MinFilter;
pub use commands::MvpParts;
pub use commands::PolygonModeKind;
pub use commands::PrimitiveUpload;
pub use commands::RenderCommand;
pub use commands::TextureUpload;
pub use commands::WrapMode;
pub use control::Control;
pub use control::ControlAction;
pub use control::InputEvent;
pub use control::Key;
pub use importer::document_fits;
pub use importer::get_vertex;
pub use importer::tex_coords_on_vertices;
pub use importer::DocumentSource;
pub use importer::GltfFormater;
pub use importer::ImportWarning;
pub use importer::Importer;
pub use importer::MeshSource;
pub use importer::PrimitiveSource;
pub use importer::TexCoordSet;
pub use light::Light;
pub use mesh::Mesh;
pub use mesh::Meshes;
pub use mesh::Model;
pub use polygon::Polygon;
pub use primitive::Primitive;
pub use scalar::copy_items;
pub use scalar::Mat4;
pub use scalar::Scalar;
pub use scalar::Vec2;
pub use scalar::Vec3;
pub use scalar::Vec4;
pub use scalar::BITS_ONE;
pub use scalar::BITS_ZERO;
pub use scene::FramePlan;
pub use scene::ObjectTypes;
pub use scene::Scene;
pub use scene::SceneObject;
pub use shader::CompileReport;
pub use shader::Shader;
pub use texture::Texture;
pub use texture::TextureError;
pub use transform::Position;
pub use transform::Rotation;
pub use transform::Scale;
pub use transform::Transform;
pub use vertex::Vertex;
