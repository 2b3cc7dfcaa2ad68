//! Model packages: their manifests, their evidence and the graphs that they are mounted from.

pub mod evidence;
pub mod graph;
pub mod integrity;
pub mod json;
pub mod loading;
pub mod manifest;
pub mod mount;
pub mod processors;
pub mod runtime_graph;
pub mod shaders;
