//! Decision logic of a Win32 / WGL OpenGL context-bootstrap layer.
//!
//! The platform (window system and GL driver) is an external collaborator:
//! every native call happens outside this crate. What lives here, verified,
//! is everything the layer decides on its own: how native return values and
//! the last-error code are classified, how attribute lists are validated
//! before they are handed to the driver, how the throwaway bootstrap context
//! is acquired and torn down, and how shader and program objects move
//! through their compile/link life cycle.

pub mod boolean;
pub mod bootstrap;
pub mod constants;
pub mod error_code;
pub mod gl_util;
pub mod handles;
pub mod proc_address;
pub mod program;
pub mod shader;
pub mod string_utils;
pub mod structures;
pub mod wgl;

pub use boolean::BOOL;
pub use bootstrap::Bootstrap;
pub use bootstrap::BootstrapAction;
pub use bootstrap::BootstrapEvent;
pub use bootstrap::BootstrapPhase;
pub use bootstrap::DummyResources;
pub use bootstrap::basic_pixel_format_descriptor;
pub use constants::MAKEINTRESOURCEW;
pub use constants::hiword;
pub use constants::loword;
pub use error_code::Win32Error;
pub use error_code::Win32Result;
pub use gl_util::PolygonEnum;
pub use gl_util::VertexArrayID;
pub use handles::HANDLE;
pub use handles::HBRUSH;
pub use handles::HCURSOR;
pub use handles::HDC;
pub use handles::HGLRC;
pub use handles::HICON;
pub use handles::HINSTANCE;
pub use handles::HLOCAL;
pub use handles::HMENU;
pub use handles::HMODULE;
pub use handles::HWND;
pub use program::ProgramBuild;
pub use program::ProgramBuildAction;
pub use program::ProgramBuildEvent;
pub use program::ProgramID;
pub use shader::ShaderBuild;
pub use shader::ShaderBuildAction;
pub use shader::ShaderBuildEvent;
pub use shader::ShaderEnum;
pub use shader::ShaderID;
pub use shader::ShaderObject;
pub use shader::ShaderState;
pub use string_utils::contains_substring;
pub use string_utils::gather_null_terminated_bytes;
pub use string_utils::min_alloc_lossy_into_string;
pub use string_utils::wide_null;
pub use structures::CREATESTRUCTW;
pub use structures::MSG;
pub use structures::PIXELFORMATDESCRIPTOR;
pub use structures::POINT;
pub use structures::RECT;
pub use structures::WNDCLASSEXW;
pub use wgl::AttribPair;
pub use wgl::FloatAttribPair;
pub use wgl::WglAdvancedFns;
pub use wgl::WglExtFns;
