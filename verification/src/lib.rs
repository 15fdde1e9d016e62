//! The core of the Astrix client: what its events, controls, encoders and
//! capture do, apart from drawing, the network and the system's graphics calls.

pub mod app;
pub mod avatar;
pub mod bottom_panel;
pub mod capture_laws;
pub mod channel_panel;
pub mod chat_panel;
pub mod console_panel;
pub mod crypto;
pub mod d3d11;
pub mod d3d11_gl_interop;
pub mod d3d11_i420;
pub mod d3d11_nv12;
pub mod d3d11_rgba;
pub mod deep_links;
pub mod denoise;
pub mod dxgi_duplication;
pub mod encoded_h264;
pub mod encoder_laws;
pub mod event_laws;
pub mod gpu_device;
pub mod gpu_timeline;
pub mod graphics_laws;
pub mod guild_panel;
pub mod h264;
pub mod headless;
pub mod measure_laws;
pub mod member_panel;
pub mod mft_device;
pub mod mft_encoder;
pub mod mft_setup;
pub mod minimal_dxgi_process;
pub mod net;
pub mod panel_laws;
pub mod pictures;
pub mod probe;
pub mod rows;
pub mod start_laws;
pub mod state;
pub mod text;
pub mod text_laws;
pub mod ws_events;
