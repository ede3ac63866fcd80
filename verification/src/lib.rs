pub mod ai;
pub mod ai_laws;
pub mod ai_panel;
pub mod ai_panel_laws;
pub mod chat;
pub mod chat_laws;
pub mod code_mode;
pub mod config;
pub mod config_file;
pub mod config_file_laws;
pub mod first_run;
pub mod first_run_laws;
pub mod keys;
pub mod mermaid_overlay;
pub mod mode_selector;
pub mod ollama;
pub mod ollama_laws;
pub mod paint;
pub mod paint_laws;
pub mod solana;
pub mod solana_laws;
pub mod text;
pub mod text_laws;
pub mod text_lemmas;
