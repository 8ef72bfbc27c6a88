//! The state, rules and screen contents of a terminal DJ mixer.
pub mod act_kinds;
pub mod actions;
pub mod app;
pub mod app_keys;
pub mod blit;
pub mod boxes;
pub mod browse_laws;
pub mod browse_steps;
pub mod catalog;
pub mod claude_screen;
pub mod clicks;
pub mod clock;
pub mod command;
pub mod compat;
pub mod config;
pub mod control_places;
pub mod control_rows;
pub mod controller;
pub mod controls;
pub mod dashboard;
pub mod deck;
pub mod deck_laws;
pub mod deck_lines;
pub mod dispatch;
pub mod dj_answer_laws;
pub mod dj_app;
pub mod dj_context;
pub mod dj_laws;
pub mod dj_tools;
pub mod download;
pub mod effects;
pub mod frame;
pub mod help;
pub mod hints;
pub mod inputs;
pub mod key;
pub mod key_laws;
pub mod keymap;
pub mod keymap_laws;
pub mod layout;
pub mod list_laws;
pub mod logs;
pub mod menu_laws;
pub mod menus;
pub mod message_laws;
pub mod meter_laws;
pub mod meters;
pub mod midi_learn;
pub mod mixer;
pub mod mixer_laws;
pub mod modals;
pub mod mouse;
pub mod nav;
pub mod numbers;
pub mod overlay_keys;
pub mod panel_laws;
pub mod panels;
pub mod paths;
pub mod pipeline;
pub mod place_laws;
pub mod ratings;
pub mod readings;
pub mod remote;
pub mod remote_config_laws;
pub mod remote_deck;
pub mod remote_laws;
pub mod render;
pub mod report_laws;
pub mod requests;
pub mod rules;
pub mod rules_editor;
pub mod rules_laws;
pub mod rules_view;
pub mod run_laws;
pub mod screen_laws;
pub mod screens;
pub mod search_guard;
pub mod setting_changes;
pub mod service_laws;
pub mod settings;
pub mod settings_keys;
pub mod settings_laws;
pub mod settings_list;
pub mod startup;
pub mod shown_laws;
pub mod style;
pub mod sync_laws;
pub mod text;
pub mod text_laws;
pub mod theme;
pub mod ticks;
pub mod toast;
pub mod track;
pub mod update_check;
pub mod usb_libraries;
pub mod wire_input;
