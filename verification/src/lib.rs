//! Verified core of a privacy-first time tracker: formatting of durations,
//! budgets, charts and listings, the Pomodoro timer, idle detection,
//! tagging rules, escaping of exported text, imports from other trackers,
//! and the decisions behind the command line, the terminal UI and the web
//! dashboard.

pub mod auth;
pub mod autotag;
pub mod budget;
pub mod calendar;
pub mod charts;
pub mod clock;
pub mod config;
pub mod dashboard;
pub mod entries;
pub mod escape;
pub mod export;
pub mod idle;
pub mod install;
pub mod integrations;
pub mod listing;
pub mod notifications;
pub mod pomodoro;
pub mod text;
pub mod tui;
pub mod webhook;
