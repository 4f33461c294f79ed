pub mod text;
pub mod model;
pub mod state;
pub mod notifications;
pub mod control;
pub mod updater;
pub mod github;
pub mod auth;
pub mod paths;
pub mod panel;
pub mod clock;
