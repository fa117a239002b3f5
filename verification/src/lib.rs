//! Headless cores of a handful of small reactive GUI programs: each module
//! holds one program's state, its messages and what it decides on each of them.

pub mod application;
pub mod application_subscription;
pub mod application_subscription_custom_recipe;
pub mod application_subscription_keyboard;
pub mod application_subscription_mouse;
pub mod application_subscription_multiple;
pub mod command;
pub mod decimal;
pub mod event;
pub mod sandbox;
pub mod subscription;
pub mod widget;
pub mod widgets;
pub mod widgets_placement;
