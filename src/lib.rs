//! The state-synchronisation core of a tabbed document viewer.
//!
//! Each tab wraps a page renderer that runs outside this crate. The crate
//! decides what each tab's renderer is asked to do, keeps every tab's page
//! state (address, title, history capability, load progress, outline), and
//! keeps the navigation bar and the outline sidebar showing the current tab
//! and nothing else.
//!
//! - `heading`: outline entries, the extraction report and the scroll request
//! - `nav`: navigation capability and load phases
//! - `surface`: a renderer's commands, calls and signals
//! - `tab`: one tab's state and what it publishes
//! - `tabs`: the collection of tabs with stable ids
//! - `observers`: the navigation bar and the outline sidebar
//! - `orchestrator`: the application that ties them together
pub mod heading;
pub mod nav;
pub mod observers;
pub mod orchestrator;
pub mod surface;
pub mod tab;
pub mod tabs;
