//! The decisions of a file browser's view, free of any toolkit.

pub mod activity;
pub mod address;
pub mod archive;
pub mod breadcrumbs;
pub mod clipboard;
pub mod collection;
pub mod columns;
pub mod customize;
pub mod cut;
pub mod dialogs;
pub mod emptying;
pub mod entry;
pub mod events;
pub mod extraction;
pub mod facts;
pub mod grouping;
pub mod input;
pub mod location;
pub mod menus;
pub mod mount;
pub mod navigation;
pub mod panes;
pub mod paths;
pub mod peek;
pub mod permissions;
pub mod properties;
pub mod ranking;
pub mod rows;
pub mod text;
pub mod transfer;
pub mod trash;
pub mod view;
