//! Verified core of a terminal client for exploring a Snowflake catalog,
//! running queries and charting their results.

pub mod text;
pub mod json;
pub mod parser;
pub mod keys;
pub mod chart;
pub mod column_kind;
pub mod theme;
pub mod action;
pub mod nav;
pub mod store;
pub mod theme_editor;
pub mod config;
pub mod settings;
pub mod tasks;
pub mod columns_tab;
pub mod row_detail;
pub mod bars;
pub mod search;
pub mod table_layout;
pub mod results;
pub mod preview_tab;
pub mod detail;
pub mod tree;
pub mod explore;
pub mod app_state;
pub mod history;
pub mod query_pane;
pub mod editor;
pub mod workflow;
pub mod export;
pub mod completion;
pub mod chart_columns;
