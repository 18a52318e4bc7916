//! The logic of the Athena research platform: the resource types of a research
//! campaign, the dossier that is composed from them, and the consoles' models of
//! what they show.

pub mod text;
pub mod numeral;
pub mod textset;
pub mod textmap;
pub mod number;
pub mod order;
pub mod calendar;
pub mod json;
pub mod meta;
pub mod common;
pub mod experiment;
pub mod experiment_template;
pub mod metric_source;
pub mod benchmark_run;
pub mod benchmark_suite;
pub mod research_campaign;
pub mod research_drive;
pub mod research_report;
pub mod runtime_profile;
pub mod defaults;
pub mod dossier;
pub mod scheduling;
pub mod models;
pub mod snapshot;
pub mod reports;
pub mod kubectl;
pub mod lowercase;
pub mod datatable;
pub mod tables;
pub mod workspace;
pub mod curator;
pub mod web;
pub mod console;
