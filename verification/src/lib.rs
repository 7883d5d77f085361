//! acdi — automated cryptography discovery and inventory.
//!
//! The verified core of the scanner: the data model, the algorithm catalog and
//! classification, the per-format detectors (certificates and keys, source code,
//! configuration files, package manifests, binaries, Java class files, symbol
//! names), the `.acdignore` suppression rules, the report builders (CycloneDX,
//! SARIF, CSV, HTML) and the CBOM diff.
#![allow(unused_imports)]

pub mod text;
pub mod model;
pub mod table;
pub mod catalog;
pub mod ignore;
pub mod keys;
pub mod certs;
pub mod order;
pub mod diff;
pub mod diff_render;
pub mod sarif;
pub mod cbom;
pub mod html;
pub mod patterns;
pub mod paths;
pub mod source;
pub mod config;
pub mod manifest;
pub mod binary;
pub mod jar;
pub mod symbols;
pub mod detect;
pub mod csv;
pub mod cli;
pub mod scan;
pub mod probe;
pub mod console;
