//! Plain building blocks of the SVG rendering layer: grid overlay shapes
//! and the template directory lookup.  Rendering itself (markup, colour
//! maps, text) is presentation work and lives outside this crate.

use vstd::prelude::*;
use vstd::string::StringExecFns;

verus! {

/// An elevation grid circle in drawing coordinates.
#[derive(Debug, Clone, Copy, PartialEq, Eq, Structural)]
pub struct GridCircle {
    pub cx: i32,
    pub cy: i32,
    pub radius: u32,
}

impl GridCircle {
    /// A circle centred at `(cx, cy)` with the given radius.
    pub fn new(cx: i32, cy: i32, radius: u32) -> (r: Self)
        ensures
            r == (GridCircle { cx, cy, radius }),
    {
        Self { cx, cy, radius }
    }
}

/// An azimuth grid line in drawing coordinates.
#[derive(Debug, Clone, Copy, PartialEq, Eq, Structural)]
pub struct GridLine {
    pub x1: i32,
    pub y1: i32,
    pub x2: i32,
    pub y2: i32,
}

impl GridLine {
    /// A line from `(x1, y1)` to `(x2, y2)`.
    pub fn new(x1: i32, y1: i32, x2: i32, y2: i32) -> (r: Self)
        ensures
            r == (GridLine { x1, y1, x2, y2 }),
    {
        Self { x1, y1, x2, y2 }
    }
}

/// Resolves template names to paths under a template directory.
#[derive(Debug, Clone)]
pub struct TemplateManager {
    /// Directory the template files live in.
    pub template_dir: String,
}

impl TemplateManager {
    /// A manager rooted at the given directory.
    pub fn new(template_dir: String) -> (r: Self)
        ensures
            r.template_dir@ == template_dir@,
    {
        Self { template_dir }
    }

    /// The path of the template file for `name`:
    /// `<template_dir>/<name>.stpl`.
    pub fn template_path(&self, name: &str) -> (r: String)
        ensures
            r@ == self.template_dir@ + "/"@ + name@ + ".stpl"@,
    {
        let mut path = self.template_dir.clone();
        path.append("/");
        path.append(name);
        path.append(".stpl");
        path
    }
}

} // verus!
