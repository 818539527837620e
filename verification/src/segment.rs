//! The renderable prompt fragment and its builder.
//!
//! A `Module` is one detector's whole output for a render pass: an
//! identifier, a fixed style, and an ordered list of named text
//! segments. The builder turns a raw compiler version string into the
//! fixed two-segment module `C++ v<version>`.

use vstd::prelude::*;
use vstd::string::StringExecFns;
use crate::text::{spec_trimmed, trimmed};

verus! {

/// The display style of a module, carried opaquely from `ansi_term`.
#[verifier::external_type_specification]
#[verifier::external_body]
pub struct ExStyle(ansi_term::Style);

/// A named, styled piece of text composed into a prompt line.
pub struct Segment {
    pub name: String,
    pub value: String,
}

/// An ordered collection of segments: one detector's full output.
pub struct Module {
    pub name: String,
    pub style: ansi_term::Style,
    pub segments: Vec<Segment>,
}

/// Relies on ansi_term::Colour::bold for the module's fixed style,
/// bold red. The style is display data only: no contract of this
/// library reads it.
#[verifier::external_body]
fn red_bold_style() -> ansi_term::Style {
    ansi_term::Colour::Red.bold()
}

/// The version segment's text: the raw compiler output, trimmed, with
/// a leading `v`.
pub open spec fn version_text(raw: Seq<char>) -> Seq<char> {
    "v"@ + spec_trimmed(raw)
}

/// The shape of the module built from raw compiler output `raw`:
/// identifier `cpp`, and exactly a symbol segment `C++ ` followed by a
/// version segment `v<trimmed raw>`.
pub open spec fn module_shape(m: Module, raw: Seq<char>) -> bool {
    &&& m.name@ == "cpp"@
    &&& m.segments@.len() == 2
    &&& m.segments@[0].name@ == "symbol"@
    &&& m.segments@[0].value@ == "C++ "@
    &&& m.segments@[1].name@ == "version"@
    &&& m.segments@[1].value@ == version_text(raw)
}

/// Builds the C++ prompt module from the raw compiler version output.
/// Pure formatting: trims the output, prefixes `v`, and lays out the
/// two fixed segments.
pub fn build_module(version_output: &str) -> (m: Module)
    ensures
        module_shape(m, version_output@),
{
    let trimmed_version = trimmed(version_output);
    let formatted_version = String::from_str("v").concat(trimmed_version);
    let mut segments: Vec<Segment> = Vec::new();
    segments.push(
        Segment { name: String::from_str("symbol"), value: String::from_str("C++ ") },
    );
    segments.push(Segment { name: String::from_str("version"), value: formatted_version });
    Module { name: String::from_str("cpp"), style: red_bold_style(), segments }
}

} // verus!
