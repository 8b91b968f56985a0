//! One line of identity for a pipeline: everything that tells it from its neighbours.
use vstd::prelude::*;

use crate::text::{
    alphabetical, decimal, join, joined, push_decimal, push_signed, signed, sort_lines, texts,
};

verus! {

/// A definition that a shader was compiled with.
pub enum ShaderDef {
    Flag { name: String, on: bool },
    Int { name: String, value: i32 },
    UInt { name: String, value: u32 },
}

/// The layout of a vertex buffer.
pub struct VertexBuffer {
    pub stride: u64,
    /// The shader locations of its attributes.
    pub locations: Vec<u32>,
}

/// How a pipeline tests and writes depth.
pub struct DepthState {
    pub bias: i32,
    pub write: bool,
    pub compare: String,
}

/// A pipeline's first colour target.
pub struct ColorTarget {
    pub blend: String,
    pub mask: String,
}

/// The stage that colours.
pub struct FragmentStage {
    pub shader: String,
    pub defs: Vec<ShaderDef>,
    pub target: Option<ColorTarget>,
}

/// A pipeline that draws.
pub struct RenderDescriptor {
    pub label: Option<String>,
    pub shader: String,
    pub defs: Vec<ShaderDef>,
    pub buffers: Vec<VertexBuffer>,
    pub cull: String,
    pub depth: Option<DepthState>,
    pub fragment: Option<FragmentStage>,
    pub samples: u32,
}

/// A pipeline that computes.
pub struct ComputeDescriptor {
    pub label: Option<String>,
    pub shader: String,
    pub defs: Vec<ShaderDef>,
}

/// A pipeline. A shader is named by its path, or where it has none by its handle; the states that are
/// strings are the names of their values.
pub enum PipelineDescriptor {
    Render(RenderDescriptor),
    Compute(ComputeDescriptor),
}

/// A definition: a flag's name, after `!` where it is off; or a name and its value.
pub open spec fn def_text(def: ShaderDef) -> Seq<char> {
    match def {
        ShaderDef::Flag { name, on } => if on {
            name@
        } else {
            "!"@ + name@
        },
        ShaderDef::Int { name, value } => name@ + "="@ + signed(value as int),
        ShaderDef::UInt { name, value } => name@ + "="@ + decimal(value as nat),
    }
}

/// Definitions in the order of the dictionary, joined by `+`.
pub open spec fn defs_text(defs: Seq<ShaderDef>) -> Seq<char> {
    joined(alphabetical(defs.map_values(|def: ShaderDef| def_text(def))), "+"@)
}

/// A vertex buffer: its stride, and the locations in it.
pub open spec fn buffer_text(buffer: VertexBuffer) -> Seq<char> {
    "stride"@ + decimal(buffer.stride as nat) + "@["@ + joined(
        buffer.locations@.map_values(|at: u32| decimal(at as nat)),
        ","@,
    ) + "]"@
}

/// The vertex buffers, joined by `;`.
pub open spec fn buffers_text(buffers: Seq<VertexBuffer>) -> Seq<char> {
    joined(buffers.map_values(|buffer: VertexBuffer| buffer_text(buffer)), ";"@)
}

/// A label, or `?`.
pub open spec fn label_text(label: Option<String>) -> Seq<char> {
    match label {
        Some(label) => label@,
        None => "?"@,
    }
}

/// `true` or `false`.
pub open spec fn bool_text(b: bool) -> Seq<char> {
    if b {
        "true"@
    } else {
        "false"@
    }
}

/// The depth state; without one there is no bias, no write and no test.
pub open spec fn depth_text(depth: Option<DepthState>) -> Seq<char> {
    match depth {
        Some(d) => " bias="@ + signed(d.bias as int) + " depth_write="@ + bool_text(d.write)
            + " cmp="@ + d.compare@,
        None => " bias=0 depth_write=false cmp=none"@,
    }
}

/// The colour target, or `none`.
pub open spec fn target_text(target: Option<ColorTarget>) -> Seq<char> {
    match target {
        Some(t) => "blend="@ + t.blend@ + " mask="@ + t.mask@,
        None => "none"@,
    }
}

/// The stage that colours, or `frag=none`.
pub open spec fn fragment_text(fragment: Option<FragmentStage>) -> Seq<char> {
    match fragment {
        Some(f) => "fs="@ + f.shader@ + " fs_defs=["@ + defs_text(f.defs@) + "] "@ + target_text(
            f.target,
        ),
        None => "frag=none"@,
    }
}

/// The line of a pipeline.
pub open spec fn description(desc: PipelineDescriptor) -> Seq<char> {
    match desc {
        PipelineDescriptor::Render(d) => "label="@ + label_text(d.label) + " vs="@ + d.shader@
            + " vs_defs=["@ + defs_text(d.defs@) + "] bufs=["@ + buffers_text(d.buffers@)
            + "] cull="@ + d.cull@ + depth_text(d.depth) + " "@ + fragment_text(d.fragment)
            + " samples="@ + decimal(d.samples as nat),
        PipelineDescriptor::Compute(d) => "label="@ + label_text(d.label) + " compute="@ + d.shader@
            + " defs=["@ + defs_text(d.defs@) + "]"@,
    }
}

fn def_line(def: &ShaderDef) -> (text: String)
    ensures
        text@ == def_text(*def),
{
    let mut text: String = String::new();
    match def {
        ShaderDef::Flag { name, on } => {
            if !*on {
                text.append("!");
            }
            text.append(name.as_str());
        },
        ShaderDef::Int { name, value } => {
            text.append(name.as_str());
            text.append("=");
            push_signed(&mut text, *value);
        },
        ShaderDef::UInt { name, value } => {
            text.append(name.as_str());
            text.append("=");
            push_decimal(&mut text, *value as u64);
        },
    }
    assert(text@ == def_text(*def));
    text
}

fn defs_line(defs: &Vec<ShaderDef>) -> (text: String)
    ensures
        text@ == defs_text(defs@),
{
    let mut lines: Vec<String> = Vec::new();
    for i in 0..defs.len()
        invariant
            lines.len() == i,
            forall|k: int| 0 <= k < i ==> #[trigger] lines[k]@ == def_text(defs@[k]),
    {
        lines.push(def_line(&defs[i]));
    }
    assert(texts(lines@) == defs@.map_values(|def: ShaderDef| def_text(def)));
    join(&sort_lines(lines), "+")
}

fn buffer_line(buffer: &VertexBuffer) -> (text: String)
    ensures
        text@ == buffer_text(*buffer),
{
    let mut locations: Vec<String> = Vec::new();
    for i in 0..buffer.locations.len()
        invariant
            locations.len() == i,
            forall|k: int|
                0 <= k < i ==> #[trigger] locations[k]@ == decimal(buffer.locations@[k] as nat),
    {
        let mut at: String = String::new();
        push_decimal(&mut at, buffer.locations[i] as u64);
        assert(at@ == decimal(buffer.locations@[i as int] as nat));
        locations.push(at);
    }
    assert(texts(locations@) == buffer.locations@.map_values(|at: u32| decimal(at as nat)));
    let mut text = "stride".to_string();
    push_decimal(&mut text, buffer.stride);
    text.append("@[");
    text.append(join(&locations, ",").as_str());
    text.append("]");
    text
}

fn buffers_line(buffers: &Vec<VertexBuffer>) -> (text: String)
    ensures
        text@ == buffers_text(buffers@),
{
    let mut lines: Vec<String> = Vec::new();
    for i in 0..buffers.len()
        invariant
            lines.len() == i,
            forall|k: int| 0 <= k < i ==> #[trigger] lines[k]@ == buffer_text(buffers@[k]),
    {
        lines.push(buffer_line(&buffers[i]));
    }
    assert(texts(lines@) == buffers@.map_values(|buffer: VertexBuffer| buffer_text(buffer)));
    join(&lines, ";")
}

fn push_label(text: &mut String, label: &Option<String>)
    ensures
        final(text)@ == old(text)@ + label_text(*label),
{
    match label {
        Some(label) => text.append(label.as_str()),
        None => text.append("?"),
    }
}

fn depth_line(depth: &Option<DepthState>) -> (text: String)
    ensures
        text@ == depth_text(*depth),
{
    match depth {
        Some(d) => {
            let mut text = " bias=".to_string();
            push_signed(&mut text, d.bias);
            text.append(" depth_write=");
            text.append(
                if d.write {
                    "true"
                } else {
                    "false"
                },
            );
            text.append(" cmp=");
            text.append(d.compare.as_str());
            text
        },
        None => " bias=0 depth_write=false cmp=none".to_string(),
    }
}

fn target_line(target: &Option<ColorTarget>) -> (text: String)
    ensures
        text@ == target_text(*target),
{
    match target {
        Some(t) => {
            let mut text = "blend=".to_string();
            text.append(t.blend.as_str());
            text.append(" mask=");
            text.append(t.mask.as_str());
            text
        },
        None => "none".to_string(),
    }
}

fn fragment_line(fragment: &Option<FragmentStage>) -> (text: String)
    ensures
        text@ == fragment_text(*fragment),
{
    match fragment {
        Some(f) => {
            let mut text = "fs=".to_string();
            text.append(f.shader.as_str());
            text.append(" fs_defs=[");
            text.append(defs_line(&f.defs).as_str());
            text.append("] ");
            text.append(target_line(&f.target).as_str());
            text
        },
        None => "frag=none".to_string(),
    }
}

/// One line of identity for a pipeline.
pub fn describe(desc: &PipelineDescriptor) -> (line: String)
    ensures
        line@ == description(*desc),
{
    let mut line = "label=".to_string();
    match desc {
        PipelineDescriptor::Render(d) => {
            push_label(&mut line, &d.label);
            line.append(" vs=");
            line.append(d.shader.as_str());
            line.append(" vs_defs=[");
            line.append(defs_line(&d.defs).as_str());
            line.append("] bufs=[");
            line.append(buffers_line(&d.buffers).as_str());
            line.append("] cull=");
            line.append(d.cull.as_str());
            line.append(depth_line(&d.depth).as_str());
            line.append(" ");
            line.append(fragment_line(&d.fragment).as_str());
            line.append(" samples=");
            push_decimal(&mut line, d.samples as u64);
        },
        PipelineDescriptor::Compute(d) => {
            push_label(&mut line, &d.label);
            line.append(" compute=");
            line.append(d.shader.as_str());
            line.append(" defs=[");
            line.append(defs_line(&d.defs).as_str());
            line.append("]");
        },
    }
    line
}

/// The order in which definitions are given does not show in the line.
pub proof fn definitions_have_no_order(a: Seq<ShaderDef>, b: Seq<ShaderDef>)
    requires
        a.map_values(|def: ShaderDef| def_text(def)).to_multiset() == b.map_values(
            |def: ShaderDef| def_text(def),
        ).to_multiset(),
    ensures
        defs_text(a) == defs_text(b),
{
    let left = a.map_values(|def: ShaderDef| def_text(def));
    let right = b.map_values(|def: ShaderDef| def_text(def));
    crate::text::the_dictionary_is_total();
    crate::text::the_dictionary_permutes(left);
    crate::text::the_dictionary_permutes(right);
    vstd::seq_lib::lemma_sorted_unique(
        alphabetical(left),
        alphabetical(right),
        crate::text::dictionary(),
    );
}

/// A flag is its name, after a mark where it is off; a number is its name and its value, whichever sort
/// of number it is.
pub proof fn definitions_are_spelled(name: String, value: i32, count: u32)
    ensures
        def_text(ShaderDef::Flag { name, on: true }) == name@,
        def_text(ShaderDef::Flag { name, on: false }) == "!"@ + name@,
        def_text(ShaderDef::Int { name, value }) == name@ + "="@ + signed(value as int),
        def_text(ShaderDef::UInt { name, value: count }) == name@ + "="@ + decimal(count as nat),
        defs_text(seq![]).len() == 0,
        defs_text(seq![ShaderDef::Flag { name, on: true }]) == name@,
{
    let none = Seq::<ShaderDef>::empty().map_values(|def: ShaderDef| def_text(def));
    crate::text::the_dictionary_permutes(none);
    let flag = ShaderDef::Flag { name, on: true };
    let one = seq![flag].map_values(|def: ShaderDef| def_text(def));
    assert(one =~= seq![name@]);
    crate::text::the_dictionary_permutes(one);
    crate::text::the_dictionary_is_total();
    vstd::seq_lib::lemma_sorted_unique(alphabetical(one), one, crate::text::dictionary());
}

/// Definitions are joined by a plus and are in order: all of them, each once, and none later than one
/// that follows it.
pub proof fn definitions_are_joined_in_order(defs: Seq<ShaderDef>, spelled: Seq<Seq<char>>)
    requires
        spelled.to_multiset() == defs.map_values(|def: ShaderDef| def_text(def)).to_multiset(),
        vstd::relations::sorted_by(spelled, crate::text::dictionary()),
    ensures
        defs_text(defs) == joined(spelled, "+"@),
{
    let all = defs.map_values(|def: ShaderDef| def_text(def));
    crate::text::the_dictionary_permutes(all);
    crate::text::the_dictionary_is_total();
    vstd::seq_lib::lemma_sorted_unique(alphabetical(all), spelled, crate::text::dictionary());
}

/// A buffer is its stride and the locations in it, with a comma between each two; buffers have a
/// semicolon between each two.
pub proof fn buffers_are_spelled(buffer: VertexBuffer, buffers: Seq<VertexBuffer>)
    requires
        buffers.len() > 0,
    ensures
        buffer_text(buffer) == "stride"@ + decimal(buffer.stride as nat) + "@["@ + joined(
            buffer.locations@.map_values(|at: u32| decimal(at as nat)),
            ","@,
        ) + "]"@,
        buffers_text(seq![]).len() == 0,
        buffers_text(seq![buffer]) == buffer_text(buffer),
        buffers_text(buffers.push(buffer)) == buffers_text(buffers) + ";"@ + buffer_text(buffer),
{
    let spell = |b: VertexBuffer| buffer_text(b);
    assert(seq![buffer].map_values(spell) =~= seq![buffer_text(buffer)]);
    assert(buffers.push(buffer).map_values(spell).drop_last() =~= buffers.map_values(spell));
}

/// The depth state is its bias, whether it writes, and its test, each after its own mark; without one
/// there is none of them.
pub proof fn depth_is_spelled(bias: i32, compare: String)
    ensures
        depth_text(Some(DepthState { bias, write: true, compare })) == " bias="@ + signed(
            bias as int,
        ) + " depth_write="@ + "true"@ + " cmp="@ + compare@,
        depth_text(Some(DepthState { bias, write: false, compare })) == " bias="@ + signed(
            bias as int,
        ) + " depth_write="@ + "false"@ + " cmp="@ + compare@,
        depth_text(None) == " bias=0 depth_write=false cmp=none"@,
{
}

/// The stage that colours is its shader, its definitions and its first target; without a target, or
/// without the stage, that is what is said.
pub proof fn fragments_are_spelled(shader: String, defs: Vec<ShaderDef>, blend: String, mask: String)
    ensures
        fragment_text(
            Some(FragmentStage { shader, defs, target: Some(ColorTarget { blend, mask }) }),
        ) == "fs="@ + shader@ + " fs_defs=["@ + defs_text(defs@) + "] "@ + ("blend="@ + blend@
            + " mask="@ + mask@),
        fragment_text(Some(FragmentStage { shader, defs, target: None })) == "fs="@ + shader@
            + " fs_defs=["@ + defs_text(defs@) + "] "@ + "none"@,
        fragment_text(None) == "frag=none"@,
{
}

/// The line of a pipeline that draws has all that it is told apart by, each after its own mark and in
/// one order; that of one that computes has its shader and its definitions. A label that is missing is a
/// question mark.
pub proof fn a_line_spells_its_pipeline(d: RenderDescriptor, c: ComputeDescriptor, label: Seq<char>)
    requires
        d.label is Some ==> label == (d.label->0)@,
        d.label is None ==> label == "?"@,
        c.label == d.label,
    ensures
        description(PipelineDescriptor::Render(d)) == "label="@ + label + " vs="@ + d.shader@
            + " vs_defs=["@ + defs_text(d.defs@) + "] bufs=["@ + buffers_text(d.buffers@)
            + "] cull="@ + d.cull@ + depth_text(d.depth) + " "@ + fragment_text(d.fragment)
            + " samples="@ + decimal(d.samples as nat),
        description(PipelineDescriptor::Compute(c)) == "label="@ + label + " compute="@ + c.shader@
            + " defs=["@ + defs_text(c.defs@) + "]"@,
{
}

} // verus!
