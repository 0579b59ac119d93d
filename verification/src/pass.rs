//! Declaring a render pass: its name, the textures it writes, and what it
//! records.

use vstd::prelude::*;
use ash::vk;

verus! {

/// An image together with the view through which it is rendered to.
#[derive(Clone, Copy, Debug, PartialEq, Eq)]
pub struct Texture {
    pub image: vk::Image,
    pub image_view: vk::ImageView,
}

/// What a pass records into a command buffer.
#[derive(Clone, Copy, Debug, PartialEq, Eq)]
pub enum PassOp {
    /// Bind the pipeline and the vertex buffer, then draw without indices.
    Draw {
        pipeline: vk::Pipeline,
        vertex_buffer: vk::Buffer,
        vertex_count: u32,
        instance_count: u32,
    },
}

/// A pass of a frame: a name, its outputs, and the commands it records.
pub struct Pass<'a> {
    pub name: String,
    /// The color outputs, in the order of their attachment.
    pub outputs_color: Vec<&'a Texture>,
    pub opt_output_depth: Option<&'a Texture>,
    pub op: PassOp,
}

impl<'a> Pass<'a> {
    /// A pass that records `op` and, so far, writes nothing.
    pub fn new(name: &str, op: PassOp) -> (pass: Pass<'a>)
        ensures
            pass.name@ == name@,
            pass.outputs_color@ == Seq::<&Texture>::empty(),
            pass.opt_output_depth is None,
            pass.op == op,
    {
        Pass { name: name.to_owned(), outputs_color: Vec::new(), opt_output_depth: None, op }
    }

    /// The same pass with `texture` as one more color output, after those it
    /// has.
    pub fn with_output_color(self, texture: &'a Texture) -> (pass: Pass<'a>)
        ensures
            pass.outputs_color@ == self.outputs_color@.push(texture),
            pass.name == self.name,
            pass.opt_output_depth == self.opt_output_depth,
            pass.op == self.op,
    {
        let mut pass = self;
        pass.outputs_color.push(texture);
        pass
    }

    /// The same pass with `texture` as its depth output, in place of any it
    /// had.
    pub fn with_output_depth(self, texture: &'a Texture) -> (pass: Pass<'a>)
        ensures
            pass.opt_output_depth == Some(texture),
            pass.name == self.name,
            pass.outputs_color == self.outputs_color,
            pass.op == self.op,
    {
        let mut pass = self;
        pass.opt_output_depth = Some(texture);
        pass
    }
}

} // verus!
