//! The application: its window settings and its ordered stack of layers,
//! which the host loop dispatches to, last pushed first.
use vstd::prelude::*;

verus! {

/// A window title and size, and the layers pushed so far, oldest first.
pub struct App<L> {
    title: String,
    layer_stack: Vec<L>,
    width: u32,
    height: u32,
}

impl<L> App<L> {
    pub closed spec fn spec_title(&self) -> Seq<char> {
        self.title@
    }

    pub closed spec fn spec_layers(&self) -> Seq<L> {
        self.layer_stack@
    }

    pub closed spec fn spec_width(&self) -> u32 {
        self.width
    }

    pub closed spec fn spec_height(&self) -> u32 {
        self.height
    }

    /// An application with no layers.
    pub fn new(title: &str, width: u32, height: u32) -> (r: App<L>)
        ensures
            r.spec_title() == title@,
            r.spec_width() == width,
            r.spec_height() == height,
            r.spec_layers() == Seq::<L>::empty(),
    {
        App { title: String::from_str(title), layer_stack: Vec::new(), width, height }
    }

    /// Puts `layer` on top of the stack.
    pub fn push_layer(&mut self, layer: L)
        ensures
            final(self).spec_layers() == old(self).spec_layers().push(layer),
            final(self).spec_title() == old(self).spec_title(),
            final(self).spec_width() == old(self).spec_width(),
            final(self).spec_height() == old(self).spec_height(),
    {
        self.layer_stack.push(layer);
    }

    pub fn title(&self) -> (r: &str)
        ensures
            r@ == self.spec_title(),
    {
        self.title.as_str()
    }

    pub fn width(&self) -> (r: u32)
        ensures
            r == self.spec_width(),
    {
        self.width
    }

    pub fn height(&self) -> (r: u32)
        ensures
            r == self.spec_height(),
    {
        self.height
    }

    pub fn layers(&self) -> (r: &Vec<L>)
        ensures
            r@ == self.spec_layers(),
    {
        &self.layer_stack
    }

    /// Gives up the application, keeping its layers in push order.
    pub fn into_layer_stack(self) -> (r: Vec<L>)
        ensures
            r@ == self.spec_layers(),
    {
        self.layer_stack
    }
}

} // verus!
