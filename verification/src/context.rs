//! The immutable context threaded through every decode call: the code of
//! the enclosing tag, the enclosing layer's type, the alpha flag of the
//! enclosing video composition, and how deep the decode has descended
//! into nested tag blocks.

use vstd::prelude::*;

use crate::base::LayerType;
use crate::tag::TagCode;

verus! {

/// How many nested tag blocks a decode may descend through before it
/// fails with a depth error.
pub const MAX_DEPTH: u32 = 64;

/// The ambient facts a tag body decoder may consult.  Values only;
/// refined by copy on each descent.
#[derive(Debug, Clone, Copy)]
pub struct DefaultParseContext {
    pub parent_code: Option<TagCode>,
    pub layer_type: Option<LayerType>,
    pub has_alpha: bool,
    pub depth: u32,
}

impl DefaultParseContext {
    /// The top-level context: nothing set, no alpha, depth zero.
    pub fn new() -> (r: Self)
        ensures
            r == (DefaultParseContext {
                parent_code: None,
                layer_type: None,
                has_alpha: false,
                depth: 0,
            }),
    {
        DefaultParseContext { parent_code: None, layer_type: None, has_alpha: false, depth: 0 }
    }

    /// This context with the enclosing tag code set.
    pub fn with_tag_code(&self, tag_code: TagCode) -> (r: Self)
        ensures
            r == (DefaultParseContext { parent_code: Some(tag_code), ..*self }),
    {
        DefaultParseContext { parent_code: Some(tag_code), ..*self }
    }

    /// This context with the enclosing layer type set.
    pub fn with_layer_type(&self, layer_type: LayerType) -> (r: Self)
        ensures
            r == (DefaultParseContext { layer_type: Some(layer_type), ..*self }),
    {
        DefaultParseContext { layer_type: Some(layer_type), ..*self }
    }

    /// This context with the alpha flag set as given.
    pub fn with_alpha(&self, has_alpha: bool) -> (r: Self)
        ensures
            r == (DefaultParseContext { has_alpha, ..*self }),
    {
        DefaultParseContext { has_alpha, ..*self }
    }

    /// The context a tag body is decoded under: the tag's own code
    /// becomes the parent code and the nesting depth grows by one.
    pub fn descend(&self, tag_code: TagCode) -> (r: Self)
        requires
            self.depth < MAX_DEPTH,
        ensures
            r == (DefaultParseContext {
                parent_code: Some(tag_code),
                depth: (self.depth + 1) as u32,
                ..*self
            }),
    {
        DefaultParseContext { parent_code: Some(tag_code), depth: self.depth + 1, ..*self }
    }

    /// The code of the enclosing tag, if any.
    pub fn parent_code(&self) -> (r: Option<TagCode>)
        ensures
            r == self.parent_code,
    {
        self.parent_code
    }

    /// The enclosing layer's type, if any.
    pub fn layer_type(&self) -> (r: Option<LayerType>)
        ensures
            r == self.layer_type,
    {
        self.layer_type
    }

    /// Whether the enclosing video composition carries alpha.
    pub fn has_alpha(&self) -> (r: bool)
        ensures
            r == self.has_alpha,
    {
        self.has_alpha
    }
}

} // verus!
