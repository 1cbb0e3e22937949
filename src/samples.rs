//! Models that the load-generating clients know how to feed.
use vstd::prelude::*;

verus! {

/// A model that a client can send requests to: its name and the shape of
/// its input.
pub trait Model {
    spec fn spec_name(&self) -> Seq<char>;

    spec fn spec_input_shape(&self) -> Seq<usize>;

    fn name(&self) -> (r: String)
        ensures
            r@ == self.spec_name(),
    ;

    fn input_shape(&self) -> (r: Vec<usize>)
        ensures
            r@ == self.spec_input_shape(),
    ;
}

/// SqueezeNet 1.0, an image classifier.
pub struct Squeezenet;

impl Squeezenet {
    pub fn new() -> (r: Squeezenet) {
        Squeezenet
    }

    /// File name of the model artifact.
    pub fn file(&self) -> (r: String)
        ensures
            r@ == "squeezenet1.0-8.onnx"@,
    {
        String::from_str("squeezenet1.0-8.onnx")
    }
}

impl Model for Squeezenet {
    open spec fn spec_name(&self) -> Seq<char> {
        "squeezenet"@
    }

    open spec fn spec_input_shape(&self) -> Seq<usize> {
        seq![1usize, 3, 224, 224]
    }

    fn name(&self) -> (r: String) {
        String::from_str("squeezenet")
    }

    fn input_shape(&self) -> (r: Vec<usize>) {
        let r = vec![1usize, 3, 224, 224];
        assert(r@ =~= seq![1usize, 3, 224, 224]);
        r
    }
}

/// Mask R-CNN, an instance segmentation model.
pub struct MaskRCNN;

impl MaskRCNN {
    pub fn new() -> (r: MaskRCNN) {
        MaskRCNN
    }

    /// File name of the model artifact.
    pub fn file(&self) -> (r: String)
        ensures
            r@ == "MaskRCNN-10.onnx"@,
    {
        String::from_str("MaskRCNN-10.onnx")
    }
}

impl Model for MaskRCNN {
    open spec fn spec_name(&self) -> Seq<char> {
        "maskrcnn"@
    }

    open spec fn spec_input_shape(&self) -> Seq<usize> {
        seq![3usize, 224, 224]
    }

    fn name(&self) -> (r: String) {
        String::from_str("maskrcnn")
    }

    fn input_shape(&self) -> (r: Vec<usize>) {
        let r = vec![3usize, 224, 224];
        assert(r@ =~= seq![3usize, 224, 224]);
        r
    }
}

} // verus!
